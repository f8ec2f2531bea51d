use vstd::prelude::*;

verus! {

/// Stack-recycling allocator over the integers `[start, end)`: values that
/// were never handed out lie in `[current, end)`, returned ones sit in
/// `recycled` and are handed out again first.
pub struct StackIntegerAllocator {
    pub start: u32,
    pub current: u32,
    pub end: u32,
    pub recycled: Vec<u32>,
}

impl StackIntegerAllocator {
    /// Every recycled value was handed out before, and none is recycled twice.
    pub open spec fn wf(&self) -> bool {
        &&& self.start <= self.current <= self.end
        &&& forall|i: int|
            0 <= i < self.recycled@.len() ==> self.start <= #[trigger] self.recycled@[i] < self.current
        &&& self.recycled@.no_duplicates()
    }

    /// `v` is handed out and not yet returned.
    pub open spec fn is_live(&self, v: u32) -> bool {
        self.start <= v < self.current && !self.recycled@.contains(v)
    }

    /// The values handed out and not yet returned.
    pub open spec fn live(&self) -> Set<u32> {
        Set::new(|v: u32| self.is_live(v))
    }

    pub open spec fn can_alloc(&self) -> bool {
        self.recycled@.len() > 0 || self.current < self.end
    }

    /// The value that the next successful `allocate` returns.
    pub open spec fn next_value(&self) -> u32 {
        if self.recycled@.len() > 0 {
            self.recycled@.last()
        } else {
            self.current
        }
    }

    pub fn new(l: u32, r: u32) -> (a: Self)
        requires
            l <= r,
        ensures
            a.wf(),
            a.start == l,
            a.current == l,
            a.end == r,
            a.recycled@.len() == 0,
            forall|v: u32| !a.is_live(v),
    {
        StackIntegerAllocator { start: l, current: l, end: r, recycled: Vec::new() }
    }

    pub fn allocate(&mut self) -> (r: Option<u32>)
        requires
            old(self).wf(),
        ensures
            final(self).wf(),
            final(self).start == old(self).start,
            final(self).end == old(self).end,
            r.is_some() == old(self).can_alloc(),
            r.is_some() ==> r->0 == old(self).next_value(),
            r.is_none() ==> final(self).current == old(self).current && final(self).recycled@
                == old(self).recycled@,
            old(self).recycled@.len() > 0 ==> final(self).recycled@ == old(self).recycled@.drop_last()
                && final(self).current == old(self).current,
            old(self).recycled@.len() == 0 && r.is_some() ==> final(self).recycled@
                == old(self).recycled@ && final(self).current == old(self).current + 1,
            r.is_some() ==> !old(self).is_live(r->0),
            forall|v: u32| #[trigger]
                final(self).is_live(v) == (old(self).is_live(v) || r == Some(v)),
    {
        if let Some(t) = self.recycled.pop() {
            proof {
                let o = old(self).recycled@;
                assert(o == self.recycled@.push(t));
                assert(o[o.len() - 1] == t);
                assert forall|v: u32| #[trigger] self.is_live(v) == (old(self).is_live(v) || t == v) by {
                    if v == t {
                        assert(!self.recycled@.contains(t)) by {
                            if self.recycled@.contains(t) {
                                let k = choose|k: int| 0 <= k < self.recycled@.len() && self.recycled@[k] == t;
                                assert(o[k] == o[o.len() - 1]);
                            }
                        }
                        assert(o.contains(t)) by { assert(o[o.len() - 1] == t); }
                    } else {
                        assert(self.recycled@.contains(v) == o.contains(v)) by {
                            if o.contains(v) {
                                let k = choose|k: int| 0 <= k < o.len() && o[k] == v;
                                assert(self.recycled@[k] == v);
                            }
                            if self.recycled@.contains(v) {
                                let k = choose|k: int| 0 <= k < self.recycled@.len() && self.recycled@[k] == v;
                                assert(o[k] == v);
                            }
                        }
                    }
                }
                assert(o.contains(t)) by { assert(o[o.len() - 1] == t); }
            }
            Some(t)
        } else if self.current == self.end {
            None
        } else {
            let result = self.current;
            self.current = self.current + 1;
            Some(result)
        }
    }

    pub fn dealloc(&mut self, i: u32)
        requires
            old(self).wf(),
            old(self).is_live(i),
        ensures
            final(self).wf(),
            final(self).start == old(self).start,
            final(self).current == old(self).current,
            final(self).end == old(self).end,
            final(self).recycled@ == old(self).recycled@.push(i),
            forall|v: u32| #[trigger] final(self).is_live(v) == (old(self).is_live(v) && v != i),
    {
        self.recycled.push(i);
        proof {
            let o = old(self).recycled@;
            let n = self.recycled@;
            assert(n == o.push(i));
            assert forall|v: u32| #[trigger] n.contains(v) == (o.contains(v) || v == i) by {
                if n.contains(v) {
                    let k = choose|k: int| 0 <= k < n.len() && n[k] == v;
                    if k < o.len() {
                        assert(o[k] == v);
                    }
                }
                if o.contains(v) {
                    let k = choose|k: int| 0 <= k < o.len() && o[k] == v;
                    assert(n[k] == v);
                }
                if v == i {
                    assert(n[o.len() as int] == i);
                }
            }
            assert forall|a: int, b: int| 0 <= a < b < n.len() implies n[a] != n[b] by {
                if b == o.len() {
                    assert(!o.contains(i));
                    if n[a] == n[b] {
                        assert(o[a] == i);
                    }
                }
            }
        }
    }
}

} // verus!
