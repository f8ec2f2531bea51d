use vstd::prelude::*;

verus! {

/// The device pages mapped into a task's address space, by start address.
pub struct MemorySet {
    pub mmio_pages: Vec<usize>,
}

impl MemorySet {
    /// No page is recorded twice.
    pub open spec fn wf(&self) -> bool {
        self.mmio_pages@.no_duplicates()
    }

    pub open spec fn is_mapped(&self, start: usize) -> bool {
        self.mmio_pages@.contains(start)
    }

    pub fn new() -> (m: Self)
        ensures
            m.wf(),
            forall|a: usize| !m.is_mapped(a),
    {
        MemorySet { mmio_pages: Vec::new() }
    }

    fn position(&self, start: usize) -> (r: Option<usize>)
        ensures
            r.is_some() == self.is_mapped(start),
            r.is_some() ==> (r->0) < self.mmio_pages@.len() && self.mmio_pages@[(r->0) as int]
                == start,
    {
        let mut i: usize = 0;
        while i < self.mmio_pages.len()
            invariant
                i <= self.mmio_pages@.len(),
                forall|k: int| 0 <= k < i ==> self.mmio_pages@[k] != start,
            decreases self.mmio_pages@.len() - i,
        {
            if self.mmio_pages[i] == start {
                return Some(i);
            }
            i = i + 1;
        }
        None
    }

    /// Maps the device page at `start` into user space; fails when it is
    /// already mapped.
    pub fn mmio_map(&mut self, start: usize, len: usize, perm: u8) -> (r: Result<(), ()>)
        requires
            old(self).wf(),
        ensures
            final(self).wf(),
            r.is_ok() == !old(self).is_mapped(start),
            forall|a: usize| #[trigger]
                final(self).is_mapped(a) == (old(self).is_mapped(a) || a == start),
    {
        if self.position(start).is_some() {
            return Err(());
        }
        self.mmio_pages.push(start);
        proof {
            assert forall|a: usize| #[trigger]
                self.is_mapped(a) == (old(self).is_mapped(a) || a == start) by {
                let n = self.mmio_pages@;
                let o = old(self).mmio_pages@;
                assert(n == o.push(start));
                if n.contains(a) {
                    let k = choose|k: int| 0 <= k < n.len() && n[k] == a;
                    if k < o.len() {
                        assert(o[k] == a);
                    }
                }
                if o.contains(a) {
                    let k = choose|k: int| 0 <= k < o.len() && o[k] == a;
                    assert(n[k] == a);
                }
                if a == start {
                    assert(n[o.len() as int] == start);
                }
            }
            assert forall|x: int, y: int| 0 <= x < y < self.mmio_pages@.len() implies
                self.mmio_pages@[x] != self.mmio_pages@[y] by {
                if y == old(self).mmio_pages@.len() && self.mmio_pages@[x] == start {
                    assert(old(self).mmio_pages@[x] == start);
                }
            }
        }
        Ok(())
    }

    /// Unmaps the device page at `start`; fails when it is not mapped.
    pub fn mmio_unmap(&mut self, start: usize, len: usize) -> (r: Result<(), ()>)
        requires
            old(self).wf(),
        ensures
            final(self).wf(),
            r.is_ok() == old(self).is_mapped(start),
            forall|a: usize| #[trigger]
                final(self).is_mapped(a) == (old(self).is_mapped(a) && a != start),
    {
        match self.position(start) {
            None => Err(()),
            Some(i) => {
                self.mmio_pages.remove(i);
                proof {
                    let n = self.mmio_pages@;
                    let o = old(self).mmio_pages@;
                    assert(n == o.remove(i as int));
                    assert forall|a: usize| #[trigger]
                        self.is_mapped(a) == (old(self).is_mapped(a) && a != start) by {
                        if n.contains(a) {
                            let k = choose|k: int| 0 <= k < n.len() && n[k] == a;
                            if k < i {
                                assert(o[k] == a);
                            } else {
                                assert(o[k + 1] == a);
                            }
                        }
                        if o.contains(a) && a != start {
                            let k = choose|k: int| 0 <= k < o.len() && o[k] == a;
                            if k < i {
                                assert(n[k] == a);
                            } else {
                                assert(n[k - 1] == a);
                            }
                        }
                    }
                    assert forall|x: int, y: int| 0 <= x < y < n.len() implies n[x] != n[y] by {
                        let xo = if x < i { x } else { x + 1 };
                        let yo = if y < i { y } else { y + 1 };
                        assert(n[x] == o[xo] && n[y] == o[yo]);
                    }
                }
                Ok(())
            },
        }
    }
}

} // verus!
