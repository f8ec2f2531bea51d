use vstd::prelude::*;

use crate::handle::{ReceiverHandle, SenderHandle, Uipi};
use crate::ids::{ReceiverInfo, ReceiverUintcId, SenderInfo};

verus! {

/// A task's UIPI endpoints: its senders and receivers keyed by id (order
/// irrelevant, keys unique), and the receiver slot it listens on.
pub struct UserTrapInfo {
    pub uipi_senders: Vec<SenderHandle>,
    pub uipi_receivers: Vec<ReceiverHandle>,
    pub listening_receiver_uintc_id: Option<ReceiverUintcId>,
}

impl UserTrapInfo {
    /// The registered senders.
    pub open spec fn senders(&self) -> Set<SenderInfo> {
        Set::new(|x: SenderInfo| exists|i: int| 0 <= i < self.uipi_senders@.len()
            && #[trigger] self.uipi_senders@[i].0 == x)
    }

    /// The registered receivers.
    pub open spec fn receivers(&self) -> Set<ReceiverInfo> {
        Set::new(|x: ReceiverInfo| exists|i: int| 0 <= i < self.uipi_receivers@.len()
            && #[trigger] self.uipi_receivers@[i].0 == x)
    }

    pub open spec fn has_sender(&self, id: int) -> bool {
        exists|x: SenderInfo| #[trigger] self.senders().contains(x) && x.id.0 == id
    }

    pub open spec fn has_receiver(&self, id: int) -> bool {
        exists|x: ReceiverInfo| #[trigger] self.receivers().contains(x) && x.id.0 == id
    }

    /// Ids are unique, and every registered endpoint is live in `sys`.
    pub open spec fn wf_in(&self, sys: &Uipi) -> bool {
        &&& forall|i: int, j: int|
            0 <= i < j < self.uipi_senders@.len() ==> #[trigger] self.uipi_senders@[i].0.id
                != #[trigger] self.uipi_senders@[j].0.id
        &&& forall|i: int, j: int|
            0 <= i < j < self.uipi_receivers@.len() ==> #[trigger] self.uipi_receivers@[i].0.id
                != #[trigger] self.uipi_receivers@[j].0.id
        &&& forall|i: int|
            0 <= i < self.uipi_senders@.len() ==> sys.sender_live(
                #[trigger] self.uipi_senders@[i].0,
            )
        &&& forall|i: int|
            0 <= i < self.uipi_receivers@.len() ==> sys.receiver_live(
                #[trigger] self.uipi_receivers@[i].0,
            )
    }

    /// A task with no endpoint and no listener.
    pub fn new() -> (t: Self)
        ensures
            t.senders() == Set::<SenderInfo>::empty(),
            t.receivers() == Set::<ReceiverInfo>::empty(),
            t.listening_receiver_uintc_id.is_none(),
            forall|sys: &Uipi| t.wf_in(sys),
    {
        let t = UserTrapInfo {
            uipi_senders: Vec::new(),
            uipi_receivers: Vec::new(),
            listening_receiver_uintc_id: None,
        };
        assert(t.senders() =~= Set::<SenderInfo>::empty());
        assert(t.receivers() =~= Set::<ReceiverInfo>::empty());
        t
    }

    /// Position of the sender with id `id`, if registered.
    pub fn sender_index(&self, id: u32) -> (r: Option<usize>)
        ensures
            r.is_some() == self.has_sender(id as int),
            r.is_some() ==> (r->0) < self.uipi_senders@.len() && self.uipi_senders@[(
            r->0) as int].0.id.0 == id,
    {
        let mut i: usize = 0;
        while i < self.uipi_senders.len()
            invariant
                i <= self.uipi_senders@.len(),
                forall|k: int| 0 <= k < i ==> (#[trigger] self.uipi_senders@[k]).0.id.0 != id,
            decreases self.uipi_senders@.len() - i,
        {
            if self.uipi_senders[i].0.id.0 == id {
                proof {
                    assert(self.senders().contains(self.uipi_senders@[i as int].0));
                }
                return Some(i);
            }
            i = i + 1;
        }
        proof {
            if self.has_sender(id as int) {
                let x = choose|x: SenderInfo| #[trigger] self.senders().contains(x) && x.id.0 == id;
                let k = choose|k: int| 0 <= k < self.uipi_senders@.len()
                    && #[trigger] self.uipi_senders@[k].0 == x;
                assert(self.uipi_senders@[k].0.id.0 != id);
            }
        }
        None
    }

    /// Registers a sender whose id is not registered yet.
    pub fn insert_sender(&mut self, h: SenderHandle)
        requires
            !old(self).has_sender(h.0.id.0 as int),
            forall|i: int, j: int|
                0 <= i < j < old(self).uipi_senders@.len() ==> #[trigger] old(self).uipi_senders@[i].0.id
                    != #[trigger] old(self).uipi_senders@[j].0.id,
        ensures
            final(self).senders() == old(self).senders().insert(h.0),
            final(self).uipi_senders@ == old(self).uipi_senders@.push(h),
            final(self).uipi_receivers@ == old(self).uipi_receivers@,
            final(self).listening_receiver_uintc_id == old(self).listening_receiver_uintc_id,
            forall|i: int, j: int|
                0 <= i < j < final(self).uipi_senders@.len() ==> #[trigger] final(self).uipi_senders@[i].0.id
                    != #[trigger] final(self).uipi_senders@[j].0.id,
    {
        let ghost x = h.0;
        self.uipi_senders.push(h);
        proof {
            let o = old(self).uipi_senders@;
            let n = self.uipi_senders@;
            assert forall|y: SenderInfo| #[trigger] self.senders().contains(y) == old(self).senders().insert(x).contains(y) by {
                if self.senders().contains(y) {
                    let k = choose|k: int| 0 <= k < n.len() && #[trigger] n[k].0 == y;
                    if k < o.len() {
                        assert(o[k].0 == y);
                    }
                }
                if old(self).senders().contains(y) {
                    let k = choose|k: int| 0 <= k < o.len() && #[trigger] o[k].0 == y;
                    assert(n[k].0 == y);
                }
                if y == x {
                    assert(n[o.len() as int].0 == x);
                }
            }
            assert(self.senders() =~= old(self).senders().insert(x));
            assert forall|i: int, j: int| 0 <= i < j < n.len() implies #[trigger] n[i].0.id != #[trigger] n[j].0.id by {
                if j == o.len() {
                    assert(old(self).senders().contains(o[i].0));
                }
            }
        }
    }

    /// Unregisters the sender at position `i`, handing its handle back.
    pub fn remove_sender(&mut self, i: usize) -> (h: SenderHandle)
        requires
            i < old(self).uipi_senders@.len(),
            forall|a: int, b: int|
                0 <= a < b < old(self).uipi_senders@.len() ==> #[trigger] old(self).uipi_senders@[a].0.id
                    != #[trigger] old(self).uipi_senders@[b].0.id,
        ensures
            h == old(self).uipi_senders@[i as int],
            final(self).senders() == old(self).senders().remove(h.0),
            final(self).uipi_senders@ == old(self).uipi_senders@.remove(i as int),
            final(self).uipi_receivers@ == old(self).uipi_receivers@,
            final(self).listening_receiver_uintc_id == old(self).listening_receiver_uintc_id,
            forall|a: int, b: int|
                0 <= a < b < final(self).uipi_senders@.len() ==> #[trigger] final(self).uipi_senders@[a].0.id
                    != #[trigger] final(self).uipi_senders@[b].0.id,
            !final(self).has_sender(h.0.id.0 as int),
    {
        let h = self.uipi_senders.remove(i);
        proof {
            let o = old(self).uipi_senders@;
            let n = self.uipi_senders@;
            let x = h.0;
            assert forall|y: SenderInfo| #[trigger] self.senders().contains(y) == old(self).senders().remove(x).contains(y) by {
                if self.senders().contains(y) {
                    let k = choose|k: int| 0 <= k < n.len() && #[trigger] n[k].0 == y;
                    let ko = if k < i { k } else { k + 1 };
                    assert(o[ko].0 == y);
                    if ko < i {
                        assert(o[ko].0.id != o[i as int].0.id);
                    } else {
                        assert(o[i as int].0.id != o[ko].0.id);
                    }
                }
                if old(self).senders().contains(y) && y != x {
                    let k = choose|k: int| 0 <= k < o.len() && #[trigger] o[k].0 == y;
                    if k < i {
                        assert(n[k].0 == y);
                    } else {
                        assert(k != i);
                        assert(n[k - 1].0 == y);
                    }
                }
            }
            assert(self.senders() =~= old(self).senders().remove(x));
            assert forall|a: int, b: int| 0 <= a < b < n.len() implies #[trigger] n[a].0.id != #[trigger] n[b].0.id by {
                let ao = if a < i { a } else { a + 1 };
                let bo = if b < i { b } else { b + 1 };
                assert(n[a] == o[ao] && n[b] == o[bo]);
            }
            if self.has_sender(x.id.0 as int) {
                let y = choose|y: SenderInfo| #[trigger] self.senders().contains(y) && y.id.0 == x.id.0;
                let k = choose|k: int| 0 <= k < n.len() && #[trigger] n[k].0 == y;
                let ko = if k < i { k } else { k + 1 };
                assert(n[k] == o[ko]);
            }
        }
        h
    }

    /// Position of the receiver with id `id`, if registered.
    pub fn receiver_index(&self, id: u32) -> (r: Option<usize>)
        ensures
            r.is_some() == self.has_receiver(id as int),
            r.is_some() ==> (r->0) < self.uipi_receivers@.len() && self.uipi_receivers@[(
            r->0) as int].0.id.0 == id,
    {
        let mut i: usize = 0;
        while i < self.uipi_receivers.len()
            invariant
                i <= self.uipi_receivers@.len(),
                forall|k: int| 0 <= k < i ==> (#[trigger] self.uipi_receivers@[k]).0.id.0 != id,
            decreases self.uipi_receivers@.len() - i,
        {
            if self.uipi_receivers[i].0.id.0 == id {
                proof {
                    assert(self.receivers().contains(self.uipi_receivers@[i as int].0));
                }
                return Some(i);
            }
            i = i + 1;
        }
        proof {
            if self.has_receiver(id as int) {
                let x = choose|x: ReceiverInfo| #[trigger] self.receivers().contains(x) && x.id.0 == id;
                let k = choose|k: int| 0 <= k < self.uipi_receivers@.len()
                    && #[trigger] self.uipi_receivers@[k].0 == x;
                assert(self.uipi_receivers@[k].0.id.0 != id);
            }
        }
        None
    }

    /// Registers a receiver whose id is not registered yet.
    pub fn insert_receiver(&mut self, h: ReceiverHandle)
        requires
            !old(self).has_receiver(h.0.id.0 as int),
            forall|i: int, j: int|
                0 <= i < j < old(self).uipi_receivers@.len() ==> #[trigger] old(self).uipi_receivers@[i].0.id
                    != #[trigger] old(self).uipi_receivers@[j].0.id,
        ensures
            final(self).receivers() == old(self).receivers().insert(h.0),
            final(self).uipi_receivers@ == old(self).uipi_receivers@.push(h),
            final(self).uipi_senders@ == old(self).uipi_senders@,
            final(self).listening_receiver_uintc_id == old(self).listening_receiver_uintc_id,
            forall|i: int, j: int|
                0 <= i < j < final(self).uipi_receivers@.len() ==> #[trigger] final(self).uipi_receivers@[i].0.id
                    != #[trigger] final(self).uipi_receivers@[j].0.id,
    {
        let ghost x = h.0;
        self.uipi_receivers.push(h);
        proof {
            let o = old(self).uipi_receivers@;
            let n = self.uipi_receivers@;
            assert forall|y: ReceiverInfo| #[trigger] self.receivers().contains(y) == old(self).receivers().insert(x).contains(y) by {
                if self.receivers().contains(y) {
                    let k = choose|k: int| 0 <= k < n.len() && #[trigger] n[k].0 == y;
                    if k < o.len() {
                        assert(o[k].0 == y);
                    }
                }
                if old(self).receivers().contains(y) {
                    let k = choose|k: int| 0 <= k < o.len() && #[trigger] o[k].0 == y;
                    assert(n[k].0 == y);
                }
                if y == x {
                    assert(n[o.len() as int].0 == x);
                }
            }
            assert(self.receivers() =~= old(self).receivers().insert(x));
            assert forall|i: int, j: int| 0 <= i < j < n.len() implies #[trigger] n[i].0.id != #[trigger] n[j].0.id by {
                if j == o.len() {
                    assert(old(self).receivers().contains(o[i].0));
                }
            }
        }
    }

    /// Unregisters the receiver at position `i`, handing its handle back.
    pub fn remove_receiver(&mut self, i: usize) -> (h: ReceiverHandle)
        requires
            i < old(self).uipi_receivers@.len(),
            forall|a: int, b: int|
                0 <= a < b < old(self).uipi_receivers@.len() ==> #[trigger] old(self).uipi_receivers@[a].0.id
                    != #[trigger] old(self).uipi_receivers@[b].0.id,
        ensures
            h == old(self).uipi_receivers@[i as int],
            final(self).receivers() == old(self).receivers().remove(h.0),
            final(self).uipi_receivers@ == old(self).uipi_receivers@.remove(i as int),
            final(self).uipi_senders@ == old(self).uipi_senders@,
            final(self).listening_receiver_uintc_id == old(self).listening_receiver_uintc_id,
            forall|a: int, b: int|
                0 <= a < b < final(self).uipi_receivers@.len() ==> #[trigger] final(self).uipi_receivers@[a].0.id
                    != #[trigger] final(self).uipi_receivers@[b].0.id,
            !final(self).has_receiver(h.0.id.0 as int),
    {
        let h = self.uipi_receivers.remove(i);
        proof {
            let o = old(self).uipi_receivers@;
            let n = self.uipi_receivers@;
            let x = h.0;
            assert forall|y: ReceiverInfo| #[trigger] self.receivers().contains(y) == old(self).receivers().remove(x).contains(y) by {
                if self.receivers().contains(y) {
                    let k = choose|k: int| 0 <= k < n.len() && #[trigger] n[k].0 == y;
                    let ko = if k < i { k } else { k + 1 };
                    assert(o[ko].0 == y);
                    if ko < i {
                        assert(o[ko].0.id != o[i as int].0.id);
                    } else {
                        assert(o[i as int].0.id != o[ko].0.id);
                    }
                }
                if old(self).receivers().contains(y) && y != x {
                    let k = choose|k: int| 0 <= k < o.len() && #[trigger] o[k].0 == y;
                    if k < i {
                        assert(n[k].0 == y);
                    } else {
                        assert(k != i);
                        assert(n[k - 1].0 == y);
                    }
                }
            }
            assert(self.receivers() =~= old(self).receivers().remove(x));
            assert forall|a: int, b: int| 0 <= a < b < n.len() implies #[trigger] n[a].0.id != #[trigger] n[b].0.id by {
                let ao = if a < i { a } else { a + 1 };
                let bo = if b < i { b } else { b + 1 };
                assert(n[a] == o[ao] && n[b] == o[bo]);
            }
            if self.has_receiver(x.id.0 as int) {
                let y = choose|y: ReceiverInfo| #[trigger] self.receivers().contains(y) && y.id.0 == x.id.0;
                let k = choose|k: int| 0 <= k < n.len() && #[trigger] n[k].0 == y;
                let ko = if k < i { k } else { k + 1 };
                assert(n[k] == o[ko]);
            }
        }
        h
    }

    /// Process teardown: destroys every registered sender and receiver, as
    /// RELEASE would, leaving the registry empty.
    pub fn release_all(&mut self, sys: &mut Uipi)
        requires
            old(sys).wf(),
            old(self).wf_in(old(sys)),
        ensures
            final(sys).wf(),
            final(self).wf_in(final(sys)),
            final(self).senders().is_empty(),
            final(self).receivers().is_empty(),
            forall|x: SenderInfo| #[trigger] old(self).senders().contains(x) ==> {
                &&& !final(sys).sender_id_pool.is_live(x.id.0)
                &&& !final(sys).sender_uintc_pool.is_live(x.uintc_id.0 as u32)
                &&& final(sys).sender_slot_idle(x.uintc_id.0 as int)
            },
            forall|x: ReceiverInfo| #[trigger] old(self).receivers().contains(x) ==> {
                &&& !final(sys).receiver_id_pool.is_live(x.id.0)
                &&& !final(sys).receiver_uintc_pool.is_live(x.uintc_id.0 as u32)
                &&& final(sys).receiver_slot_idle(x.uintc_id.0 as int)
            },
    {
        let ghost s0 = old(self).uipi_senders@;
        let ghost r0 = old(self).uipi_receivers@;
        while self.uipi_senders.len() > 0
            invariant
                sys.wf(),
                self.wf_in(sys),
                self.uipi_receivers@ == r0,
                forall|i: int| 0 <= i < self.uipi_senders@.len() ==> self.uipi_senders@[i] == s0[i],
                self.uipi_senders@.len() <= s0.len(),
                forall|i: int| self.uipi_senders@.len() <= i < s0.len() ==> {
                    &&& !sys.sender_id_pool.is_live(#[trigger] s0[i].0.id.0)
                    &&& !sys.sender_uintc_pool.is_live(s0[i].0.uintc_id.0 as u32)
                },
            decreases self.uipi_senders@.len(),
        {
            let ghost n = self.uipi_senders@.len() - 1;
            let ghost pre = *sys;
            let ghost pre_s = self.uipi_senders@;
            let h = self.uipi_senders.pop().unwrap();
            proof {
                assert(pre.sender_live(pre_s[n].0));
            }
            h.release(sys);
            proof {
                assert forall|i: int| 0 <= i < self.uipi_senders@.len() implies sys.sender_live(
                    #[trigger] self.uipi_senders@[i].0,
                ) by {
                    assert(pre_s[i].0.id != pre_s[n].0.id);
                    assert(pre.sender_live(pre_s[i].0));
                }
            }
        }
        while self.uipi_receivers.len() > 0
            invariant
                sys.wf(),
                self.wf_in(sys),
                self.uipi_senders@.len() == 0,
                forall|i: int| 0 <= i < self.uipi_receivers@.len() ==> self.uipi_receivers@[i] == r0[i],
                self.uipi_receivers@.len() <= r0.len(),
                forall|i: int| 0 <= i < s0.len() ==> {
                    &&& !sys.sender_id_pool.is_live(#[trigger] s0[i].0.id.0)
                    &&& !sys.sender_uintc_pool.is_live(s0[i].0.uintc_id.0 as u32)
                },
                forall|i: int| self.uipi_receivers@.len() <= i < r0.len() ==> {
                    &&& !sys.receiver_id_pool.is_live(#[trigger] r0[i].0.id.0)
                    &&& !sys.receiver_uintc_pool.is_live(r0[i].0.uintc_id.0 as u32)
                },
            decreases self.uipi_receivers@.len(),
        {
            let ghost n = self.uipi_receivers@.len() - 1;
            let ghost pre = *sys;
            let ghost pre_r = self.uipi_receivers@;
            let h = self.uipi_receivers.pop().unwrap();
            proof {
                assert(pre.receiver_live(pre_r[n].0));
            }
            h.release(sys);
            proof {
                assert forall|i: int| 0 <= i < self.uipi_receivers@.len() implies sys.receiver_live(
                    #[trigger] self.uipi_receivers@[i].0,
                ) by {
                    assert(pre_r[i].0.id != pre_r[n].0.id);
                    assert(pre.receiver_live(pre_r[i].0));
                }
            }
        }
        proof {
            assert(self.senders() =~= Set::<SenderInfo>::empty());
            assert(self.receivers() =~= Set::<ReceiverInfo>::empty());
            assert forall|x: SenderInfo| #[trigger] old(self).senders().contains(x) implies {
                &&& !sys.sender_id_pool.is_live(x.id.0)
                &&& !sys.sender_uintc_pool.is_live(x.uintc_id.0 as u32)
                &&& sys.sender_slot_idle(x.uintc_id.0 as int)
            } by {
                let k = choose|k: int| 0 <= k < s0.len() && #[trigger] s0[k].0 == x;
                assert(!sys.sender_id_pool.is_live(s0[k].0.id.0));
                assert(old(sys).sender_live(s0[k].0));
                assert(!sys.sender_uintc_pool.is_live((x.uintc_id.0 as u32)));
            }
            assert forall|x: ReceiverInfo| #[trigger] old(self).receivers().contains(x) implies {
                &&& !sys.receiver_id_pool.is_live(x.id.0)
                &&& !sys.receiver_uintc_pool.is_live(x.uintc_id.0 as u32)
                &&& sys.receiver_slot_idle(x.uintc_id.0 as int)
            } by {
                let k = choose|k: int| 0 <= k < r0.len() && #[trigger] r0[k].0 == x;
                assert(!sys.receiver_id_pool.is_live(r0[k].0.id.0));
                assert(old(sys).receiver_live(r0[k].0));
                assert(!sys.receiver_uintc_pool.is_live((x.uintc_id.0 as u32)));
            }
        }
    }
}

} // verus!
