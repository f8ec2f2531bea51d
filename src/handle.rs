use vstd::prelude::*;

use crate::allocator::StackIntegerAllocator;
use crate::config::{BITMAP_WORDS, UINTC_MAX_RECEIVER, UINTC_MAX_SENDER};
use crate::ids::{ReceiverId, ReceiverInfo, ReceiverUintcId, SenderId, SenderInfo, SenderUintcId};
use crate::uintc_mat::{lemma_word_owner, slot_cleared, word_index, UintcMat};

verus! {

impl SenderId {
    /// Takes a fresh sender id from its pool.
    pub fn allocate(pool: &mut StackIntegerAllocator) -> (r: Option<SenderId>)
        requires
            old(pool).wf(),
            old(pool).start >= 1,
        ensures
            final(pool).wf(),
            final(pool).start == old(pool).start,
            final(pool).end == old(pool).end,
            r.is_some() == old(pool).can_alloc(),
            r.is_some() ==> (r->0).0 == old(pool).next_value() && (r->0).0 != 0,
            forall|v: u32| #[trigger]
                final(pool).is_live(v) == (old(pool).is_live(v) || (r.is_some() && v == (r->0).0)),
    {
        match pool.allocate() {
            Some(v) => Some(SenderId(v)),
            None => None,
        }
    }

    /// Returns the id to its pool.
    pub fn dealloc(self, pool: &mut StackIntegerAllocator)
        requires
            old(pool).wf(),
            old(pool).is_live(self.0),
        ensures
            final(pool).wf(),
            final(pool).start == old(pool).start,
            final(pool).end == old(pool).end,
            forall|v: u32| #[trigger] final(pool).is_live(v) == (old(pool).is_live(v) && v != self.0),
    {
        pool.dealloc(self.0)
    }
}

impl ReceiverId {
    /// Takes a fresh receiver id from its pool.
    pub fn allocate(pool: &mut StackIntegerAllocator) -> (r: Option<ReceiverId>)
        requires
            old(pool).wf(),
            old(pool).start >= 1,
        ensures
            final(pool).wf(),
            final(pool).start == old(pool).start,
            final(pool).end == old(pool).end,
            r.is_some() == old(pool).can_alloc(),
            r.is_some() ==> (r->0).0 == old(pool).next_value() && (r->0).0 != 0,
            forall|v: u32| #[trigger]
                final(pool).is_live(v) == (old(pool).is_live(v) || (r.is_some() && v == (r->0).0)),
    {
        match pool.allocate() {
            Some(v) => Some(ReceiverId(v)),
            None => None,
        }
    }

    /// Returns the id to its pool.
    pub fn dealloc(self, pool: &mut StackIntegerAllocator)
        requires
            old(pool).wf(),
            old(pool).is_live(self.0),
        ensures
            final(pool).wf(),
            final(pool).start == old(pool).start,
            final(pool).end == old(pool).end,
            forall|v: u32| #[trigger] final(pool).is_live(v) == (old(pool).is_live(v) && v != self.0),
    {
        pool.dealloc(self.0)
    }
}

impl SenderUintcId {
    /// Takes a free hardware sender slot from its pool.
    pub fn allocate(pool: &mut StackIntegerAllocator) -> (r: Option<SenderUintcId>)
        requires
            old(pool).wf(),
            old(pool).start >= 1,
            old(pool).end <= 0x1_0000,
        ensures
            final(pool).wf(),
            final(pool).start == old(pool).start,
            final(pool).end == old(pool).end,
            r.is_some() == old(pool).can_alloc(),
            r.is_some() ==> (r->0).0 as u32 == old(pool).next_value() && (r->0).0 != 0,
            forall|v: u32| #[trigger]
                final(pool).is_live(v) == (old(pool).is_live(v) || (r.is_some() && v == (r->0).0 as u32)),
    {
        match pool.allocate() {
            Some(v) => Some(SenderUintcId(v as u16)),
            None => None,
        }
    }

    /// Returns the slot to its pool.
    pub fn dealloc(self, pool: &mut StackIntegerAllocator)
        requires
            old(pool).wf(),
            old(pool).is_live(self.0 as u32),
        ensures
            final(pool).wf(),
            final(pool).start == old(pool).start,
            final(pool).end == old(pool).end,
            forall|v: u32| #[trigger]
                final(pool).is_live(v) == (old(pool).is_live(v) && v != self.0 as u32),
    {
        pool.dealloc(self.0 as u32)
    }
}

impl ReceiverUintcId {
    /// Takes a free hardware receiver slot from its pool.
    pub fn allocate(pool: &mut StackIntegerAllocator) -> (r: Option<ReceiverUintcId>)
        requires
            old(pool).wf(),
            old(pool).start >= 1,
            old(pool).end <= 0x1_0000,
        ensures
            final(pool).wf(),
            final(pool).start == old(pool).start,
            final(pool).end == old(pool).end,
            r.is_some() == old(pool).can_alloc(),
            r.is_some() ==> (r->0).0 as u32 == old(pool).next_value() && (r->0).0 != 0,
            forall|v: u32| #[trigger]
                final(pool).is_live(v) == (old(pool).is_live(v) || (r.is_some() && v == (r->0).0 as u32)),
    {
        match pool.allocate() {
            Some(v) => Some(ReceiverUintcId(v as u16)),
            None => None,
        }
    }

    /// Returns the slot to its pool.
    pub fn dealloc(self, pool: &mut StackIntegerAllocator)
        requires
            old(pool).wf(),
            old(pool).is_live(self.0 as u32),
        ensures
            final(pool).wf(),
            final(pool).start == old(pool).start,
            final(pool).end == old(pool).end,
            forall|v: u32| #[trigger]
                final(pool).is_live(v) == (old(pool).is_live(v) && v != self.0 as u32),
    {
        pool.dealloc(self.0 as u32)
    }
}

/// Owning record of a live sender: its id and hardware slot.
pub struct SenderHandle(pub SenderInfo);

/// Owning record of a live receiver: its id and hardware slot.
pub struct ReceiverHandle(pub ReceiverInfo);

/// The system-wide UIPI resources: the controller's registers and the four
/// id pools.
pub struct Uipi {
    pub mat: UintcMat,
    pub sender_id_pool: StackIntegerAllocator,
    pub sender_uintc_pool: StackIntegerAllocator,
    pub receiver_id_pool: StackIntegerAllocator,
    pub receiver_uintc_pool: StackIntegerAllocator,
}

impl Uipi {
    /// A sender slot with no bound id and all-zero bitmaps.
    pub open spec fn sender_slot_idle(&self, s: int) -> bool {
        &&& self.mat.sender_ids@[s] == 0
        &&& forall|w: int|
            0 <= w < BITMAP_WORDS ==> self.mat.sender_enable@[#[trigger] word_index(s, w)] == 0
                && self.mat.sender_pending@[word_index(s, w)] == 0
    }

    /// A receiver slot with no bound id and all-zero bitmaps.
    pub open spec fn receiver_slot_idle(&self, s: int) -> bool {
        &&& self.mat.receiver_ids@[s] == 0
        &&& forall|w: int|
            0 <= w < BITMAP_WORDS ==> self.mat.receiver_enable@[#[trigger] word_index(s, w)] == 0
                && self.mat.receiver_pending@[word_index(s, w)] == 0
    }

    /// Pools cover ids `1..=max`, and every slot not held by a live endpoint
    /// is idle.
    pub open spec fn wf(&self) -> bool {
        &&& self.mat.wf()
        &&& self.sender_id_pool.wf()
        &&& self.sender_uintc_pool.wf()
        &&& self.receiver_id_pool.wf()
        &&& self.receiver_uintc_pool.wf()
        &&& self.sender_id_pool.start == 1 && self.sender_id_pool.end == UINTC_MAX_SENDER + 1
        &&& self.sender_uintc_pool.start == 1 && self.sender_uintc_pool.end == UINTC_MAX_SENDER + 1
        &&& self.receiver_id_pool.start == 1 && self.receiver_id_pool.end == UINTC_MAX_RECEIVER + 1
        &&& self.receiver_uintc_pool.start == 1 && self.receiver_uintc_pool.end
            == UINTC_MAX_RECEIVER + 1
        &&& forall|v: u32|
            1 <= v <= UINTC_MAX_SENDER && !#[trigger] self.sender_uintc_pool.is_live(v)
                ==> self.sender_slot_idle(v as int)
        &&& forall|v: u32|
            1 <= v <= UINTC_MAX_RECEIVER && !#[trigger] self.receiver_uintc_pool.is_live(v)
                ==> self.receiver_slot_idle(v as int)
    }

    /// `info` is a live sender: both its ids are taken from their pools and
    /// its slot is bound to its id.
    pub open spec fn sender_live(&self, info: SenderInfo) -> bool {
        &&& self.sender_id_pool.is_live(info.id.0)
        &&& self.sender_uintc_pool.is_live(info.uintc_id.0 as u32)
        &&& self.mat.sender_ids@[info.uintc_id.0 as int] == info.id.0
    }

    /// `info` is a live receiver.
    pub open spec fn receiver_live(&self, info: ReceiverInfo) -> bool {
        &&& self.receiver_id_pool.is_live(info.id.0)
        &&& self.receiver_uintc_pool.is_live(info.uintc_id.0 as u32)
        &&& self.mat.receiver_ids@[info.uintc_id.0 as int] == info.id.0
    }

    /// No endpoint is live.
    pub open spec fn is_empty(&self) -> bool {
        &&& forall|v: u32| !#[trigger] self.sender_id_pool.is_live(v)
        &&& forall|v: u32| !#[trigger] self.sender_uintc_pool.is_live(v)
        &&& forall|v: u32| !#[trigger] self.receiver_id_pool.is_live(v)
        &&& forall|v: u32| !#[trigger] self.receiver_uintc_pool.is_live(v)
    }

    /// Freshly reset controller and full pools.
    pub fn new() -> (u: Self)
        ensures
            u.wf(),
            u.is_empty(),
            u.mat.is_zero(),
            u.sender_id_pool.current == 1 && u.sender_id_pool.recycled@.len() == 0,
            u.sender_uintc_pool.current == 1 && u.sender_uintc_pool.recycled@.len() == 0,
            u.receiver_id_pool.current == 1 && u.receiver_id_pool.recycled@.len() == 0,
            u.receiver_uintc_pool.current == 1 && u.receiver_uintc_pool.recycled@.len() == 0,
    {
        let u = Uipi {
            mat: UintcMat::new(),
            sender_id_pool: StackIntegerAllocator::new(1, UINTC_MAX_SENDER as u32 + 1),
            sender_uintc_pool: StackIntegerAllocator::new(1, UINTC_MAX_SENDER as u32 + 1),
            receiver_id_pool: StackIntegerAllocator::new(1, UINTC_MAX_RECEIVER as u32 + 1),
            receiver_uintc_pool: StackIntegerAllocator::new(1, UINTC_MAX_RECEIVER as u32 + 1),
        };
        assert forall|v: u32| 1 <= v <= UINTC_MAX_SENDER implies u.sender_slot_idle(v as int) by {
            assert forall|w: int| 0 <= w < BITMAP_WORDS implies u.mat.sender_enable@[
                #[trigger] word_index(v as int, w)] == 0 && u.mat.sender_pending@[word_index(
                v as int,
                w,
            )] == 0 by {
                crate::uintc_mat::lemma_word_in_zone(v as int, w, UINTC_MAX_SENDER + 1);
            }
        }
        assert forall|v: u32| 1 <= v <= UINTC_MAX_RECEIVER implies u.receiver_slot_idle(
            v as int,
        ) by {
            assert forall|w: int| 0 <= w < BITMAP_WORDS implies u.mat.receiver_enable@[
                #[trigger] word_index(v as int, w)] == 0 && u.mat.receiver_pending@[word_index(
                v as int,
                w,
            )] == 0 by {
                crate::uintc_mat::lemma_word_in_zone(v as int, w, UINTC_MAX_RECEIVER + 1);
            }
        }
        u
    }
}

impl SenderHandle {
    /// Creates a sender: takes a fresh id and a free slot (giving the id back
    /// when no slot is left) and binds the id to the slot.
    pub fn new(sys: &mut Uipi) -> (r: Option<SenderHandle>)
        requires
            old(sys).wf(),
        ensures
            final(sys).wf(),
            r.is_some() == (old(sys).sender_id_pool.can_alloc()
                && old(sys).sender_uintc_pool.can_alloc()),
            r.is_some() ==> {
                &&& (r->0).0.id.0 == old(sys).sender_id_pool.next_value()
                &&& (r->0).0.uintc_id.0 as u32 == old(sys).sender_uintc_pool.next_value()
                &&& !old(sys).sender_id_pool.is_live((r->0).0.id.0)
                &&& !old(sys).sender_uintc_pool.is_live((r->0).0.uintc_id.0 as u32)
                &&& final(sys).sender_live((r->0).0)
                &&& final(sys).mat.sender_ids@ == old(sys).mat.sender_ids@.update(
                    (r->0).0.uintc_id.0 as int,
                    (r->0).0.id.0,
                )
            },
            r.is_none() ==> final(sys).mat.sender_ids@ == old(sys).mat.sender_ids@,
            forall|v: u32| #[trigger]
                final(sys).sender_id_pool.is_live(v) == (old(sys).sender_id_pool.is_live(v) || (
                r.is_some() && v == (r->0).0.id.0)),
            forall|v: u32| #[trigger]
                final(sys).sender_uintc_pool.is_live(v) == (old(sys).sender_uintc_pool.is_live(v) || (
                r.is_some() && v == (r->0).0.uintc_id.0 as u32)),
            final(sys).receiver_id_pool == old(sys).receiver_id_pool,
            final(sys).receiver_uintc_pool == old(sys).receiver_uintc_pool,
            final(sys).mat.contexts@ == old(sys).mat.contexts@,
            final(sys).mat.sender_enable@ == old(sys).mat.sender_enable@,
            final(sys).mat.sender_pending@ == old(sys).mat.sender_pending@,
            final(sys).mat.receiver_ids@ == old(sys).mat.receiver_ids@,
            final(sys).mat.receiver_enable@ == old(sys).mat.receiver_enable@,
            final(sys).mat.receiver_pending@ == old(sys).mat.receiver_pending@,
            forall|i: SenderInfo| #[trigger] old(sys).sender_live(i) ==> final(sys).sender_live(i),
            forall|i: ReceiverInfo| #[trigger]
                old(sys).receiver_live(i) ==> final(sys).receiver_live(i),
    {
        let id = match SenderId::allocate(&mut sys.sender_id_pool) {
            Some(i) => i,
            None => {
                return None;
            },
        };
        let uintc_id = match SenderUintcId::allocate(&mut sys.sender_uintc_pool) {
            Some(u) => u,
            None => {
                id.dealloc(&mut sys.sender_id_pool);
                return None;
            },
        };
        sys.mat.set_sender_id(uintc_id, Some(id));
        Some(SenderHandle(SenderInfo { id, uintc_id }))
    }

    /// Destroys the sender: zeroes its slot's bitmaps and bound id first,
    /// then gives both ids back to their pools.
    pub fn release(self, sys: &mut Uipi)
        requires
            old(sys).wf(),
            old(sys).sender_live(self.0),
        ensures
            final(sys).wf(),
            final(sys).sender_slot_idle(self.0.uintc_id.0 as int),
            forall|v: u32| #[trigger]
                final(sys).sender_id_pool.is_live(v) == (old(sys).sender_id_pool.is_live(v) && v
                    != self.0.id.0),
            forall|v: u32| #[trigger]
                final(sys).sender_uintc_pool.is_live(v) == (old(sys).sender_uintc_pool.is_live(v)
                    && v != self.0.uintc_id.0 as u32),
            final(sys).mat.sender_enable@ == slot_cleared(
                old(sys).mat.sender_enable@,
                self.0.uintc_id.0 as int,
            ),
            final(sys).mat.sender_pending@ == slot_cleared(
                old(sys).mat.sender_pending@,
                self.0.uintc_id.0 as int,
            ),
            final(sys).mat.sender_ids@ == old(sys).mat.sender_ids@.update(
                self.0.uintc_id.0 as int,
                0,
            ),
            final(sys).receiver_id_pool == old(sys).receiver_id_pool,
            final(sys).receiver_uintc_pool == old(sys).receiver_uintc_pool,
            final(sys).mat.contexts@ == old(sys).mat.contexts@,
            final(sys).mat.receiver_ids@ == old(sys).mat.receiver_ids@,
            final(sys).mat.receiver_enable@ == old(sys).mat.receiver_enable@,
            final(sys).mat.receiver_pending@ == old(sys).mat.receiver_pending@,
            forall|i: SenderInfo| #[trigger]
                old(sys).sender_live(i) && i.id != self.0.id && i.uintc_id != self.0.uintc_id
                    ==> final(sys).sender_live(i),
            forall|i: ReceiverInfo| #[trigger]
                old(sys).receiver_live(i) ==> final(sys).receiver_live(i),
    {
        let ghost pre = *sys;
        let u = self.0.uintc_id;
        sys.mat.drop_sender(u);
        self.0.id.dealloc(&mut sys.sender_id_pool);
        u.dealloc(&mut sys.sender_uintc_pool);
        proof {
            assert forall|v: u32|
                1 <= v <= UINTC_MAX_SENDER && !#[trigger] sys.sender_uintc_pool.is_live(
                    v,
                ) implies sys.sender_slot_idle(v as int) by {
                assert forall|w: int| 0 <= w < BITMAP_WORDS implies sys.mat.sender_enable@[
                    #[trigger] word_index(v as int, w)] == 0 && sys.mat.sender_pending@[word_index(
                    v as int,
                    w,
                )] == 0 by {
                    crate::uintc_mat::lemma_word_in_zone(v as int, w, UINTC_MAX_SENDER + 1);
                    if word_index(u.0 as int, 0) <= word_index(v as int, w) < word_index(
                        u.0 as int,
                        BITMAP_WORDS as int,
                    ) {
                        lemma_word_owner(v as int, w, u.0 as int);
                    }
                }
            }
            assert(!sys.sender_uintc_pool.is_live(u.0 as u32));
            assert(sys.sender_slot_idle((u.0 as u32) as int));
        }
    }
}

impl ReceiverHandle {
    /// Creates a receiver: takes a fresh id and a free slot (giving the id back
    /// when no slot is left) and binds the id to the slot.
    pub fn new(sys: &mut Uipi) -> (r: Option<ReceiverHandle>)
        requires
            old(sys).wf(),
        ensures
            final(sys).wf(),
            r.is_some() == (old(sys).receiver_id_pool.can_alloc()
                && old(sys).receiver_uintc_pool.can_alloc()),
            r.is_some() ==> {
                &&& (r->0).0.id.0 == old(sys).receiver_id_pool.next_value()
                &&& (r->0).0.uintc_id.0 as u32 == old(sys).receiver_uintc_pool.next_value()
                &&& !old(sys).receiver_id_pool.is_live((r->0).0.id.0)
                &&& !old(sys).receiver_uintc_pool.is_live((r->0).0.uintc_id.0 as u32)
                &&& final(sys).receiver_live((r->0).0)
                &&& final(sys).mat.receiver_ids@ == old(sys).mat.receiver_ids@.update(
                    (r->0).0.uintc_id.0 as int,
                    (r->0).0.id.0,
                )
            },
            r.is_none() ==> final(sys).mat.receiver_ids@ == old(sys).mat.receiver_ids@,
            forall|v: u32| #[trigger]
                final(sys).receiver_id_pool.is_live(v) == (old(sys).receiver_id_pool.is_live(v) || (
                r.is_some() && v == (r->0).0.id.0)),
            forall|v: u32| #[trigger]
                final(sys).receiver_uintc_pool.is_live(v) == (old(sys).receiver_uintc_pool.is_live(v) || (
                r.is_some() && v == (r->0).0.uintc_id.0 as u32)),
            final(sys).sender_id_pool == old(sys).sender_id_pool,
            final(sys).sender_uintc_pool == old(sys).sender_uintc_pool,
            final(sys).mat.contexts@ == old(sys).mat.contexts@,
            final(sys).mat.receiver_enable@ == old(sys).mat.receiver_enable@,
            final(sys).mat.receiver_pending@ == old(sys).mat.receiver_pending@,
            final(sys).mat.sender_ids@ == old(sys).mat.sender_ids@,
            final(sys).mat.sender_enable@ == old(sys).mat.sender_enable@,
            final(sys).mat.sender_pending@ == old(sys).mat.sender_pending@,
            forall|i: ReceiverInfo| #[trigger] old(sys).receiver_live(i) ==> final(sys).receiver_live(i),
            forall|i: SenderInfo| #[trigger] old(sys).sender_live(i) ==> final(sys).sender_live(i),
    {
        let id = match ReceiverId::allocate(&mut sys.receiver_id_pool) {
            Some(i) => i,
            None => {
                return None;
            },
        };
        let uintc_id = match ReceiverUintcId::allocate(&mut sys.receiver_uintc_pool) {
            Some(u) => u,
            None => {
                id.dealloc(&mut sys.receiver_id_pool);
                return None;
            },
        };
        sys.mat.set_receiver_id(uintc_id, Some(id));
        Some(ReceiverHandle(ReceiverInfo { id, uintc_id }))
    }

    /// Destroys the receiver: zeroes its slot's bitmaps and bound id first,
    /// then gives both ids back to their pools.
    pub fn release(self, sys: &mut Uipi)
        requires
            old(sys).wf(),
            old(sys).receiver_live(self.0),
        ensures
            final(sys).wf(),
            final(sys).receiver_slot_idle(self.0.uintc_id.0 as int),
            forall|v: u32| #[trigger]
                final(sys).receiver_id_pool.is_live(v) == (old(sys).receiver_id_pool.is_live(v) && v
                    != self.0.id.0),
            forall|v: u32| #[trigger]
                final(sys).receiver_uintc_pool.is_live(v) == (old(sys).receiver_uintc_pool.is_live(v)
                    && v != self.0.uintc_id.0 as u32),
            final(sys).mat.receiver_enable@ == slot_cleared(
                old(sys).mat.receiver_enable@,
                self.0.uintc_id.0 as int,
            ),
            final(sys).mat.receiver_pending@ == slot_cleared(
                old(sys).mat.receiver_pending@,
                self.0.uintc_id.0 as int,
            ),
            final(sys).mat.receiver_ids@ == old(sys).mat.receiver_ids@.update(
                self.0.uintc_id.0 as int,
                0,
            ),
            final(sys).sender_id_pool == old(sys).sender_id_pool,
            final(sys).sender_uintc_pool == old(sys).sender_uintc_pool,
            final(sys).mat.contexts@ == old(sys).mat.contexts@,
            final(sys).mat.sender_ids@ == old(sys).mat.sender_ids@,
            final(sys).mat.sender_enable@ == old(sys).mat.sender_enable@,
            final(sys).mat.sender_pending@ == old(sys).mat.sender_pending@,
            forall|i: ReceiverInfo| #[trigger]
                old(sys).receiver_live(i) && i.id != self.0.id && i.uintc_id != self.0.uintc_id
                    ==> final(sys).receiver_live(i),
            forall|i: SenderInfo| #[trigger] old(sys).sender_live(i) ==> final(sys).sender_live(i),
    {
        let ghost pre = *sys;
        let u = self.0.uintc_id;
        sys.mat.drop_receiver(u);
        self.0.id.dealloc(&mut sys.receiver_id_pool);
        u.dealloc(&mut sys.receiver_uintc_pool);
        proof {
            assert forall|v: u32|
                1 <= v <= UINTC_MAX_RECEIVER && !#[trigger] sys.receiver_uintc_pool.is_live(
                    v,
                ) implies sys.receiver_slot_idle(v as int) by {
                assert forall|w: int| 0 <= w < BITMAP_WORDS implies sys.mat.receiver_enable@[
                    #[trigger] word_index(v as int, w)] == 0 && sys.mat.receiver_pending@[word_index(
                    v as int,
                    w,
                )] == 0 by {
                    crate::uintc_mat::lemma_word_in_zone(v as int, w, UINTC_MAX_RECEIVER + 1);
                    if word_index(u.0 as int, 0) <= word_index(v as int, w) < word_index(
                        u.0 as int,
                        BITMAP_WORDS as int,
                    ) {
                        lemma_word_owner(v as int, w, u.0 as int);
                    }
                }
            }
            assert(!sys.receiver_uintc_pool.is_live(u.0 as u32));
            assert(sys.receiver_slot_idle((u.0 as u32) as int));
        }
    }
}

} // verus!
