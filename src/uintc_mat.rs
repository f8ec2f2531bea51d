use vstd::prelude::*;

use crate::config::{BITMAP_WORDS, HART_COUNT, UINTC_BASE, UINTC_MAX_RECEIVER, UINTC_MAX_SENDER};
use crate::ids::{ReceiverId, ReceiverUintcId, SenderId, SenderUintcId};

verus! {

pub const SENDER_BASE: usize = 0x0;
pub const SENDER_STRIDE: usize = 0x2000;
pub const SENDER_ID_OFFSET: usize = 0x1000;
pub const SENDER_ENABLE_OFFSET: usize = 0x1800;
pub const SENDER_PENDING_OFFSET: usize = 0x1A00;
pub const RECEIVER_BASE: usize = 0x200_0000;
pub const RECEIVER_STRIDE: usize = 0x2000;
pub const RECEIVER_ID_OFFSET: usize = 0x1000;
pub const RECEIVER_ENABLE_OFFSET: usize = 0x1800;
pub const RECEIVER_PENDING_OFFSET: usize = 0x1A00;
pub const CONTEXT_BASE: usize = 0x0;
pub const CONTEXT_STRIDE: usize = 0x4;
pub const UINTC_SIZE: usize = 0x400_0000;

/// Start of the register page of a sender slot.
pub fn sender_addr_start(sender_uintc_id: SenderUintcId) -> (r: usize)
    requires
        sender_uintc_id.0 <= UINTC_MAX_SENDER,
    ensures
        r == UINTC_BASE + SENDER_BASE + SENDER_STRIDE * sender_uintc_id.0,
{
    let id = sender_uintc_id.0 as usize;
    UINTC_BASE + SENDER_BASE + SENDER_STRIDE * id
}

/// Start of the register page of a receiver slot.
pub fn receiver_addr_start(receiver_uintc_id: ReceiverUintcId) -> (r: usize)
    requires
        receiver_uintc_id.0 <= UINTC_MAX_RECEIVER,
    ensures
        r == UINTC_BASE + RECEIVER_BASE + RECEIVER_STRIDE * receiver_uintc_id.0,
{
    let id = receiver_uintc_id.0 as usize;
    UINTC_BASE + RECEIVER_BASE + RECEIVER_STRIDE * id
}

/// Index, in a zone's flat bitmap array, of word `w` of slot `slot`.
pub open spec fn word_index(slot: int, w: int) -> int {
    slot * BITMAP_WORDS + w
}

pub proof fn lemma_word_in_zone(slot: int, w: int, n: int)
    requires
        0 <= slot < n,
        0 <= w <= BITMAP_WORDS,
    ensures
        0 <= word_index(slot, w),
        word_index(slot, BITMAP_WORDS as int) <= word_index(n, 0),
        word_index(slot, w) + BITMAP_WORDS - w <= word_index(n, 0),
{
    assert(slot * BITMAP_WORDS + BITMAP_WORDS <= n * BITMAP_WORDS) by (nonlinear_arith)
        requires
            0 <= slot < n,
    ;
}

/// Words of distinct slots are distinct.
pub proof fn lemma_word_owner(v: int, w: int, s: int)
    requires
        0 <= w < BITMAP_WORDS,
        word_index(s, 0) <= word_index(v, w) < word_index(s, BITMAP_WORDS as int),
    ensures
        v == s,
{
    assert(v == s) by (nonlinear_arith)
        requires
            0 <= w < BITMAP_WORDS,
            s * BITMAP_WORDS <= v * BITMAP_WORDS + w < s * BITMAP_WORDS + BITMAP_WORDS,
    ;
}

/// The single-bit mask of bit `b` within its 32-bit word.
pub open spec fn bit_mask(b: int) -> u32 {
    1u32 << ((b % 32) as u32)
}

/// Whether bit `b` of a bitmap is set in the word that holds it.
pub open spec fn bit_set(word: u32, b: int) -> bool {
    word & bit_mask(b) != 0
}

/// A word with bit `b` set (`on`) or cleared.
pub open spec fn with_bit(word: u32, b: int, on: bool) -> u32 {
    if on {
        word | bit_mask(b)
    } else {
        word & !bit_mask(b)
    }
}

/// A flat bitmap array with every word of one slot zeroed.
pub open spec fn slot_cleared(s: Seq<u32>, slot: int) -> Seq<u32> {
    Seq::new(
        s.len(),
        |j: int|
            if word_index(slot, 0) <= j < word_index(slot, BITMAP_WORDS as int) {
                0u32
            } else {
                s[j]
            },
    )
}

/// Numeric value of an optional id, zero standing for none.
pub open spec fn sender_id_value(id: Option<SenderId>) -> u32 {
    match id {
        Some(v) => v.0,
        None => 0,
    }
}

pub open spec fn receiver_id_value(id: Option<ReceiverId>) -> u32 {
    match id {
        Some(v) => v.0,
        None => 0,
    }
}

pub open spec fn receiver_uintc_value(id: Option<ReceiverUintcId>) -> u32 {
    match id {
        Some(v) => v.0 as u32,
        None => 0,
    }
}

/// Register state of the UINTC. Each zone is indexed by slot; the bitmaps of
/// slot `s` occupy words `s * BITMAP_WORDS ..` of the zone's bitmap array.
/// Exclusive access (`&mut self`) serialises every read-modify-write.
pub struct UintcMat {
    /// Per hart: the listening receiver slot, 0 for none.
    pub contexts: Vec<u32>,
    /// Per sender slot: the bound sender id, 0 for none.
    pub sender_ids: Vec<u32>,
    pub sender_enable: Vec<u32>,
    pub sender_pending: Vec<u32>,
    /// Per receiver slot: the bound receiver id, 0 for none.
    pub receiver_ids: Vec<u32>,
    pub receiver_enable: Vec<u32>,
    pub receiver_pending: Vec<u32>,
}

fn zeroed(n: usize) -> (v: Vec<u32>)
    ensures
        v@ == Seq::new(n as nat, |i: int| 0u32),
{
    let mut v: Vec<u32> = Vec::new();
    let mut i: usize = 0;
    while i < n
        invariant
            i <= n,
            v@ == Seq::new(i as nat, |k: int| 0u32),
        decreases n - i,
    {
        v.push(0);
        i = i + 1;
        assert(v@ =~= Seq::new(i as nat, |k: int| 0u32));
    }
    v
}

/// Zeroes the bitmap words of `slot` in a flat bitmap array.
fn clear_slot(v: &mut Vec<u32>, slot: usize)
    requires
        word_index(slot as int, BITMAP_WORDS as int) <= old(v)@.len(),
    ensures
        final(v)@ == slot_cleared(old(v)@, slot as int),
{
    let len = v.len();
    assert(slot * BITMAP_WORDS + BITMAP_WORDS <= len);
    let base = slot * BITMAP_WORDS;
    let mut i: usize = 0;
    while i < BITMAP_WORDS
        invariant
            base == word_index(slot as int, 0),
            base + BITMAP_WORDS <= v@.len(),
            i <= BITMAP_WORDS,
            v@.len() == old(v)@.len(),
            v@.len() == len,
            forall|j: int|
                0 <= j < v@.len() ==> #[trigger] v@[j] == if base <= j < base + i {
                    0u32
                } else {
                    old(v)@[j]
                },
        decreases BITMAP_WORDS - i,
    {
        v.set(base + i, 0);
        i = i + 1;
    }
    assert(v@ =~= slot_cleared(old(v)@, slot as int));
}

impl UintcMat {
    pub open spec fn wf(&self) -> bool {
        &&& self.contexts@.len() == HART_COUNT
        &&& self.sender_ids@.len() == UINTC_MAX_SENDER + 1
        &&& self.sender_enable@.len() == word_index(UINTC_MAX_SENDER + 1, 0)
        &&& self.sender_pending@.len() == word_index(UINTC_MAX_SENDER + 1, 0)
        &&& self.receiver_ids@.len() == UINTC_MAX_RECEIVER + 1
        &&& self.receiver_enable@.len() == word_index(UINTC_MAX_RECEIVER + 1, 0)
        &&& self.receiver_pending@.len() == word_index(UINTC_MAX_RECEIVER + 1, 0)
    }

    /// Whether sender slot `s` may signal receiver slot `r`.
    pub open spec fn connected(&self, s: int, r: int) -> bool {
        bit_set(self.sender_enable@[word_index(s, r / 32)], r)
    }

    /// Every register word is zero.
    pub open spec fn is_zero(&self) -> bool {
        &&& forall|i: int| 0 <= i < self.contexts@.len() ==> #[trigger] self.contexts@[i] == 0
        &&& forall|i: int| 0 <= i < self.sender_ids@.len() ==> #[trigger] self.sender_ids@[i] == 0
        &&& forall|i: int| 0 <= i < self.sender_enable@.len() ==> #[trigger] self.sender_enable@[i] == 0
        &&& forall|i: int| 0 <= i < self.sender_pending@.len() ==> #[trigger] self.sender_pending@[i] == 0
        &&& forall|i: int| 0 <= i < self.receiver_ids@.len() ==> #[trigger] self.receiver_ids@[i] == 0
        &&& forall|i: int| 0 <= i < self.receiver_enable@.len() ==> #[trigger] self.receiver_enable@[i] == 0
        &&& forall|i: int| 0 <= i < self.receiver_pending@.len() ==> #[trigger] self.receiver_pending@[i] == 0
    }

    /// The controller after reset: every register zero.
    pub fn new() -> (m: Self)
        ensures
            m.wf(),
            m.is_zero(),
    {
        UintcMat {
            contexts: zeroed(HART_COUNT),
            sender_ids: zeroed(UINTC_MAX_SENDER + 1),
            sender_enable: zeroed((UINTC_MAX_SENDER + 1) * BITMAP_WORDS),
            sender_pending: zeroed((UINTC_MAX_SENDER + 1) * BITMAP_WORDS),
            receiver_ids: zeroed(UINTC_MAX_RECEIVER + 1),
            receiver_enable: zeroed((UINTC_MAX_RECEIVER + 1) * BITMAP_WORDS),
            receiver_pending: zeroed((UINTC_MAX_RECEIVER + 1) * BITMAP_WORDS),
        }
    }

    /// Binds a sender id to a sender slot (0 for none).
    pub fn set_sender_id(&mut self, sender_uintc_id: SenderUintcId, sender_id: Option<SenderId>)
        requires
            old(self).wf(),
            1 <= sender_uintc_id.0 <= UINTC_MAX_SENDER,
        ensures
            final(self).wf(),
            final(self).sender_ids@ == old(self).sender_ids@.update(
                sender_uintc_id.0 as int,
                sender_id_value(sender_id),
            ),
            final(self).contexts@ == old(self).contexts@,
            final(self).sender_enable@ == old(self).sender_enable@,
            final(self).sender_pending@ == old(self).sender_pending@,
            final(self).receiver_ids@ == old(self).receiver_ids@,
            final(self).receiver_enable@ == old(self).receiver_enable@,
            final(self).receiver_pending@ == old(self).receiver_pending@,
    {
        let v: u32 = match sender_id {
            Some(v) => v.0,
            None => 0,
        };
        self.sender_ids.set(sender_uintc_id.0 as usize, v);
    }

    /// Binds a receiver id to a receiver slot (0 for none).
    pub fn set_receiver_id(
        &mut self,
        receiver_uintc_id: ReceiverUintcId,
        receiver_id: Option<ReceiverId>,
    )
        requires
            old(self).wf(),
            1 <= receiver_uintc_id.0 <= UINTC_MAX_RECEIVER,
        ensures
            final(self).wf(),
            final(self).receiver_ids@ == old(self).receiver_ids@.update(
                receiver_uintc_id.0 as int,
                receiver_id_value(receiver_id),
            ),
            final(self).contexts@ == old(self).contexts@,
            final(self).sender_ids@ == old(self).sender_ids@,
            final(self).sender_enable@ == old(self).sender_enable@,
            final(self).sender_pending@ == old(self).sender_pending@,
            final(self).receiver_enable@ == old(self).receiver_enable@,
            final(self).receiver_pending@ == old(self).receiver_pending@,
    {
        let v: u32 = match receiver_id {
            Some(v) => v.0,
            None => 0,
        };
        self.receiver_ids.set(receiver_uintc_id.0 as usize, v);
    }

    /// Designates the receiver slot listening on a hart (0 for none); the
    /// previous designation is overwritten.
    pub fn set_listening_receiver_id(
        &mut self,
        context_id: usize,
        receiver_uintc_id: Option<ReceiverUintcId>,
    )
        requires
            old(self).wf(),
            context_id < HART_COUNT,
        ensures
            final(self).wf(),
            final(self).contexts@ == old(self).contexts@.update(
                context_id as int,
                receiver_uintc_value(receiver_uintc_id),
            ),
            final(self).sender_ids@ == old(self).sender_ids@,
            final(self).sender_enable@ == old(self).sender_enable@,
            final(self).sender_pending@ == old(self).sender_pending@,
            final(self).receiver_ids@ == old(self).receiver_ids@,
            final(self).receiver_enable@ == old(self).receiver_enable@,
            final(self).receiver_pending@ == old(self).receiver_pending@,
    {
        let v: u32 = match receiver_uintc_id {
            Some(v) => v.0 as u32,
            None => 0,
        };
        self.contexts.set(context_id, v);
    }

    /// Sets (`connect`) or clears the enable bit of receiver slot
    /// `receiver_uintc_id` in the bitmap of sender slot `sender_uintc_id`;
    /// every other bit stays as it was.
    pub fn set_connected(
        &mut self,
        sender_uintc_id: SenderUintcId,
        receiver_uintc_id: ReceiverUintcId,
        connect: bool,
    )
        requires
            old(self).wf(),
            1 <= sender_uintc_id.0 <= UINTC_MAX_SENDER,
            1 <= receiver_uintc_id.0 <= UINTC_MAX_RECEIVER,
        ensures
            final(self).wf(),
            final(self).sender_enable@ == old(self).sender_enable@.update(
                word_index(sender_uintc_id.0 as int, receiver_uintc_id.0 as int / 32),
                with_bit(
                    old(self).sender_enable@[word_index(
                        sender_uintc_id.0 as int,
                        receiver_uintc_id.0 as int / 32,
                    )],
                    receiver_uintc_id.0 as int,
                    connect,
                ),
            ),
            final(self).contexts@ == old(self).contexts@,
            final(self).sender_ids@ == old(self).sender_ids@,
            final(self).sender_pending@ == old(self).sender_pending@,
            final(self).receiver_ids@ == old(self).receiver_ids@,
            final(self).receiver_enable@ == old(self).receiver_enable@,
            final(self).receiver_pending@ == old(self).receiver_pending@,
    {
        let r = receiver_uintc_id.0 as usize;
        let word = r / 32;
        let bit: u32 = 1u32 << ((r % 32) as u32);
        proof {
            lemma_word_in_zone(sender_uintc_id.0 as int, word as int, UINTC_MAX_SENDER + 1);
        }
        let idx = sender_uintc_id.0 as usize * BITMAP_WORDS + word;
        let old_word = self.sender_enable[idx];
        let new_word = if connect {
            old_word | bit
        } else {
            old_word & !bit
        };
        self.sender_enable.set(idx, new_word);
    }

    /// Releases a sender slot: zeroes its enable and pending bitmaps, then
    /// clears its bound id.
    pub fn drop_sender(&mut self, sender_uintc_id: SenderUintcId)
        requires
            old(self).wf(),
            1 <= sender_uintc_id.0 <= UINTC_MAX_SENDER,
        ensures
            final(self).wf(),
            final(self).sender_enable@ == slot_cleared(
                old(self).sender_enable@,
                sender_uintc_id.0 as int,
            ),
            final(self).sender_pending@ == slot_cleared(
                old(self).sender_pending@,
                sender_uintc_id.0 as int,
            ),
            final(self).sender_ids@ == old(self).sender_ids@.update(sender_uintc_id.0 as int, 0),
            final(self).contexts@ == old(self).contexts@,
            final(self).receiver_ids@ == old(self).receiver_ids@,
            final(self).receiver_enable@ == old(self).receiver_enable@,
            final(self).receiver_pending@ == old(self).receiver_pending@,
    {
        let slot = sender_uintc_id.0 as usize;
        proof {
            lemma_word_in_zone(slot as int, 0, UINTC_MAX_SENDER + 1);
        }
        clear_slot(&mut self.sender_enable, slot);
        clear_slot(&mut self.sender_pending, slot);
        self.set_sender_id(sender_uintc_id, None);
    }

    /// Releases a receiver slot: zeroes its enable and pending bitmaps, then
    /// clears its bound id.
    pub fn drop_receiver(&mut self, receiver_uintc_id: ReceiverUintcId)
        requires
            old(self).wf(),
            1 <= receiver_uintc_id.0 <= UINTC_MAX_RECEIVER,
        ensures
            final(self).wf(),
            final(self).receiver_enable@ == slot_cleared(
                old(self).receiver_enable@,
                receiver_uintc_id.0 as int,
            ),
            final(self).receiver_pending@ == slot_cleared(
                old(self).receiver_pending@,
                receiver_uintc_id.0 as int,
            ),
            final(self).receiver_ids@ == old(self).receiver_ids@.update(
                receiver_uintc_id.0 as int,
                0,
            ),
            final(self).contexts@ == old(self).contexts@,
            final(self).sender_ids@ == old(self).sender_ids@,
            final(self).sender_enable@ == old(self).sender_enable@,
            final(self).sender_pending@ == old(self).sender_pending@,
    {
        let slot = receiver_uintc_id.0 as usize;
        proof {
            lemma_word_in_zone(slot as int, 0, UINTC_MAX_RECEIVER + 1);
        }
        clear_slot(&mut self.receiver_enable, slot);
        clear_slot(&mut self.receiver_pending, slot);
        self.set_receiver_id(receiver_uintc_id, None);
    }

    /// Whether receiver slot `r` has a pending event from sender slot `s`.
    pub open spec fn pending(&self, r: int, s: int) -> bool {
        bit_set(self.receiver_pending@[word_index(r, s / 32)], s)
    }

    /// Receiver slot `v` is bound to `receiver_id` and sender slot `s` may
    /// signal it.
    pub open spec fn routes_to(&self, s: int, receiver_id: u32, v: int) -> bool {
        &&& 1 <= v <= UINTC_MAX_RECEIVER
        &&& receiver_id != 0
        &&& self.receiver_ids@[v] == receiver_id
        &&& self.connected(s, v)
    }

    /// A store of `receiver_id` into the page of sender slot
    /// `sender_uintc_id`: the first receiver slot bound to that id that the
    /// sender may signal is marked pending from this sender; with no such
    /// slot nothing changes. Returns the slot marked.
    pub fn send(&mut self, sender_uintc_id: SenderUintcId, receiver_id: u32) -> (r: Option<u16>)
        requires
            old(self).wf(),
            1 <= sender_uintc_id.0 <= UINTC_MAX_SENDER,
        ensures
            final(self).wf(),
            final(self).contexts@ == old(self).contexts@,
            final(self).sender_ids@ == old(self).sender_ids@,
            final(self).sender_enable@ == old(self).sender_enable@,
            final(self).sender_pending@ == old(self).sender_pending@,
            final(self).receiver_ids@ == old(self).receiver_ids@,
            final(self).receiver_enable@ == old(self).receiver_enable@,
            r.is_none() ==> final(self).receiver_pending@ == old(self).receiver_pending@
                && forall|v: int| !old(self).routes_to(sender_uintc_id.0 as int, receiver_id, v),
            r matches Some(v) ==> {
                &&& old(self).routes_to(sender_uintc_id.0 as int, receiver_id, v as int)
                &&& forall|k: int| 1 <= k < v ==> !old(self).routes_to(sender_uintc_id.0 as int, receiver_id, k)
                &&& final(self).receiver_pending@ == old(self).receiver_pending@.update(
                    word_index(v as int, sender_uintc_id.0 as int / 32),
                    with_bit(
                        old(self).receiver_pending@[word_index(v as int, sender_uintc_id.0 as int / 32)],
                        sender_uintc_id.0 as int,
                        true,
                    ),
                )
            },
    {
        if receiver_id == 0 {
            return None;
        }
        let s = sender_uintc_id.0 as usize;
        let mut v: usize = 1;
        while v <= UINTC_MAX_RECEIVER
            invariant
                1 <= v <= UINTC_MAX_RECEIVER + 1,
                self.wf(),
                *self == *old(self),
                1 <= s <= UINTC_MAX_SENDER,
                s == sender_uintc_id.0,
                receiver_id != 0,
                forall|k: int| 1 <= k < v ==> !old(self).routes_to(s as int, receiver_id, k),
            decreases UINTC_MAX_RECEIVER + 1 - v,
        {
            proof {
                lemma_word_in_zone(s as int, (v / 32) as int, UINTC_MAX_SENDER + 1);
            }
            let _zone = self.sender_enable.len();
            let word = self.sender_enable[s * BITMAP_WORDS + v / 32];
            let bit: u32 = 1u32 << ((v % 32) as u32);
            if self.receiver_ids[v] == receiver_id && word & bit != 0 {
                proof {
                    lemma_word_in_zone(v as int, (s / 32) as int, UINTC_MAX_RECEIVER + 1);
                }
                let _zone = self.receiver_pending.len();
                let idx = v * BITMAP_WORDS + s / 32;
                let sbit: u32 = 1u32 << ((s % 32) as u32);
                let p = self.receiver_pending[idx];
                self.receiver_pending.set(idx, p | sbit);
                return Some(v as u16);
            }
            v = v + 1;
        }
        None
    }

    /// A read of the claim word of receiver slot `receiver_uintc_id`: the
    /// pending event of the lowest sender slot is taken (its bit cleared) and
    /// that slot's bound sender id returned; 0 when nothing is pending.
    pub fn claim(&mut self, receiver_uintc_id: ReceiverUintcId) -> (r: u32)
        requires
            old(self).wf(),
            1 <= receiver_uintc_id.0 <= UINTC_MAX_RECEIVER,
        ensures
            final(self).wf(),
            final(self).contexts@ == old(self).contexts@,
            final(self).sender_ids@ == old(self).sender_ids@,
            final(self).sender_enable@ == old(self).sender_enable@,
            final(self).sender_pending@ == old(self).sender_pending@,
            final(self).receiver_ids@ == old(self).receiver_ids@,
            final(self).receiver_enable@ == old(self).receiver_enable@,
            (forall|s: int| 1 <= s <= UINTC_MAX_SENDER ==> !old(self).pending(receiver_uintc_id.0 as int, s))
                ==> r == 0 && final(self).receiver_pending@ == old(self).receiver_pending@,
            (exists|s: int| 1 <= s <= UINTC_MAX_SENDER && old(self).pending(receiver_uintc_id.0 as int, s))
                ==> exists|s: int| {
                &&& 1 <= s <= UINTC_MAX_SENDER
                &&& old(self).pending(receiver_uintc_id.0 as int, s)
                &&& forall|k: int| 1 <= k < s ==> !old(self).pending(receiver_uintc_id.0 as int, k)
                &&& r == old(self).sender_ids@[s]
                &&& final(self).receiver_pending@ == old(self).receiver_pending@.update(
                    word_index(receiver_uintc_id.0 as int, s / 32),
                    with_bit(
                        old(self).receiver_pending@[word_index(receiver_uintc_id.0 as int, s / 32)],
                        s,
                        false,
                    ),
                )
            },
    {
        let v = receiver_uintc_id.0 as usize;
        let mut s: usize = 1;
        while s <= UINTC_MAX_SENDER
            invariant
                1 <= s <= UINTC_MAX_SENDER + 1,
                self.wf(),
                *self == *old(self),
                1 <= v <= UINTC_MAX_RECEIVER,
                v == receiver_uintc_id.0,
                forall|k: int| 1 <= k < s ==> !old(self).pending(v as int, k),
            decreases UINTC_MAX_SENDER + 1 - s,
        {
            proof {
                lemma_word_in_zone(v as int, (s / 32) as int, UINTC_MAX_RECEIVER + 1);
            }
            let _zone = self.receiver_pending.len();
            let idx = v * BITMAP_WORDS + s / 32;
            let bit: u32 = 1u32 << ((s % 32) as u32);
            let p = self.receiver_pending[idx];
            if p & bit != 0 {
                proof {
                    assert(idx == word_index(v as int, s as int / 32));
                    assert(old(self).pending(v as int, s as int));
                }
                self.receiver_pending.set(idx, p & !bit);
                return self.sender_ids[s];
            }
            s = s + 1;
        }
        0
    }
}

} // verus!
