use vstd::prelude::*;

use crate::allocator::StackIntegerAllocator;
use crate::config::HART_COUNT;
use crate::control::{
    connection_ctl_post, next_sender, receiver_ctl_post, receiver_with_id, sender_ctl_post,
    sender_with_id, TaskInner, CREATE, GET_INFO, LISTEN, RELEASE,
};
use crate::handle::Uipi;
use crate::ids::{ReceiverInfo, SenderInfo};
use crate::memory_set::MemorySet;
use crate::registry::UserTrapInfo;
use crate::uintc_mat::{bit_mask, bit_set, with_bit, word_index};

verus! {

/// Two distinct live senders never share a hardware slot.
pub proof fn lemma_live_senders_distinct_slots(sys: Uipi, a: SenderInfo, b: SenderInfo)
    requires
        sys.wf(),
        sys.sender_live(a),
        sys.sender_live(b),
        a != b,
    ensures
        a.uintc_id != b.uintc_id,
{
}

/// Two distinct live receivers never share a hardware slot.
pub proof fn lemma_live_receivers_distinct_slots(sys: Uipi, a: ReceiverInfo, b: ReceiverInfo)
    requires
        sys.wf(),
        sys.receiver_live(a),
        sys.receiver_live(b),
        a != b,
    ensures
        a.uintc_id != b.uintc_id,
{
}

/// A sender CREATE hands out a slot that no endpoint live before it holds.
pub proof fn lemma_created_sender_slot_fresh(
    sys0: Uipi,
    ms0: MemorySet,
    trap0: UserTrapInfo,
    out0: Option<SenderInfo>,
    flags: usize,
    sender_id: usize,
    r: Result<usize, isize>,
    sys: Uipi,
    ms: MemorySet,
    trap: UserTrapInfo,
    out: Option<SenderInfo>,
    other: SenderInfo,
)
    requires
        sys0.wf(),
        flags & CREATE != 0,
        r.is_ok(),
        sender_ctl_post(sys0, ms0, trap0, out0, flags, sender_id, r, sys, ms, trap, out),
        sys0.sender_live(other),
    ensures
        other.uintc_id != next_sender(sys0).uintc_id,
{
}

/// No value is recycled twice, and each recycled value is not live: the
/// live values are exactly those handed out and not returned.
pub proof fn lemma_pool_no_duplicates(a: StackIntegerAllocator)
    requires
        a.wf(),
    ensures
        a.recycled@.no_duplicates(),
        forall|i: int| 0 <= i < a.recycled@.len() ==> !a.is_live(#[trigger] a.recycled@[i]),
        forall|v: u32| a.is_live(v) ==> a.start <= v < a.current,
{
    assert forall|i: int| 0 <= i < a.recycled@.len() implies !a.is_live(#[trigger] a.recycled@[i]) by {
        assert(a.recycled@.contains(a.recycled@[i]));
    }
}

/// After LISTEN the hart's register holds the receiver's slot, whatever it
/// held before, and the task records that slot as its listener.
pub proof fn lemma_listen_binds_hart(
    sys0: Uipi,
    ms0: MemorySet,
    trap0: UserTrapInfo,
    out0: Option<ReceiverInfo>,
    hart: usize,
    receiver_id: usize,
    r: Result<usize, isize>,
    sys: Uipi,
    ms: MemorySet,
    trap: UserTrapInfo,
    out: Option<ReceiverInfo>,
)
    requires
        hart < HART_COUNT,
        sys0.mat.wf(),
        r.is_ok(),
        receiver_ctl_post(sys0, ms0, trap0, out0, hart, LISTEN, receiver_id, r, sys, ms, trap, out),
    ensures
        sys.mat.contexts@[hart as int] == receiver_with_id(trap0, receiver_id as int).uintc_id.0 as u32,
        trap.listening_receiver_uintc_id == Some(receiver_with_id(trap0, receiver_id as int).uintc_id),
{
    assert(LISTEN & 1 == 0 && LISTEN & 2 == 0 && LISTEN & 8 != 0 && LISTEN & 16 == 0) by (bit_vector);
}

/// After RELEASE of a sender its slot's bitmaps and bound id are all zero.
pub proof fn lemma_sender_release_clears_slot(
    sys0: Uipi,
    ms0: MemorySet,
    trap0: UserTrapInfo,
    out0: Option<SenderInfo>,
    sender_id: usize,
    r: Result<usize, isize>,
    sys: Uipi,
    ms: MemorySet,
    trap: UserTrapInfo,
    out: Option<SenderInfo>,
)
    requires
        r.is_ok(),
        sender_ctl_post(sys0, ms0, trap0, out0, RELEASE, sender_id, r, sys, ms, trap, out),
    ensures
        sys.sender_slot_idle(sender_with_id(trap0, sender_id as int).uintc_id.0 as int),
        !trap.has_sender(sender_id as int),
{
    assert(RELEASE & 1 == 0 && RELEASE & 2 != 0) by (bit_vector);
}

/// After RELEASE of a receiver its slot's bitmaps and bound id are all zero.
pub proof fn lemma_receiver_release_clears_slot(
    sys0: Uipi,
    ms0: MemorySet,
    trap0: UserTrapInfo,
    out0: Option<ReceiverInfo>,
    hart: usize,
    receiver_id: usize,
    r: Result<usize, isize>,
    sys: Uipi,
    ms: MemorySet,
    trap: UserTrapInfo,
    out: Option<ReceiverInfo>,
)
    requires
        r.is_ok(),
        receiver_ctl_post(sys0, ms0, trap0, out0, hart, RELEASE, receiver_id, r, sys, ms, trap, out),
    ensures
        sys.receiver_slot_idle(receiver_with_id(trap0, receiver_id as int).uintc_id.0 as int),
        !trap.has_receiver(receiver_id as int),
{
    assert(RELEASE & 1 == 0 && RELEASE & 2 != 0) by (bit_vector);
}

/// Registered senders with equal ids are the same sender.
proof fn lemma_sender_unique(t: UserTrapInfo, sys: &Uipi, x: SenderInfo, y: SenderInfo)
    requires
        t.wf_in(sys),
        t.senders().contains(x),
        t.senders().contains(y),
        x.id == y.id,
    ensures
        x == y,
{
    let i = choose|i: int| 0 <= i < t.uipi_senders@.len() && #[trigger] t.uipi_senders@[i].0 == x;
    let j = choose|j: int| 0 <= j < t.uipi_senders@.len() && #[trigger] t.uipi_senders@[j].0 == y;
    if i < j {
        assert(t.uipi_senders@[i].0.id != t.uipi_senders@[j].0.id);
    } else if j < i {
        assert(t.uipi_senders@[j].0.id != t.uipi_senders@[i].0.id);
    }
}

/// CREATE, then GET_INFO on the id it returned, copies out the pair that
/// CREATE made.
pub proof fn lemma_create_then_get_info(
    sys0: Uipi,
    ms0: MemorySet,
    trap0: UserTrapInfo,
    out0: Option<SenderInfo>,
    id0: usize,
    r1: Result<usize, isize>,
    sys1: Uipi,
    ms1: MemorySet,
    trap1: UserTrapInfo,
    out1: Option<SenderInfo>,
    r2: Result<usize, isize>,
    sys2: Uipi,
    ms2: MemorySet,
    trap2: UserTrapInfo,
    out2: Option<SenderInfo>,
)
    requires
        sys0.wf(),
        trap0.wf_in(&sys0),
        r1.is_ok(),
        sender_ctl_post(sys0, ms0, trap0, out0, CREATE, id0, r1, sys1, ms1, trap1, out1),
        sender_ctl_post(sys1, ms1, trap1, out1, GET_INFO, r1->Ok_0, r2, sys2, ms2, trap2, out2),
    ensures
        r2 == r1,
        out2 == Some(next_sender(sys0)),
{
    assert(CREATE & 1 != 0 && CREATE & 2 == 0 && CREATE & 4 == 0) by (bit_vector);
    assert(GET_INFO & 1 == 0 && GET_INFO & 2 == 0 && GET_INFO & 4 != 0) by (bit_vector);
    let info = next_sender(sys0);
    let v = r1->Ok_0;
    assert(trap1.senders().contains(info));
    assert(trap1.has_sender(v as int));
    let x = sender_with_id(trap1, v as int);
    lemma_sender_unique(trap1, &sys1, x, info);
}

/// CREATE, then RELEASE of the id it returned, leaves the task's senders and
/// the live ids of both sender pools as they were.
pub proof fn lemma_create_then_release(
    sys0: Uipi,
    ms0: MemorySet,
    trap0: UserTrapInfo,
    out0: Option<SenderInfo>,
    id0: usize,
    r1: Result<usize, isize>,
    sys1: Uipi,
    ms1: MemorySet,
    trap1: UserTrapInfo,
    out1: Option<SenderInfo>,
    r2: Result<usize, isize>,
    sys2: Uipi,
    ms2: MemorySet,
    trap2: UserTrapInfo,
    out2: Option<SenderInfo>,
)
    requires
        sys0.wf(),
        trap0.wf_in(&sys0),
        r1.is_ok(),
        sender_ctl_post(sys0, ms0, trap0, out0, CREATE, id0, r1, sys1, ms1, trap1, out1),
        sender_ctl_post(sys1, ms1, trap1, out1, RELEASE, r1->Ok_0, r2, sys2, ms2, trap2, out2),
    ensures
        r2 == r1,
        trap2.senders() == trap0.senders(),
        sys2.sender_id_pool.live() == sys0.sender_id_pool.live(),
        sys2.sender_uintc_pool.live() == sys0.sender_uintc_pool.live(),
{
    assert(CREATE & 1 != 0 && CREATE & 2 == 0 && CREATE & 4 == 0) by (bit_vector);
    assert(RELEASE & 1 == 0 && RELEASE & 2 != 0 && RELEASE & 4 == 0) by (bit_vector);
    let info = next_sender(sys0);
    let v = r1->Ok_0;
    assert(trap1.senders().contains(info));
    assert(trap1.has_sender(v as int));
    let x = sender_with_id(trap1, v as int);
    lemma_sender_unique(trap1, &sys1, x, info);
    assert(!trap0.senders().contains(info)) by {
        if trap0.senders().contains(info) {
            let k = choose|k: int| 0 <= k < trap0.uipi_senders@.len()
                && #[trigger] trap0.uipi_senders@[k].0 == info;
            assert(sys0.sender_live(trap0.uipi_senders@[k].0));
        }
    }
    assert(trap2.senders() =~= trap0.senders());
    assert(sys2.sender_id_pool.live() =~= sys0.sender_id_pool.live());
    assert(sys2.sender_uintc_pool.live() =~= sys0.sender_uintc_pool.live());
}

/// Setting and then clearing a bit that was clear gives back the word.
pub proof fn lemma_set_then_clear_bit(word: u32, b: int)
    requires
        0 <= b,
        !bit_set(word, b),
    ensures
        with_bit(with_bit(word, b, true), b, false) == word,
{
    let k = (b % 32) as u32;
    assert(k < 32);
    assert(bit_mask(b) == 1u32 << k);
    let m = 1u32 << k;
    assert(word & m == 0 ==> (word | m) & !m == word) by (bit_vector);
}

/// Connecting a sender to a receiver it was not connected to, then
/// disconnecting them, leaves every enable bitmap as it was.
pub proof fn lemma_connect_then_disconnect(
    sys0: Uipi,
    task: TaskInner,
    sender_id: usize,
    receiver_id: usize,
    r1: Result<usize, isize>,
    sys1: Uipi,
    r2: Result<usize, isize>,
    sys2: Uipi,
)
    requires
        sys0.wf(),
        task.wf_in(&sys0),
        r1.is_ok(),
        connection_ctl_post(sys0, task, sender_id, receiver_id, true, r1, sys1),
        connection_ctl_post(sys1, task, sender_id, receiver_id, false, r2, sys2),
        !sys0.mat.connected(
            sender_with_id(task.user_trap_info->0, sender_id as int).uintc_id.0 as int,
            receiver_with_id(task.user_trap_info->0, receiver_id as int).uintc_id.0 as int,
        ),
    ensures
        r2.is_ok(),
        sys2.mat.sender_enable@ == sys0.mat.sender_enable@,
{
    let t = task.user_trap_info->0;
    let s = sender_with_id(t, sender_id as int).uintc_id.0 as int;
    let v = receiver_with_id(t, receiver_id as int).uintc_id.0 as int;
    let wi = word_index(s, v / 32);
    let w0 = sys0.mat.sender_enable@[wi];
    let x = sender_with_id(t, sender_id as int);
    let y = receiver_with_id(t, receiver_id as int);
    let i = choose|i: int| 0 <= i < t.uipi_senders@.len() && #[trigger] t.uipi_senders@[i].0 == x;
    let j = choose|j: int| 0 <= j < t.uipi_receivers@.len() && #[trigger] t.uipi_receivers@[j].0 == y;
    assert(sys0.sender_live(t.uipi_senders@[i].0));
    assert(sys0.receiver_live(t.uipi_receivers@[j].0));
    crate::uintc_mat::lemma_word_in_zone(s, v / 32, crate::config::UINTC_MAX_SENDER + 1);
    lemma_set_then_clear_bit(w0, v);
    assert(sys1.mat.sender_enable@[wi] == with_bit(w0, v, true));
    assert(sys2.mat.sender_enable@ =~= sys0.mat.sender_enable@);
}

} // verus!
