use vstd::prelude::*;

use crate::config::{BITMAP_WORDS, HART_COUNT, PAGE_SIZE, UINTC_BASE, UINTC_MAX_SENDER};
use crate::handle::{ReceiverHandle, SenderHandle, Uipi};
use crate::ids::{ReceiverId, ReceiverInfo, ReceiverUintcId, SenderId, SenderInfo, SenderUintcId};
use crate::memory_set::MemorySet;
use crate::registry::UserTrapInfo;
use crate::uintc_mat::{
    lemma_word_in_zone, lemma_word_owner, receiver_addr_start, sender_addr_start, with_bit,
    word_index, RECEIVER_BASE, RECEIVER_STRIDE, SENDER_BASE, SENDER_STRIDE,
};

verus! {

/// Control flag: create an endpoint.
pub const CREATE: usize = 1;
/// Control flag: release the endpoint.
pub const RELEASE: usize = 2;
/// Control flag: copy the endpoint's info out.
pub const GET_INFO: usize = 4;
/// Receiver control flag: listen on the current hart.
pub const LISTEN: usize = 8;
/// Receiver control flag: stop listening on the current hart.
pub const UNLISTEN: usize = 16;
/// Every flag that the sender control accepts.
pub const SENDER_CTL_ALL: usize = 7;
/// Every flag that the receiver control accepts.
pub const RECEIVER_CTL_ALL: usize = 31;

/// User-space start of the page of sender slot `u`.
pub open spec fn sender_page(u: u16) -> usize {
    (UINTC_BASE + SENDER_BASE + SENDER_STRIDE * u) as usize
}

/// User-space start of the page of receiver slot `u`.
pub open spec fn receiver_page(u: u16) -> usize {
    (UINTC_BASE + RECEIVER_BASE + RECEIVER_STRIDE * u) as usize
}

/// The registered sender with id `id`.
pub open spec fn sender_with_id(t: UserTrapInfo, id: int) -> SenderInfo {
    choose|x: SenderInfo| #[trigger] t.senders().contains(x) && x.id.0 == id
}

/// The registered receiver with id `id`.
pub open spec fn receiver_with_id(t: UserTrapInfo, id: int) -> ReceiverInfo {
    choose|x: ReceiverInfo| #[trigger] t.receivers().contains(x) && x.id.0 == id
}

/// The sender that a CREATE makes next.
pub open spec fn next_sender(sys: Uipi) -> SenderInfo {
    SenderInfo {
        id: SenderId(sys.sender_id_pool.next_value()),
        uintc_id: SenderUintcId(sys.sender_uintc_pool.next_value() as u16),
    }
}

/// The receiver that a CREATE makes next.
pub open spec fn next_receiver(sys: Uipi) -> ReceiverInfo {
    ReceiverInfo {
        id: ReceiverId(sys.receiver_id_pool.next_value()),
        uintc_id: ReceiverUintcId(sys.receiver_uintc_pool.next_value() as u16),
    }
}

/// Whether a sender CREATE succeeds: ids are left in both pools and the
/// new slot's page is not mapped yet.
pub open spec fn sender_create_ok(sys: Uipi, ms: MemorySet) -> bool {
    &&& sys.sender_id_pool.can_alloc()
    &&& sys.sender_uintc_pool.can_alloc()
    &&& !ms.is_mapped(sender_page(next_sender(sys).uintc_id.0))
}

/// Whether a receiver CREATE succeeds.
pub open spec fn receiver_create_ok(sys: Uipi, ms: MemorySet) -> bool {
    &&& sys.receiver_id_pool.can_alloc()
    &&& sys.receiver_uintc_pool.can_alloc()
    &&& !ms.is_mapped(receiver_page(next_receiver(sys).uintc_id.0))
}

/// A task's state as the control plane sees it.
pub struct TaskInner {
    pub memory_set: MemorySet,
    pub user_trap_info: Option<UserTrapInfo>,
}

impl TaskInner {
    pub open spec fn wf_in(&self, sys: &Uipi) -> bool {
        &&& self.memory_set.wf()
        &&& self.user_trap_info matches Some(t) ==> t.wf_in(sys)
    }

    /// A task with an empty address space and an initialised, empty trap info.
    pub fn new() -> (t: Self)
        ensures
            forall|sys: &Uipi| t.wf_in(sys),
            t.user_trap_info matches Some(u) && u.senders().is_empty() && u.receivers().is_empty()
                && u.listening_receiver_uintc_id.is_none(),
            forall|a: usize| !t.memory_set.is_mapped(a),
    {
        TaskInner { memory_set: MemorySet::new(), user_trap_info: Some(UserTrapInfo::new()) }
    }
}

/// Looks a sender id up in the task's registry.
fn find_sender_info(user_trap_info: &UserTrapInfo, sender_id: usize) -> (r: Result<
    (SenderInfo, usize),
    isize,
>)
    ensures
        r.is_ok() == (1 <= sender_id <= u32::MAX && user_trap_info.has_sender(sender_id as int)),
        r matches Err(e) ==> e == -1,
        r matches Ok(p) ==> p.1 < user_trap_info.uipi_senders@.len()
            && user_trap_info.uipi_senders@[p.1 as int].0 == p.0 && p.0.id.0 == sender_id,
{
    if sender_id == 0 || sender_id > u32::MAX as usize {
        return Err(-1);
    }
    match user_trap_info.sender_index(sender_id as u32) {
        Some(i) => Ok((user_trap_info.uipi_senders[i].0, i)),
        None => Err(-1),
    }
}

/// Looks a receiver id up in the task's registry.
fn find_receiver_info(user_trap_info: &UserTrapInfo, receiver_id: usize) -> (r: Result<
    (ReceiverInfo, usize),
    isize,
>)
    ensures
        r.is_ok() == (1 <= receiver_id <= u32::MAX && user_trap_info.has_receiver(
            receiver_id as int,
        )),
        r matches Err(e) ==> e == -1,
        r matches Ok(p) ==> p.1 < user_trap_info.uipi_receivers@.len()
            && user_trap_info.uipi_receivers@[p.1 as int].0 == p.0 && p.0.id.0 == receiver_id,
{
    if receiver_id == 0 || receiver_id > u32::MAX as usize {
        return Err(-1);
    }
    match user_trap_info.receiver_index(receiver_id as u32) {
        Some(i) => Ok((user_trap_info.uipi_receivers[i].0, i)),
        None => Err(-1),
    }
}

/// What a sender control call on an initialised task does: from the
/// state `(sys0, ms0, trap0, out0)` to `(sys, ms, trap, out)`, returning `r`.
pub open spec fn sender_ctl_post(
    sys0: Uipi,
    ms0: MemorySet,
    trap0: UserTrapInfo,
    out0: Option<SenderInfo>,
    flags: usize,
    sender_id: usize,
    r: Result<usize, isize>,
    sys: Uipi,
    ms: MemorySet,
    trap: UserTrapInfo,
    out: Option<SenderInfo>,
) -> bool {
    &&& sys.wf()
    &&& trap.wf_in(&sys)
    &&& ms.wf()
    &&& trap.receivers() == trap0.receivers()
    &&& trap.uipi_receivers@ == trap0.uipi_receivers@
    &&& trap.listening_receiver_uintc_id == trap0.listening_receiver_uintc_id
    &&& sys.receiver_id_pool == sys0.receiver_id_pool
    &&& sys.receiver_uintc_pool == sys0.receiver_uintc_pool
    &&& sys.mat.contexts@ == sys0.mat.contexts@
    &&& sys.mat.receiver_ids@ == sys0.mat.receiver_ids@
    &&& forall|i: ReceiverInfo| #[trigger] sys0.receiver_live(i) ==> sys.receiver_live(i)
    &&& flags & GET_INFO == 0 ==> out == out0
    &&& r matches Err(e) ==> e == -1 && out == out0
        && trap.senders() == trap0.senders()
        && sys.sender_id_pool.live() == sys0.sender_id_pool.live()
        && sys.sender_uintc_pool.live() == sys0.sender_uintc_pool.live()
    &&& flags & CREATE != 0 ==> {
        let info = next_sender(sys0);
        &&& r.is_ok() == sender_create_ok(sys0, ms0)
        &&& r.is_ok() ==> {
            &&& r == Ok::<usize, isize>(info.id.0 as usize)
            &&& !sys0.sender_id_pool.is_live(info.id.0)
            &&& !sys0.sender_uintc_pool.is_live(info.uintc_id.0 as u32)
            &&& flags & GET_INFO != 0 ==> out == Some(info)
            &&& flags & RELEASE == 0 ==> {
                &&& trap.senders() == trap0.senders().insert(info)
                &&& sys.sender_live(info)
                &&& ms.is_mapped(sender_page(info.uintc_id.0))
                &&& sys.sender_id_pool.live() == sys0.sender_id_pool.live().insert(
                    info.id.0,
                )
                &&& sys.sender_uintc_pool.live()
                    == sys0.sender_uintc_pool.live().insert(info.uintc_id.0 as u32)
            }
            &&& flags & RELEASE != 0 ==> {
                &&& trap.senders() == trap0.senders()
                &&& sys.sender_slot_idle(info.uintc_id.0 as int)
                &&& sys.sender_id_pool.live() == sys0.sender_id_pool.live()
                &&& sys.sender_uintc_pool.live() == sys0.sender_uintc_pool.live()
            }
        }
    }
    &&& flags & CREATE == 0 ==> {
        let info = sender_with_id(trap0, sender_id as int);
        &&& r.is_ok() == (1 <= sender_id <= u32::MAX && trap0.has_sender(sender_id as int))
        &&& r.is_ok() ==> {
            &&& r == Ok::<usize, isize>(sender_id)
            &&& trap0.senders().contains(info)
            &&& info.id.0 == sender_id
            &&& flags & GET_INFO != 0 ==> out == Some(info)
            &&& flags & RELEASE == 0 ==> {
                &&& trap.senders() == trap0.senders()
                &&& sys.sender_id_pool.live() == sys0.sender_id_pool.live()
                &&& sys.sender_uintc_pool.live() == sys0.sender_uintc_pool.live()
            }
            &&& flags & RELEASE != 0 ==> {
                &&& trap.senders() == trap0.senders().remove(info)
                &&& !trap.has_sender(sender_id as int)
                &&& sys.sender_slot_idle(info.uintc_id.0 as int)
                &&& !ms.is_mapped(sender_page(info.uintc_id.0))
                &&& sys.sender_id_pool.live() == sys0.sender_id_pool.live().remove(
                    info.id.0,
                )
                &&& sys.sender_uintc_pool.live()
                    == sys0.sender_uintc_pool.live().remove(info.uintc_id.0 as u32)
            }
        }
    }
}

/// Sender control on a task whose trap info is initialised; see
/// `uipi_sender_ctl_impl`.
fn sender_ctl_registered(
    sys: &mut Uipi,
    memory_set: &mut MemorySet,
    trap: &mut UserTrapInfo,
    flags: usize,
    sender_id: usize,
    out: &mut Option<SenderInfo>,
) -> (r: Result<usize, isize>)
    requires
        old(sys).wf(),
        old(trap).wf_in(old(sys)),
        old(memory_set).wf(),
        flags <= SENDER_CTL_ALL,
    ensures
        sender_ctl_post(
            *old(sys),
            *old(memory_set),
            *old(trap),
            *old(out),
            flags,
            sender_id,
            r,
            *final(sys),
            *final(memory_set),
            *final(trap),
            *final(out),
        ),

{
    let ghost sys0 = *sys;
    let ghost trap0 = *trap;
    let (info, index) = if flags & CREATE != 0 {
        let handle = match SenderHandle::new(sys) {
            Some(h) => h,
            None => {
                proof {
                    assert(sys.sender_id_pool.live() =~= sys0.sender_id_pool.live());
                    assert(sys.sender_uintc_pool.live() =~= sys0.sender_uintc_pool.live());
                }
                return Err(-1);
            },
        };
        let info = handle.0;
        let page = sender_addr_start(info.uintc_id);
        if memory_set.mmio_map(page, PAGE_SIZE, 0b11).is_err() {
            handle.release(sys);
            proof {
                assert(sys.sender_id_pool.live() =~= sys0.sender_id_pool.live());
                assert(sys.sender_uintc_pool.live() =~= sys0.sender_uintc_pool.live());
                assert forall|i: int| 0 <= i < trap.uipi_senders@.len() implies sys.sender_live(
                    #[trigger] trap.uipi_senders@[i].0,
                ) by {
                    assert(sys0.sender_live(trap.uipi_senders@[i].0));
                }
            }
            return Err(-1);
        }
        proof {
            if trap.has_sender(info.id.0 as int) {
                let y = choose|y: SenderInfo| #[trigger] trap.senders().contains(y) && y.id.0 == info.id.0;
                let k = choose|k: int| 0 <= k < trap.uipi_senders@.len()
                    && #[trigger] trap.uipi_senders@[k].0 == y;
                assert(sys0.sender_live(trap.uipi_senders@[k].0));
            }
        }
        trap.insert_sender(handle);
        let index = trap.uipi_senders.len() - 1;
        proof {
            assert(trap.uipi_senders@[index as int].0 == info);
            assert(sys.sender_id_pool.live() =~= sys0.sender_id_pool.live().insert(info.id.0));
            assert(sys.sender_uintc_pool.live() =~= sys0.sender_uintc_pool.live().insert(
                info.uintc_id.0 as u32,
            ));
            assert forall|i: int| 0 <= i < trap.uipi_senders@.len() implies sys.sender_live(
                #[trigger] trap.uipi_senders@[i].0,
            ) by {
                if i < trap0.uipi_senders@.len() {
                    assert(sys0.sender_live(trap0.uipi_senders@[i].0));
                }
            }
        }
        (info, index)
    } else {
        match find_sender_info(trap, sender_id) {
            Ok(p) => {
                proof {
                    assert(trap.senders().contains(p.0));
                    assert(p.0 == sender_with_id(trap0, sender_id as int)) by {
                        let x = sender_with_id(trap0, sender_id as int);
                        let k = choose|k: int| 0 <= k < trap.uipi_senders@.len()
                            && #[trigger] trap.uipi_senders@[k].0 == x;
                        if k < p.1 {
                            assert(trap.uipi_senders@[k].0.id != trap.uipi_senders@[p.1 as int].0.id);
                        } else if k > p.1 {
                            assert(trap.uipi_senders@[p.1 as int].0.id != trap.uipi_senders@[k].0.id);
                        }
                    }
                    assert(sys.sender_id_pool.live() =~= sys0.sender_id_pool.live());
                }
                p
            },
            Err(e) => {
                return Err(e);
            },
        }
    };
    let ghost sys1 = *sys;
    let ghost trap1 = *trap;
    if flags & GET_INFO != 0 {
        *out = Some(info);
    }
    if flags & RELEASE != 0 {
        let _ = memory_set.mmio_unmap(sender_addr_start(info.uintc_id), PAGE_SIZE);
        let handle = trap.remove_sender(index);
        proof {
            assert(sys1.sender_live(info));
        }
        handle.release(sys);
        proof {
            assert forall|i: int| 0 <= i < trap.uipi_senders@.len() implies sys.sender_live(
                #[trigger] trap.uipi_senders@[i].0,
            ) by {
                let io = if i < index { i } else { i + 1 };
                let x = trap1.uipi_senders@[io].0;
                assert(trap.uipi_senders@[i].0 == x);
                assert(sys1.sender_live(x));
                if io < index {
                    assert(trap1.uipi_senders@[io].0.id != trap1.uipi_senders@[index as int].0.id);
                } else {
                    assert(trap1.uipi_senders@[index as int].0.id != trap1.uipi_senders@[io].0.id);
                }
            }
            assert(sys.sender_id_pool.live() =~= sys1.sender_id_pool.live().remove(info.id.0));
            assert(sys.sender_uintc_pool.live() =~= sys1.sender_uintc_pool.live().remove(
                info.uintc_id.0 as u32,
            ));
            assert(trap1.senders().contains(info)) by {
                assert(trap1.uipi_senders@[index as int].0 == info);
            }
            if flags & CREATE != 0 {
                assert(trap1.senders().remove(info) =~= trap0.senders());
                assert(sys.sender_id_pool.live() =~= sys0.sender_id_pool.live());
                assert(sys.sender_uintc_pool.live() =~= sys0.sender_uintc_pool.live());
            }
        }
    }
    Ok(info.id.0 as usize)
}

/// The listening slot that a receiver control call leaves behind, for the
/// receiver in slot `u`: LISTEN binds it, UNLISTEN clears the binding, and
/// RELEASE clears it where it is this receiver's.
pub open spec fn listening_after(
    flags: usize,
    listening: Option<ReceiverUintcId>,
    u: ReceiverUintcId,
) -> Option<ReceiverUintcId> {
    let l1 = if flags & LISTEN != 0 { Some(u) } else { listening };
    let l2 = if flags & UNLISTEN != 0 { None } else { l1 };
    if flags & RELEASE != 0 && l2 == Some(u) { None } else { l2 }
}

/// The hart-context register that a receiver control call leaves behind.
pub open spec fn context_after(
    flags: usize,
    context: u32,
    listening: Option<ReceiverUintcId>,
    u: ReceiverUintcId,
) -> u32 {
    let l1 = if flags & LISTEN != 0 { Some(u) } else { listening };
    let c1 = if flags & LISTEN != 0 { u.0 as u32 } else { context };
    let l2 = if flags & UNLISTEN != 0 { None } else { l1 };
    let c2 = if flags & UNLISTEN != 0 { 0 } else { c1 };
    if flags & RELEASE != 0 && l2 == Some(u) { 0 } else { c2 }
}

fn is_listening_on(listening: Option<ReceiverUintcId>, u: ReceiverUintcId) -> (r: bool)
    ensures
        r == (listening == Some(u)),
{
    match listening {
        Some(l) => l.0 == u.0,
        None => false,
    }
}

/// Clears the hart's listening register and the task's listening slot.
fn unlisten(sys: &mut Uipi, trap: &mut UserTrapInfo, hart: usize)
    requires
        old(sys).wf(),
        hart < HART_COUNT,
    ensures
        final(sys).wf(),
        final(sys).mat.contexts@ == old(sys).mat.contexts@.update(hart as int, 0),
        final(sys).mat.sender_ids@ == old(sys).mat.sender_ids@,
        final(sys).mat.sender_enable@ == old(sys).mat.sender_enable@,
        final(sys).mat.sender_pending@ == old(sys).mat.sender_pending@,
        final(sys).mat.receiver_ids@ == old(sys).mat.receiver_ids@,
        final(sys).mat.receiver_enable@ == old(sys).mat.receiver_enable@,
        final(sys).mat.receiver_pending@ == old(sys).mat.receiver_pending@,
        final(sys).sender_id_pool == old(sys).sender_id_pool,
        final(sys).sender_uintc_pool == old(sys).sender_uintc_pool,
        final(sys).receiver_id_pool == old(sys).receiver_id_pool,
        final(sys).receiver_uintc_pool == old(sys).receiver_uintc_pool,
        final(trap).uipi_senders@ == old(trap).uipi_senders@,
        final(trap).uipi_receivers@ == old(trap).uipi_receivers@,
        final(trap).listening_receiver_uintc_id.is_none(),
{
    trap.listening_receiver_uintc_id = None;
    sys.mat.set_listening_receiver_id(hart, None);
}

/// The slot of the receiver that a receiver control call acts on: the one
/// CREATE makes, or else the registered one with id `receiver_id`.
pub open spec fn receiver_subject_slot(
    sys0: Uipi,
    trap0: UserTrapInfo,
    flags: usize,
    receiver_id: usize,
) -> ReceiverUintcId {
    if flags & CREATE != 0 {
        next_receiver(sys0).uintc_id
    } else {
        receiver_with_id(trap0, receiver_id as int).uintc_id
    }
}

/// What a receiver control call on an initialised task does: from the
/// state `(sys0, ms0, trap0, out0)` to `(sys, ms, trap, out)`, returning `r`.
pub open spec fn receiver_ctl_post(
    sys0: Uipi,
    ms0: MemorySet,
    trap0: UserTrapInfo,
    out0: Option<ReceiverInfo>,
    hart: usize,
    flags: usize,
    receiver_id: usize,
    r: Result<usize, isize>,
    sys: Uipi,
    ms: MemorySet,
    trap: UserTrapInfo,
    out: Option<ReceiverInfo>,
) -> bool {
    &&& sys.wf()
    &&& trap.wf_in(&sys)
    &&& ms.wf()
    &&& trap.senders() == trap0.senders()
    &&& trap.uipi_senders@ == trap0.uipi_senders@
    &&& sys.sender_id_pool == sys0.sender_id_pool
    &&& sys.sender_uintc_pool == sys0.sender_uintc_pool
    &&& sys.mat.sender_ids@ == sys0.mat.sender_ids@
    &&& forall|i: SenderInfo| #[trigger] sys0.sender_live(i) ==> sys.sender_live(i)
    &&& r.is_err() ==> sys.mat.contexts@ == sys0.mat.contexts@
        && trap.listening_receiver_uintc_id == trap0.listening_receiver_uintc_id
    &&& r.is_ok() ==> {
        let u = receiver_subject_slot(sys0, trap0, flags, receiver_id);
        let l0 = trap0.listening_receiver_uintc_id;
        &&& sys.mat.contexts@ == sys0.mat.contexts@.update(
            hart as int,
            context_after(flags, sys0.mat.contexts@[hart as int], l0, u),
        )
        &&& trap.listening_receiver_uintc_id == listening_after(flags, l0, u)
    }
    &&& flags & GET_INFO == 0 ==> out == out0
    &&& r matches Err(e) ==> e == -1 && out == out0
        && trap.receivers() == trap0.receivers()
        && sys.receiver_id_pool.live() == sys0.receiver_id_pool.live()
        && sys.receiver_uintc_pool.live() == sys0.receiver_uintc_pool.live()
    &&& flags & CREATE != 0 ==> {
        let info = next_receiver(sys0);
        &&& r.is_ok() == receiver_create_ok(sys0, ms0)
        &&& r.is_ok() ==> {
            &&& r == Ok::<usize, isize>(info.id.0 as usize)
            &&& !sys0.receiver_id_pool.is_live(info.id.0)
            &&& !sys0.receiver_uintc_pool.is_live(info.uintc_id.0 as u32)
            &&& flags & GET_INFO != 0 ==> out == Some(info)
            &&& flags & RELEASE == 0 ==> {
                &&& trap.receivers() == trap0.receivers().insert(info)
                &&& sys.receiver_live(info)
                &&& ms.is_mapped(receiver_page(info.uintc_id.0))
                &&& sys.receiver_id_pool.live() == sys0.receiver_id_pool.live().insert(
                    info.id.0,
                )
                &&& sys.receiver_uintc_pool.live()
                    == sys0.receiver_uintc_pool.live().insert(info.uintc_id.0 as u32)
            }
            &&& flags & RELEASE != 0 ==> {
                &&& trap.receivers() == trap0.receivers()
                &&& sys.receiver_slot_idle(info.uintc_id.0 as int)
                &&& sys.receiver_id_pool.live() == sys0.receiver_id_pool.live()
                &&& sys.receiver_uintc_pool.live() == sys0.receiver_uintc_pool.live()
            }
        }
    }
    &&& flags & CREATE == 0 ==> {
        let info = receiver_with_id(trap0, receiver_id as int);
        &&& r.is_ok() == (1 <= receiver_id <= u32::MAX && trap0.has_receiver(receiver_id as int))
        &&& r.is_ok() ==> {
            &&& r == Ok::<usize, isize>(receiver_id)
            &&& trap0.receivers().contains(info)
            &&& info.id.0 == receiver_id
            &&& flags & GET_INFO != 0 ==> out == Some(info)
            &&& flags & RELEASE == 0 ==> {
                &&& trap.receivers() == trap0.receivers()
                &&& sys.receiver_id_pool.live() == sys0.receiver_id_pool.live()
                &&& sys.receiver_uintc_pool.live() == sys0.receiver_uintc_pool.live()
            }
            &&& flags & RELEASE != 0 ==> {
                &&& trap.receivers() == trap0.receivers().remove(info)
                &&& !trap.has_receiver(receiver_id as int)
                &&& sys.receiver_slot_idle(info.uintc_id.0 as int)
                &&& !ms.is_mapped(receiver_page(info.uintc_id.0))
                &&& sys.receiver_id_pool.live() == sys0.receiver_id_pool.live().remove(
                    info.id.0,
                )
                &&& sys.receiver_uintc_pool.live()
                    == sys0.receiver_uintc_pool.live().remove(info.uintc_id.0 as u32)
            }
        }
    }
}

/// Receiver control on a task whose trap info is initialised; see
/// `uipi_receiver_ctl_impl`.
fn receiver_ctl_registered(
    sys: &mut Uipi,
    memory_set: &mut MemorySet,
    trap: &mut UserTrapInfo,
    hart: usize,
    flags: usize,
    receiver_id: usize,
    out: &mut Option<ReceiverInfo>,
) -> (r: Result<usize, isize>)
    requires
        old(sys).wf(),
        old(trap).wf_in(old(sys)),
        old(memory_set).wf(),
        flags <= RECEIVER_CTL_ALL,
        hart < HART_COUNT,
    ensures
        receiver_ctl_post(
            *old(sys),
            *old(memory_set),
            *old(trap),
            *old(out),
            hart,
            flags,
            receiver_id,
            r,
            *final(sys),
            *final(memory_set),
            *final(trap),
            *final(out),
        ),

{
    let ghost sys0 = *sys;
    let ghost trap0 = *trap;
    let (info, index) = if flags & CREATE != 0 {
        let handle = match ReceiverHandle::new(sys) {
            Some(h) => h,
            None => {
                proof {
                    assert(sys.receiver_id_pool.live() =~= sys0.receiver_id_pool.live());
                    assert(sys.receiver_uintc_pool.live() =~= sys0.receiver_uintc_pool.live());
                }
                return Err(-1);
            },
        };
        let info = handle.0;
        let page = receiver_addr_start(info.uintc_id);
        if memory_set.mmio_map(page, PAGE_SIZE, 0b11).is_err() {
            handle.release(sys);
            proof {
                assert(sys.receiver_id_pool.live() =~= sys0.receiver_id_pool.live());
                assert(sys.receiver_uintc_pool.live() =~= sys0.receiver_uintc_pool.live());
                assert forall|i: int| 0 <= i < trap.uipi_receivers@.len() implies sys.receiver_live(
                    #[trigger] trap.uipi_receivers@[i].0,
                ) by {
                    assert(sys0.receiver_live(trap.uipi_receivers@[i].0));
                }
            }
            return Err(-1);
        }
        proof {
            if trap.has_receiver(info.id.0 as int) {
                let y = choose|y: ReceiverInfo| #[trigger] trap.receivers().contains(y) && y.id.0 == info.id.0;
                let k = choose|k: int| 0 <= k < trap.uipi_receivers@.len()
                    && #[trigger] trap.uipi_receivers@[k].0 == y;
                assert(sys0.receiver_live(trap.uipi_receivers@[k].0));
            }
        }
        trap.insert_receiver(handle);
        let index = trap.uipi_receivers.len() - 1;
        proof {
            assert(trap.uipi_receivers@[index as int].0 == info);
            assert(sys.receiver_id_pool.live() =~= sys0.receiver_id_pool.live().insert(info.id.0));
            assert(sys.receiver_uintc_pool.live() =~= sys0.receiver_uintc_pool.live().insert(
                info.uintc_id.0 as u32,
            ));
            assert forall|i: int| 0 <= i < trap.uipi_receivers@.len() implies sys.receiver_live(
                #[trigger] trap.uipi_receivers@[i].0,
            ) by {
                if i < trap0.uipi_receivers@.len() {
                    assert(sys0.receiver_live(trap0.uipi_receivers@[i].0));
                }
            }
        }
        (info, index)
    } else {
        match find_receiver_info(trap, receiver_id) {
            Ok(p) => {
                proof {
                    assert(trap.receivers().contains(p.0));
                    assert(p.0 == receiver_with_id(trap0, receiver_id as int)) by {
                        let x = receiver_with_id(trap0, receiver_id as int);
                        let k = choose|k: int| 0 <= k < trap.uipi_receivers@.len()
                            && #[trigger] trap.uipi_receivers@[k].0 == x;
                        if k < p.1 {
                            assert(trap.uipi_receivers@[k].0.id != trap.uipi_receivers@[p.1 as int].0.id);
                        } else if k > p.1 {
                            assert(trap.uipi_receivers@[p.1 as int].0.id != trap.uipi_receivers@[k].0.id);
                        }
                    }
                    assert(sys.receiver_id_pool.live() =~= sys0.receiver_id_pool.live());
                }
                p
            },
            Err(e) => {
                return Err(e);
            },
        }
    };
    if flags & GET_INFO != 0 {
        *out = Some(info);
    }
    if flags & LISTEN != 0 {
        sys.mat.set_listening_receiver_id(hart, Some(info.uintc_id));
        trap.listening_receiver_uintc_id = Some(info.uintc_id);
    }
    if flags & UNLISTEN != 0 {
        unlisten(sys, trap, hart);
    }
    let ghost sys1 = *sys;
    let ghost trap1 = *trap;
    if flags & RELEASE != 0 {
        if is_listening_on(trap.listening_receiver_uintc_id, info.uintc_id) {
            sys.mat.set_listening_receiver_id(hart, None);
            trap.listening_receiver_uintc_id = None;
        }
        let ghost sys1 = *sys;
        let ghost trap1 = *trap;
        let _ = memory_set.mmio_unmap(receiver_addr_start(info.uintc_id), PAGE_SIZE);
        let handle = trap.remove_receiver(index);
        proof {
            assert(sys1.receiver_live(info));
        }
        handle.release(sys);
        proof {
            assert forall|i: int| 0 <= i < trap.uipi_receivers@.len() implies sys.receiver_live(
                #[trigger] trap.uipi_receivers@[i].0,
            ) by {
                let io = if i < index { i } else { i + 1 };
                let x = trap1.uipi_receivers@[io].0;
                assert(trap.uipi_receivers@[i].0 == x);
                assert(sys1.receiver_live(x));
                if io < index {
                    assert(trap1.uipi_receivers@[io].0.id != trap1.uipi_receivers@[index as int].0.id);
                } else {
                    assert(trap1.uipi_receivers@[index as int].0.id != trap1.uipi_receivers@[io].0.id);
                }
            }
            assert(sys.receiver_id_pool.live() =~= sys1.receiver_id_pool.live().remove(info.id.0));
            assert(sys.receiver_uintc_pool.live() =~= sys1.receiver_uintc_pool.live().remove(
                info.uintc_id.0 as u32,
            ));
            assert(trap1.receivers().contains(info)) by {
                assert(trap1.uipi_receivers@[index as int].0 == info);
            }
            if flags & CREATE != 0 {
                assert(trap1.receivers().remove(info) =~= trap0.receivers());
                assert(sys.receiver_id_pool.live() =~= sys0.receiver_id_pool.live());
                assert(sys.receiver_uintc_pool.live() =~= sys0.receiver_uintc_pool.live());
            }
        }
    }
    proof {
        assert(sys.mat.contexts@ =~= sys0.mat.contexts@.update(
            hart as int,
            context_after(
                flags,
                sys0.mat.contexts@[hart as int],
                trap0.listening_receiver_uintc_id,
                info.uintc_id,
            ),
        ));
    }
    Ok(info.id.0 as usize)
}

/// Sender control (`flags` drawn from CREATE, RELEASE and GET_INFO) on the
/// calling task: fails with -1 on an unknown flag or a task without trap
/// info, changing nothing; otherwise acts as `sender_ctl_post` states.
pub fn uipi_sender_ctl_impl(
    sys: &mut Uipi,
    task: &mut TaskInner,
    flags: usize,
    sender_id: usize,
    out: &mut Option<SenderInfo>,
) -> (r: Result<usize, isize>)
    requires
        old(sys).wf(),
        old(task).wf_in(old(sys)),
    ensures
        final(sys).wf(),
        final(task).wf_in(final(sys)),
        flags > SENDER_CTL_ALL || old(task).user_trap_info.is_none() ==> r == Err::<usize, isize>(
            -1isize,
        ) && *final(sys) == *old(sys) && *final(task) == *old(task) && *final(out) == *old(out),
        flags <= SENDER_CTL_ALL && old(task).user_trap_info.is_some() ==> final(task).user_trap_info.is_some()
            && sender_ctl_post(
            *old(sys),
            old(task).memory_set,
            old(task).user_trap_info->0,
            *old(out),
            flags,
            sender_id,
            r,
            *final(sys),
            final(task).memory_set,
            final(task).user_trap_info->0,
            *final(out),
        ),
{
    if flags > SENDER_CTL_ALL {
        return Err(-1);
    }
    let mut trap = match task.user_trap_info.take() {
        Some(t) => t,
        None => {
            return Err(-1);
        },
    };
    let r = sender_ctl_registered(sys, &mut task.memory_set, &mut trap, flags, sender_id, out);
    task.user_trap_info = Some(trap);
    r
}

/// Receiver control (`flags` drawn from CREATE, RELEASE, GET_INFO, LISTEN
/// and UNLISTEN) on the calling task, running on hart `hart`: fails with -1
/// on an unknown flag or a task without trap info, changing nothing. UNLISTEN
/// alone ignores the id, clears the hart's listening register and the task's
/// listening slot, and returns 0. Otherwise acts as `receiver_ctl_post`
/// states.
pub fn uipi_receiver_ctl_impl(
    sys: &mut Uipi,
    task: &mut TaskInner,
    hart: usize,
    flags: usize,
    receiver_id: usize,
    out: &mut Option<ReceiverInfo>,
) -> (r: Result<usize, isize>)
    requires
        old(sys).wf(),
        old(task).wf_in(old(sys)),
        hart < HART_COUNT,
    ensures
        final(sys).wf(),
        final(task).wf_in(final(sys)),
        flags > RECEIVER_CTL_ALL || old(task).user_trap_info.is_none() ==> r == Err::<usize, isize>(
            -1isize,
        ) && *final(sys) == *old(sys) && *final(task) == *old(task) && *final(out) == *old(out),
        flags == UNLISTEN && old(task).user_trap_info.is_some() ==> {
            &&& r == Ok::<usize, isize>(0)
            &&& final(sys).mat.contexts@ == old(sys).mat.contexts@.update(hart as int, 0)
            &&& final(task).user_trap_info matches Some(t) && t.listening_receiver_uintc_id.is_none()
                && t.uipi_senders@ == (old(task).user_trap_info->0).uipi_senders@
                && t.uipi_receivers@ == (old(task).user_trap_info->0).uipi_receivers@
            &&& final(sys).mat.sender_ids@ == old(sys).mat.sender_ids@
            &&& final(sys).mat.sender_enable@ == old(sys).mat.sender_enable@
            &&& final(sys).mat.sender_pending@ == old(sys).mat.sender_pending@
            &&& final(sys).mat.receiver_ids@ == old(sys).mat.receiver_ids@
            &&& final(sys).mat.receiver_enable@ == old(sys).mat.receiver_enable@
            &&& final(sys).mat.receiver_pending@ == old(sys).mat.receiver_pending@
            &&& final(sys).sender_id_pool == old(sys).sender_id_pool
            &&& final(sys).sender_uintc_pool == old(sys).sender_uintc_pool
            &&& final(sys).receiver_id_pool == old(sys).receiver_id_pool
            &&& final(sys).receiver_uintc_pool == old(sys).receiver_uintc_pool
            &&& final(task).memory_set == old(task).memory_set
            &&& *final(out) == *old(out)
        },
        flags <= RECEIVER_CTL_ALL && flags != UNLISTEN && old(task).user_trap_info.is_some()
            ==> final(task).user_trap_info.is_some() && receiver_ctl_post(
            *old(sys),
            old(task).memory_set,
            old(task).user_trap_info->0,
            *old(out),
            hart,
            flags,
            receiver_id,
            r,
            *final(sys),
            final(task).memory_set,
            final(task).user_trap_info->0,
            *final(out),
        ),
{
    if flags > RECEIVER_CTL_ALL {
        return Err(-1);
    }
    let mut trap = match task.user_trap_info.take() {
        Some(t) => t,
        None => {
            return Err(-1);
        },
    };
    let r = if flags == UNLISTEN {
        unlisten(sys, &mut trap, hart);
        Ok(0)
    } else {
        receiver_ctl_registered(sys, &mut task.memory_set, &mut trap, hart, flags, receiver_id, out)
    };
    task.user_trap_info = Some(trap);
    r
}

/// What a connection control call does: from `sys0` to `sys`, returning `r`.
pub open spec fn connection_ctl_post(
    sys0: Uipi,
    task: TaskInner,
    sender_id: usize,
    receiver_id: usize,
    connected: bool,
    r: Result<usize, isize>,
    sys: Uipi,
) -> bool {
    &&& r.is_ok() == (task.user_trap_info matches Some(t) && 1 <= sender_id <= u32::MAX
        && t.has_sender(sender_id as int) && 1 <= receiver_id <= u32::MAX && t.has_receiver(
        receiver_id as int,
    ))
    &&& r.is_err() ==> r == Err::<usize, isize>(-1isize) && sys == sys0
    &&& r.is_ok() ==> {
        let t = task.user_trap_info->0;
        let s = sender_with_id(t, sender_id as int).uintc_id.0;
        let v = receiver_with_id(t, receiver_id as int).uintc_id.0;
        &&& r == Ok::<usize, isize>(0)
        &&& sys.mat.sender_enable@ == sys0.mat.sender_enable@.update(
            word_index(s as int, v as int / 32),
            with_bit(
                sys0.mat.sender_enable@[word_index(s as int, v as int / 32)],
                v as int,
                connected,
            ),
        )
        &&& sys.mat.contexts@ == sys0.mat.contexts@
        &&& sys.mat.sender_ids@ == sys0.mat.sender_ids@
        &&& sys.mat.sender_pending@ == sys0.mat.sender_pending@
        &&& sys.mat.receiver_ids@ == sys0.mat.receiver_ids@
        &&& sys.mat.receiver_enable@ == sys0.mat.receiver_enable@
        &&& sys.mat.receiver_pending@ == sys0.mat.receiver_pending@
        &&& sys.sender_id_pool == sys0.sender_id_pool
        &&& sys.sender_uintc_pool == sys0.sender_uintc_pool
        &&& sys.receiver_id_pool == sys0.receiver_id_pool
        &&& sys.receiver_uintc_pool == sys0.receiver_uintc_pool
    }
}

/// Connection control: sets (`connected`) or clears the enable bit that lets
/// the caller's sender `sender_id` signal its receiver `receiver_id`. Fails
/// with -1, changing nothing, when the task has no trap info or either id is
/// not registered with it.
pub fn uipi_connection_ctl_impl(
    sys: &mut Uipi,
    task: &TaskInner,
    sender_id: usize,
    receiver_id: usize,
    connected: bool,
) -> (r: Result<usize, isize>)
    requires
        old(sys).wf(),
        task.wf_in(old(sys)),
    ensures
        final(sys).wf(),
        task.wf_in(final(sys)),
        connection_ctl_post(*old(sys), *task, sender_id, receiver_id, connected, r, *final(sys)),

{
    let trap = match &task.user_trap_info {
        Some(t) => t,
        None => {
            return Err(-1);
        },
    };
    let (sender, si) = match find_sender_info(trap, sender_id) {
        Ok(p) => p,
        Err(e) => {
            return Err(e);
        },
    };
    let (receiver, ri) = match find_receiver_info(trap, receiver_id) {
        Ok(p) => p,
        Err(e) => {
            return Err(e);
        },
    };
    let ghost sys0 = *sys;
    proof {
        assert(sys.sender_live(trap.uipi_senders@[si as int].0));
        assert(sys.sender_live(sender));
        assert(sys.receiver_live(trap.uipi_receivers@[ri as int].0));
        assert(trap.senders().contains(sender));
        assert(trap.receivers().contains(receiver));
        let x = sender_with_id(*trap, sender_id as int);
        let k = choose|k: int| 0 <= k < trap.uipi_senders@.len() && #[trigger] trap.uipi_senders@[k].0 == x;
        if k < si {
            assert(trap.uipi_senders@[k].0.id != trap.uipi_senders@[si as int].0.id);
        } else if k > si {
            assert(trap.uipi_senders@[si as int].0.id != trap.uipi_senders@[k].0.id);
        }
        let y = receiver_with_id(*trap, receiver_id as int);
        let m = choose|m: int| 0 <= m < trap.uipi_receivers@.len() && #[trigger] trap.uipi_receivers@[m].0 == y;
        if m < ri {
            assert(trap.uipi_receivers@[m].0.id != trap.uipi_receivers@[ri as int].0.id);
        } else if m > ri {
            assert(trap.uipi_receivers@[ri as int].0.id != trap.uipi_receivers@[m].0.id);
        }
    }
    sys.mat.set_connected(sender.uintc_id, receiver.uintc_id, connected);
    proof {
        let s = sender.uintc_id.0 as int;
        let wi = word_index(s, receiver.uintc_id.0 as int / 32);
        lemma_word_in_zone(s, receiver.uintc_id.0 as int / 32, UINTC_MAX_SENDER + 1);
        assert forall|v: u32|
            1 <= v <= UINTC_MAX_SENDER && !#[trigger] sys.sender_uintc_pool.is_live(v) implies sys.sender_slot_idle(
            v as int,
        ) by {
            assert(sys0.sender_slot_idle(v as int));
            assert forall|w: int| 0 <= w < BITMAP_WORDS implies sys.mat.sender_enable@[
                #[trigger] word_index(v as int, w)] == 0 && sys.mat.sender_pending@[word_index(v as int, w)] == 0 by {
                lemma_word_in_zone(v as int, w, UINTC_MAX_SENDER + 1);
                assert(sys0.mat.sender_enable@[word_index(v as int, w)] == 0);
                if word_index(v as int, w) != wi {
                    assert(sys.mat.sender_enable@[word_index(v as int, w)] == sys0.mat.sender_enable@[word_index(v as int, w)]);
                }
                if word_index(v as int, w) == wi {
                    lemma_word_in_zone(s, receiver.uintc_id.0 as int / 32, UINTC_MAX_SENDER + 1);
                    assert(receiver.uintc_id.0 as int / 32 < BITMAP_WORDS);
                    lemma_word_owner(v as int, w, s);
                    assert(sys0.sender_uintc_pool.is_live(sender.uintc_id.0 as u32));
                    assert(v == sender.uintc_id.0 as u32);
                }
            }
        }
    }
    Ok(0)
}

/// Turns a control result into a system-call return value: the value on
/// success, the (negative) error code on failure.
pub fn return_from_result(r: Result<usize, isize>) -> (v: isize)
    ensures
        v == result_code(r),
{
    match r {
        Ok(u) => u as isize,
        Err(e) => e,
    }
}

/// The system-call return value of a control result.
pub open spec fn result_code(r: Result<usize, isize>) -> isize {
    match r {
        Ok(u) => u as isize,
        Err(e) => e,
    }
}

/// System call `uipi_sender_ctl`: the return value of `uipi_sender_ctl_impl`.
pub fn sys_uipi_sender_ctl(
    sys: &mut Uipi,
    task: &mut TaskInner,
    flags: usize,
    sender_id: usize,
    out: &mut Option<SenderInfo>,
) -> (v: isize)
    requires
        old(sys).wf(),
        old(task).wf_in(old(sys)),
    ensures
        final(sys).wf(),
        final(task).wf_in(final(sys)),
        flags > SENDER_CTL_ALL || old(task).user_trap_info.is_none() ==> v == -1
            && *final(sys) == *old(sys) && *final(task) == *old(task) && *final(out) == *old(out),
        flags <= SENDER_CTL_ALL && old(task).user_trap_info.is_some() ==> final(task).user_trap_info.is_some()
            && exists|r: Result<usize, isize>|
            v == result_code(r) && sender_ctl_post(
                *old(sys),
                old(task).memory_set,
                old(task).user_trap_info->0,
                *old(out),
                flags,
                sender_id,
                r,
                *final(sys),
                final(task).memory_set,
                final(task).user_trap_info->0,
                *final(out),
            ),
{
    return_from_result(uipi_sender_ctl_impl(sys, task, flags, sender_id, out))
}

/// System call `uipi_receiver_ctl`: the return value of
/// `uipi_receiver_ctl_impl`.
pub fn sys_uipi_receiver_ctl(
    sys: &mut Uipi,
    task: &mut TaskInner,
    hart: usize,
    flags: usize,
    receiver_id: usize,
    out: &mut Option<ReceiverInfo>,
) -> (v: isize)
    requires
        old(sys).wf(),
        old(task).wf_in(old(sys)),
        hart < HART_COUNT,
    ensures
        final(sys).wf(),
        final(task).wf_in(final(sys)),
        flags > RECEIVER_CTL_ALL || old(task).user_trap_info.is_none() ==> v == -1
            && *final(sys) == *old(sys) && *final(task) == *old(task) && *final(out) == *old(out),
        flags == UNLISTEN && old(task).user_trap_info.is_some() ==> v == 0
            && final(sys).mat.contexts@ == old(sys).mat.contexts@.update(hart as int, 0)
            && (final(task).user_trap_info matches Some(t) && t.listening_receiver_uintc_id.is_none()),
        flags <= RECEIVER_CTL_ALL && flags != UNLISTEN && old(task).user_trap_info.is_some()
            ==> final(task).user_trap_info.is_some() && exists|r: Result<usize, isize>|
            v == result_code(r) && receiver_ctl_post(
                *old(sys),
                old(task).memory_set,
                old(task).user_trap_info->0,
                *old(out),
                hart,
                flags,
                receiver_id,
                r,
                *final(sys),
                final(task).memory_set,
                final(task).user_trap_info->0,
                *final(out),
            ),
{
    return_from_result(uipi_receiver_ctl_impl(sys, task, hart, flags, receiver_id, out))
}

/// System call `uipi_connection_ctl`: the return value of
/// `uipi_connection_ctl_impl`.
pub fn sys_uipi_connection_ctl(
    sys: &mut Uipi,
    task: &TaskInner,
    sender_id: usize,
    receiver_id: usize,
    connected: bool,
) -> (v: isize)
    requires
        old(sys).wf(),
        task.wf_in(old(sys)),
    ensures
        final(sys).wf(),
        task.wf_in(final(sys)),
        exists|r: Result<usize, isize>|
            v == result_code(r) && connection_ctl_post(
                *old(sys),
                *task,
                sender_id,
                receiver_id,
                connected,
                r,
                *final(sys),
            ),
{
    return_from_result(uipi_connection_ctl_impl(sys, task, sender_id, receiver_id, connected))
}

} // verus!
