use uipi::allocator::StackIntegerAllocator;
use uipi::config::{BITMAP_WORDS, PAGE_SIZE, UINTC_BASE, UINTC_MAX_RECEIVER, UINTC_MAX_SENDER};
use uipi::control::{
    return_from_result, sys_uipi_connection_ctl, sys_uipi_receiver_ctl, sys_uipi_sender_ctl,
    uipi_receiver_ctl_impl, uipi_sender_ctl_impl, TaskInner, CREATE, GET_INFO, LISTEN, RELEASE,
    UNLISTEN,
};
use uipi::handle::Uipi;
use uipi::ids::{ReceiverId, ReceiverInfo, ReceiverUintcId, SenderId, SenderInfo, SenderUintcId};
use uipi::uintc_mat::{receiver_addr_start, sender_addr_start};

fn create_sender(sys: &mut Uipi, task: &mut TaskInner) -> SenderInfo {
    let mut out: Option<SenderInfo> = None;
    let r = sys_uipi_sender_ctl(sys, task, CREATE | GET_INFO, 0, &mut out);
    let info = out.expect("sender info copied out");
    assert_eq!(r, info.id.0 as isize);
    info
}

fn create_receiver(sys: &mut Uipi, task: &mut TaskInner) -> ReceiverInfo {
    let mut out: Option<ReceiverInfo> = None;
    let r = sys_uipi_receiver_ctl(sys, task, 0, CREATE | GET_INFO, 0, &mut out);
    let info = out.expect("receiver info copied out");
    assert_eq!(r, info.id.0 as isize);
    info
}

fn sender_slot_zero(sys: &Uipi, slot: usize) -> bool {
    sys.mat.sender_ids[slot] == 0
        && (0..BITMAP_WORDS).all(|w| {
            sys.mat.sender_enable[slot * BITMAP_WORDS + w] == 0
                && sys.mat.sender_pending[slot * BITMAP_WORDS + w] == 0
        })
}

fn receiver_slot_zero(sys: &Uipi, slot: usize) -> bool {
    sys.mat.receiver_ids[slot] == 0
        && (0..BITMAP_WORDS).all(|w| {
            sys.mat.receiver_enable[slot * BITMAP_WORDS + w] == 0
                && sys.mat.receiver_pending[slot * BITMAP_WORDS + w] == 0
        })
}

#[test]
fn connect_and_signal() {
    let mut sys = Uipi::new();
    let mut task = TaskInner::new();
    let s0 = create_sender(&mut sys, &mut task);
    let r0 = create_receiver(&mut sys, &mut task);
    assert_eq!((s0.id.0, s0.uintc_id.0), (1, 1));
    assert_eq!((r0.id.0, r0.uintc_id.0), (1, 1));
    assert_eq!(sys_uipi_connection_ctl(&mut sys, &task, 1, 1, true), 0);
    assert_eq!(sys.mat.send(s0.uintc_id, r0.id.0), Some(1));
    assert_eq!(sys.mat.claim(r0.uintc_id), 1);
    assert_eq!(sys.mat.claim(r0.uintc_id), 0);
}

#[test]
fn unauthorised_signal() {
    let mut sys = Uipi::new();
    let mut task = TaskInner::new();
    let s0 = create_sender(&mut sys, &mut task);
    let r0 = create_receiver(&mut sys, &mut task);
    assert_eq!(sys.mat.send(s0.uintc_id, r0.id.0), None);
    assert_eq!(sys.mat.claim(r0.uintc_id), 0);
}

#[test]
fn double_allocation_recycles_ids() {
    let mut sys = Uipi::new();
    let mut task = TaskInner::new();
    let s = create_sender(&mut sys, &mut task);
    assert_eq!((s.id.0, s.uintc_id.0), (1, 1));
    let mut out = None;
    assert_eq!(sys_uipi_sender_ctl(&mut sys, &mut task, RELEASE, 1, &mut out), 1);
    assert!(sender_slot_zero(&sys, 1));
    let again = create_sender(&mut sys, &mut task);
    assert_eq!((again.id.0, again.uintc_id.0), (1, 1));
    assert_eq!(sys.mat.sender_ids[1], 1);
}

#[test]
fn exhaustion_then_release_then_create() {
    let mut sys = Uipi::new();
    let mut task = TaskInner::new();
    for i in 1..=UINTC_MAX_SENDER {
        let s = create_sender(&mut sys, &mut task);
        assert_eq!(s.id.0 as usize, i);
    }
    let mut out = None;
    assert_eq!(sys_uipi_sender_ctl(&mut sys, &mut task, CREATE, 0, &mut out), -1);
    assert!(out.is_none());
    assert_eq!(sys_uipi_sender_ctl(&mut sys, &mut task, RELEASE, 7, &mut out), 7);
    let s = create_sender(&mut sys, &mut task);
    assert_eq!((s.id.0, s.uintc_id.0), (7, 7));
}

#[test]
fn receiver_exhaustion() {
    let mut sys = Uipi::new();
    let mut task = TaskInner::new();
    for _ in 0..UINTC_MAX_RECEIVER {
        create_receiver(&mut sys, &mut task);
    }
    let mut out = None;
    assert_eq!(sys_uipi_receiver_ctl(&mut sys, &mut task, 0, CREATE, 0, &mut out), -1);
}

#[test]
fn listen_handover() {
    let mut sys = Uipi::new();
    let mut task = TaskInner::new();
    let a = create_receiver(&mut sys, &mut task);
    let b = create_receiver(&mut sys, &mut task);
    let mut out = None;
    assert_eq!(sys_uipi_receiver_ctl(&mut sys, &mut task, 0, LISTEN, a.id.0 as usize, &mut out), a.id.0 as isize);
    assert_eq!(sys.mat.contexts[0], a.uintc_id.0 as u32);
    assert_eq!(sys_uipi_receiver_ctl(&mut sys, &mut task, 0, LISTEN, b.id.0 as usize, &mut out), b.id.0 as isize);
    assert_eq!(sys.mat.contexts[0], b.uintc_id.0 as u32);
    assert_eq!(task.user_trap_info.as_ref().unwrap().listening_receiver_uintc_id, Some(b.uintc_id));
    assert_eq!(sys_uipi_receiver_ctl(&mut sys, &mut task, 0, UNLISTEN, 0, &mut out), 0);
    assert_eq!(sys.mat.contexts[0], 0);
    assert_eq!(task.user_trap_info.as_ref().unwrap().listening_receiver_uintc_id, None);
}

#[test]
fn unlisten_without_listen_is_noop() {
    let mut sys = Uipi::new();
    let mut task = TaskInner::new();
    let mut out = None;
    assert_eq!(sys_uipi_receiver_ctl(&mut sys, &mut task, 3, UNLISTEN, 12345, &mut out), 0);
    assert!(sys.mat.contexts.iter().all(|c| *c == 0));
}

#[test]
fn unlisten_combined_returns_id() {
    let mut sys = Uipi::new();
    let mut task = TaskInner::new();
    let a = create_receiver(&mut sys, &mut task);
    let mut out = None;
    let r = sys_uipi_receiver_ctl(&mut sys, &mut task, 1, LISTEN | UNLISTEN, a.id.0 as usize, &mut out);
    assert_eq!(r, a.id.0 as isize);
    assert_eq!(sys.mat.contexts[1], 0);
}

#[test]
fn release_of_listening_receiver_clears_hart() {
    let mut sys = Uipi::new();
    let mut task = TaskInner::new();
    let a = create_receiver(&mut sys, &mut task);
    let mut out = None;
    sys_uipi_receiver_ctl(&mut sys, &mut task, 2, LISTEN, a.id.0 as usize, &mut out);
    assert_eq!(sys.mat.contexts[2], a.uintc_id.0 as u32);
    assert_eq!(sys_uipi_receiver_ctl(&mut sys, &mut task, 2, RELEASE, a.id.0 as usize, &mut out), a.id.0 as isize);
    assert_eq!(sys.mat.contexts[2], 0);
    assert!(receiver_slot_zero(&sys, a.uintc_id.0 as usize));
    assert!(!task.memory_set.mmio_pages.contains(&receiver_addr_start(a.uintc_id)));
}

#[test]
fn process_teardown() {
    let mut sys = Uipi::new();
    let mut task = TaskInner::new();
    let senders: Vec<SenderInfo> = (0..3).map(|_| create_sender(&mut sys, &mut task)).collect();
    let receivers: Vec<ReceiverInfo> = (0..2).map(|_| create_receiver(&mut sys, &mut task)).collect();
    assert_eq!(sys_uipi_connection_ctl(&mut sys, &task, 2, 1, true), 0);
    assert!(sys.mat.send(senders[1].uintc_id, receivers[0].id.0).is_some());
    let mut trap = task.user_trap_info.take().unwrap();
    trap.release_all(&mut sys);
    assert!(trap.uipi_senders.is_empty() && trap.uipi_receivers.is_empty());
    for s in &senders {
        assert!(sender_slot_zero(&sys, s.uintc_id.0 as usize));
        assert!(sys.sender_uintc_pool.recycled.contains(&(s.uintc_id.0 as u32)));
    }
    for r in &receivers {
        assert!(receiver_slot_zero(&sys, r.uintc_id.0 as usize));
        assert!(sys.receiver_uintc_pool.recycled.contains(&(r.uintc_id.0 as u32)));
    }
}

#[test]
fn create_then_get_info() {
    let mut sys = Uipi::new();
    let mut task = TaskInner::new();
    create_sender(&mut sys, &mut task);
    let mut created = None;
    let id = sys_uipi_sender_ctl(&mut sys, &mut task, CREATE, 0, &mut created);
    assert_eq!(id, 2);
    assert!(created.is_none());
    let mut out = None;
    assert_eq!(sys_uipi_sender_ctl(&mut sys, &mut task, GET_INFO, 2, &mut out), 2);
    assert_eq!(out, Some(SenderInfo { id: SenderId(2), uintc_id: SenderUintcId(2) }));
}

#[test]
fn connect_then_disconnect_restores_bitmap() {
    let mut sys = Uipi::new();
    let mut task = TaskInner::new();
    for _ in 0..2 {
        create_sender(&mut sys, &mut task);
    }
    for _ in 0..40 {
        create_receiver(&mut sys, &mut task);
    }
    assert_eq!(sys_uipi_connection_ctl(&mut sys, &task, 2, 3, true), 0);
    let before = sys.mat.sender_enable.clone();
    assert_eq!(sys_uipi_connection_ctl(&mut sys, &task, 2, 33, true), 0);
    // slot 33 lives in the second word of sender slot 2's bitmap, bit 1
    assert_eq!(sys.mat.sender_enable[2 * BITMAP_WORDS + 1], 1 << 1);
    assert_eq!(sys.mat.sender_enable[2 * BITMAP_WORDS], 1 << 3);
    assert_eq!(sys_uipi_connection_ctl(&mut sys, &task, 2, 33, false), 0);
    assert_eq!(sys.mat.sender_enable, before);
}

#[test]
fn create_then_release_restores_registry() {
    let mut sys = Uipi::new();
    let mut task = TaskInner::new();
    let keep = create_sender(&mut sys, &mut task);
    let s = create_sender(&mut sys, &mut task);
    let mut out = None;
    assert_eq!(sys_uipi_sender_ctl(&mut sys, &mut task, RELEASE, s.id.0 as usize, &mut out), s.id.0 as isize);
    let trap = task.user_trap_info.as_ref().unwrap();
    assert_eq!(trap.uipi_senders.len(), 1);
    assert_eq!(trap.uipi_senders[0].0, keep);
    assert_eq!(sys.sender_id_pool.current, 3);
    assert_eq!(sys.sender_id_pool.recycled, vec![2]);
    assert!(!task.memory_set.mmio_pages.contains(&sender_addr_start(s.uintc_id)));
    assert!(task.memory_set.mmio_pages.contains(&sender_addr_start(keep.uintc_id)));
}

#[test]
fn create_and_release_in_one_call() {
    let mut sys = Uipi::new();
    let mut task = TaskInner::new();
    let mut out = None;
    assert_eq!(sys_uipi_sender_ctl(&mut sys, &mut task, CREATE | GET_INFO | RELEASE, 0, &mut out), 1);
    assert_eq!(out, Some(SenderInfo { id: SenderId(1), uintc_id: SenderUintcId(1) }));
    assert!(task.user_trap_info.as_ref().unwrap().uipi_senders.is_empty());
    assert!(sender_slot_zero(&sys, 1));
}

#[test]
fn unknown_flags_rejected() {
    let mut sys = Uipi::new();
    let mut task = TaskInner::new();
    let mut out = None;
    assert_eq!(sys_uipi_sender_ctl(&mut sys, &mut task, 8 | CREATE, 0, &mut out), -1);
    let mut rout = None;
    assert_eq!(sys_uipi_receiver_ctl(&mut sys, &mut task, 0, 32 | CREATE, 0, &mut rout), -1);
    assert!(task.user_trap_info.as_ref().unwrap().uipi_senders.is_empty());
    assert_eq!(sys.sender_id_pool.current, 1);
}

#[test]
fn task_without_trap_info_rejected() {
    let mut sys = Uipi::new();
    let mut task = TaskInner::new();
    task.user_trap_info = None;
    let mut out = None;
    assert_eq!(sys_uipi_sender_ctl(&mut sys, &mut task, CREATE, 0, &mut out), -1);
    let mut rout = None;
    assert_eq!(sys_uipi_receiver_ctl(&mut sys, &mut task, 0, UNLISTEN, 0, &mut rout), -1);
    assert_eq!(sys_uipi_connection_ctl(&mut sys, &task, 1, 1, true), -1);
}

#[test]
fn lookup_failures() {
    let mut sys = Uipi::new();
    let mut task = TaskInner::new();
    create_sender(&mut sys, &mut task);
    create_receiver(&mut sys, &mut task);
    let mut out = None;
    assert_eq!(sys_uipi_sender_ctl(&mut sys, &mut task, GET_INFO, 0, &mut out), -1);
    assert_eq!(sys_uipi_sender_ctl(&mut sys, &mut task, GET_INFO, 2, &mut out), -1);
    assert_eq!(sys_uipi_sender_ctl(&mut sys, &mut task, GET_INFO, 1 << 32 | 1, &mut out), -1);
    assert!(out.is_none());
    assert_eq!(sys_uipi_connection_ctl(&mut sys, &task, 1, 2, true), -1);
    assert_eq!(sys_uipi_connection_ctl(&mut sys, &task, 2, 1, true), -1);
    assert!(sys.mat.sender_enable.iter().all(|w| *w == 0));
}

#[test]
fn cross_task_receiver_not_nameable() {
    let mut sys = Uipi::new();
    let mut parent = TaskInner::new();
    let mut child = TaskInner::new();
    create_sender(&mut sys, &mut parent);
    let r = create_receiver(&mut sys, &mut child);
    assert_eq!(r.id.0, 1);
    assert_eq!(sys_uipi_connection_ctl(&mut sys, &parent, 1, 1, true), -1);
    let s2 = create_sender(&mut sys, &mut child);
    assert_eq!(s2.uintc_id.0, 2);
}

#[test]
fn mapping_failure_rolls_back() {
    let mut sys = Uipi::new();
    let mut task = TaskInner::new();
    assert!(task.memory_set.mmio_map(sender_addr_start(SenderUintcId(1)), PAGE_SIZE, 3).is_ok());
    let mut out = None;
    assert_eq!(uipi_sender_ctl_impl(&mut sys, &mut task, CREATE | GET_INFO, 0, &mut out), Err(-1));
    assert!(out.is_none());
    assert!(sender_slot_zero(&sys, 1));
    assert!(task.user_trap_info.as_ref().unwrap().uipi_senders.is_empty());
    assert_eq!(sys.sender_id_pool.recycled, vec![1]);
    assert_eq!(sys.sender_uintc_pool.recycled, vec![1]);
}

#[test]
fn receiver_impl_results() {
    let mut sys = Uipi::new();
    let mut task = TaskInner::new();
    let mut out = None;
    assert_eq!(uipi_receiver_ctl_impl(&mut sys, &mut task, 0, CREATE, 0, &mut out), Ok(1));
    assert_eq!(uipi_receiver_ctl_impl(&mut sys, &mut task, 0, GET_INFO, 1, &mut out), Ok(1));
    assert_eq!(out, Some(ReceiverInfo { id: ReceiverId(1), uintc_id: ReceiverUintcId(1) }));
    assert_eq!(uipi_receiver_ctl_impl(&mut sys, &mut task, 0, GET_INFO, 9, &mut out), Err(-1));
}

#[test]
fn result_codes() {
    assert_eq!(return_from_result(Ok(5)), 5);
    assert_eq!(return_from_result(Err(-1)), -1);
}

#[test]
fn slot_addresses() {
    assert_eq!(sender_addr_start(SenderUintcId(1)), UINTC_BASE + 0x2000);
    assert_eq!(receiver_addr_start(ReceiverUintcId(2)), UINTC_BASE + 0x200_0000 + 0x4000);
}

#[test]
fn allocator_recycles_last_returned_first() {
    let mut a = StackIntegerAllocator::new(1, 4);
    assert_eq!(a.allocate(), Some(1));
    assert_eq!(a.allocate(), Some(2));
    assert_eq!(a.allocate(), Some(3));
    assert_eq!(a.allocate(), None);
    a.dealloc(1);
    a.dealloc(3);
    assert_eq!(a.allocate(), Some(3));
    assert_eq!(a.allocate(), Some(1));
    assert_eq!(a.allocate(), None);
}

#[test]
fn claim_takes_lowest_sender() {
    let mut sys = Uipi::new();
    let mut task = TaskInner::new();
    for _ in 0..3 {
        create_sender(&mut sys, &mut task);
    }
    let r = create_receiver(&mut sys, &mut task);
    assert_eq!(sys_uipi_connection_ctl(&mut sys, &task, 3, 1, true), 0);
    assert_eq!(sys_uipi_connection_ctl(&mut sys, &task, 2, 1, true), 0);
    assert_eq!(sys.mat.send(SenderUintcId(3), r.id.0), Some(1));
    assert_eq!(sys.mat.send(SenderUintcId(2), r.id.0), Some(1));
    assert_eq!(sys.mat.claim(r.uintc_id), 2);
    assert_eq!(sys.mat.claim(r.uintc_id), 3);
    assert_eq!(sys.mat.claim(r.uintc_id), 0);
}
