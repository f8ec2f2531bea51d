use uipi::control::{CREATE, GET_INFO, LISTEN, RELEASE, UNLISTEN};
use uipi::ids::{ReceiverId, ReceiverUintcId, SenderId, SenderUintcId};
use uipi::ipi::{status_of, Receiver, Sender};
use uipi::user_syscall::{
    sys_dup, sys_exit, sys_read, sys_uipi_connection_ctl, sys_uipi_sender_ctl, sys_waitpid,
    sys_yield, SyscallRequest,
};

fn req(id: usize, a0: usize, a1: usize, a2: usize) -> SyscallRequest {
    SyscallRequest { id, a0, a1, a2 }
}

#[test]
fn syscall_numbers_and_arguments() {
    assert_eq!(sys_dup(3), req(24, 3, 0, 0));
    assert_eq!(sys_read(0, 0x1000, 16), req(63, 0, 0x1000, 16));
    assert_eq!(sys_yield(), req(124, 0, 0, 0));
    assert_eq!(sys_exit(-1), req(93, usize::MAX, 0, 0));
    assert_eq!(sys_waitpid(-1, 0x20), req(260, usize::MAX, 0x20, 0));
    assert_eq!(sys_uipi_sender_ctl(CREATE | GET_INFO, 0, 0x80), req(700, 5, 0, 0x80));
    assert_eq!(sys_uipi_connection_ctl(1, 2, true), req(702, 1, 2, 1));
    assert_eq!(sys_uipi_connection_ctl(1, 2, false), req(702, 1, 2, 0));
}

#[test]
fn endpoint_requests() {
    let s = Sender { id: SenderId(4), uintc_id: SenderUintcId(2) };
    let r = Receiver { id: ReceiverId(5), uintc_id: ReceiverUintcId(3) };
    assert_eq!(s.connect(&r), req(702, 4, 5, 1));
    assert_eq!(s.disconnect(&r), req(702, 4, 5, 0));
    assert_eq!(s.release(), req(700, RELEASE, 4, 0));
    assert_eq!(Sender::new(0x100), req(700, CREATE | GET_INFO, 0, 0x100));
    assert_eq!(Receiver::new(0x100), req(701, CREATE | GET_INFO, 0, 0x100));
    assert_eq!(r.release(), req(701, RELEASE, 5, 0));
    assert_eq!(Receiver::unlisten(), req(701, UNLISTEN, 0, 0));
    assert_eq!(s.send(ReceiverId(5)), (0x400_0000 + 0x4000, 5));
}

#[test]
fn listen_refused_while_listening() {
    let r = Receiver { id: ReceiverId(5), uintc_id: ReceiverUintcId(3) };
    assert_eq!(r.listen(Some(ReceiverUintcId(1))), Err(-1));
    assert_eq!(r.listen(None), Ok(req(701, LISTEN, 5, 0)));
    assert_eq!(Receiver::receive(None), None);
    assert_eq!(Receiver::receive(Some(ReceiverUintcId(3))), Some(0x400_0000 + 0x200_0000 + 0x6000));
}

#[test]
fn status_codes() {
    assert_eq!(status_of(0), Ok(()));
    assert_eq!(status_of(7), Ok(()));
    assert_eq!(status_of(-1), Err(-1));
}
