use vstd::prelude::*;

use crate::control::{CREATE, GET_INFO, LISTEN, RELEASE, UNLISTEN};
use crate::ids::{ReceiverId, ReceiverUintcId, SenderId, SenderUintcId};
use crate::user_syscall::{
    request, sys_uipi_connection_ctl, sys_uipi_receiver_ctl, sys_uipi_sender_ctl, SyscallRequest,
    SYSCALL_UIPI_CONNECTION_CTL, SYSCALL_UIPI_RECEIVER_CTL, SYSCALL_UIPI_SENDER_CTL,
};

verus! {

/// Base at which the kernel maps endpoint pages into user space.
pub const USER_UINTC_BASE: usize = 0x400_0000;
pub const USER_SENDER_BASE: usize = 0x0;
pub const USER_SENDER_STRIDE: usize = 0x2000;
pub const SENDER_SEND_STATUS_OFFSET: usize = 0x0;
pub const USER_RECEIVER_BASE: usize = 0x200_0000;
pub const USER_RECEIVER_STRIDE: usize = 0x2000;
pub const RECEIVER_CLAIM_BASE: usize = 0x0;

/// A sender endpoint as user code holds it.
#[derive(Clone, Copy, Debug, PartialEq, Eq, Structural)]
pub struct Sender {
    pub id: SenderId,
    pub uintc_id: SenderUintcId,
}

/// A receiver endpoint as user code holds it.
#[derive(Clone, Copy, Debug, PartialEq, Eq, Structural)]
pub struct Receiver {
    pub id: ReceiverId,
    pub uintc_id: ReceiverUintcId,
}

/// Success or the error code of a system-call return value.
pub fn status_of(ret: isize) -> (r: Result<(), isize>)
    ensures
        ret >= 0 ==> r == Ok::<(), isize>(()),
        ret < 0 ==> r == Err::<(), isize>(ret),
{
    if ret >= 0 {
        Ok(())
    } else {
        Err(ret)
    }
}

impl Sender {
    /// The request that creates a sender and copies its info to `buf_addr`.
    pub fn new(buf_addr: usize) -> (r: SyscallRequest)
        ensures
            r == request(SYSCALL_UIPI_SENDER_CTL, CREATE | GET_INFO, 0, buf_addr),
    {
        sys_uipi_sender_ctl(CREATE | GET_INFO, 0, buf_addr)
    }

    /// The request that connects (or disconnects) this sender to `receiver`.
    pub fn set_connected(&self, receiver: &Receiver, connected: bool) -> (r: SyscallRequest)
        ensures
            r == request(
                SYSCALL_UIPI_CONNECTION_CTL,
                self.id.0 as usize,
                receiver.id.0 as usize,
                if connected { 1usize } else { 0usize },
            ),
    {
        sys_uipi_connection_ctl(self.id.0, receiver.id.0, connected)
    }

    pub fn connect(&self, receiver: &Receiver) -> (r: SyscallRequest)
        ensures
            r == request(SYSCALL_UIPI_CONNECTION_CTL, self.id.0 as usize, receiver.id.0 as usize, 1),
    {
        self.set_connected(receiver, true)
    }

    pub fn disconnect(&self, receiver: &Receiver) -> (r: SyscallRequest)
        ensures
            r == request(SYSCALL_UIPI_CONNECTION_CTL, self.id.0 as usize, receiver.id.0 as usize, 0),
    {
        self.set_connected(receiver, false)
    }

    /// Where and what to store to signal `receiver`: the send-status word of
    /// this sender's page, and the receiver's id.
    pub fn send(&self, receiver: ReceiverId) -> (r: (usize, u32))
        requires
            self.uintc_id.0 <= 0x1000,
        ensures
            r.0 == USER_UINTC_BASE + USER_SENDER_BASE + USER_SENDER_STRIDE * self.uintc_id.0
                + SENDER_SEND_STATUS_OFFSET,
            r.1 == receiver.0,
    {
        let u = self.uintc_id.0 as usize;
        (USER_UINTC_BASE + USER_SENDER_BASE + USER_SENDER_STRIDE * u + SENDER_SEND_STATUS_OFFSET, receiver.0)
    }

    /// The request that releases this sender.
    pub fn release(&self) -> (r: SyscallRequest)
        ensures
            r == request(SYSCALL_UIPI_SENDER_CTL, RELEASE, self.id.0 as usize, 0),
    {
        sys_uipi_sender_ctl(RELEASE, self.id.0, 0)
    }
}

impl Receiver {
    /// The request that creates a receiver and copies its info to `buf_addr`.
    pub fn new(buf_addr: usize) -> (r: SyscallRequest)
        ensures
            r == request(SYSCALL_UIPI_RECEIVER_CTL, CREATE | GET_INFO, 0, buf_addr),
    {
        sys_uipi_receiver_ctl(CREATE | GET_INFO, 0, buf_addr)
    }

    /// The request that makes this receiver listen on the current hart;
    /// refused with -1 while the process already listens on `listening`.
    pub fn listen(&self, listening: Option<ReceiverUintcId>) -> (r: Result<SyscallRequest, isize>)
        ensures
            listening.is_some() ==> r == Err::<SyscallRequest, isize>(-1isize),
            listening.is_none() ==> r == Ok::<SyscallRequest, isize>(
                request(SYSCALL_UIPI_RECEIVER_CTL, LISTEN, self.id.0 as usize, 0),
            ),
    {
        if listening.is_some() {
            return Err(-1);
        }
        Ok(sys_uipi_receiver_ctl(LISTEN, self.id.0, 0))
    }

    /// The request that stops listening.
    pub fn unlisten() -> (r: SyscallRequest)
        ensures
            r == request(SYSCALL_UIPI_RECEIVER_CTL, UNLISTEN, 0, 0),
    {
        sys_uipi_receiver_ctl(UNLISTEN, 0, 0)
    }

    /// The claim word to read for the receiver listened on, if any.
    pub fn receive(listening: Option<ReceiverUintcId>) -> (r: Option<usize>)
        requires
            listening matches Some(u) ==> u.0 <= 0x1000,
        ensures
            listening.is_none() ==> r.is_none(),
            listening matches Some(u) ==> r == Some(
                (USER_UINTC_BASE + USER_RECEIVER_BASE + USER_RECEIVER_STRIDE * u.0
                    + RECEIVER_CLAIM_BASE) as usize,
            ),
    {
        match listening {
            Some(u) => {
                let v = u.0 as usize;
                Some(USER_UINTC_BASE + USER_RECEIVER_BASE + USER_RECEIVER_STRIDE * v + RECEIVER_CLAIM_BASE)
            },
            None => None,
        }
    }

    /// The request that releases this receiver.
    pub fn release(&self) -> (r: SyscallRequest)
        ensures
            r == request(SYSCALL_UIPI_RECEIVER_CTL, RELEASE, self.id.0 as usize, 0),
    {
        sys_uipi_receiver_ctl(RELEASE, self.id.0, 0)
    }
}

} // verus!
