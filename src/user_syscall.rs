use vstd::prelude::*;

verus! {

pub const SYSCALL_DUP: usize = 24;
pub const SYSCALL_OPEN: usize = 56;
pub const SYSCALL_CLOSE: usize = 57;
pub const SYSCALL_PIPE: usize = 59;
pub const SYSCALL_READ: usize = 63;
pub const SYSCALL_WRITE: usize = 64;
pub const SYSCALL_EXIT: usize = 93;
pub const SYSCALL_YIELD: usize = 124;
pub const SYSCALL_GET_TIME: usize = 169;
pub const SYSCALL_GETPID: usize = 172;
pub const SYSCALL_FORK: usize = 220;
pub const SYSCALL_EXEC: usize = 221;
pub const SYSCALL_WAITPID: usize = 260;
pub const SYSCALL_SPAWN: usize = 400;
pub const SYSCALL_INIT_USER_TRAP: usize = 600;
pub const SYSCALL_SEND_MSG: usize = 601;
pub const SYSCALL_SET_TIMER: usize = 602;
pub const SYSCALL_CLAIM_EXT_INT: usize = 603;
pub const SYSCALL_SET_EXT_INT_ENABLE: usize = 604;
pub const SYSCALL_UIPI_SENDER_CTL: usize = 700;
pub const SYSCALL_UIPI_RECEIVER_CTL: usize = 701;
pub const SYSCALL_UIPI_CONNECTION_CTL: usize = 702;

/// A system call as the user library issues it: its number and three
/// word-sized arguments.
#[derive(Clone, Copy, Debug, PartialEq, Eq, Structural)]
pub struct SyscallRequest {
    pub id: usize,
    pub a0: usize,
    pub a1: usize,
    pub a2: usize,
}

/// The request with number `id` and arguments `a0`, `a1`, `a2`.
pub open spec fn request(id: usize, a0: usize, a1: usize, a2: usize) -> SyscallRequest {
    SyscallRequest { id, a0, a1, a2 }
}

/// Duplicates file descriptor `fd`.
pub fn sys_dup(fd: usize) -> (r: SyscallRequest)
    ensures
        r == request(SYSCALL_DUP, fd, 0usize, 0usize),
{
    SyscallRequest { id: SYSCALL_DUP, a0: fd, a1: 0, a2: 0 }
}

/// Opens the NUL-terminated path at `path_addr`.
pub fn sys_open(path_addr: usize, flags: u32) -> (r: SyscallRequest)
    ensures
        r == request(SYSCALL_OPEN, path_addr, (flags as usize), 0usize),
{
    SyscallRequest { id: SYSCALL_OPEN, a0: path_addr, a1: flags as usize, a2: 0 }
}

/// Closes `fd`.
pub fn sys_close(fd: usize) -> (r: SyscallRequest)
    ensures
        r == request(SYSCALL_CLOSE, fd, 0usize, 0usize),
{
    SyscallRequest { id: SYSCALL_CLOSE, a0: fd, a1: 0, a2: 0 }
}

/// Creates a pipe; its two descriptors are written at `pipe_addr`.
pub fn sys_pipe(pipe_addr: usize) -> (r: SyscallRequest)
    ensures
        r == request(SYSCALL_PIPE, pipe_addr, 0usize, 0usize),
{
    SyscallRequest { id: SYSCALL_PIPE, a0: pipe_addr, a1: 0, a2: 0 }
}

/// Reads from `fd` into the buffer at `buffer_addr`.
pub fn sys_read(fd: usize, buffer_addr: usize, buffer_len: usize) -> (r: SyscallRequest)
    ensures
        r == request(SYSCALL_READ, fd, buffer_addr, buffer_len),
{
    SyscallRequest { id: SYSCALL_READ, a0: fd, a1: buffer_addr, a2: buffer_len }
}

/// Writes the buffer at `buffer_addr` to `fd`.
pub fn sys_write(fd: usize, buffer_addr: usize, buffer_len: usize) -> (r: SyscallRequest)
    ensures
        r == request(SYSCALL_WRITE, fd, buffer_addr, buffer_len),
{
    SyscallRequest { id: SYSCALL_WRITE, a0: fd, a1: buffer_addr, a2: buffer_len }
}

/// Ends the calling process with `exit_code`; the call does not return.
pub fn sys_exit(exit_code: i32) -> (r: SyscallRequest)
    ensures
        r == request(SYSCALL_EXIT, (exit_code as usize), 0usize, 0usize),
{
    SyscallRequest { id: SYSCALL_EXIT, a0: exit_code as usize, a1: 0, a2: 0 }
}

/// Gives up the processor.
pub fn sys_yield() -> (r: SyscallRequest)
    ensures
        r == request(SYSCALL_YIELD, 0usize, 0usize, 0usize),
{
    SyscallRequest { id: SYSCALL_YIELD, a0: 0, a1: 0, a2: 0 }
}

/// Writes the current time at `time_addr`.
pub fn sys_get_time(time_addr: usize, tz: usize) -> (r: SyscallRequest)
    ensures
        r == request(SYSCALL_GET_TIME, time_addr, tz, 0usize),
{
    SyscallRequest { id: SYSCALL_GET_TIME, a0: time_addr, a1: tz, a2: 0 }
}

/// Returns the caller's process id.
pub fn sys_getpid() -> (r: SyscallRequest)
    ensures
        r == request(SYSCALL_GETPID, 0usize, 0usize, 0usize),
{
    SyscallRequest { id: SYSCALL_GETPID, a0: 0, a1: 0, a2: 0 }
}

/// Forks the calling process.
pub fn sys_fork() -> (r: SyscallRequest)
    ensures
        r == request(SYSCALL_FORK, 0usize, 0usize, 0usize),
{
    SyscallRequest { id: SYSCALL_FORK, a0: 0, a1: 0, a2: 0 }
}

/// Replaces the process image with the program at `path_addr`.
pub fn sys_exec(path_addr: usize, args_addr: usize) -> (r: SyscallRequest)
    ensures
        r == request(SYSCALL_EXEC, path_addr, args_addr, 0usize),
{
    SyscallRequest { id: SYSCALL_EXEC, a0: path_addr, a1: args_addr, a2: 0 }
}

/// Starts the program at `path_addr` as a child process.
pub fn sys_spawn(path_addr: usize) -> (r: SyscallRequest)
    ensures
        r == request(SYSCALL_SPAWN, path_addr, 0usize, 0usize),
{
    SyscallRequest { id: SYSCALL_SPAWN, a0: path_addr, a1: 0, a2: 0 }
}

/// Waits for child `pid`; its exit code is written at `exit_code_addr`.
pub fn sys_waitpid(pid: isize, exit_code_addr: usize) -> (r: SyscallRequest)
    ensures
        r == request(SYSCALL_WAITPID, (pid as usize), exit_code_addr, 0usize),
{
    SyscallRequest { id: SYSCALL_WAITPID, a0: pid as usize, a1: exit_code_addr, a2: 0 }
}

/// Initialises user-level trap handling for the caller.
pub fn sys_init_user_trap() -> (r: SyscallRequest)
    ensures
        r == request(SYSCALL_INIT_USER_TRAP, 0usize, 0usize, 0usize),
{
    SyscallRequest { id: SYSCALL_INIT_USER_TRAP, a0: 0, a1: 0, a2: 0 }
}

/// Sends `msg` to process `pid`.
pub fn sys_send_msg(pid: usize, msg: usize) -> (r: SyscallRequest)
    ensures
        r == request(SYSCALL_SEND_MSG, pid, msg, 0usize),
{
    SyscallRequest { id: SYSCALL_SEND_MSG, a0: pid, a1: msg, a2: 0 }
}

/// Arms a user timer at `time_us`.
pub fn sys_set_timer(time_us: isize) -> (r: SyscallRequest)
    ensures
        r == request(SYSCALL_SET_TIMER, (time_us as usize), 0usize, 0usize),
{
    SyscallRequest { id: SYSCALL_SET_TIMER, a0: time_us as usize, a1: 0, a2: 0 }
}

/// Claims the external interrupt of `device_id`.
pub fn sys_claim_ext_int(device_id: usize) -> (r: SyscallRequest)
    ensures
        r == request(SYSCALL_CLAIM_EXT_INT, device_id, 0usize, 0usize),
{
    SyscallRequest { id: SYSCALL_CLAIM_EXT_INT, a0: device_id, a1: 0, a2: 0 }
}

/// Enables or disables the external interrupt of `device_id`.
pub fn sys_set_ext_int_enable(device_id: usize, enable: usize) -> (r: SyscallRequest)
    ensures
        r == request(SYSCALL_SET_EXT_INT_ENABLE, device_id, enable, 0usize),
{
    SyscallRequest { id: SYSCALL_SET_EXT_INT_ENABLE, a0: device_id, a1: enable, a2: 0 }
}

/// UIPI sender control on `sender_id`; info is copied to `buf_addr`.
pub fn sys_uipi_sender_ctl(flags: usize, sender_id: u32, buf_addr: usize) -> (r: SyscallRequest)
    ensures
        r == request(SYSCALL_UIPI_SENDER_CTL, flags, (sender_id as usize), buf_addr),
{
    SyscallRequest { id: SYSCALL_UIPI_SENDER_CTL, a0: flags, a1: sender_id as usize, a2: buf_addr }
}

/// UIPI receiver control on `receiver_id`; info is copied to `buf_addr`.
pub fn sys_uipi_receiver_ctl(flags: usize, receiver_id: u32, buf_addr: usize) -> (r: SyscallRequest)
    ensures
        r == request(SYSCALL_UIPI_RECEIVER_CTL, flags, (receiver_id as usize), buf_addr),
{
    SyscallRequest { id: SYSCALL_UIPI_RECEIVER_CTL, a0: flags, a1: receiver_id as usize, a2: buf_addr }
}

/// Connects (or disconnects) sender `sender_id` to receiver `receiver_id`.
pub fn sys_uipi_connection_ctl(sender_id: u32, receiver_id: u32, connected: bool) -> (r:
    SyscallRequest)
    ensures
        r == request(
            SYSCALL_UIPI_CONNECTION_CTL,
            sender_id as usize,
            receiver_id as usize,
            if connected { 1usize } else { 0usize },
        ),
{
    let flag: usize = if connected { 1 } else { 0 };
    SyscallRequest {
        id: SYSCALL_UIPI_CONNECTION_CTL,
        a0: sender_id as usize,
        a1: receiver_id as usize,
        a2: flag,
    }
}

} // verus!
