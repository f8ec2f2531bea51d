//! User-level inter-processor interrupt (UIPI) control: bounded id pools,
//! a register-level model of the user-interrupt controller (UINTC), endpoint
//! handles, per-task endpoint registries and the control-plane system calls,
//! together with the user-side system-call encoding.

pub mod config;
pub mod ids;
pub mod allocator;
pub mod uintc_mat;
pub mod handle;
pub mod memory_set;
pub mod registry;
pub mod control;
pub mod user_syscall;
pub mod ipi;
pub mod laws;
