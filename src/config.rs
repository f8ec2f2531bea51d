use vstd::prelude::*;

verus! {

/// Physical base address of the UINTC register window.
pub const UINTC_BASE: usize = 0x3000_0000;

/// Largest hardware sender slot index; slots run from 1 to this value.
pub const UINTC_MAX_SENDER: usize = 64;

/// Largest hardware receiver slot index; slots run from 1 to this value.
pub const UINTC_MAX_RECEIVER: usize = 64;

/// Number of hart contexts that the UINTC exposes.
pub const HART_COUNT: usize = 8;

/// Size of one page of the address space.
pub const PAGE_SIZE: usize = 0x1000;

/// Number of 32-bit words of one enable or pending bitmap: enough for every
/// bit from 0 to the largest slot index.
pub const BITMAP_WORDS: usize = UINTC_MAX_RECEIVER / 32 + 1;

} // verus!
