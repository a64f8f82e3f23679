//! Address-space layout constants shared by every part of the library.

use vstd::prelude::*;

verus! {

/// The fixed maximum size of an object, and so the size of one slot (1 GiB).
pub const MAX_SIZE: usize = 0x4000_0000;

/// The size of one page.
pub const PAGE_SIZE: usize = 0x1000;

/// The first address past the user (lower canonical) half of the address space.
pub const USER_END: u64 = 0x0000_8000_0000_0000;

/// The first address of the kernel (upper canonical) half of the address space.
pub const KERNEL_START: u64 = 0xffff_8000_0000_0000;

/// The number of slots that fit in the user half: `USER_END / MAX_SIZE`.
pub const NUM_SLOTS: usize = 0x2_0000;

/// Where the kernel heap begins.
pub const HEAP_START: u64 = 0xffff_ff00_0000_0000;

/// The initial size of the kernel heap (2 MiB).
pub const INITIAL_HEAP_LEN: usize = 0x20_0000;

/// The largest size the kernel heap may grow to.
pub const HEAP_MAX_LEN: u64 = 0x0000_0010_0000_0000 / 16;

/// True when `addr` lies in the kernel half of the address space.
pub open spec fn is_kernel_addr(addr: u64) -> bool {
    addr >= KERNEL_START
}

/// True when `addr` lies in the kernel half of the address space.
pub fn is_kernel(addr: u64) -> (r: bool)
    ensures
        r == is_kernel_addr(addr),
{
    addr >= KERNEL_START
}

} // verus!
