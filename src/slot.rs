//! Slots: fixed-size regions of the user address space, each able to hold one object.

use vstd::prelude::*;

use crate::layout::{MAX_SIZE, NUM_SLOTS, USER_END};

verus! {

/// A slot number: the region `[index * MAX_SIZE, (index + 1) * MAX_SIZE)` of user memory.
#[derive(Debug, Clone, Copy, PartialEq, Eq, Structural, PartialOrd, Ord)]
pub struct Slot {
    pub index: usize,
}

/// The first address of the slot with the given index.
pub open spec fn slot_base(index: nat) -> int {
    index * MAX_SIZE
}

impl Slot {
    /// A slot is well formed when its whole region lies in user memory.
    pub open spec fn wf(self) -> bool {
        self.index < NUM_SLOTS
    }

    /// The slot with the given index, if its region lies in user memory.
    pub fn new(index: usize) -> (r: Option<Slot>)
        ensures
            r is Some <==> index < NUM_SLOTS,
            r matches Some(s) ==> s.index == index && s.wf(),
    {
        if index < NUM_SLOTS {
            Some(Slot { index })
        } else {
            None
        }
    }

    /// The slot that holds the user address `addr`; `None` for any address outside user memory.
    pub fn from_vaddr(addr: u64) -> (r: Option<Slot>)
        ensures
            r is Some <==> addr < USER_END,
            r matches Some(s) ==> s.index == addr / (MAX_SIZE as u64) && s.wf(),
    {
        if addr < USER_END {
            proof {
                assert(addr / (MAX_SIZE as u64) < NUM_SLOTS) by (nonlinear_arith)
                    requires
                        addr < USER_END,
                ;
            }
            let index = (addr / (MAX_SIZE as u64)) as usize;
            Some(Slot { index })
        } else {
            None
        }
    }

    /// The first virtual address of this slot.
    pub fn start_vaddr(&self) -> (r: u64)
        requires
            self.wf(),
        ensures
            r == slot_base(self.index as nat),
            r + MAX_SIZE <= USER_END,
    {
        proof {
            assert(self.index * MAX_SIZE + MAX_SIZE <= USER_END) by (nonlinear_arith)
                requires
                    self.index < NUM_SLOTS,
            ;
        }
        (self.index as u64) * (MAX_SIZE as u64)
    }

    /// The slot's index.
    pub fn raw(&self) -> (r: usize)
        ensures
            r == self.index,
    {
        self.index
    }
}

} // verus!
