//! The kernel heap's growth: where the heap ends, how much it grows by when an allocation does
//! not fit, and which fresh region must be mapped for it.
//!
//! The free list itself is kept by the caller; this state decides what memory backs it.

use vstd::prelude::*;

use crate::binding::{CacheType, MappingCursor, MappingFlags, MappingSettings, Protections};
use crate::layout::{HEAP_MAX_LEN, HEAP_START, INITIAL_HEAP_LEN, PAGE_SIZE};

verus! {

/// Why the heap could not be set up or grown.
#[derive(Debug, Clone, Copy, PartialEq, Eq, Structural)]
pub enum HeapError {
    /// The heap was used before it was initialised.
    NotInitialized,
    /// The heap was initialised a second time.
    AlreadyInitialized,
    /// Growing by the requested amount would pass the heap's maximum size.
    Exhausted,
}

/// A fresh region of the heap, to be backed by zeroed pages.
#[derive(Debug, Clone, Copy, PartialEq, Eq, Structural)]
pub struct HeapRegion {
    pub cursor: MappingCursor,
    pub settings: MappingSettings,
}

/// The attributes of every heap mapping: readable, writable, write-back, global.
pub open spec fn heap_settings() -> MappingSettings {
    MappingSettings {
        prot: Protections { read: true, write: true, execute: false },
        cache: CacheType::WriteBack,
        flags: MappingFlags { user: false, global: true },
    }
}

/// `x` rounded up to a multiple of `a`.
pub open spec fn round_up(x: int, a: int) -> int {
    ((x + a - 1) / a) * a
}

/// How much the heap grows by for an allocation of `size` bytes aligned to `align` that did not
/// fit: twice the request, padded to its alignment and rounded up to whole pages.
pub open spec fn growth(size: int, align: int) -> int {
    round_up(round_up(size, align), PAGE_SIZE as int) * 2
}

fn heap_mapping_settings() -> (r: MappingSettings)
    ensures
        r == heap_settings(),
{
    MappingSettings {
        prot: Protections { read: true, write: true, execute: false },
        cache: CacheType::WriteBack,
        flags: MappingFlags { user: false, global: true },
    }
}

/// How much the heap grows by for an allocation of `size` bytes aligned to `align` that did not
/// fit; `None` when that amount does not fit in 64 bits.
pub fn growth_len(size: u64, align: u64) -> (r: Option<u64>)
    requires
        align > 0,
    ensures
        r == (if growth(size as int, align as int) <= u64::MAX {
            Some(growth(size as int, align as int) as u64)
        } else {
            None
        }),
{
    let s = size as u128;
    let a = align as u128;
    let page = PAGE_SIZE as u128;
    proof {
        let si = s as int;
        let ai = a as int;
        assert(((si + ai - 1) / ai) * ai <= si + ai - 1) by (nonlinear_arith)
            requires
                ai > 0,
                si >= 0,
        ;
    }
    let padded = ((s + a - 1) / a) * a;
    proof {
        let pi = padded as int;
        assert(((pi + 4096 - 1) / 4096) * 4096 <= pi + 4096 - 1) by (nonlinear_arith)
            requires
                pi >= 0,
        ;
    }
    let pages = ((padded + page - 1) / page) * page;
    let total = pages * 2;
    if total <= u64::MAX as u128 {
        Some(total as u64)
    } else {
        None
    }
}

/// The growth amount is at least twice the request padded to its alignment, the padded request
/// is at least the request, and the growth is a whole number of pages.
pub proof fn lemma_growth_covers_request(size: nat, align: nat)
    requires
        align > 0,
    ensures
        growth(size as int, align as int) >= 2 * round_up(size as int, align as int),
        round_up(size as int, align as int) >= size,
        growth(size as int, align as int) % (PAGE_SIZE as int) == 0,
{
    let si = size as int;
    let ai = align as int;
    let p = round_up(si, ai);
    assert(p >= si) by (nonlinear_arith)
        requires
            p == ((si + ai - 1) / ai) * ai,
            ai > 0,
            si >= 0,
    ;
    let g = round_up(p, PAGE_SIZE as int);
    assert(g >= p) by (nonlinear_arith)
        requires
            g == ((p + 4096 - 1) / 4096) * 4096,
            p >= 0,
    ;
    assert((g * 2) % 4096 == 0) by (nonlinear_arith)
        requires
            g == ((p + 4096 - 1) / 4096) * 4096,
    ;
}

/// The end of the kernel heap, and whether it has been set up.
pub struct GlobalPageAlloc {
    end: u64,
    initialized: bool,
}

impl GlobalPageAlloc {
    /// The first address past the heap.
    pub closed spec fn spec_end(&self) -> u64 {
        self.end
    }

    /// True once the heap has been set up.
    pub closed spec fn spec_initialized(&self) -> bool {
        self.initialized
    }

    /// The heap's invariant: it starts at `HEAP_START` and stays within its maximum size.
    pub closed spec fn wf(&self) -> bool {
        &&& HEAP_START <= self.end <= HEAP_START + HEAP_MAX_LEN
        &&& !self.initialized ==> self.end == HEAP_START
    }

    /// A heap that is not set up yet.
    pub fn new() -> (r: GlobalPageAlloc)
        ensures
            r.wf(),
            r.spec_end() == HEAP_START,
            !r.spec_initialized(),
    {
        GlobalPageAlloc { end: HEAP_START, initialized: false }
    }

    /// The first address past the heap.
    pub fn end(&self) -> (r: u64)
        ensures
            r == self.spec_end(),
    {
        self.end
    }

    /// True once the heap has been set up.
    pub fn is_initialized(&self) -> (r: bool)
        ensures
            r == self.spec_initialized(),
    {
        self.initialized
    }

    /// Sets the heap up: returns its initial region of `INITIAL_HEAP_LEN` bytes at `HEAP_START`,
    /// to be backed by zeroed pages and handed to the free list. Fails on a second call.
    pub fn init(&mut self) -> (r: Result<HeapRegion, HeapError>)
        requires
            old(self).wf(),
        ensures
            final(self).wf(),
            final(self).spec_end() >= old(self).spec_end(),
            old(self).spec_initialized() ==> r == Err::<HeapRegion, HeapError>(
                HeapError::AlreadyInitialized,
            ) && *final(self) == *old(self),
            !old(self).spec_initialized() ==> {
                &&& r == Ok::<HeapRegion, HeapError>(
                    HeapRegion {
                        cursor: MappingCursor { start: HEAP_START, len: INITIAL_HEAP_LEN as u64 },
                        settings: heap_settings(),
                    },
                )
                &&& final(self).spec_end() == HEAP_START + INITIAL_HEAP_LEN
                &&& final(self).spec_initialized()
            },
    {
        if self.initialized {
            return Err(HeapError::AlreadyInitialized);
        }
        let cursor = MappingCursor { start: self.end, len: INITIAL_HEAP_LEN as u64 };
        self.end = self.end + INITIAL_HEAP_LEN as u64;
        self.initialized = true;
        Ok(HeapRegion { cursor, settings: heap_mapping_settings() })
    }

    /// Grows the heap by `len` bytes: returns the fresh region right after the current end, to
    /// be backed by zeroed pages and added to the free list. The end only moves forward.
    pub fn extend(&mut self, len: u64) -> (r: Result<HeapRegion, HeapError>)
        requires
            old(self).wf(),
        ensures
            final(self).wf(),
            final(self).spec_initialized() == old(self).spec_initialized(),
            final(self).spec_end() >= old(self).spec_end(),
            !old(self).spec_initialized() ==> r == Err::<HeapRegion, HeapError>(
                HeapError::NotInitialized,
            ) && *final(self) == *old(self),
            old(self).spec_initialized() && old(self).spec_end() + len > HEAP_START + HEAP_MAX_LEN
                ==> r == Err::<HeapRegion, HeapError>(HeapError::Exhausted) && *final(self)
                == *old(self),
            old(self).spec_initialized() && old(self).spec_end() + len <= HEAP_START + HEAP_MAX_LEN
                ==> {
                &&& r == Ok::<HeapRegion, HeapError>(
                    HeapRegion {
                        cursor: MappingCursor { start: old(self).spec_end(), len },
                        settings: heap_settings(),
                    },
                )
                &&& final(self).spec_end() == old(self).spec_end() + len
            },
    {
        if !self.initialized {
            return Err(HeapError::NotInitialized);
        }
        if len > (HEAP_START + HEAP_MAX_LEN) - self.end {
            return Err(HeapError::Exhausted);
        }
        let cursor = MappingCursor { start: self.end, len };
        self.end = self.end + len;
        Ok(HeapRegion { cursor, settings: heap_mapping_settings() })
    }

    /// Grows the heap after an allocation of `size` bytes aligned to `align` did not fit:
    /// by `growth(size, align)` bytes, or not at all, with `Exhausted`, when that passes the
    /// heap's maximum size.
    pub fn grow_for(&mut self, size: u64, align: u64) -> (r: Result<HeapRegion, HeapError>)
        requires
            old(self).wf(),
            align > 0,
        ensures
            final(self).wf(),
            final(self).spec_initialized() == old(self).spec_initialized(),
            final(self).spec_end() >= old(self).spec_end(),
            !old(self).spec_initialized() ==> r == Err::<HeapRegion, HeapError>(
                HeapError::NotInitialized,
            ) && *final(self) == *old(self),
            old(self).spec_initialized() && old(self).spec_end() + growth(size as int, align as int)
                > HEAP_START + HEAP_MAX_LEN ==> r == Err::<HeapRegion, HeapError>(
                HeapError::Exhausted,
            ) && *final(self) == *old(self),
            old(self).spec_initialized() && old(self).spec_end() + growth(size as int, align as int)
                <= HEAP_START + HEAP_MAX_LEN ==> {
                &&& r == Ok::<HeapRegion, HeapError>(
                    HeapRegion {
                        cursor: MappingCursor {
                            start: old(self).spec_end(),
                            len: growth(size as int, align as int) as u64,
                        },
                        settings: heap_settings(),
                    },
                )
                &&& final(self).spec_end() == old(self).spec_end() + growth(size as int, align as int)
            },
    {
        if !self.initialized {
            return Err(HeapError::NotInitialized);
        }
        match growth_len(size, align) {
            Some(len) => self.extend(len),
            None => Err(HeapError::Exhausted),
        }
    }
}

} // verus!
