//! The page-fault decision procedure.
//!
//! `page_fault` decides what a hardware page fault means: a kernel defect, an upcall to the
//! faulting thread, or a page of an object to bring in. `resolve_page` then turns what the
//! object's page tree holds for that page into the mapping to install.

use vstd::prelude::*;

use crate::binding::{
    page_offset, slot_range, user_settings, MappingCursor, MappingSettings, ObjID,
    VirtContextSlot,
};
use crate::context::VirtContext;
use crate::layout::{is_kernel, is_kernel_addr, MAX_SIZE, PAGE_SIZE, USER_END};
use crate::slot::Slot;

verus! {

/// The kind of access that faulted.
#[derive(Debug, Clone, Copy, PartialEq, Eq, Structural)]
pub enum MemoryAccessKind {
    Read,
    Write,
    InstructionFetch,
}

/// The conditions the hardware reports with a page fault.
#[derive(Debug, Clone, Copy, PartialEq, Eq, Structural)]
pub struct PageFaultFlags {
    /// The access came from user mode.
    pub user: bool,
    /// The page-table entry held invalid bits.
    pub invalid: bool,
    /// The page-table entry was present.
    pub present: bool,
}

/// What went wrong in an access to a bound object.
#[derive(Debug, Clone, Copy, PartialEq, Eq, Structural)]
pub enum ObjectMemoryError {
    /// The access touched the object's reserved null page.
    NullPageAccess,
    /// The access lies at this byte offset, at or past the maximum object size.
    OutOfBounds(u64),
}

/// A fault condition reported to the faulting thread.
#[derive(Debug, Clone, Copy, PartialEq, Eq, Structural)]
pub enum UpcallInfo {
    /// The address is not backed by any object of the context.
    MemoryContextViolation { address: u64, kind: MemoryAccessKind },
    /// The address lies in a bound object, but the access is not valid there.
    ObjectMemoryFault { id: ObjID, error: ObjectMemoryError, kind: MemoryAccessKind },
}

/// A fault that reveals a kernel defect: the kernel halts.
#[derive(Debug, Clone, Copy, PartialEq, Eq, Structural)]
pub enum FatalFault {
    /// The page tables hold invalid bits.
    InvalidEntry,
    /// Kernel mode faulted on a kernel address.
    KernelFault,
    /// A user-space address faulted with no memory context installed.
    NoContext,
}

/// A page of a bound object to bring in and map.
#[derive(Debug, Clone, Copy, PartialEq, Eq, Structural)]
pub struct PageRequest {
    /// The binding of the faulting slot.
    pub binding: VirtContextSlot,
    /// The page number within the object.
    pub page: u64,
    /// The access writes, so the page tree must hand out a writable page if it can.
    pub write: bool,
}

/// What a page fault comes to.
#[derive(Debug, Clone, Copy, PartialEq, Eq, Structural)]
pub enum FaultOutcome {
    Fatal(FatalFault),
    Upcall(UpcallInfo),
    Resolve(PageRequest),
}

/// The next step in bringing in a page.
#[derive(Debug, Clone, Copy, PartialEq, Eq, Structural)]
pub enum PageStep {
    /// Map physical page `phys` over `cursor` with `settings`.
    Install { cursor: MappingCursor, phys: u64, settings: MappingSettings },
    /// The page tree has no page there: add a fresh zero page at this page number, then ask again.
    Materialize { page: u64 },
}

/// The violation reported for an access to `addr` that no binding backs.
pub open spec fn violation(addr: u64, cause: MemoryAccessKind) -> FaultOutcome {
    FaultOutcome::Upcall(UpcallInfo::MemoryContextViolation { address: addr, kind: cause })
}

/// What an access of kind `cause` to page `page` of the object bound by `b` comes to.
pub open spec fn page_outcome(b: VirtContextSlot, page: nat, cause: MemoryAccessKind) -> FaultOutcome {
    if page == 0 {
        FaultOutcome::Upcall(
            UpcallInfo::ObjectMemoryFault {
                id: b.obj,
                error: ObjectMemoryError::NullPageAccess,
                kind: cause,
            },
        )
    } else if page_offset(page) >= MAX_SIZE {
        FaultOutcome::Upcall(
            UpcallInfo::ObjectMemoryFault {
                id: b.obj,
                error: ObjectMemoryError::OutOfBounds(page_offset(page) as u64),
                kind: cause,
            },
        )
    } else {
        FaultOutcome::Resolve(
            PageRequest { binding: b, page: page as u64, write: cause == MemoryAccessKind::Write },
        )
    }
}

/// The page number of `addr` within its slot.
pub open spec fn page_in_slot(addr: u64) -> nat {
    ((addr % (MAX_SIZE as u64)) / (PAGE_SIZE as u64)) as nat
}

/// What a fault at `addr` comes to, given whether a context is installed and its bindings.
pub open spec fn fault_outcome(
    addr: u64,
    cause: MemoryAccessKind,
    flags: PageFaultFlags,
    has_ctx: bool,
    m: Map<usize, VirtContextSlot>,
) -> FaultOutcome {
    if flags.invalid {
        FaultOutcome::Fatal(FatalFault::InvalidEntry)
    } else if !flags.user && is_kernel_addr(addr) {
        FaultOutcome::Fatal(FatalFault::KernelFault)
    } else if is_kernel_addr(addr) {
        violation(addr, cause)
    } else if !has_ctx {
        FaultOutcome::Fatal(FatalFault::NoContext)
    } else if addr >= USER_END {
        violation(addr, cause)
    } else if !m.contains_key((addr / (MAX_SIZE as u64)) as usize) {
        violation(addr, cause)
    } else {
        page_outcome(m[(addr / (MAX_SIZE as u64)) as usize], page_in_slot(addr), cause)
    }
}

/// The bindings of an optional context; none without one.
pub open spec fn bindings_of(ctx: Option<&VirtContext>) -> Map<usize, VirtContextSlot> {
    match ctx {
        Some(c) => c.table()@,
        None => Map::empty(),
    }
}

/// What an access of kind `cause` to page `page` of the object bound by `b` comes to: the null
/// page and pages past the maximum object size are reported, any other page is brought in.
pub fn classify_page(b: &VirtContextSlot, page: u64, cause: MemoryAccessKind) -> (r: FaultOutcome)
    requires
        page_offset(page as nat) <= u64::MAX,
    ensures
        r == page_outcome(*b, page as nat, cause),
{
    if page == 0 {
        return FaultOutcome::Upcall(
            UpcallInfo::ObjectMemoryFault {
                id: b.obj,
                error: ObjectMemoryError::NullPageAccess,
                kind: cause,
            },
        );
    }
    let offset = page * (PAGE_SIZE as u64);
    if offset >= MAX_SIZE as u64 {
        return FaultOutcome::Upcall(
            UpcallInfo::ObjectMemoryFault {
                id: b.obj,
                error: ObjectMemoryError::OutOfBounds(offset),
                kind: cause,
            },
        );
    }
    let write = match cause {
        MemoryAccessKind::Write => true,
        _ => false,
    };
    FaultOutcome::Resolve(PageRequest { binding: *b, page, write })
}

/// Decides what a page fault at `addr` comes to, for an access of kind `cause` with the
/// hardware-reported `flags`, under the installed context `ctx`.
pub fn page_fault(
    addr: u64,
    cause: MemoryAccessKind,
    flags: PageFaultFlags,
    ctx: Option<&VirtContext>,
) -> (r: FaultOutcome)
    requires
        ctx matches Some(c) ==> c.wf(),
    ensures
        r == fault_outcome(addr, cause, flags, ctx is Some, bindings_of(ctx)),
{
    if flags.invalid {
        return FaultOutcome::Fatal(FatalFault::InvalidEntry);
    }
    if !flags.user && is_kernel(addr) {
        return FaultOutcome::Fatal(FatalFault::KernelFault);
    }
    if is_kernel(addr) {
        return FaultOutcome::Upcall(
            UpcallInfo::MemoryContextViolation { address: addr, kind: cause },
        );
    }
    let ctx = match ctx {
        Some(c) => c,
        None => {
            return FaultOutcome::Fatal(FatalFault::NoContext);
        },
    };
    let slot = match Slot::from_vaddr(addr) {
        Some(s) => s,
        None => {
            return FaultOutcome::Upcall(
                UpcallInfo::MemoryContextViolation { address: addr, kind: cause },
            );
        },
    };
    match ctx.lookup_binding(slot) {
        Some(info) => {
            let page = (addr % (MAX_SIZE as u64)) / (PAGE_SIZE as u64);
            proof {
                assert(page_offset(page as nat) <= u64::MAX) by (nonlinear_arith)
                    requires
                        page <= 0x4_0000,
                ;
            }
            classify_page(&info, page, cause)
        },
        None => FaultOutcome::Upcall(
            UpcallInfo::MemoryContextViolation { address: addr, kind: cause },
        ),
    }
}

/// The next step in bringing in the page of `req`, given what the object's page tree returned
/// for it: the physical page and whether it is still shared copy-on-write, or nothing.
///
/// A shared page is mapped without write access, so the next write faults again and the page
/// tree can hand out a private copy.
pub fn resolve_page(req: &PageRequest, found: Option<(u64, bool)>) -> (r: PageStep)
    requires
        req.binding.slot.wf(),
        page_offset(req.page as nat) < MAX_SIZE,
    ensures
        r == (match found {
            Some((phys, cow)) => PageStep::Install {
                cursor: slot_range(
                    req.binding.slot.index as nat,
                    page_offset(req.page as nat),
                    PAGE_SIZE as int,
                ),
                phys,
                settings: user_settings(req.binding.prot, req.binding.cache, cow),
            },
            None => PageStep::Materialize { page: req.page },
        }),
{
    match found {
        Some((phys, cow)) => {
            let offset = req.page * (PAGE_SIZE as u64);
            let cursor = req.binding.mapping_cursor(offset, PAGE_SIZE as u64);
            PageStep::Install { cursor, phys, settings: req.binding.mapping_settings(cow) }
        },
        None => PageStep::Materialize { page: req.page },
    }
}

/// A fault from user mode at a user address whose slot is unbound is reported to the faulting
/// thread as a memory-context violation, and brings in no page.
pub proof fn lemma_unbound_fault_is_violation(
    addr: u64,
    cause: MemoryAccessKind,
    flags: PageFaultFlags,
    ctx: &VirtContext,
)
    requires
        ctx.wf(),
        !flags.invalid,
        addr < USER_END,
        !ctx.table()@.contains_key((addr / (MAX_SIZE as u64)) as usize),
    ensures
        fault_outcome(addr, cause, flags, true, ctx.table()@) == violation(addr, cause),
        !(fault_outcome(addr, cause, flags, true, ctx.table()@) is Resolve),
{
}

/// A fault on the first page of a bound slot, the object's reserved null page, is reported as a
/// null-page access on the bound object.
pub proof fn lemma_null_page_fault(
    addr: u64,
    cause: MemoryAccessKind,
    flags: PageFaultFlags,
    ctx: &VirtContext,
)
    requires
        ctx.wf(),
        !flags.invalid,
        addr < USER_END,
        addr % (MAX_SIZE as u64) < PAGE_SIZE,
        ctx.table()@.contains_key((addr / (MAX_SIZE as u64)) as usize),
    ensures
        fault_outcome(addr, cause, flags, true, ctx.table()@) == FaultOutcome::Upcall(
            UpcallInfo::ObjectMemoryFault {
                id: ctx.table()@[(addr / (MAX_SIZE as u64)) as usize].obj,
                error: ObjectMemoryError::NullPageAccess,
                kind: cause,
            },
        ),
{
    let off = addr % (MAX_SIZE as u64);
    assert(off / (PAGE_SIZE as u64) == 0) by (nonlinear_arith)
        requires
            off < PAGE_SIZE,
    ;
}

/// A fault past the null page of a bound slot asks the page tree for that page of the bound
/// object; when the page tree has none, the next step is to add a zero page there.
pub proof fn lemma_untouched_page_is_materialized(
    addr: u64,
    cause: MemoryAccessKind,
    flags: PageFaultFlags,
    ctx: &VirtContext,
)
    requires
        ctx.wf(),
        !flags.invalid,
        addr < USER_END,
        addr % (MAX_SIZE as u64) >= PAGE_SIZE,
        ctx.table()@.contains_key((addr / (MAX_SIZE as u64)) as usize),
    ensures
        fault_outcome(addr, cause, flags, true, ctx.table()@) == FaultOutcome::Resolve(
            PageRequest {
                binding: ctx.table()@[(addr / (MAX_SIZE as u64)) as usize],
                page: page_in_slot(addr) as u64,
                write: cause == MemoryAccessKind::Write,
            },
        ),
        page_in_slot(addr) > 0,
        page_offset(page_in_slot(addr)) < MAX_SIZE,
{
    let off = addr % (MAX_SIZE as u64);
    assert(off / (PAGE_SIZE as u64) >= 1) by (nonlinear_arith)
        requires
            off >= PAGE_SIZE,
    ;
    assert((off / (PAGE_SIZE as u64)) * PAGE_SIZE <= off) by (nonlinear_arith);
}

} // verus!
