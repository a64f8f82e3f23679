use virtmem::binding::{CacheType, MappingCursor, MappingFlags, MappingSettings, ObjectContextInfo, Protections};
use virtmem::context::VirtContext;
use virtmem::fault::{
    classify_page, page_fault, resolve_page, FatalFault, FaultOutcome, MemoryAccessKind,
    ObjectMemoryError, PageFaultFlags, PageStep, UpcallInfo,
};
use virtmem::slot::Slot;

fn user() -> PageFaultFlags {
    PageFaultFlags { user: true, invalid: false, present: false }
}

fn bound_ctx() -> VirtContext {
    let mut c = VirtContext::new(1);
    let info = ObjectContextInfo {
        obj: 77,
        prot: Protections { read: true, write: true, execute: false },
        cache: CacheType::WriteBack,
    };
    c.insert_object(Slot::new(2).unwrap(), &info).unwrap();
    c
}

#[test]
fn fault_invalid_entry_is_fatal() {
    let c = bound_ctx();
    let flags = PageFaultFlags { user: true, invalid: true, present: true };
    assert_eq!(
        page_fault(0x8000_3000, MemoryAccessKind::Read, flags, Some(&c)),
        FaultOutcome::Fatal(FatalFault::InvalidEntry)
    );
}

#[test]
fn fault_kernel_mode_on_kernel_address_is_fatal() {
    let flags = PageFaultFlags { user: false, invalid: false, present: false };
    assert_eq!(
        page_fault(0xffff_8000_0000_1000, MemoryAccessKind::Read, flags, None),
        FaultOutcome::Fatal(FatalFault::KernelFault)
    );
}

#[test]
fn fault_user_mode_on_kernel_address_is_violation() {
    assert_eq!(
        page_fault(0xffff_8000_0000_1000, MemoryAccessKind::Write, user(), None),
        FaultOutcome::Upcall(UpcallInfo::MemoryContextViolation {
            address: 0xffff_8000_0000_1000,
            kind: MemoryAccessKind::Write
        })
    );
}

#[test]
fn fault_without_context_is_fatal() {
    assert_eq!(
        page_fault(0x8000_3000, MemoryAccessKind::Read, user(), None),
        FaultOutcome::Fatal(FatalFault::NoContext)
    );
}

#[test]
fn fault_on_non_user_address_is_violation() {
    let c = bound_ctx();
    assert_eq!(
        page_fault(0x0000_9000_0000_0000, MemoryAccessKind::Read, user(), Some(&c)),
        FaultOutcome::Upcall(UpcallInfo::MemoryContextViolation {
            address: 0x0000_9000_0000_0000,
            kind: MemoryAccessKind::Read
        })
    );
}

#[test]
fn fault_on_unbound_slot_is_violation() {
    let c = bound_ctx();
    assert_eq!(
        page_fault(0xc000_3000, MemoryAccessKind::InstructionFetch, user(), Some(&c)),
        FaultOutcome::Upcall(UpcallInfo::MemoryContextViolation {
            address: 0xc000_3000,
            kind: MemoryAccessKind::InstructionFetch
        })
    );
}

#[test]
fn fault_on_null_page_is_object_fault() {
    let c = bound_ctx();
    assert_eq!(
        page_fault(0x8000_0010, MemoryAccessKind::Read, user(), Some(&c)),
        FaultOutcome::Upcall(UpcallInfo::ObjectMemoryFault {
            id: 77,
            error: ObjectMemoryError::NullPageAccess,
            kind: MemoryAccessKind::Read
        })
    );
}

#[test]
fn page_past_object_size_is_out_of_bounds() {
    let c = bound_ctx();
    let b = c.lookup_binding(Slot::new(2).unwrap()).unwrap();
    assert_eq!(
        classify_page(&b, 0x4_0000, MemoryAccessKind::Write),
        FaultOutcome::Upcall(UpcallInfo::ObjectMemoryFault {
            id: 77,
            error: ObjectMemoryError::OutOfBounds(0x4000_0000),
            kind: MemoryAccessKind::Write
        })
    );
    assert!(matches!(classify_page(&b, 0x3_ffff, MemoryAccessKind::Write), FaultOutcome::Resolve(_)));
}

#[test]
fn untouched_page_is_materialized_then_mapped() {
    let c = bound_ctx();
    let req = match page_fault(0x8000_3123, MemoryAccessKind::Write, user(), Some(&c)) {
        FaultOutcome::Resolve(r) => r,
        other => panic!("unexpected outcome {:?}", other),
    };
    assert_eq!(req.page, 3);
    assert!(req.write);
    assert_eq!(req.binding.obj, 77);
    assert_eq!(resolve_page(&req, None), PageStep::Materialize { page: 3 });
    let settings = MappingSettings {
        prot: Protections { read: true, write: true, execute: false },
        cache: CacheType::WriteBack,
        flags: MappingFlags { user: true, global: false },
    };
    assert_eq!(
        resolve_page(&req, Some((0x12_3000, false))),
        PageStep::Install { cursor: MappingCursor { start: 0x8000_3000, len: 0x1000 }, phys: 0x12_3000, settings }
    );
}

#[test]
fn shared_page_is_mapped_read_only() {
    let c = bound_ctx();
    let req = match page_fault(0x8000_5000, MemoryAccessKind::Read, user(), Some(&c)) {
        FaultOutcome::Resolve(r) => r,
        other => panic!("unexpected outcome {:?}", other),
    };
    assert!(!req.write);
    match resolve_page(&req, Some((0x9000, true))) {
        PageStep::Install { settings, cursor, phys } => {
            assert!(settings.prot.read);
            assert!(!settings.prot.write);
            assert_eq!(cursor.start, 0x8000_5000);
            assert_eq!(phys, 0x9000);
        }
        other => panic!("unexpected step {:?}", other),
    }
}
