use virtmem::binding::{CacheType, MappingCursor, MappingFlags, MappingSettings, Protections};
use virtmem::boot::{kernel_context_mappings, prep_smp, BootMapping, MapOp, IDENTITY_MAP_LEN};
use virtmem::context::ArchOp;
use virtmem::layout::USER_END;

#[test]
fn kernel_mappings_are_made_global_then_identity_map() {
    let settings = MappingSettings {
        prot: Protections { read: true, write: false, execute: true },
        cache: CacheType::WriteThrough,
        flags: MappingFlags { user: false, global: false },
    };
    let boot = vec![
        BootMapping { vaddr: 0xffff_8000_0000_0000, paddr: 0x20_0000, len: 0x4000, settings },
        BootMapping { vaddr: 0xffff_8000_1000_0000, paddr: 0x80_0000, len: 0x1000, settings },
    ];
    let r = kernel_context_mappings(&boot);
    assert_eq!(r.len(), 3);
    assert_eq!(r[0].cursor, MappingCursor { start: 0xffff_8000_0000_0000, len: 0x4000 });
    assert_eq!(r[0].phys, 0x20_0000);
    assert!(r[0].settings.flags.global);
    assert_eq!(r[0].settings.prot, settings.prot);
    assert_eq!(r[0].settings.cache, CacheType::WriteThrough);
    assert_eq!(r[1].phys, 0x80_0000);
    assert_eq!(
        r[2],
        MapOp {
            cursor: MappingCursor { start: 0x1000, len: IDENTITY_MAP_LEN },
            phys: 0x1000,
            settings: MappingSettings {
                prot: Protections { read: true, write: true, execute: true },
                cache: CacheType::WriteBack,
                flags: MappingFlags { user: false, global: false },
            },
        }
    );
    assert_eq!(kernel_context_mappings(&Vec::new()).len(), 1);
}

#[test]
fn smp_prep_unmaps_user_half() {
    assert_eq!(prep_smp(), ArchOp::Unmap { cursor: MappingCursor { start: 0, len: USER_END } });
}
