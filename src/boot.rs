//! The kernel context's boot-time mappings.

use vstd::prelude::*;

use crate::binding::{CacheType, MappingCursor, MappingFlags, MappingSettings, Protections};
use crate::context::ArchOp;
use crate::layout::USER_END;

verus! {

/// Where the identity map of low physical memory starts: one page in, so address zero stays
/// unmapped.
pub const IDENTITY_MAP_START: u64 = 0x1000;

/// How much low physical memory is identity-mapped for secondary CPUs to boot (4 GiB).
pub const IDENTITY_MAP_LEN: u64 = 0x1_0000_0000;

/// A mapping found in the bootstrap page tables.
#[derive(Debug, Clone, Copy, PartialEq, Eq, Structural)]
pub struct BootMapping {
    pub vaddr: u64,
    pub paddr: u64,
    pub len: u64,
    pub settings: MappingSettings,
}

/// A mapping to install: `cursor` onto the physical range from `phys`.
#[derive(Debug, Clone, Copy, PartialEq, Eq, Structural)]
pub struct MapOp {
    pub cursor: MappingCursor,
    pub phys: u64,
    pub settings: MappingSettings,
}

/// A bootstrap mapping copied into the kernel context, made global.
pub open spec fn as_global(m: BootMapping) -> MapOp {
    MapOp {
        cursor: MappingCursor { start: m.vaddr, len: m.len },
        phys: m.paddr,
        settings: MappingSettings {
            prot: m.settings.prot,
            cache: m.settings.cache,
            flags: MappingFlags { user: m.settings.flags.user, global: true },
        },
    }
}

/// The identity map of low physical memory: readable, writable, executable, write-back.
pub open spec fn identity_map() -> MapOp {
    MapOp {
        cursor: MappingCursor { start: IDENTITY_MAP_START, len: IDENTITY_MAP_LEN },
        phys: IDENTITY_MAP_START,
        settings: MappingSettings {
            prot: Protections { read: true, write: true, execute: true },
            cache: CacheType::WriteBack,
            flags: MappingFlags { user: false, global: false },
        },
    }
}

/// The mappings that set up the kernel context: every bootstrap kernel mapping, in order and
/// made global, then the identity map of low physical memory.
pub fn kernel_context_mappings(boot: &Vec<BootMapping>) -> (r: Vec<MapOp>)
    requires
        boot@.len() < usize::MAX,
    ensures
        r@.len() == boot@.len() + 1,
        forall|i: int| 0 <= i < boot@.len() ==> #[trigger] r@[i] == as_global(boot@[i]),
        r@[boot@.len() as int] == identity_map(),
{
    let mut r: Vec<MapOp> = Vec::new();
    let mut i: usize = 0;
    while i < boot.len()
        invariant
            0 <= i <= boot@.len(),
            r@.len() == i,
            forall|j: int| 0 <= j < i ==> #[trigger] r@[j] == as_global(boot@[j]),
        decreases boot@.len() - i,
    {
        let m = boot[i];
        r.push(
            MapOp {
                cursor: MappingCursor { start: m.vaddr, len: m.len },
                phys: m.paddr,
                settings: MappingSettings {
                    prot: m.settings.prot,
                    cache: m.settings.cache,
                    flags: MappingFlags { user: m.settings.flags.user, global: true },
                },
            },
        );
        i = i + 1;
    }
    r.push(
        MapOp {
            cursor: MappingCursor { start: IDENTITY_MAP_START, len: IDENTITY_MAP_LEN },
            phys: IDENTITY_MAP_START,
            settings: MappingSettings {
                prot: Protections { read: true, write: true, execute: true },
                cache: CacheType::WriteBack,
                flags: MappingFlags { user: false, global: false },
            },
        },
    );
    r
}

/// The operation that clears the user half of the kernel context, and with it the identity
/// map, once secondary CPUs are up.
pub fn prep_smp() -> (r: ArchOp)
    ensures
        r == (ArchOp::Unmap { cursor: MappingCursor { start: 0, len: USER_END } }),
{
    ArchOp::Unmap { cursor: MappingCursor { start: 0, len: USER_END } }
}

} // verus!
