//! Binding records: what a slot is bound to, and the mapping attributes derived from it.

use vstd::prelude::*;

use crate::layout::{MAX_SIZE, PAGE_SIZE};
use crate::slot::{slot_base, Slot};

verus! {

/// The identifier of a memory object.
pub type ObjID = u128;

/// Access permissions of a mapping.
#[derive(Debug, Clone, Copy, PartialEq, Eq, Structural)]
pub struct Protections {
    pub read: bool,
    pub write: bool,
    pub execute: bool,
}

/// The caching policy of a mapping.
#[derive(Debug, Clone, Copy, PartialEq, Eq, Structural)]
pub enum CacheType {
    WriteBack,
    WriteCombining,
    WriteThrough,
    Uncacheable,
}

/// Flags of a mapping besides its permissions and caching policy.
#[derive(Debug, Clone, Copy, PartialEq, Eq, Structural)]
pub struct MappingFlags {
    /// The mapping is reachable from user mode.
    pub user: bool,
    /// The mapping is shared by every address space.
    pub global: bool,
}

/// The full set of attributes with which a range is mapped.
#[derive(Debug, Clone, Copy, PartialEq, Eq, Structural)]
pub struct MappingSettings {
    pub prot: Protections,
    pub cache: CacheType,
    pub flags: MappingFlags,
}

/// A range of virtual memory: `len` bytes from `start`.
#[derive(Debug, Clone, Copy, PartialEq, Eq, Structural)]
pub struct MappingCursor {
    pub start: u64,
    pub len: u64,
}

/// What a slot is bound to: an object, with its protections and caching policy.
#[derive(Debug, Clone, Copy, PartialEq, Eq, Structural)]
pub struct VirtContextSlot {
    pub obj: ObjID,
    pub slot: Slot,
    pub prot: Protections,
    pub cache: CacheType,
}

/// A view of a binding for callers that read its attributes.
#[derive(Debug, Clone, Copy, PartialEq, Eq, Structural)]
pub struct ObjectContextInfo {
    pub obj: ObjID,
    pub prot: Protections,
    pub cache: CacheType,
}

/// The attributes of a user mapping with permissions `prot`, without write access when `wp`.
pub open spec fn user_settings(prot: Protections, cache: CacheType, wp: bool) -> MappingSettings {
    MappingSettings {
        prot: Protections { read: prot.read, write: prot.write && !wp, execute: prot.execute },
        cache,
        flags: MappingFlags { user: true, global: false },
    }
}

/// The range of `len` bytes at byte offset `start` of the slot with index `index`.
pub open spec fn slot_range(index: nat, start: int, len: int) -> MappingCursor {
    MappingCursor { start: (slot_base(index) + start) as u64, len: len as u64 }
}

impl ObjectContextInfo {
    /// The attributes of a binding as a caller reads them.
    pub open spec fn of(b: VirtContextSlot) -> ObjectContextInfo {
        ObjectContextInfo { obj: b.obj, prot: b.prot, cache: b.cache }
    }

    /// The attributes of a binding as a caller reads them.
    pub fn from_binding(b: &VirtContextSlot) -> (r: ObjectContextInfo)
        ensures
            r == Self::of(*b),
    {
        ObjectContextInfo { obj: b.obj, prot: b.prot, cache: b.cache }
    }
}

impl VirtContextSlot {
    /// The range of `len` bytes at byte offset `start` within this binding's slot.
    pub fn mapping_cursor(&self, start: u64, len: u64) -> (r: MappingCursor)
        requires
            self.slot.wf(),
            start + len <= MAX_SIZE,
        ensures
            r == slot_range(self.slot.index as nat, start as int, len as int),
    {
        let base = self.slot.start_vaddr();
        MappingCursor { start: base + start, len }
    }

    /// The attributes of a user mapping of this binding, without write access when `wp`.
    pub fn mapping_settings(&self, wp: bool) -> (r: MappingSettings)
        ensures
            r == user_settings(self.prot, self.cache, wp),
    {
        let prot = Protections {
            read: self.prot.read,
            write: self.prot.write && !wp,
            execute: self.prot.execute,
        };
        MappingSettings { prot, cache: self.cache, flags: MappingFlags { user: true, global: false } }
    }
}

/// The byte offset at which page number `page` begins.
pub open spec fn page_offset(page: nat) -> int {
    page * PAGE_SIZE
}

} // verus!
