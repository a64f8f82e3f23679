//! Memory contexts: an address space described by its slot bindings.
//!
//! A context never changes page tables itself. Operations that must touch them return the
//! page-table operations to perform, and operations that end a binding return the object whose
//! back-reference to this context must be dropped.

use vstd::prelude::*;

use crate::binding::{
    page_offset, slot_range, user_settings, MappingCursor, MappingSettings, ObjID,
    ObjectContextInfo, VirtContextSlot,
};
use crate::layout::{MAX_SIZE, PAGE_SIZE};
use crate::slot::Slot;
use crate::slot_table::{indices, SlotMgr};

verus! {

/// Why a binding could not be inserted.
#[derive(Debug, Clone, Copy, PartialEq, Eq, Structural)]
pub enum InsertError {
    /// The slot is already bound to something else.
    Occupied,
}

/// How the mappings of an object's pages are invalidated.
#[derive(Debug, Clone, Copy, PartialEq, Eq, Structural)]
pub enum InvalidateMode {
    /// Unmap the range: the next access faults again.
    Full,
    /// Keep the range mapped without write access.
    WriteProtect,
}

/// A page-table operation on this context's address space.
#[derive(Debug, Clone, Copy, PartialEq, Eq, Structural)]
pub enum ArchOp {
    /// Remove every mapping in the range.
    Unmap { cursor: MappingCursor },
    /// Re-apply the mappings in the range with new settings.
    Change { cursor: MappingCursor, settings: MappingSettings },
}

/// The operation that invalidates `len` bytes at byte offset `start` of binding `b`.
pub open spec fn invalidate_op(b: VirtContextSlot, start: int, len: int, mode: InvalidateMode) -> ArchOp {
    let cursor = slot_range(b.slot.index as nat, start, len);
    match mode {
        InvalidateMode::Full => ArchOp::Unmap { cursor },
        InvalidateMode::WriteProtect => ArchOp::Change {
            cursor,
            settings: user_settings(b.prot, b.cache, true),
        },
    }
}

/// The binding that inserting `info` into `slot` creates.
pub open spec fn binding_of(slot: Slot, info: ObjectContextInfo) -> VirtContextSlot {
    VirtContextSlot { obj: info.obj, slot, prot: info.prot, cache: info.cache }
}

/// What inserting `info` into `slot` of the bindings `m` returns, and the bindings after it: a
/// free slot is bound, a slot bound to exactly this binding is kept, and any other binding of
/// the slot is kept with `Occupied`.
pub open spec fn insert_outcome(
    m: Map<usize, VirtContextSlot>,
    slot: Slot,
    info: ObjectContextInfo,
) -> (Result<(), InsertError>, Map<usize, VirtContextSlot>) {
    let b = binding_of(slot, info);
    if !m.contains_key(slot.index) {
        (Ok(()), m.insert(slot.index, b))
    } else if m[slot.index] == b {
        (Ok(()), m)
    } else {
        (Err(InsertError::Occupied), m)
    }
}

/// What looking up `slot` in the bindings `m` returns.
pub open spec fn lookup_outcome(m: Map<usize, VirtContextSlot>, slot: Slot) -> Option<
    ObjectContextInfo,
> {
    if m.contains_key(slot.index) {
        Some(ObjectContextInfo::of(m[slot.index]))
    } else {
        None
    }
}

/// The slot indices bound to `obj` in the bindings `m`.
pub open spec fn bound_to(m: Map<usize, VirtContextSlot>, obj: ObjID) -> Set<usize> {
    Set::new(|k: usize| m.contains_key(k) && m[k].obj == obj)
}

/// An address space: its slot bindings, upcall target and identifier.
pub struct VirtContext {
    kernel: bool,
    upcall: Option<u64>,
    slots: SlotMgr,
    id: u64,
}

impl VirtContext {
    /// The context's slot table.
    pub closed spec fn table(&self) -> SlotMgr {
        self.slots
    }

    /// The context's invariant.
    pub closed spec fn wf(&self) -> bool {
        self.slots.wf()
    }

    /// The context's identifier.
    pub closed spec fn spec_id(&self) -> u64 {
        self.id
    }

    /// The context's upcall target.
    pub closed spec fn spec_upcall(&self) -> Option<u64> {
        self.upcall
    }

    /// True for the kernel's own context.
    pub closed spec fn spec_kernel(&self) -> bool {
        self.kernel
    }

    /// A context with no bindings and no upcall target.
    fn fresh(kernel: bool, id: u64) -> (r: VirtContext)
        ensures
            r.wf(),
            r.table()@ == Map::<usize, VirtContextSlot>::empty(),
            r.spec_id() == id,
            r.spec_upcall() is None,
            r.spec_kernel() == kernel,
    {
        VirtContext { kernel, upcall: None, slots: SlotMgr::new(), id }
    }

    /// A new kernel context with identifier `id`.
    pub fn new_kernel(id: u64) -> (r: VirtContext)
        ensures
            r.wf(),
            r.table()@ == Map::<usize, VirtContextSlot>::empty(),
            r.spec_id() == id,
            r.spec_upcall() is None,
            r.spec_kernel(),
    {
        Self::fresh(true, id)
    }

    /// A new user context with identifier `id`.
    pub fn new(id: u64) -> (r: VirtContext)
        ensures
            r.wf(),
            r.table()@ == Map::<usize, VirtContextSlot>::empty(),
            r.spec_id() == id,
            r.spec_upcall() is None,
            !r.spec_kernel(),
    {
        Self::fresh(false, id)
    }

    /// The context's identifier.
    pub fn id(&self) -> (r: u64)
        ensures
            r == self.spec_id(),
    {
        self.id
    }

    /// True for the kernel's own context.
    pub fn is_kernel(&self) -> (r: bool)
        ensures
            r == self.spec_kernel(),
    {
        self.kernel
    }

    /// Sets the user fault-entry address; the last call wins.
    pub fn set_upcall(&mut self, target: u64)
        ensures
            final(self).spec_upcall() == Some(target),
            final(self).table() == old(self).table(),
            final(self).wf() == old(self).wf(),
            final(self).spec_id() == old(self).spec_id(),
            final(self).spec_kernel() == old(self).spec_kernel(),
    {
        self.upcall = Some(target);
    }

    /// The user fault-entry address, if one was set.
    pub fn get_upcall(&self) -> (r: Option<u64>)
        ensures
            r == self.spec_upcall(),
    {
        self.upcall
    }

    /// Binds `slot` to the object of `object_info`.
    ///
    /// A free slot is bound; a slot bound to exactly this binding is left as it is; a slot bound
    /// to anything else fails with `Occupied` and keeps its binding. The caller registers this
    /// context with the object only when this returns `Ok`, so a failed insert leaves no
    /// back-reference behind.
    pub fn insert_object(&mut self, slot: Slot, object_info: &ObjectContextInfo) -> (r: Result<
        (),
        InsertError,
    >)
        requires
            old(self).wf(),
            slot.wf(),
        ensures
            final(self).wf(),
            final(self).spec_id() == old(self).spec_id(),
            final(self).spec_upcall() == old(self).spec_upcall(),
            final(self).spec_kernel() == old(self).spec_kernel(),
            (r, final(self).table()@) == insert_outcome(old(self).table()@, slot, *object_info),
    {
        let b = VirtContextSlot {
            obj: object_info.obj,
            slot,
            prot: object_info.prot,
            cache: object_info.cache,
        };
        match self.slots.get(&slot) {
            Some(info) => {
                if *info != b {
                    return Err(InsertError::Occupied);
                }
                Ok(())
            },
            None => {
                self.slots.insert(b);
                Ok(())
            },
        }
    }

    /// The attributes of the binding of `slot`, if it is bound.
    pub fn lookup_object(&self, slot: Slot) -> (r: Option<ObjectContextInfo>)
        requires
            self.wf(),
        ensures
            r == lookup_outcome(self.table()@, slot),
    {
        match self.slots.get(&slot) {
            Some(info) => Some(ObjectContextInfo::from_binding(info)),
            None => None,
        }
    }

    /// The binding of `slot`, if it is bound.
    pub fn lookup_binding(&self, slot: Slot) -> (r: Option<VirtContextSlot>)
        requires
            self.wf(),
        ensures
            r == (if self.table()@.contains_key(slot.index) {
                Some(self.table()@[slot.index])
            } else {
                None
            }),
            r matches Some(b) ==> b.slot == slot && b.slot.wf(),
    {
        proof {
            self.slots.lemma_index_consistent();
        }
        match self.slots.get(&slot) {
            Some(info) => Some(*info),
            None => None,
        }
    }

    /// Unbinds `slot`. Returns the object it was bound to, whose back-reference to this context
    /// must now be dropped; `None`, and nothing changed, when the slot was free.
    pub fn remove_object(&mut self, slot: Slot) -> (r: Option<ObjID>)
        requires
            old(self).wf(),
        ensures
            final(self).wf(),
            final(self).table()@ == old(self).table()@.remove(slot.index),
            r == (if old(self).table()@.contains_key(slot.index) {
                Some(old(self).table()@[slot.index].obj)
            } else {
                None
            }),
            forall|obj: ObjID| !(#[trigger] final(self).table().indexed(obj, slot.index)),
            final(self).spec_id() == old(self).spec_id(),
            final(self).spec_upcall() == old(self).spec_upcall(),
            final(self).spec_kernel() == old(self).spec_kernel(),
    {
        match self.slots.remove(slot) {
            Some(info) => Some(info.obj),
            None => None,
        }
    }
    /// The page-table operations that invalidate pages `[start, end)` of `obj` in every slot
    /// bound to it: one operation per such slot, each slot once.
    pub fn invalidate_object(&self, obj: ObjID, start: u64, end: u64, mode: InvalidateMode) -> (r:
        Vec<ArchOp>)
        requires
            self.wf(),
            start <= end,
            end * PAGE_SIZE <= MAX_SIZE,
        ensures
            exists|ks: Seq<usize>|
                {
                    &&& ks.no_duplicates()
                    &&& ks.to_set() == bound_to(self.table()@, obj)
                    &&& r@ == ks.map_values(
                        |k: usize|
                            invalidate_op(
                                self.table()@[k],
                                page_offset(start as nat),
                                page_offset(end as nat) - page_offset(start as nat),
                                mode,
                            ),
                    )
                },
    {
        let ghost m = self.slots@;
        proof {
            assert(start * PAGE_SIZE <= end * PAGE_SIZE) by (nonlinear_arith)
                requires
                    start <= end,
            ;
        }
        let off = start * (PAGE_SIZE as u64);
        let len = end * (PAGE_SIZE as u64) - off;
        let ghost op = |k: usize|
            invalidate_op(
                m[k],
                page_offset(start as nat),
                page_offset(end as nat) - page_offset(start as nat),
                mode,
            );
        let maps = self.slots.obj_to_slots(obj);
        let mut r: Vec<ArchOp> = Vec::new();
        let mut i: usize = 0;
        while i < maps.len()
            invariant
                self.wf(),
                m == self.slots@,
                0 <= i <= maps@.len(),
                r@.len() == i,
                off == page_offset(start as nat),
                off + len == page_offset(end as nat),
                off + len <= MAX_SIZE,
                forall|k: usize|
                    indices(maps@).contains(k) <==> (m.contains_key(k) && m[k].obj == obj),
                forall|j: int|
                    0 <= j < maps@.len() ==> m.contains_key((#[trigger] maps@[j]).index) && maps@[j]
                        == m[maps@[j].index].slot,
                forall|j: int|
                    0 <= j < i ==> #[trigger] r@[j] == invalidate_op(
                        m[indices(maps@)[j]],
                        page_offset(start as nat),
                        page_offset(end as nat) - page_offset(start as nat),
                        mode,
                    ),
            decreases maps@.len() - i,
        {
            let s = maps[i];
            proof {
                assert(indices(maps@)[i as int] == s.index);
                assert(indices(maps@).contains(s.index));
            }
            match self.slots.get(&s) {
                Some(info) => {
                    proof {
                        self.slots.lemma_index_consistent();
                    }
                    let cursor = info.mapping_cursor(off, len);
                    let a = match mode {
                        InvalidateMode::Full => ArchOp::Unmap { cursor },
                        InvalidateMode::WriteProtect => ArchOp::Change {
                            cursor,
                            settings: info.mapping_settings(true),
                        },
                    };
                    proof {
                        assert(*info == m[s.index]);
                        assert(cursor == slot_range(
                            m[s.index].slot.index as nat,
                            page_offset(start as nat),
                            page_offset(end as nat) - page_offset(start as nat),
                        ));
                        assert(a == invalidate_op(
                            m[s.index],
                            page_offset(start as nat),
                            page_offset(end as nat) - page_offset(start as nat),
                            mode,
                        ));
                    }
                    r.push(a);
                },
                None => {
                    proof {
                        assert(false);
                    }
                },
            }
            i = i + 1;
        }
        proof {
            let ks = indices(maps@);
            assert(r@ =~= ks.map_values(op));
            assert(ks.to_set() =~= bound_to(m, obj));
        }
        r
    }

    /// The objects whose back-references to this context must be dropped when it is torn down:
    /// the object of each binding, once per binding, in binding order.
    pub fn teardown(&self) -> (r: Vec<ObjID>)
        requires
            self.wf(),
        ensures
            r@ == self.table().order().map_values(|k: usize| self.table()@[k].obj),
    {
        self.slots.objects()
    }
}

/// Tearing down a context with `n` bindings drops exactly `n` back-references: one for each
/// bound slot, naming the object bound there, and each bound slot accounts for exactly one.
pub proof fn lemma_teardown_releases_each_binding(ctx: &VirtContext, r: Seq<ObjID>)
    requires
        ctx.wf(),
        r == ctx.table().order().map_values(|k: usize| ctx.table()@[k].obj),
    ensures
        r.len() == ctx.table()@.dom().len(),
        forall|k: usize|
            #[trigger] ctx.table()@.contains_key(k) ==> exists|i: int|
                0 <= i < r.len() && ctx.table().order()[i] == k && r[i] == ctx.table()@[k].obj,
        forall|i: int, j: int|
            0 <= i < j < r.len() ==> ctx.table().order()[i] != ctx.table().order()[j],
{
    ctx.table().lemma_index_consistent();
    ctx.table().order().unique_seq_to_set();
    assert forall|k: usize| #[trigger] ctx.table()@.contains_key(k) implies exists|i: int|
        0 <= i < r.len() && ctx.table().order()[i] == k && r[i] == ctx.table()@[k].obj by {
        assert(ctx.table().order().to_set().contains(k));
        let i = choose|i: int| 0 <= i < ctx.table().order().len() && ctx.table().order()[i] == k;
        assert(r[i] == ctx.table()@[k].obj);
    }
}

/// Inserting a binding into a slot that is free, or already holds exactly that binding,
/// succeeds; looking the slot up then returns the inserted attributes; inserting the same
/// binding again succeeds and changes nothing, so the slot holds a single entry.
pub proof fn lemma_insert_then_lookup(
    m: Map<usize, VirtContextSlot>,
    slot: Slot,
    info: ObjectContextInfo,
)
    requires
        m.contains_key(slot.index) ==> m[slot.index] == binding_of(slot, info),
    ensures
        insert_outcome(m, slot, info).0 is Ok,
        lookup_outcome(insert_outcome(m, slot, info).1, slot) == Some(info),
        insert_outcome(insert_outcome(m, slot, info).1, slot, info) == (
            Ok::<(), InsertError>(()),
            insert_outcome(m, slot, info).1,
        ),
        insert_outcome(m, slot, info).1.dom() == m.dom().insert(slot.index),
{
    let m1 = insert_outcome(m, slot, info).1;
    if m.contains_key(slot.index) {
        assert(m.dom().insert(slot.index) =~= m.dom());
    }
    assert(m1.dom() =~= m.dom().insert(slot.index));
}

/// Inserting a different binding into an occupied slot fails with `Occupied` and leaves the
/// bindings, and so what a lookup of the slot returns, unchanged.
pub proof fn lemma_insert_into_occupied(
    m: Map<usize, VirtContextSlot>,
    slot: Slot,
    info: ObjectContextInfo,
)
    requires
        m.contains_key(slot.index),
        m[slot.index] != binding_of(slot, info),
    ensures
        insert_outcome(m, slot, info) == (
            Err::<(), InsertError>(InsertError::Occupied),
            m,
        ),
        lookup_outcome(insert_outcome(m, slot, info).1, slot) == lookup_outcome(m, slot),
{
}

/// After a slot is removed, looking it up finds nothing, and the secondary index lists it under
/// no object.
pub proof fn lemma_removed_slot_is_gone(before: &VirtContext, after: &VirtContext, slot: Slot)
    requires
        before.wf(),
        after.wf(),
        after.table()@ == before.table()@.remove(slot.index),
    ensures
        lookup_outcome(after.table()@, slot) is None,
        forall|obj: ObjID| !(#[trigger] after.table().indexed(obj, slot.index)),
{
    after.table().lemma_index_consistent();
}

/// Write-protecting an object's pages keeps each binding's read access and removes its write
/// access; a full invalidation unmaps the range instead.
pub proof fn lemma_invalidate_modes(b: VirtContextSlot, start: int, len: int)
    ensures
        invalidate_op(b, start, len, InvalidateMode::WriteProtect) matches ArchOp::Change {
            cursor,
            settings,
        } ==> settings.prot.read == b.prot.read && !settings.prot.write && cursor == slot_range(
            b.slot.index as nat,
            start,
            len,
        ),
        invalidate_op(b, start, len, InvalidateMode::WriteProtect) is Change,
        invalidate_op(b, start, len, InvalidateMode::Full) == (ArchOp::Unmap {
            cursor: slot_range(b.slot.index as nat, start, len),
        }),
{
}

} // verus!
