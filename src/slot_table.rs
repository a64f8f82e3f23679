//! The slot table: a primary index from slot to binding, and a secondary index from object to
//! the slots bound to it, kept consistent by every operation.

use vstd::prelude::*;

use crate::binding::{ObjID, VirtContextSlot};
use crate::slot::Slot;

verus! {

/// One entry of the secondary index: `slot` is bound to `obj`.
#[derive(Debug, Clone, Copy, PartialEq, Eq, Structural)]
pub struct SlotRef {
    pub obj: ObjID,
    pub slot: Slot,
}

/// The bindings of one context.
pub struct SlotMgr {
    slots: Vec<VirtContextSlot>,
    objs: Vec<SlotRef>,
    bound: Ghost<Map<usize, VirtContextSlot>>,
}

impl View for SlotMgr {
    type V = Map<usize, VirtContextSlot>;

    /// The bindings, keyed by slot index.
    closed spec fn view(&self) -> Map<usize, VirtContextSlot> {
        self.bound@
    }
}

/// The slot indices of a sequence of slots.
pub open spec fn indices(s: Seq<Slot>) -> Seq<usize> {
    s.map_values(|x: Slot| x.index)
}

impl SlotMgr {
    /// The bound slot indices, in the order in which they were bound.
    pub closed spec fn order(&self) -> Seq<usize> {
        self.slots@.map_values(|b: VirtContextSlot| b.slot.index)
    }

    /// True when the secondary index lists slot index `k` under object `obj`.
    pub closed spec fn indexed(&self, obj: ObjID, k: usize) -> bool {
        exists|i: int|
            0 <= i < self.objs@.len() && (#[trigger] self.objs@[i]).obj == obj
                && self.objs@[i].slot.index == k
    }

    /// The table's invariant: both indexes describe the same set of bindings.
    pub closed spec fn wf(&self) -> bool {
        &&& forall|i: int|
            0 <= i < self.slots@.len() ==> {
                &&& (#[trigger] self.slots@[i]).slot.wf()
                &&& self.bound@.contains_key(self.slots@[i].slot.index)
                &&& self.bound@[self.slots@[i].slot.index] == self.slots@[i]
            }
        &&& forall|k: usize|
            #[trigger] self.bound@.contains_key(k) ==> exists|i: int|
                0 <= i < self.slots@.len() && (#[trigger] self.slots@[i]).slot.index == k
        &&& forall|i: int, j: int|
            0 <= i < j < self.slots@.len() ==> (#[trigger] self.slots@[i]).slot.index
                != (#[trigger] self.slots@[j]).slot.index
        &&& forall|i: int|
            0 <= i < self.objs@.len() ==> {
                &&& self.bound@.contains_key((#[trigger] self.objs@[i]).slot.index)
                &&& self.bound@[self.objs@[i].slot.index].obj == self.objs@[i].obj
                &&& self.bound@[self.objs@[i].slot.index].slot == self.objs@[i].slot
            }
        &&& forall|k: usize|
            #[trigger] self.bound@.contains_key(k) ==> exists|i: int|
                0 <= i < self.objs@.len() && (#[trigger] self.objs@[i]).slot.index == k
        &&& forall|i: int, j: int|
            0 <= i < j < self.objs@.len() ==> (#[trigger] self.objs@[i]).slot.index
                != (#[trigger] self.objs@[j]).slot.index
    }

    /// An empty table.
    pub fn new() -> (r: SlotMgr)
        ensures
            r.wf(),
            r@ == Map::<usize, VirtContextSlot>::empty(),
    {
        SlotMgr { slots: Vec::new(), objs: Vec::new(), bound: Ghost(Map::empty()) }
    }

    /// The binding of `slot`, if it is bound.
    pub fn get(&self, slot: &Slot) -> (r: Option<&VirtContextSlot>)
        requires
            self.wf(),
        ensures
            r is Some <==> self@.contains_key(slot.index),
            r matches Some(b) ==> *b == self@[slot.index],
    {
        let mut i: usize = 0;
        while i < self.slots.len()
            invariant
                self.wf(),
                0 <= i <= self.slots@.len(),
                forall|j: int| 0 <= j < i ==> (#[trigger] self.slots@[j]).slot.index != slot.index,
            decreases self.slots@.len() - i,
        {
            if self.slots[i].slot.index == slot.index {
                return Some(&self.slots[i]);
            }
            i = i + 1;
        }
        proof {
            if self@.contains_key(slot.index) {
                let j = choose|j: int|
                    0 <= j < self.slots@.len() && (#[trigger] self.slots@[j]).slot.index == slot.index;
                assert(self.slots@[j].slot.index != slot.index);
            }
}
        None
    }

    /// Binds `info.slot` to `info`; the slot must be free.
    pub fn insert(&mut self, info: VirtContextSlot)
        requires
            old(self).wf(),
            info.slot.wf(),
            !old(self)@.contains_key(info.slot.index),
        ensures
            final(self).wf(),
            final(self)@ == old(self)@.insert(info.slot.index, info),
            final(self).order() == old(self).order().push(info.slot.index),
    {
        let ghost k = info.slot.index;
        self.slots.push(info);
        self.objs.push(SlotRef { obj: info.obj, slot: info.slot });
        self.bound = Ghost(self.bound@.insert(k, info));
        let ghost n = self.slots@.len() - 1;
        let ghost m = self.objs@.len() - 1;
        assert forall|q: usize| #[trigger] self.bound@.contains_key(q) implies exists|i: int|
            0 <= i < self.slots@.len() && (#[trigger] self.slots@[i]).slot.index == q by {
            if q == k {
                assert(self.slots@[n].slot.index == q);
            } else {
                let i = choose|i: int|
                    0 <= i < old(self).slots@.len() && (#[trigger] old(self).slots@[i]).slot.index == q;
                assert(self.slots@[i] == old(self).slots@[i]);
            }
        }
        assert forall|q: usize| #[trigger] self.bound@.contains_key(q) implies exists|i: int|
            0 <= i < self.objs@.len() && (#[trigger] self.objs@[i]).slot.index == q by {
            if q == k {
                assert(self.objs@[m].slot.index == q);
            } else {
                let i = choose|i: int|
                    0 <= i < old(self).objs@.len() && (#[trigger] old(self).objs@[i]).slot.index == q;
                assert(self.objs@[i] == old(self).objs@[i]);
            }
        }
        assert forall|i: int| 0 <= i < old(self).slots@.len() implies
            (#[trigger] self.slots@[i]).slot.index != k by {
            assert(old(self).bound@.contains_key(old(self).slots@[i].slot.index));
        }
        assert forall|i: int| 0 <= i < old(self).objs@.len() implies
            (#[trigger] self.objs@[i]).slot.index != k by {
            assert(old(self).bound@.contains_key(old(self).objs@[i].slot.index));
        }
        assert(self.order() =~= old(self).order().push(k));
    }

    /// Unbinds `slot`, returning its binding; does nothing when it is free.
    pub fn remove(&mut self, slot: Slot) -> (r: Option<VirtContextSlot>)
        requires
            old(self).wf(),
        ensures
            final(self).wf(),
            final(self)@ == old(self)@.remove(slot.index),
            r is Some <==> old(self)@.contains_key(slot.index),
            r matches Some(b) ==> b == old(self)@[slot.index],
            forall|obj: ObjID| !(#[trigger] final(self).indexed(obj, slot.index)),
    {
        let ghost k = slot.index;
        let mut i: usize = 0;
        while i < self.slots.len()
            invariant
                self.wf(),
                0 <= i <= self.slots@.len(),
                k == slot.index,
                forall|j: int| 0 <= j < i ==> (#[trigger] self.slots@[j]).slot.index != k,
            ensures
                0 <= i <= self.slots@.len(),
                i < self.slots@.len() ==> self.slots@[i as int].slot.index == k,
                forall|j: int| 0 <= j < i ==> (#[trigger] self.slots@[j]).slot.index != k,
            decreases self.slots@.len() - i,
        {
            if self.slots[i].slot.index == slot.index {
                break;
            }
            i = i + 1;
        }
        if i == self.slots.len() {
            proof {
                if self@.contains_key(k) {
                    let j = choose|j: int|
                        0 <= j < self.slots@.len() && (#[trigger] self.slots@[j]).slot.index == k;
                    assert(self.slots@[j].slot.index != k);
                }
                assert(self@.remove(k) =~= self@);
                self.lemma_index_consistent();
            }
            return None;
        }
        let mut j: usize = 0;
        while j < self.objs.len()
            invariant
                self.wf(),
                0 <= j <= self.objs@.len(),
                i < self.slots@.len(),
                self.slots@[i as int].slot.index == k,
                k == slot.index,
                forall|q: int| 0 <= q < j ==> (#[trigger] self.objs@[q]).slot.index != k,
            ensures
                0 <= j <= self.objs@.len(),
                j < self.objs@.len() ==> self.objs@[j as int].slot.index == k,
                forall|q: int| 0 <= q < j ==> (#[trigger] self.objs@[q]).slot.index != k,
            decreases self.objs@.len() - j,
        {
            if self.objs[j].slot.index == slot.index {
                break;
            }
            j = j + 1;
        }
        proof {
            if j == self.objs.len() {
                let q = choose|q: int|
                    0 <= q < self.objs@.len() && (#[trigger] self.objs@[q]).slot.index == k;
                assert(self.objs@[q].slot.index != k);
            }
        }
        let ghost old_slots = self.slots@;
        let ghost old_objs = self.objs@;
        let info = self.slots.remove(i);
        self.objs.remove(j);
        self.bound = Ghost(self.bound@.remove(k));
        assert forall|a: int| 0 <= a < self.slots@.len() implies {
            &&& (#[trigger] self.slots@[a]).slot.wf()
            &&& self.bound@.contains_key(self.slots@[a].slot.index)
            &&& self.bound@[self.slots@[a].slot.index] == self.slots@[a]
        } by {
            if a < i {
                assert(self.slots@[a] == old_slots[a]);
                assert(old_slots[a].slot.index != old_slots[i as int].slot.index);
            } else {
                assert(self.slots@[a] == old_slots[a + 1]);
                assert(old_slots[i as int].slot.index != old_slots[a + 1].slot.index);
            }
        }
        assert forall|q: usize| #[trigger] self.bound@.contains_key(q) implies exists|a: int|
            0 <= a < self.slots@.len() && (#[trigger] self.slots@[a]).slot.index == q by {
            let a = choose|a: int| 0 <= a < old_slots.len() && (#[trigger] old_slots[a]).slot.index == q;
            if a < i {
                assert(self.slots@[a] == old_slots[a]);
            } else {
                assert(a != i);
                assert(self.slots@[a - 1] == old_slots[a]);
            }
        }
        assert forall|a: int, b: int| 0 <= a < b < self.slots@.len() implies
            (#[trigger] self.slots@[a]).slot.index != (#[trigger] self.slots@[b]).slot.index by {
            let a0 = if a < i { a } else { a + 1 };
            let b0 = if b < i { b } else { b + 1 };
            assert(self.slots@[a] == old_slots[a0]);
            assert(self.slots@[b] == old_slots[b0]);
            assert(old_slots[a0].slot.index != old_slots[b0].slot.index);
        }
        assert forall|a: int| 0 <= a < self.objs@.len() implies {
            &&& self.bound@.contains_key((#[trigger] self.objs@[a]).slot.index)
            &&& self.bound@[self.objs@[a].slot.index].obj == self.objs@[a].obj
            &&& self.bound@[self.objs@[a].slot.index].slot == self.objs@[a].slot
        } by {
            if a < j {
                assert(self.objs@[a] == old_objs[a]);
                assert(old_objs[a].slot.index != old_objs[j as int].slot.index);
            } else {
                assert(self.objs@[a] == old_objs[a + 1]);
                assert(old_objs[j as int].slot.index != old_objs[a + 1].slot.index);
            }
        }
        assert forall|q: usize| #[trigger] self.bound@.contains_key(q) implies exists|a: int|
            0 <= a < self.objs@.len() && (#[trigger] self.objs@[a]).slot.index == q by {
            let a = choose|a: int| 0 <= a < old_objs.len() && (#[trigger] old_objs[a]).slot.index == q;
            if a < j {
                assert(self.objs@[a] == old_objs[a]);
            } else {
                assert(a != j);
                assert(self.objs@[a - 1] == old_objs[a]);
            }
        }
        assert forall|a: int, b: int| 0 <= a < b < self.objs@.len() implies
            (#[trigger] self.objs@[a]).slot.index != (#[trigger] self.objs@[b]).slot.index by {
            let a0 = if a < j { a } else { a + 1 };
            let b0 = if b < j { b } else { b + 1 };
            assert(self.objs@[a] == old_objs[a0]);
            assert(self.objs@[b] == old_objs[b0]);
            assert(old_objs[a0].slot.index != old_objs[b0].slot.index);
        }
        proof {
            self.lemma_index_consistent();
        }
        Some(info)
    }

    /// The slots bound to `obj`, each once, as the secondary index lists them.
    pub fn obj_to_slots(&self, obj: ObjID) -> (r: Vec<Slot>)
        requires
            self.wf(),
        ensures
            indices(r@).no_duplicates(),
            forall|k: usize|
                indices(r@).contains(k) <==> (self@.contains_key(k) && self@[k].obj == obj),
            forall|i: int|
                0 <= i < r@.len() ==> self@.contains_key((#[trigger] r@[i]).index) && r@[i]
                    == self@[r@[i].index].slot,
    {
        let mut r: Vec<Slot> = Vec::new();
        let mut j: usize = 0;
        while j < self.objs.len()
            invariant
                self.wf(),
                0 <= j <= self.objs@.len(),
                indices(r@).no_duplicates(),
                forall|i: int|
                    0 <= i < r@.len() ==> (#[trigger] r@[i]) == self@[r@[i].index].slot
                        && self@.contains_key(r@[i].index) && self@[r@[i].index].obj == obj,
                forall|i: int|
                    0 <= i < r@.len() ==> exists|q: int|
                        0 <= q < j && (#[trigger] self.objs@[q]).slot.index == (#[trigger] r@[i]).index,
                forall|q: int|
                    0 <= q < j && (#[trigger] self.objs@[q]).obj == obj ==> indices(r@).contains(
                        self.objs@[q].slot.index,
                    ),
            decreases self.objs@.len() - j,
        {
            let e = self.objs[j];
            if e.obj == obj {
                proof {
                    assert forall|i: int| 0 <= i < r@.len() implies (#[trigger] r@[i]).index
                        != e.slot.index by {
                        let q = choose|q: int|
                            0 <= q < j && (#[trigger] self.objs@[q]).slot.index == r@[i].index;
                        assert(self.objs@[q].slot.index != self.objs@[j as int].slot.index);
                    }
                }
                let ghost prev = r@;
                r.push(e.slot);
                proof {
                    assert(indices(r@) =~= indices(prev).push(e.slot.index));
                    assert(r@[prev.len() as int] == e.slot);
                    assert(self.objs@[j as int] == e);
                    assert forall|q: int|
                        0 <= q < j + 1 && (#[trigger] self.objs@[q]).obj == obj implies indices(
                        r@,
                    ).contains(self.objs@[q].slot.index) by {
                        if q < j {
                            let t = choose|t: int|
                                0 <= t < indices(prev).len() && indices(prev)[t]
                                    == self.objs@[q].slot.index;
                            assert(indices(r@)[t] == indices(prev)[t]);
                        } else {
                            assert(indices(r@)[prev.len() as int] == e.slot.index);
                        }
                    }
                    assert forall|i: int| 0 <= i < r@.len() implies exists|q: int|
                        0 <= q < j + 1 && (#[trigger] self.objs@[q]).slot.index == (
                        #[trigger] r@[i]).index by {
                        if i == prev.len() {
                            assert(self.objs@[j as int].slot.index == r@[i].index);
                        } else {
                            assert(r@[i] == prev[i]);
                        }
                    }
                }
            }
            j = j + 1;
        }
        proof {
            assert forall|k: usize|
                indices(r@).contains(k) <==> (self@.contains_key(k) && self@[k].obj == obj) by {
                if indices(r@).contains(k) {
                    let t = choose|t: int| 0 <= t < indices(r@).len() && indices(r@)[t] == k;
                    assert(r@[t].index == k);
                }
                if self@.contains_key(k) && self@[k].obj == obj {
                    let q = choose|q: int|
                        0 <= q < self.objs@.len() && (#[trigger] self.objs@[q]).slot.index == k;
                    assert(self.objs@[q].obj == obj);
                }
            }
        }
        r
    }

    /// The object of each binding, in binding order: one entry per bound slot.
    pub fn objects(&self) -> (r: Vec<ObjID>)
        requires
            self.wf(),
        ensures
            r@ == self.order().map_values(|k: usize| self@[k].obj),
    {
        let mut r: Vec<ObjID> = Vec::new();
        let mut i: usize = 0;
        while i < self.slots.len()
            invariant
                self.wf(),
                0 <= i <= self.slots@.len(),
                r@.len() == i,
                forall|j: int| 0 <= j < i ==> #[trigger] r@[j] == self.slots@[j].obj,
            decreases self.slots@.len() - i,
        {
            r.push(self.slots[i].obj);
            i = i + 1;
        }
        proof {
            assert forall|j: int| 0 <= j < r@.len() implies #[trigger] r@[j] == self.order().map_values(
                |k: usize| self@[k].obj,
            )[j] by {
                assert(self.slots@[j] == self@[self.slots@[j].slot.index]);
            }
            assert(r@ =~= self.order().map_values(|k: usize| self@[k].obj));
        }
        r
    }

    /// In a well-formed table, the secondary index lists exactly the bound slots under their
    /// objects, every binding records its own slot, and the binding order lists each bound slot
    /// once.
    pub proof fn lemma_index_consistent(&self)
        requires
            self.wf(),
        ensures
            forall|obj: ObjID, k: usize|
                #[trigger] self.indexed(obj, k) <==> (self@.contains_key(k) && self@[k].obj == obj),
            forall|k: usize|
                #[trigger] self@.contains_key(k) ==> self@[k].slot.index == k && self@[k].slot.wf(),
            self.order().no_duplicates(),
            self.order().to_set() == self@.dom(),
    {
        assert forall|obj: ObjID, k: usize|
            self@.contains_key(k) && self@[k].obj == obj implies #[trigger] self.indexed(obj, k) by {
            {
                let i = choose|i: int|
                    0 <= i < self.objs@.len() && (#[trigger] self.objs@[i]).slot.index == k;
                assert(self.objs@[i].obj == obj);
            }
        }
        assert forall|k: usize| #[trigger] self@.contains_key(k) implies self@[k].slot.index == k
            && self@[k].slot.wf() by {
            let i = choose|i: int|
                0 <= i < self.slots@.len() && (#[trigger] self.slots@[i]).slot.index == k;
            assert(self.slots@[i].slot.wf());
        }
        assert forall|i: int, j: int|
            0 <= i < self.order().len() && 0 <= j < self.order().len() && i != j implies
                self.order()[i] != self.order()[j] by {
            if i < j {
                assert(self.slots@[i].slot.index != self.slots@[j].slot.index);
            } else {
                assert(self.slots@[j].slot.index != self.slots@[i].slot.index);
            }
        }
        assert forall|k: usize| self.order().to_set().contains(k) <==> self@.dom().contains(k) by {
            if self@.dom().contains(k) {
                let i = choose|i: int|
                    0 <= i < self.slots@.len() && (#[trigger] self.slots@[i]).slot.index == k;
                assert(self.order()[i] == k);
            }
            if self.order().to_set().contains(k) {
                let i = choose|i: int| 0 <= i < self.order().len() && self.order()[i] == k;
                assert(self.slots@[i].slot.index == k);
            }
        }
        assert(self.order().to_set() =~= self@.dom());
    }
}

} // verus!
