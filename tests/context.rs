use virtmem::binding::{CacheType, MappingCursor, MappingFlags, MappingSettings, ObjectContextInfo, Protections};
use virtmem::context::{ArchOp, InsertError, InvalidateMode, VirtContext};
use virtmem::layout::{is_kernel, MAX_SIZE, NUM_SLOTS, USER_END};
use virtmem::slot::Slot;

fn rw() -> Protections {
    Protections { read: true, write: true, execute: false }
}

fn info(obj: u128) -> ObjectContextInfo {
    ObjectContextInfo { obj, prot: rw(), cache: CacheType::WriteBack }
}

fn slot(i: usize) -> Slot {
    Slot::new(i).unwrap()
}

#[test]
fn slot_new_accepts_user_range_only() {
    assert_eq!(Slot::new(0), Some(Slot { index: 0 }));
    assert_eq!(Slot::new(NUM_SLOTS - 1).unwrap().raw(), NUM_SLOTS - 1);
    assert_eq!(Slot::new(NUM_SLOTS), None);
}

#[test]
fn slot_from_vaddr_divides_by_object_size() {
    assert_eq!(Slot::from_vaddr(0).unwrap().raw(), 0);
    assert_eq!(Slot::from_vaddr(3 * MAX_SIZE as u64 + 17).unwrap().raw(), 3);
    assert_eq!(Slot::from_vaddr(USER_END - 1).unwrap().raw(), NUM_SLOTS - 1);
    assert_eq!(Slot::from_vaddr(USER_END), None);
    assert_eq!(Slot::from_vaddr(0xffff_8000_0000_0000), None);
}

#[test]
fn slot_start_vaddr_is_index_times_object_size() {
    assert_eq!(slot(0).start_vaddr(), 0);
    assert_eq!(slot(5).start_vaddr(), 0x1_4000_0000);
    assert_eq!(slot(NUM_SLOTS - 1).start_vaddr() + MAX_SIZE as u64, USER_END);
}

#[test]
fn kernel_addresses() {
    assert!(is_kernel(0xffff_8000_0000_0000));
    assert!(is_kernel(u64::MAX));
    assert!(!is_kernel(0x7fff_ffff_ffff));
}

#[test]
fn new_contexts() {
    let k = VirtContext::new_kernel(0);
    assert!(k.is_kernel());
    assert_eq!(k.id(), 0);
    let u = VirtContext::new(7);
    assert!(!u.is_kernel());
    assert_eq!(u.id(), 7);
    assert_eq!(u.get_upcall(), None);
    assert!(u.teardown().is_empty());
}

#[test]
fn upcall_last_writer_wins() {
    let mut c = VirtContext::new(1);
    c.set_upcall(0x1000);
    assert_eq!(c.get_upcall(), Some(0x1000));
    c.set_upcall(0x2000);
    assert_eq!(c.get_upcall(), Some(0x2000));
}

#[test]
fn insert_then_lookup_returns_binding() {
    let mut c = VirtContext::new(1);
    assert_eq!(c.insert_object(slot(3), &info(42)), Ok(()));
    assert_eq!(c.lookup_object(slot(3)), Some(info(42)));
    assert_eq!(c.lookup_object(slot(4)), None);
}

#[test]
fn insert_same_binding_twice_is_idempotent() {
    let mut c = VirtContext::new(1);
    assert_eq!(c.insert_object(slot(3), &info(42)), Ok(()));
    assert_eq!(c.insert_object(slot(3), &info(42)), Ok(()));
    assert_eq!(c.lookup_object(slot(3)), Some(info(42)));
    assert_eq!(c.teardown(), vec![42]);
}

#[test]
fn insert_different_binding_is_occupied() {
    let mut c = VirtContext::new(1);
    assert_eq!(c.insert_object(slot(3), &info(42)), Ok(()));
    assert_eq!(c.insert_object(slot(3), &info(43)), Err(InsertError::Occupied));
    let ro = ObjectContextInfo {
        obj: 42,
        prot: Protections { read: true, write: false, execute: false },
        cache: CacheType::WriteBack,
    };
    assert_eq!(c.insert_object(slot(3), &ro), Err(InsertError::Occupied));
    assert_eq!(c.lookup_object(slot(3)), Some(info(42)));
    assert_eq!(c.teardown(), vec![42]);
}

#[test]
fn remove_unbinds_and_unindexes() {
    let mut c = VirtContext::new(1);
    c.insert_object(slot(1), &info(9)).unwrap();
    c.insert_object(slot(2), &info(9)).unwrap();
    assert_eq!(c.remove_object(slot(1)), Some(9));
    assert_eq!(c.lookup_object(slot(1)), None);
    assert_eq!(c.lookup_object(slot(2)), Some(info(9)));
    let ops = c.invalidate_object(9, 0, 1, InvalidateMode::Full);
    assert_eq!(ops.len(), 1);
    assert_eq!(c.remove_object(slot(1)), None);
}

#[test]
fn lookup_binding_gives_full_record() {
    let mut c = VirtContext::new(1);
    c.insert_object(slot(6), &info(5)).unwrap();
    let b = c.lookup_binding(slot(6)).unwrap();
    assert_eq!(b.obj, 5);
    assert_eq!(b.slot, slot(6));
    assert_eq!(c.lookup_binding(slot(7)), None);
}

#[test]
fn invalidate_full_unmaps_every_slot_of_object() {
    let mut c = VirtContext::new(1);
    c.insert_object(slot(1), &info(9)).unwrap();
    c.insert_object(slot(2), &info(9)).unwrap();
    c.insert_object(slot(3), &info(10)).unwrap();
    let ops = c.invalidate_object(9, 2, 5, InvalidateMode::Full);
    assert_eq!(ops.len(), 2);
    assert!(ops.contains(&ArchOp::Unmap { cursor: MappingCursor { start: 0x4000_2000, len: 0x3000 } }));
    assert!(ops.contains(&ArchOp::Unmap { cursor: MappingCursor { start: 0x8000_2000, len: 0x3000 } }));
    assert!(c.invalidate_object(11, 0, 1, InvalidateMode::Full).is_empty());
}

#[test]
fn invalidate_write_protect_keeps_read() {
    let mut c = VirtContext::new(1);
    c.insert_object(slot(1), &info(9)).unwrap();
    c.insert_object(slot(2), &info(9)).unwrap();
    let ops = c.invalidate_object(9, 0, 1, InvalidateMode::WriteProtect);
    assert_eq!(ops.len(), 2);
    let settings = MappingSettings {
        prot: Protections { read: true, write: false, execute: false },
        cache: CacheType::WriteBack,
        flags: MappingFlags { user: true, global: false },
    };
    assert!(ops.contains(&ArchOp::Change { cursor: MappingCursor { start: 0x4000_0000, len: 0x1000 }, settings }));
    assert!(ops.contains(&ArchOp::Change { cursor: MappingCursor { start: 0x8000_0000, len: 0x1000 }, settings }));
}

#[test]
fn teardown_releases_once_per_binding() {
    let mut c = VirtContext::new(1);
    c.insert_object(slot(1), &info(9)).unwrap();
    c.insert_object(slot(2), &info(9)).unwrap();
    c.insert_object(slot(3), &info(10)).unwrap();
    assert_eq!(c.teardown(), vec![9, 9, 10]);
}
