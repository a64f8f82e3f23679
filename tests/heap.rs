use virtmem::binding::{CacheType, MappingCursor};
use virtmem::heap::{growth_len, GlobalPageAlloc, HeapError};
use virtmem::layout::{HEAP_MAX_LEN, HEAP_START, INITIAL_HEAP_LEN};

#[test]
fn growth_is_twice_the_page_rounded_request() {
    assert_eq!(growth_len(1, 8), Some(0x2000));
    assert_eq!(growth_len(0x1000, 8), Some(0x2000));
    assert_eq!(growth_len(0x1001, 8), Some(0x4000));
    assert_eq!(growth_len(0x10, 0x2000), Some(0x4000));
    assert_eq!(growth_len(0, 1), Some(0));
    assert_eq!(growth_len(u64::MAX - 10, 8), None);
}

#[test]
fn heap_must_be_initialized_once() {
    let mut h = GlobalPageAlloc::new();
    assert!(!h.is_initialized());
    assert_eq!(h.extend(0x1000), Err(HeapError::NotInitialized));
    assert_eq!(h.grow_for(8, 8), Err(HeapError::NotInitialized));
    let r = h.init().unwrap();
    assert_eq!(r.cursor, MappingCursor { start: HEAP_START, len: INITIAL_HEAP_LEN as u64 });
    assert!(r.settings.prot.read && r.settings.prot.write && !r.settings.prot.execute);
    assert_eq!(r.settings.cache, CacheType::WriteBack);
    assert!(r.settings.flags.global && !r.settings.flags.user);
    assert_eq!(h.end(), HEAP_START + 0x20_0000);
    assert_eq!(h.init(), Err(HeapError::AlreadyInitialized));
    assert_eq!(h.end(), HEAP_START + 0x20_0000);
}

#[test]
fn heap_growth_is_contiguous_and_monotonic() {
    let mut h = GlobalPageAlloc::new();
    h.init().unwrap();
    let mut last = h.end();
    for size in [0x1000u64, 0x30_0000, 0x10, 0x1234] {
        let before = h.end();
        let r = h.grow_for(size, 16).unwrap();
        assert_eq!(r.cursor.start, before);
        assert_eq!(r.cursor.len, growth_len(size, 16).unwrap());
        assert!(r.cursor.len >= 2 * size);
        assert_eq!(h.end(), before + r.cursor.len);
        assert!(h.end() >= last);
        last = h.end();
    }
    assert_eq!(h.end(), HEAP_START + 0x20_0000 + 0x2000 + 0x60_0000 + 0x2000 + 0x4000);
}

#[test]
fn heap_growth_stops_at_maximum() {
    let mut h = GlobalPageAlloc::new();
    h.init().unwrap();
    let end = h.end();
    assert_eq!(h.grow_for(HEAP_MAX_LEN, 8), Err(HeapError::Exhausted));
    assert_eq!(h.end(), end);
    let rest = HEAP_START + HEAP_MAX_LEN - end;
    assert!(h.extend(rest).is_ok());
    assert_eq!(h.end(), HEAP_START + HEAP_MAX_LEN);
    assert_eq!(h.extend(1), Err(HeapError::Exhausted));
}
