use duckex::cache::{Cache, DEFAULT_CAPACITY};

#[test]
fn store_returns_slots_in_order() {
    let mut cache: Cache<&str> = Cache::with_capacity(3);
    assert_eq!(cache.store("a"), Some(0));
    assert_eq!(cache.store("b"), Some(1));
    assert_eq!(cache.store("c"), Some(2));
}

#[test]
fn store_fails_when_every_slot_is_taken() {
    let capacity = 5usize;
    let mut cache: Cache<usize> = Cache::with_capacity(capacity);
    for n in 0..capacity {
        assert!(cache.store(n).is_some());
    }
    assert_eq!(cache.store(99), None);
    assert_eq!(cache.store(100), None);
    // A failed store leaves what was stored where it was.
    for n in 0..capacity {
        assert_eq!(cache.get_mut(n), Some(&mut n.clone()));
    }
}

#[test]
fn store_succeeds_again_after_one_remove() {
    let mut cache: Cache<u8> = Cache::with_capacity(4);
    for n in 0..4u8 {
        assert!(cache.store(n).is_some());
    }
    assert_eq!(cache.store(9), None);
    cache.remove(2);
    assert_eq!(cache.store(10), Some(2));
    assert_eq!(cache.store(11), None);
}

#[test]
fn registry_without_slots_never_stores() {
    let mut cache: Cache<u8> = Cache::with_capacity(0);
    assert_eq!(cache.store(1), None);
    assert_eq!(cache.get_mut(0), None);
    cache.remove(0);
    assert_eq!(cache.store(2), None);
}

#[test]
fn search_starts_at_the_slot_taken_last() {
    let mut cache: Cache<char> = Cache::with_capacity(4);
    assert_eq!(cache.store('a'), Some(0));
    assert_eq!(cache.store('b'), Some(1));
    assert_eq!(cache.store('c'), Some(2));
    // Slot 0 is free again, but the search goes on from slot 2.
    cache.remove(0);
    assert_eq!(cache.store('d'), Some(3));
    // Now it wraps around the end to slot 0.
    assert_eq!(cache.store('e'), Some(0));
    assert_eq!(cache.store('f'), None);
}

#[test]
fn search_wraps_around_to_a_slot_before_the_cursor() {
    let mut cache: Cache<u32> = Cache::with_capacity(3);
    assert_eq!(cache.store(10), Some(0));
    assert_eq!(cache.store(11), Some(1));
    assert_eq!(cache.store(12), Some(2));
    cache.remove(1);
    assert_eq!(cache.store(13), Some(1));
    cache.remove(0);
    cache.remove(2);
    // The cursor stands at slot 1: slot 2 comes before slot 0.
    assert_eq!(cache.store(14), Some(2));
    assert_eq!(cache.store(15), Some(0));
}

#[test]
fn live_handles_are_distinct_under_churn() {
    let mut cache: Cache<u32> = Cache::with_capacity(8);
    let mut live: Vec<(u32, u32)> = Vec::new();
    let mut next = 0u32;
    for round in 0..200u32 {
        if round % 3 == 2 && !live.is_empty() {
            let (handle, _) = live.remove((round as usize * 7) % live.len());
            cache.remove(handle as usize);
        } else {
            let stored = cache.store(next);
            if live.len() == 8 {
                assert_eq!(stored, None);
            } else {
                let handle = stored.expect("a slot is free");
                assert!(live.iter().all(|(other, _)| *other != handle));
                live.push((handle, next));
            }
            next += 1;
        }
        for (handle, value) in live.iter() {
            assert_eq!(cache.get_mut(*handle as usize), Some(&mut value.clone()));
        }
    }
}

#[test]
fn reused_handle_resolves_to_the_new_resource() {
    let mut cache: Cache<String> = Cache::with_capacity(1);
    assert_eq!(cache.store("first".to_string()), Some(0));
    cache.remove(0);
    assert_eq!(cache.get_mut(0), None);
    assert_eq!(cache.store("second".to_string()), Some(0));
    assert_eq!(cache.get_mut(0).map(|s| s.as_str()), Some("second"));
}

#[test]
fn get_mut_finds_only_live_slots() {
    let mut cache: Cache<i32> = Cache::with_capacity(2);
    assert_eq!(cache.get_mut(0), None);
    assert_eq!(cache.store(5), Some(0));
    assert_eq!(cache.get_mut(0), Some(&mut 5));
    assert_eq!(cache.get_mut(1), None);
    assert_eq!(cache.get_mut(2), None);
    assert_eq!(cache.get_mut(999_999), None);
    assert_eq!(cache.get_mut(usize::MAX), None);
}

#[test]
fn get_mut_writes_through() {
    let mut cache: Cache<i32> = Cache::with_capacity(2);
    assert_eq!(cache.store(5), Some(0));
    if let Some(slot) = cache.get_mut(0) {
        *slot += 1;
    }
    assert_eq!(cache.get_mut(0), Some(&mut 6));
}

#[test]
fn remove_is_idempotent_and_ignores_unknown_slots() {
    let mut cache: Cache<i32> = Cache::with_capacity(2);
    assert_eq!(cache.store(1), Some(0));
    assert_eq!(cache.store(2), Some(1));
    cache.remove(0);
    cache.remove(0);
    cache.remove(2);
    cache.remove(999_999);
    assert_eq!(cache.get_mut(0), None);
    assert_eq!(cache.get_mut(1), Some(&mut 2));
}

#[test]
fn remove_drops_the_resource() {
    let resource = std::rc::Rc::new(());
    let mut cache: Cache<std::rc::Rc<()>> = Cache::with_capacity(2);
    assert_eq!(cache.store(resource.clone()), Some(0));
    assert_eq!(std::rc::Rc::strong_count(&resource), 2);
    cache.remove(0);
    assert_eq!(std::rc::Rc::strong_count(&resource), 1);
}

#[test]
fn failed_store_drops_the_resource() {
    let resource = std::rc::Rc::new(());
    let mut cache: Cache<std::rc::Rc<()>> = Cache::with_capacity(0);
    assert_eq!(cache.store(resource.clone()), None);
    assert_eq!(std::rc::Rc::strong_count(&resource), 1);
}

#[test]
fn default_registry_has_the_default_capacity() {
    let mut cache: Cache<usize> = Cache::default();
    assert_eq!(DEFAULT_CAPACITY, 1024);
    for n in 0..DEFAULT_CAPACITY {
        assert_eq!(cache.store(n), Some(n as u32));
    }
    assert_eq!(cache.store(0), None);
}

#[test]
fn index_reads_and_index_mut_writes_a_slot() {
    let mut cache: Cache<i32> = Cache::with_capacity(2);
    assert_eq!(cache.store(7), Some(0));
    assert_eq!(cache.index(0), &Some(7));
    assert_eq!(cache.index(1), &None);
    *cache.index_mut(1) = Some(8);
    assert_eq!(cache.get_mut(1), Some(&mut 8));
    assert_eq!(cache.store(9), None);
    *cache.index_mut(0) = None;
    assert_eq!(cache.store(9), Some(0));
}
