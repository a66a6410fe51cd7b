use ebpf_kit::data::{MapFd, RawOsError, WriteOption, E2BIG, EEXIST, EINVAL, ENOENT};
use ebpf_kit::map::{
    delete_attr, interpret_next_key_result, interpret_status_result, lookup_attr, next_key_attr,
    update_attr, Array, HashMap,
};
use std::collections::HashSet;

#[test]
fn array_iterator() {
    let mut array = Array::new(128).unwrap();
    array.set(1, 51).unwrap();
    array.set(80, 74).unwrap();
    array.set(17, 4).unwrap();

    let mut expected = HashSet::new();
    expected.insert((0, 0));
    expected.insert((1, 51));
    for i in 2..17 {
        expected.insert((i, 0));
    }
    expected.insert((17, 4));
    for i in 18..80 {
        expected.insert((i, 0));
    }
    expected.insert((80, 74));
    for i in 81..128 {
        expected.insert((i, 0));
    }

    let mut found = HashSet::new();
    for (k, v) in array.items() {
        found.insert((k, v));
    }
    assert_eq!(expected, found);
}

#[test]
fn hashmap_iterator() {
    let mut hm = HashMap::new(128).unwrap();
    hm.set_if(1, 51, WriteOption::CreateEntry).unwrap();
    hm.set_if(80, 74, WriteOption::CreateEntry).unwrap();
    hm.set_if(17, 4, WriteOption::CreateEntry).unwrap();

    let mut expected = HashSet::new();
    expected.insert((1, 51));
    expected.insert((80, 74));
    expected.insert((17, 4));

    let mut found = HashSet::new();
    for (k, v) in hm.items() {
        found.insert((k, v));
    }
    assert_eq!(expected, found);
}

#[test]
fn set_then_get_returns_value() {
    let mut hm = HashMap::new(16).unwrap();
    hm.set_if(42, 1000, WriteOption::CreateOrUpdate).unwrap();
    assert_eq!(hm.get(42), Ok(1000));
    hm.set_if(42, 2000, WriteOption::CreateOrUpdate).unwrap();
    assert_eq!(hm.get(42), Ok(2000));
}

#[test]
fn create_entry_on_present_key_fails_and_keeps_value() {
    let mut hm = HashMap::new(16).unwrap();
    hm.set_if(5, 77, WriteOption::CreateEntry).unwrap();
    let r = hm.set_if(5, 88, WriteOption::CreateEntry);
    assert_eq!(r, Err(RawOsError(EEXIST)));
    assert_eq!(hm.get(5), Ok(77));
}

#[test]
fn update_entry_on_absent_key_fails_and_creates_nothing() {
    let mut hm = HashMap::new(16).unwrap();
    let r = hm.set_if(5, 88, WriteOption::UpdateEntry);
    assert_eq!(r, Err(RawOsError(ENOENT)));
    assert_eq!(hm.get(5), Err(RawOsError(ENOENT)));
    assert_eq!(hm.items().len(), 0);
}

#[test]
fn delete_then_get_reports_not_found() {
    let mut hm = HashMap::new(16).unwrap();
    hm.set(9, 12).unwrap();
    hm.delete(9).unwrap();
    assert_eq!(hm.get(9), Err(RawOsError(ENOENT)));
}

#[test]
fn delete_absent_key_reports_not_found() {
    let mut hm = HashMap::new(16).unwrap();
    assert_eq!(hm.delete(3), Err(RawOsError(ENOENT)));
    assert_eq!(hm.delete_entry(3), Err(()));
}

#[test]
fn fresh_array_yields_all_zero_entries() {
    let array = Array::new(128).unwrap();
    let items = array.items();
    assert_eq!(items.len(), 128);
    for (i, (k, v)) in items.iter().enumerate() {
        assert_eq!(*k, i as u32);
        assert_eq!(*v, 0);
    }
}

#[test]
fn next_key_none_on_empty_hashmap_is_none() {
    let hm = HashMap::new(8).unwrap();
    assert_eq!(hm.get_next_key(None), Ok(None));
}

#[test]
fn next_key_walks_every_key_once() {
    let mut hm = HashMap::new(8).unwrap();
    hm.set(10, 1).unwrap();
    hm.set(20, 2).unwrap();
    hm.set(30, 3).unwrap();
    let mut seen = HashSet::new();
    let mut cursor = None;
    loop {
        match hm.get_next_key(cursor).unwrap() {
            Some(k) => {
                assert!(seen.insert(k));
                cursor = Some(k);
            },
            None => break,
        }
    }
    let expected: HashSet<u64> = [10, 20, 30].into_iter().collect();
    assert_eq!(seen, expected);
}

#[test]
fn array_next_key_covers_dense_keys() {
    let array = Array::new(3).unwrap();
    assert_eq!(array.get_next_key(None), Ok(Some(0)));
    assert_eq!(array.get_next_key(Some(0)), Ok(Some(1)));
    assert_eq!(array.get_next_key(Some(1)), Ok(Some(2)));
    assert_eq!(array.get_next_key(Some(2)), Ok(None));
    assert_eq!(array.get_next_key(Some(9)), Ok(Some(0)));
}

#[test]
fn array_rejects_out_of_range_writes_and_reads() {
    let mut array = Array::new(4).unwrap();
    assert_eq!(array.set(4, 1), Err(RawOsError(E2BIG)));
    assert_eq!(array.get(4), Err(RawOsError(ENOENT)));
    let mut slot = 99;
    assert_eq!(array.get_and_write_to_ptr(4, &mut slot), Err(RawOsError(ENOENT)));
    assert_eq!(slot, 99);
    assert_eq!(array.get_and_write_to_ptr(1, &mut slot), Ok(()));
    assert_eq!(slot, 0);
}

#[test]
fn hashmap_rejects_new_key_when_full() {
    let mut hm = HashMap::new(2).unwrap();
    hm.set(1, 1).unwrap();
    hm.set(2, 2).unwrap();
    assert_eq!(hm.set(3, 3), Err(RawOsError(E2BIG)));
    assert_eq!(hm.set(1, 9), Ok(()));
    assert_eq!(hm.get(1), Ok(9));
}

#[test]
fn zero_capacity_is_rejected() {
    assert_eq!(HashMap::new(0).err(), Some(RawOsError(EINVAL)));
    assert_eq!(Array::new(0).err(), Some(RawOsError(EINVAL)));
}

#[test]
fn hashmap_pointer_read_fills_slot() {
    let mut hm = HashMap::new(4).unwrap();
    hm.set(7, 70).unwrap();
    let mut slot = 0;
    assert_eq!(hm.get_and_write_to_ptr(7, &mut slot), Ok(()));
    assert_eq!(slot, 70);
    assert_eq!(hm.get_and_write_to_ptr(8, &mut slot), Err(RawOsError(ENOENT)));
    assert_eq!(slot, 70);
}

#[test]
fn cursor_iteration_is_restartable() {
    let mut hm = HashMap::new(8).unwrap();
    hm.set(1, 10).unwrap();
    hm.set(2, 20).unwrap();
    let mut it1 = hm.iter();
    assert_eq!(hm.next_entry(&mut it1), Some((1, 10)));
    let mut it2 = hm.iter();
    assert_eq!(hm.next_entry(&mut it2), Some((1, 10)));
    assert_eq!(hm.next_entry(&mut it1), Some((2, 20)));
    assert_eq!(hm.next_entry(&mut it1), None);
    assert_eq!(hm.next_entry(&mut it1), None);
}

#[test]
fn syscall_result_interpretation() {
    assert_eq!(interpret_status_result(0, RawOsError(0)), Ok(()));
    assert_eq!(interpret_status_result(-1, RawOsError(EEXIST)), Err(RawOsError(EEXIST)));
    assert_eq!(interpret_next_key_result(0, RawOsError(0)), Ok(true));
    assert_eq!(interpret_next_key_result(-1, RawOsError(ENOENT)), Ok(false));
    assert_eq!(interpret_next_key_result(-1, RawOsError(EINVAL)), Err(RawOsError(EINVAL)));
}

#[test]
fn element_payloads_pair_action_and_flags() {
    let fd = MapFd::new(4);
    let l = lookup_attr(fd, 0x10, 0x20);
    assert_eq!((l.map_fd, l.key, l.value_or_next_key, l.flags), (4, 0x10, 0x20, 0));
    let u = update_attr(fd, 0x10, 0x20, WriteOption::CreateEntry);
    assert_eq!(u.flags, 1);
    let u = update_attr(fd, 0x10, 0x20, WriteOption::UpdateEntry);
    assert_eq!(u.flags, 2);
    let d = delete_attr(fd, 0x10);
    assert_eq!((d.map_fd, d.key, d.value_or_next_key, d.flags), (4, 0x10, 0, 0));
    let n = next_key_attr(fd, 0x10, 0x30);
    assert_eq!((n.key, n.value_or_next_key, n.flags), (0x10, 0x30, 0));
}

#[test]
fn create_attrs_describe_the_map_shape() {
    let h = HashMap::create_attr(128);
    assert_eq!(h.map_type, 1);
    assert_eq!(h.key_size, 8);
    assert_eq!(h.value_size, 8);
    assert_eq!(h.max_entries, 128);
    assert_eq!(h.map_flags, 0);
    let a = Array::create_attr(64);
    assert_eq!(a.map_type, 2);
    assert_eq!(a.key_size, 4);
    assert_eq!(a.value_size, 8);
    assert_eq!(a.max_entries, 64);
    assert_eq!(a.map_flags, 0);
}
