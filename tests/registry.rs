use recorder::registry::{AdmissionError, Registry};

#[test]
fn starts_succeed_up_to_capacity_then_fail_until_a_removal() {
    let mut reg: Registry<&str> = Registry::new(3);
    for expected in 0u32..3 {
        let id = reg.allocate_id().unwrap();
        assert_eq!(id, expected);
        assert_eq!(reg.try_insert(id, "job"), Ok(()));
    }
    assert_eq!(reg.len(), 3);
    assert_eq!(reg.allocate_id(), Err(AdmissionError::CapacityExceeded));
    assert_eq!(reg.remove(1), Some("job"));
    assert_eq!(reg.allocate_id(), Ok(1));
}

#[test]
fn lowest_free_id_is_reused() {
    let mut reg: Registry<u8> = Registry::new(10);
    assert_eq!(reg.try_insert(0, 10), Ok(()));
    assert_eq!(reg.try_insert(2, 12), Ok(()));
    assert_eq!(reg.allocate_id(), Ok(1));
    assert_eq!(reg.try_insert(1, 11), Ok(()));
    assert_eq!(reg.allocate_id(), Ok(3));
    assert_eq!(reg.remove(0), Some(10));
    assert_eq!(reg.allocate_id(), Ok(0));
}

#[test]
fn insert_refuses_used_id_and_full_registry() {
    let mut reg: Registry<u8> = Registry::new(1);
    assert_eq!(reg.try_insert(5, 1), Ok(()));
    assert_eq!(reg.try_insert(5, 2), Err(2));
    assert_eq!(reg.try_insert(6, 3), Err(3));
    assert_eq!(reg.get(5), Some(&1));
    assert_eq!(reg.len(), 1);
}

#[test]
fn zero_capacity_admits_nothing() {
    let reg: Registry<u8> = Registry::new(0);
    assert_eq!(reg.capacity(), 0);
    assert_eq!(reg.allocate_id(), Err(AdmissionError::CapacityExceeded));
}

#[test]
fn get_remove_and_ids() {
    let mut reg: Registry<String> = Registry::new(3);
    assert_eq!(reg.try_insert(7, "a".to_string()), Ok(()));
    assert_eq!(reg.try_insert(3, "b".to_string()), Ok(()));
    assert!(reg.contains(7));
    assert!(!reg.contains(4));
    assert_eq!(reg.get(3).map(|s| s.as_str()), Some("b"));
    assert_eq!(reg.get(4), None);
    let mut ids = reg.ids();
    ids.sort();
    assert_eq!(ids, vec![3, 7]);
    assert_eq!(reg.remove(7), Some("a".to_string()));
    assert_eq!(reg.remove(7), None);
    assert_eq!(reg.ids(), vec![3]);
}
