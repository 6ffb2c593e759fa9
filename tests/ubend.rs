use libspot::{SpotError, Ubend};

#[test]
fn test_ubend_creation() {
    let ubend = Ubend::<f64>::new(5).unwrap();
    assert_eq!(ubend.capacity(), 5);
    assert_eq!(ubend.size(), 0);
    assert!(!ubend.is_filled());
    assert_eq!(ubend.cursor(), 0);
    assert!(ubend.last_erased_data().is_none());
}

#[test]
fn test_ubend_zero_capacity() {
    let result = Ubend::<f64>::new(0);
    assert!(result.is_err());
    assert_eq!(result.unwrap_err(), SpotError::MemoryAllocationFailed);
}

#[test]
fn test_ubend_push_before_full() {
    let mut ubend = Ubend::new(3).unwrap();

    let erased = ubend.push(1.0);
    assert!(erased.is_none());
    assert_eq!(ubend.size(), 1);
    assert!(!ubend.is_filled());
    assert_eq!(ubend.cursor(), 1);

    let erased = ubend.push(2.0);
    assert!(erased.is_none());
    assert_eq!(ubend.size(), 2);
    assert!(!ubend.is_filled());
    assert_eq!(ubend.cursor(), 2);

    let erased = ubend.push(3.0);
    assert!(erased.is_none());
    assert_eq!(ubend.size(), 3);
    assert!(ubend.is_filled());
    assert_eq!(ubend.cursor(), 0);
}

#[test]
fn test_ubend_push_after_full() {
    let mut ubend = Ubend::new(3).unwrap();

    ubend.push(1.0);
    ubend.push(2.0);
    ubend.push(3.0);

    let erased = ubend.push(4.0);
    assert_eq!(erased, Some(1.0));
    assert_eq!(ubend.size(), 3);
    assert!(ubend.is_filled());
    assert_eq!(ubend.cursor(), 1);

    let erased = ubend.push(5.0);
    assert_eq!(erased, Some(2.0));
    assert_eq!(ubend.size(), 3);
    assert!(ubend.is_filled());
    assert_eq!(ubend.cursor(), 2);
}

#[test]
fn test_ubend_get() {
    let mut ubend = Ubend::new(3).unwrap();

    assert!(ubend.get(0).is_none());

    ubend.push(10.0);
    ubend.push(20.0);

    assert_eq!(ubend.get(0).unwrap(), 10.0);
    assert_eq!(ubend.get(1).unwrap(), 20.0);
    assert!(ubend.get(2).is_none());

    ubend.push(30.0);
    ubend.push(40.0);

    assert_eq!(ubend.get(0).unwrap(), 20.0);
    assert_eq!(ubend.get(1).unwrap(), 30.0);
    assert_eq!(ubend.get(2).unwrap(), 40.0);
}

#[test]
fn test_ubend_iterator() {
    let mut ubend = Ubend::new(3).unwrap();

    ubend.push(1.0);
    ubend.push(2.0);
    ubend.push(3.0);

    let values: Vec<f64> = ubend.iter().collect();
    assert_eq!(values, vec![1.0, 2.0, 3.0]);

    ubend.push(4.0);
    let values: Vec<f64> = ubend.iter().collect();
    assert_eq!(values, vec![2.0, 3.0, 4.0]);
}

#[test]
fn test_ubend_exact_size_iterator() {
    let mut ubend = Ubend::new(3).unwrap();

    assert_eq!(ubend.iter().len(), 0);

    ubend.push(1.0);
    assert_eq!(ubend.iter().len(), 1);

    ubend.push(2.0);
    ubend.push(3.0);
    assert_eq!(ubend.iter().len(), 3);

    ubend.push(4.0);
    assert_eq!(ubend.iter().len(), 3);
}

#[test]
fn ubend_keeps_last_pushed_values() {
    for cap in 1usize..6 {
        for m in 0usize..15 {
            let mut ubend = Ubend::new(cap).unwrap();
            for v in 0..m {
                ubend.push(v as u64);
            }
            assert_eq!(ubend.size(), m.min(cap));
            let start = m.saturating_sub(cap);
            let expected: Vec<u64> = (start..m).map(|v| v as u64).collect();
            assert_eq!(ubend.data(), expected);
        }
    }
}

#[test]
fn ubend_evicts_value_pushed_capacity_ago() {
    let mut ubend = Ubend::new(4).unwrap();
    for v in 0u64..4 {
        assert_eq!(ubend.push(v), None);
    }
    for v in 4u64..20 {
        assert_eq!(ubend.push(v), Some(v - 4));
        assert_eq!(ubend.last_erased_data(), Some(v - 4));
    }
}

#[test]
fn ubend_capacity_one() {
    let mut ubend = Ubend::new(1).unwrap();
    assert_eq!(ubend.push(7u64), None);
    assert!(ubend.is_filled());
    assert_eq!(ubend.push(8u64), Some(7));
    assert_eq!(ubend.data(), vec![8]);
    assert_eq!(ubend.cursor(), 0);
}

#[test]
fn ubend_raw_data_is_storage_order() {
    let mut ubend = Ubend::new(3).unwrap();
    ubend.push(1u64);
    ubend.push(2u64);
    assert_eq!(ubend.raw_data(), &[1, 2]);
    ubend.push(3u64);
    ubend.push(4u64);
    assert_eq!(ubend.raw_data(), &[4, 2, 3]);
    assert_eq!(ubend.data(), vec![2, 3, 4]);
}

#[test]
fn ubend_from_parts_round_trip() {
    let mut ubend = Ubend::new(3).unwrap();
    for v in 1u64..6 {
        ubend.push(v);
    }
    let copy = Ubend::from_parts(
        ubend.capacity(),
        ubend.cursor(),
        ubend.is_filled(),
        ubend.raw_data().to_vec(),
        ubend.last_erased_data(),
    )
    .unwrap();
    assert_eq!(copy.data(), ubend.data());
    assert_eq!(copy.cursor(), 2);
    assert_eq!(copy.last_erased_data(), Some(2));
}

#[test]
fn ubend_from_parts_refuses_inconsistent_parts() {
    assert!(Ubend::<u64>::from_parts(0, 0, false, vec![], None).is_none());
    assert!(Ubend::<u64>::from_parts(3, 3, false, vec![1, 2, 3], None).is_none());
    assert!(Ubend::<u64>::from_parts(3, 1, false, vec![1, 2], None).is_none());
    assert!(Ubend::<u64>::from_parts(3, 1, false, vec![1], Some(5)).is_none());
    assert!(Ubend::<u64>::from_parts(3, 1, true, vec![1, 2], None).is_none());
    let ok = Ubend::<u64>::from_parts(3, 1, false, vec![9], None).unwrap();
    assert_eq!(ok.data(), vec![9]);
    let full = Ubend::<u64>::from_parts(3, 1, true, vec![4, 2, 3], Some(1)).unwrap();
    assert_eq!(full.data(), vec![2, 3, 4]);
}

#[test]
fn ubend_rebuilt_full_ring_evicts_oldest() {
    let mut ring = Ubend::<u64>::from_parts(3, 1, true, vec![4, 2, 3], Some(1)).unwrap();
    assert_eq!(ring.size(), ring.capacity());
    assert_eq!(ring.push(7), Some(2));
    assert_eq!(ring.data(), vec![3, 4, 7]);
}
