use fezer::atomic_counter::AtomicCounter;

#[test]
fn test_atomic_counter() {
    let mut counter = AtomicCounter::new();
    assert_eq!(0, counter.next());
    assert_eq!(1, counter.next());
    assert_eq!(2, counter.next());
}

#[test]
fn counter_hundred_increments_cover_range() {
    // Ten rounds of ten increments: the sorted values are exactly 0..100.
    let mut counter = AtomicCounter::new();
    let mut values: Vec<usize> = Vec::new();
    for _ in 0..10 {
        for _ in 0..10 {
            values.push(counter.next());
        }
    }
    values.sort();
    assert_eq!((0_usize..100).collect::<Vec<usize>>(), values);
}
