use mqtt_bench::barrier::Barrier;

#[test]
fn barrier_opens_with_the_last_arrival() {
    let mut barrier = Barrier::new(3);
    assert!(!barrier.is_released());
    assert!(!barrier.arrive());
    assert!(!barrier.is_released());
    assert!(!barrier.arrive());
    assert!(!barrier.is_released());
    assert!(barrier.arrive());
    assert!(barrier.is_released());
    assert_eq!(barrier.arrived, 3);
    assert_eq!(barrier.parties, 3);
}

#[test]
fn barrier_for_one_opens_at_once() {
    let mut barrier = Barrier::new(1);
    assert!(!barrier.is_released());
    assert!(barrier.arrive());
    assert!(barrier.is_released());
}

#[test]
fn barrier_for_nobody_is_open() {
    let barrier = Barrier::new(0);
    assert!(barrier.is_released());
}

#[test]
fn barrier_opens_exactly_once() {
    for parties in 1..50usize {
        let mut barrier = Barrier::new(parties);
        let mut opened = 0;
        for arrival in 1..=parties {
            let released = barrier.arrive();
            assert_eq!(released, arrival == parties);
            assert_eq!(barrier.is_released(), arrival == parties);
            if released {
                opened += 1;
            }
        }
        assert_eq!(opened, 1);
    }
}

#[test]
fn barrier_check_tells_overfull_barriers() {
    assert!(Barrier { parties: 2, arrived: 0 }.check());
    assert!(Barrier { parties: 2, arrived: 2 }.check());
    assert!(!Barrier { parties: 2, arrived: 3 }.check());
}
