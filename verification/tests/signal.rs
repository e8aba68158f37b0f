use audyo::signal::{shift_in, RandomSignal, Signal};

#[test]
fn samples_lie_in_the_range() {
    let mut source = RandomSignal::new(10, 13);
    let mut seen = [false; 3];
    for _ in 0..2000 {
        let value = source.next().unwrap();
        assert!((10..13).contains(&value));
        seen[(value - 10) as usize] = true;
    }
    assert_eq!(seen, [true, true, true]);
    let mut single = RandomSignal::new(u64::MAX - 1, u64::MAX);
    assert_eq!(single.next(), Some(u64::MAX - 1));
}

#[test]
fn shift_in_drops_the_oldest_points() {
    let mut points = vec![1, 2, 3, 4, 5];
    shift_in(&mut points, vec![8, 9]);
    assert_eq!(points, vec![3, 4, 5, 8, 9]);
    shift_in(&mut points, vec![]);
    assert_eq!(points, vec![3, 4, 5, 8, 9]);
    shift_in(&mut points, vec![0, 0, 0, 0, 0]);
    assert_eq!(points, vec![0, 0, 0, 0, 0]);
}

#[test]
fn window_slides_by_its_rate() {
    let mut signal = Signal::new(RandomSignal::new(0, 100), 200, 2);
    assert_eq!(signal.points().len(), 200);
    assert!(signal.points().iter().all(|p| *p < 100));
    let before = signal.points().clone();
    signal.on_tick();
    assert_eq!(signal.points().len(), 200);
    assert_eq!(signal.points()[..198], before[2..]);
    assert!(signal.points()[198..].iter().all(|p| *p < 100));

    let mut still = Signal::new(RandomSignal::new(5, 6), 3, 0);
    still.on_tick();
    assert_eq!(still.points(), &vec![5, 5, 5]);
}
