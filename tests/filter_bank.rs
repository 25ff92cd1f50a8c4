use arm_pipeline::filter::{Filters, MovingAverage, WINDOW_SIZE};

#[test]
fn moving_average_fills_then_slides() {
    let mut m = MovingAverage::new();
    assert_eq!(m.update(1000), 1000);
    assert_eq!(m.update(2000), 1500);
    assert_eq!(m.update(3000), 2000);
    assert_eq!(m.update(4000), 2500);
    assert_eq!(m.update(5000), 3000);
    // the window is full: 1000 leaves as 6000 arrives
    assert_eq!(m.update(6000), 4000);
    assert_eq!(m.count, WINDOW_SIZE);
    assert_eq!(m.sum, 2000 + 3000 + 4000 + 5000 + 6000);
    assert_eq!(m.index, 1);
}

#[test]
fn steady_input_settles_on_its_value() {
    let mut m = MovingAverage::new();
    for v in [700, -9000, 12345, 3, 88] {
        m.update(v);
    }
    let mut last = 0;
    for _ in 0..WINDOW_SIZE {
        last = m.update(-2500);
    }
    assert_eq!(last, -2500);
    let mut fresh = MovingAverage::new();
    let mut out = 0;
    for _ in 0..WINDOW_SIZE {
        out = fresh.update(4200);
    }
    assert_eq!(out, 4200);
}

#[test]
fn negative_mean_rounds_toward_zero() {
    let mut m = MovingAverage::new();
    assert_eq!(m.update(-1), -1);
    assert_eq!(m.update(-2), -1);
    assert_eq!(m.update(2), 0);
}

#[test]
fn reset_filter_equals_fresh_filter() {
    let mut m = MovingAverage::new();
    for v in [10, 20, 30, 40, 50, 60, 70] {
        m.update(v);
    }
    m.reset();
    assert_eq!(m, MovingAverage::new());
    let mut fresh = MovingAverage::new();
    for v in [5, -5, 100] {
        assert_eq!(m.update(v), fresh.update(v));
    }
}

#[test]
fn filter_bank_reset_equals_new_bank() {
    let mut f = Filters::new();
    f.wrist_x_filter.update(3000);
    f.object_mass_filter.update(400_000);
    f.object_height_filter.update(-700);
    assert_ne!(f, Filters::new());
    f.reset();
    assert_eq!(f, Filters::new());
}
