use whirlwing::math::Matrix4;
use whirlwing::time::Time;

fn sample() -> Matrix4<f32> {
    Matrix4::new(
        1.0, 2.0, 3.0, 4.0,
        5.0, 6.0, 7.0, 8.0,
        9.0, 10.0, 11.0, 12.0,
        13.0, 14.0, 15.0, 16.0,
    )
}

#[test]
fn matrix_is_stored_column_by_column() {
    let m = sample();
    assert_eq!(m.as_slice()[..4], [1.0, 5.0, 9.0, 13.0]);
    assert_eq!(m.get(0, 1), 2.0);
    assert_eq!(m.get(3, 0), 13.0);
}

#[test]
fn transpose_swaps_rows_and_columns() {
    let mut m = sample();
    m.transpose();
    assert_eq!(m.get(0, 1), 5.0);
    assert_eq!(m.get(1, 0), 2.0);
    assert_eq!(m.get(2, 2), 11.0);
    assert_eq!(m.as_slice()[..4], [1.0, 2.0, 3.0, 4.0]);
}

#[test]
fn transposing_twice_gives_the_matrix_back() {
    let mut m = sample();
    m.transpose();
    m.transpose();
    assert_eq!(m.data, sample().data);
}

#[test]
fn frame_time_is_the_step_between_readings() {
    let mut t = Time::start();
    t.advance(1_000);
    t.advance(17_000);
    assert_eq!((t.now(), t.delta_time()), (17_000, 16_000));
    t.advance(5_000);
    assert_eq!((t.now(), t.delta_time()), (5_000, 0));
    t.reset();
    assert_eq!(t.delta_time(), 0);
    t.tick();
    assert!(t.now() >= 0);
}
