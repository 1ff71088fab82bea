use ked_core::time::{HostClock, NANOS_PER_SEC};
use ked_core::Time;

#[test]
fn a_new_clock_has_seen_nothing() {
    let time = Time::new_at(5_000);
    assert_eq!(time.get_time(), 0);
    assert_eq!(time.get_delta_time(), 0);
    assert_eq!(time.get_fps(), 0);
    assert_eq!(time.get_frame_count(), 0);
}

#[test]
fn update_reports_each_advance() {
    let advances: [u128; 5] = [16_666_667, 1, 33_333_333, 1_000_000_000, 250_000_000];
    let rates: [u32; 5] = [60, 1_000_000_000, 30, 1, 4];
    let mut time = Time::new_at(77);
    let mut now: u128 = 77;
    let mut total: u128 = 0;
    for k in 0..advances.len() {
        now += advances[k];
        total += advances[k];
        time.update_at(now);
        assert_eq!(time.get_delta_time(), advances[k]);
        assert_eq!(time.get_fps(), rates[k]);
        assert_eq!(time.get_time(), total);
        let seconds = advances[k] as f64 / NANOS_PER_SEC as f64;
        assert_eq!(time.get_fps(), (1.0 / seconds).round() as u32);
    }
}

#[test]
fn fps_rounds_to_the_nearest_whole_number() {
    let cases: [(u128, u32); 8] = [
        (16_000_000, 63),
        (400_000_000, 3),
        (666_666_666, 2),
        (666_666_667, 1),
        (2_000_000_000, 1),
        (2_000_000_001, 0),
        (3, 333_333_333),
        (u128::MAX, 0),
    ];
    for (delta, fps) in cases {
        let mut time = Time::new_at(0);
        time.update_at(delta);
        assert_eq!(time.get_fps(), fps);
    }
}

#[test]
fn a_frame_that_took_no_time_keeps_the_rate() {
    let mut time = Time::new_at(0);
    time.update_at(20_000_000);
    assert_eq!(time.get_fps(), 50);
    time.update_at(20_000_000);
    assert_eq!(time.get_delta_time(), 0);
    assert_eq!(time.get_fps(), 50);
    assert_eq!(time.get_time(), 20_000_000);
}

#[test]
fn a_clock_that_runs_backwards_gives_zero() {
    let mut time = Time::new_at(1_000);
    time.update_at(3_000);
    time.update_at(2_000);
    assert_eq!(time.get_delta_time(), 0);
    assert_eq!(time.get_time(), 1_000);
    time.update_at(500);
    assert_eq!(time.get_delta_time(), 0);
    assert_eq!(time.get_time(), 0);
    time.update_at(2_500);
    assert_eq!(time.get_delta_time(), 2_000);
    assert_eq!(time.get_time(), 1_500);
}

#[test]
fn the_host_clock_moves_forward() {
    let clock = HostClock::new();
    let first = clock.now();
    let mut second = clock.now();
    while second < first + 2_000_000 {
        second = clock.now();
    }
    assert!(second >= first + 2_000_000);
    assert!(clock.now() >= second);
}

#[test]
fn update_follows_the_host_clock() {
    let mut time = Time::new();
    assert_eq!(time.get_time(), 0);
    assert_eq!(time.get_delta_time(), 0);
    let begun = time.now();
    while time.now() < begun + 2_000_000 {}
    time.update();
    let first = time.get_time();
    assert!(first >= 2_000_000);
    assert_eq!(time.get_delta_time(), first);
    assert!(time.get_fps() <= 500);
    let again = time.now();
    while time.now() < again + 1_000_000 {}
    time.update();
    assert!(time.get_delta_time() >= 1_000_000);
    assert_eq!(time.get_time(), first + time.get_delta_time());
    assert!(time.now() >= time.get_time());
}

#[test]
fn a_clock_started_at_a_reading_reads_on_from_it() {
    let mut time = Time::new_at(5_000_000_000);
    let first = time.now();
    assert!(first >= 5_000_000_000);
    while time.now() < first + 1_000_000 {}
    time.update();
    assert!(time.get_delta_time() >= 1_000_000);
    assert_eq!(time.get_time(), time.get_delta_time());
    assert!(time.get_time() < 5_000_000_000);
    assert!(time.get_fps() <= 1_000);
}

#[test]
fn a_reading_past_the_end_of_the_scale_stays_at_the_end() {
    let time = Time::new_at(u128::MAX);
    assert_eq!(time.now(), u128::MAX);
    let mut late = Time::new_at(u128::MAX - 1);
    while late.now() < u128::MAX {}
    late.update();
    assert_eq!(late.get_time(), 1);
}

#[test]
fn readings_add_the_elapsed_time_to_the_start() {
    let time = Time::new_at(10);
    assert_eq!(time.reading(0), 10);
    assert_eq!(time.reading(5), 15);
    assert_eq!(time.reading(u128::MAX - 10), u128::MAX);
    assert_eq!(time.reading(u128::MAX - 9), u128::MAX);
    assert_eq!(time.reading(u128::MAX), u128::MAX);
    assert_eq!(Time::new().reading(7), 7);
}

