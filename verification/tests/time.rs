use mathilda::fixed::Fixed;
use mathilda::time::Timer;

fn fx(raw: i64) -> Fixed {
    Fixed::from_raw(raw)
}

#[test]
fn timer_starts_at_zero() {
    let timer = Timer::new(20);
    assert_eq!(timer.frame_time(), fx(0));
    assert_eq!(timer.delta(), fx(0));
    assert_eq!(timer.lifetime(), fx(0));
    assert_eq!(timer.frame_time_smooth(), None);
    assert_eq!(timer.frames_per_second(), None);
    assert_eq!(timer.frames_per_second_smooth(), None);
}

#[test]
fn timer_records_a_frame() {
    let mut timer = Timer::new(20);
    timer.advance(16_000);
    assert_eq!(timer.frame_time(), fx(16_000_000));
    assert_eq!(timer.delta(), fx(16_000));
    assert_eq!(timer.lifetime(), fx(16_000));
    assert_eq!(timer.frames_per_second(), Some(fx(62_500_000)));
    timer.advance(4_000);
    assert_eq!(timer.frame_time(), fx(4_000_000));
    assert_eq!(timer.lifetime(), fx(20_000));
    assert_eq!(timer.frame_time_smooth(), Some(fx(10_000_000)));
    assert_eq!(timer.frames_per_second_smooth(), Some(fx(100_000_000)));
    assert_eq!(timer.frames_per_second(), Some(fx(250_000_000)));
}

#[test]
fn timer_window_drops_oldest_at_its_size() {
    let mut timer = Timer::new(3);
    timer.advance(1_000);
    assert_eq!(timer.frame_time_smooth(), Some(fx(1_000_000)));
    timer.advance(3_000);
    assert_eq!(timer.frame_time_smooth(), Some(fx(2_000_000)));
    timer.advance(5_000);
    assert_eq!(timer.frame_time_smooth(), Some(fx(4_000_000)));
    timer.advance(9_000);
    assert_eq!(timer.frame_time_smooth(), Some(fx(7_000_000)));
    let mut none = Timer::new(1);
    none.advance(1_000);
    assert_eq!(none.frame_time_smooth(), None);
    assert_eq!(none.frames_per_second_smooth(), None);
}

#[test]
fn timer_of_a_frame_without_duration_has_no_rate() {
    let mut timer = Timer::new(20);
    timer.advance(0);
    assert_eq!(timer.frames_per_second(), None);
    assert_eq!(timer.frame_time_smooth(), Some(fx(0)));
    assert_eq!(timer.frames_per_second_smooth(), None);
    timer.advance(-2_000);
    assert_eq!(timer.frame_time(), fx(-2_000_000));
    assert_eq!(timer.lifetime(), fx(-2_000));
    assert_eq!(timer.frame_time_smooth(), Some(fx(-1_000_000)));
}

#[test]
fn timer_saturates_and_rewinds() {
    let mut timer = Timer::new(20);
    timer.advance(i64::MAX);
    assert_eq!(timer.frame_time(), fx(i64::MAX));
    assert_eq!(timer.delta(), fx(i64::MAX / 1000));
    timer.rewind();
    assert_eq!(timer.lifetime(), fx(0));
    assert_eq!(timer.frame_time(), fx(i64::MAX));
}

#[test]
fn timer_update_reads_the_clock() {
    let mut timer = Timer::new(20);
    timer.update();
    let first = timer.lifetime();
    assert_eq!(timer.delta(), first);
    assert_eq!(timer.frame_time_smooth(), Some(timer.frame_time()));
    timer.update();
    assert_eq!(timer.lifetime(), first.plus(timer.delta()));
}
