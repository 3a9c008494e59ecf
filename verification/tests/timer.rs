use obstacle_run::timer::{ScrollTimer, SCROLL_INTERVAL_NANOS};

const MS: u64 = 1_000_000;

fn fires(timer: &mut ScrollTimer, deltas: &[u64]) -> u32 {
    let mut count = 0;
    for delta in deltas {
        timer.tick(*delta);
        if timer.fired() {
            count += 1;
        }
    }
    count
}

#[test]
fn scroll_timer_starts_at_rest() {
    let timer = ScrollTimer::scroll();
    assert_eq!(timer.interval, 125 * MS);
    assert_eq!(SCROLL_INTERVAL_NANOS, 125_000_000);
    assert_eq!(timer.elapsed, 0);
    assert!(!timer.fired());
}

#[test]
fn new_timer_keeps_its_interval() {
    let timer = ScrollTimer::new(7);
    assert_eq!(timer, ScrollTimer { interval: 7, elapsed: 0, fired: false });
}

#[test]
fn tick_below_the_interval_does_not_fire() {
    let mut timer = ScrollTimer::scroll();
    timer.tick(124 * MS);
    assert!(!timer.fired());
    assert_eq!(timer.elapsed, 124 * MS);
    assert_eq!(timer.interval, 125 * MS);
}

#[test]
fn tick_that_reaches_the_interval_fires() {
    let mut timer = ScrollTimer::scroll();
    timer.tick(125 * MS);
    assert!(timer.fired());
    assert_eq!(timer.elapsed, 0);
}

#[test]
fn tick_carries_what_is_left_over() {
    let mut timer = ScrollTimer::scroll();
    timer.tick(100 * MS);
    assert!(!timer.fired());
    timer.tick(100 * MS);
    assert!(timer.fired());
    assert_eq!(timer.elapsed, 75 * MS);
    timer.tick(49 * MS);
    assert!(!timer.fired());
    assert_eq!(timer.elapsed, 124 * MS);
    timer.tick(1 * MS);
    assert!(timer.fired());
    assert_eq!(timer.elapsed, 0);
}

#[test]
fn fired_lasts_for_one_tick_only() {
    let mut timer = ScrollTimer::scroll();
    timer.tick(125 * MS);
    assert!(timer.fired());
    timer.tick(0);
    assert!(!timer.fired());
    assert_eq!(timer.elapsed, 0);
}

#[test]
fn long_tick_fires_once_and_leaves_no_backlog() {
    let mut timer = ScrollTimer::scroll();
    timer.tick(300 * MS);
    assert!(timer.fired());
    assert_eq!(timer.elapsed, 50 * MS);
    timer.tick(0);
    assert!(!timer.fired());
    timer.tick(74 * MS);
    assert!(!timer.fired());
    timer.tick(1 * MS);
    assert!(timer.fired());
}

#[test]
fn tick_of_exactly_many_intervals_leaves_nothing() {
    let mut timer = ScrollTimer::new(10);
    timer.tick(3);
    timer.tick(40);
    assert!(timer.fired());
    assert_eq!(timer.elapsed, 3);
}

#[test]
fn longest_tick_is_taken() {
    let mut timer = ScrollTimer::scroll();
    timer.tick(124 * MS);
    timer.tick(u64::MAX);
    assert!(timer.fired());
    let expected = ((124 * MS) as u128 + u64::MAX as u128) % (125 * MS) as u128;
    assert_eq!(timer.elapsed as u128, expected);
}

#[test]
fn interval_of_one_nanosecond() {
    let mut timer = ScrollTimer::new(1);
    timer.tick(0);
    assert!(!timer.fired());
    timer.tick(5);
    assert!(timer.fired());
    assert_eq!(timer.elapsed, 0);
}

#[test]
fn fires_once_per_interval_of_time_added() {
    let mut timer = ScrollTimer::scroll();
    let frame = 16_666_667;
    let mut count: u64 = 0;
    let mut sum: u64 = 0;
    for _ in 0..600 {
        timer.tick(frame);
        sum += frame;
        if timer.fired() {
            count += 1;
        }
        assert_eq!(count, sum / (125 * MS));
        assert_eq!(timer.elapsed, sum % (125 * MS));
    }
    assert_eq!(count, 80);
}

#[test]
fn resplitting_the_same_time_fires_as_often() {
    let mut a = ScrollTimer::scroll();
    let mut b = ScrollTimer::scroll();
    let mut c = ScrollTimer::scroll();
    assert_eq!(fires(&mut a, &[100 * MS, 100 * MS, 50 * MS]), 2);
    assert_eq!(fires(&mut b, &[125 * MS, 125 * MS]), 2);
    assert_eq!(fires(&mut c, &[50 * MS; 5]), 2);
    assert_eq!(a.elapsed, 0);
    assert_eq!(b.elapsed, 0);
    assert_eq!(c.elapsed, 0);
}

#[test]
fn frame_that_skips_an_interval_fires_once() {
    let mut whole = ScrollTimer::scroll();
    let mut split = ScrollTimer::scroll();
    assert_eq!(fires(&mut whole, &[250 * MS]), 1);
    assert_eq!(fires(&mut split, &[125 * MS, 125 * MS]), 2);
    assert_eq!(whole.elapsed, split.elapsed);
}
