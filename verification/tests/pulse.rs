use heartbeat::pulse::{FALL_END, KICK, PULSE_END, RISE_END, STROKE};
use heartbeat::{App, LivenessFlag};

const BLANK: (i64, i64) = (0, 0);

fn run_to(cursor: usize) -> (App, LivenessFlag) {
    let mut app = App::new();
    let mut flag = LivenessFlag::new();
    for _ in 0..cursor {
        app.update(&mut flag);
    }
    (app, flag)
}

fn ticks(app: &mut App, flag: &mut LivenessFlag, n: usize) {
    for _ in 0..n {
        app.update(flag);
    }
}

#[test]
fn pulse_constants_are_fixed() {
    assert_eq!(RISE_END, 20);
    assert_eq!(FALL_END, 50);
    assert_eq!(PULSE_END, 60);
    assert_eq!(KICK, 15);
    assert_eq!(STROKE, 15);
}

#[test]
fn raised_flag_starts_a_pulse_at_the_cursor() {
    let (mut app, mut flag) = run_to(100);
    flag.report(true);
    app.update(&mut flag);
    assert!(app.is_beating());
    assert_eq!(app.initial_heartbeat_x(), 100);
    assert!(!flag.is_raised());
    assert_eq!(app.dot_y(), 500);
    assert_eq!(app.line()[100], (100, 500));
    assert_eq!(app.line()[101], BLANK);
}

#[test]
fn raised_flag_starts_one_pulse_not_two() {
    let (mut app, mut flag) = run_to(100);
    flag.report(true);
    app.update(&mut flag);
    assert!(!flag.is_raised());
    assert_eq!(app.initial_heartbeat_x(), 100);
    app.update(&mut flag);
    assert!(app.is_beating());
    assert_eq!(app.initial_heartbeat_x(), 100);
    assert_eq!(app.dot_y(), 515);
    ticks(&mut app, &mut flag, 60);
    assert!(!app.is_beating());
    ticks(&mut app, &mut flag, 300);
    assert!(!app.is_beating());
    assert_eq!(app.initial_heartbeat_x(), 100);
    assert_eq!(app.dot_y(), 500);
}

#[test]
fn signal_during_a_pulse_is_lost() {
    let (mut app, mut flag) = run_to(100);
    flag.report(true);
    ticks(&mut app, &mut flag, 10);
    flag.report(true);
    app.update(&mut flag);
    assert!(!flag.is_raised());
    assert_eq!(app.initial_heartbeat_x(), 100);
    assert_eq!(app.dot_y(), 500 + 10 * 15);
    ticks(&mut app, &mut flag, 51);
    assert!(!app.is_beating());
    ticks(&mut app, &mut flag, 5);
    assert!(!app.is_beating());
    assert_eq!(app.initial_heartbeat_x(), 100);
}

#[test]
fn without_a_signal_no_pulse_starts() {
    let (mut app, mut flag) = run_to(100);
    ticks(&mut app, &mut flag, 200);
    assert!(!app.is_beating());
    assert_eq!(app.dot_y(), 500);
}

#[test]
fn each_cursor_position_lies_in_one_window() {
    let (mut app, mut flag) = run_to(100);
    flag.report(true);
    for x in 100..170usize {
        let before = app.dot_y();
        assert_eq!(app.dot_x(), x);
        app.update(&mut flag);
        let change = app.dot_y() - before;
        let expected = if x <= 100 {
            0
        } else if x <= 120 {
            15
        } else if x <= 150 {
            -15
        } else if x <= 160 {
            15
        } else {
            0
        };
        assert_eq!(change, expected, "cursor {}", x);
        assert_eq!(app.is_beating(), x <= 160, "cursor {}", x);
    }
}

#[test]
fn first_rising_tick_draws_fifteen_ascending_points() {
    let (mut app, mut flag) = run_to(100);
    flag.report(true);
    ticks(&mut app, &mut flag, 2);
    assert_eq!(app.dot_y(), 515);
    for k in 0..15usize {
        assert_eq!(app.line()[101 + k], (101, 515 + k as i64));
    }
    assert_eq!(app.line()[116], BLANK);
    assert_eq!(app.line()[100], (100, 500));
}

#[test]
fn pulse_from_100_after_15_ticks() {
    let (mut app, mut flag) = run_to(100);
    flag.report(true);
    ticks(&mut app, &mut flag, 15);
    assert_eq!(app.dot_x(), 115);
    assert_eq!(app.dot_y(), 500 + 14 * 15);
    for j in 0..15usize {
        assert_eq!(app.line()[100 + j], ((100 + j) as i64, 500 + 15 * j as i64));
    }
    for k in 1..15usize {
        assert_eq!(app.line()[114 + k], (114, 710 + k as i64));
    }
    assert_eq!(app.line()[129], BLANK);
    assert!(app.is_beating());
}

#[test]
fn falling_tick_draws_fifteen_descending_points() {
    let (mut app, mut flag) = run_to(100);
    flag.report(true);
    ticks(&mut app, &mut flag, 22);
    assert_eq!(app.dot_x(), 122);
    assert_eq!(app.dot_y(), 500 + 20 * 15 - 15);
    for k in 0..15usize {
        assert_eq!(app.line()[121 + k], (121, 785 - k as i64));
    }
    assert_eq!(app.line()[120], (120, 800));
}

#[test]
fn pulse_from_100_ends_past_cursor_160() {
    let (mut app, mut flag) = run_to(100);
    flag.report(true);
    ticks(&mut app, &mut flag, 45);
    assert_eq!(app.dot_x(), 145);
    assert!(app.is_beating());
    assert_eq!(app.dot_y(), 500 + 20 * 15 - 24 * 15);
    ticks(&mut app, &mut flag, 16);
    assert_eq!(app.dot_x(), 161);
    assert!(app.is_beating());
    app.update(&mut flag);
    assert_eq!(app.dot_x(), 162);
    assert!(!app.is_beating());
}

#[test]
fn height_returns_to_where_the_pulse_began() {
    let (mut app, mut flag) = run_to(100);
    flag.report(true);
    ticks(&mut app, &mut flag, 21);
    assert_eq!(app.dot_y(), 800);
    ticks(&mut app, &mut flag, 30);
    assert_eq!(app.dot_y(), 350);
    ticks(&mut app, &mut flag, 10);
    assert_eq!(app.dot_y(), 500);
    ticks(&mut app, &mut flag, 100);
    assert_eq!(app.dot_y(), 500);
}

#[test]
fn stroke_goes_round_the_end_of_the_buffer() {
    let (mut app, mut flag) = run_to(990);
    flag.report(true);
    ticks(&mut app, &mut flag, 6);
    assert_eq!(app.dot_x(), 996);
    assert_eq!(app.dot_y(), 500 + 5 * 15);
    assert_eq!(app.line().len(), 1000);
    for k in 0..5usize {
        assert_eq!(app.line()[995 + k], (995, 575 + k as i64));
    }
    for k in 5..15usize {
        assert_eq!(app.line()[k - 5], (995, 575 + k as i64));
    }
    assert_eq!(app.line()[10], BLANK);
}

#[test]
fn pulse_begun_near_the_end_waits_for_the_next_sweep() {
    let (mut app, mut flag) = run_to(990);
    flag.report(true);
    ticks(&mut app, &mut flag, 10);
    assert_eq!(app.dot_x(), 1000);
    assert!(app.is_beating());
    ticks(&mut app, &mut flag, 991);
    assert_eq!(app.dot_x(), 991);
    assert_eq!(app.dot_y(), 500);
    assert!(app.is_beating());
    assert_eq!(app.initial_heartbeat_x(), 990);
    app.update(&mut flag);
    assert_eq!(app.dot_y(), 515);
    flag.report(true);
    app.update(&mut flag);
    assert_eq!(app.initial_heartbeat_x(), 990);
    assert!(!flag.is_raised());
}

#[test]
fn height_stays_within_reach_of_the_cursor() {
    let mut app = App::new();
    let mut flag = LivenessFlag::new();
    for n in 0..5000usize {
        if n % 7 == 0 {
            flag.report(true);
        }
        app.update(&mut flag);
        let reach = 15 * app.dot_x() as i64;
        assert!(500 - reach <= app.dot_y() && app.dot_y() <= 500 + reach);
        assert!(app.dot_x() >= 1 && app.dot_x() <= 1000);
        assert!(app.initial_heartbeat_x() < 1000);
        assert_eq!(app.line().len(), 1000);
    }
}
