use heartbeat::{App, Control, Event, Key, LivenessFlag};

#[test]
fn tick_advances_the_trace() {
    let mut app = App::new();
    let mut flag = LivenessFlag::new();
    let next = app.handle(Event::Tick, &mut flag);
    assert_eq!(next, Control::Continue);
    assert_eq!(app.dot_x(), 1);
    assert_eq!(app.line()[0], (0, 500));
}

#[test]
fn tick_takes_the_flag() {
    let mut app = App::new();
    let mut flag = LivenessFlag::new();
    flag.report(true);
    let next = app.handle(Event::Tick, &mut flag);
    assert_eq!(next, Control::Continue);
    assert!(!flag.is_raised());
    assert!(app.is_beating());
    assert_eq!(app.initial_heartbeat_x(), 0);
}

#[test]
fn q_quits_and_changes_nothing() {
    let mut app = App::new();
    let mut flag = LivenessFlag::new();
    app.handle(Event::Tick, &mut flag);
    flag.report(true);
    let next = app.handle(Event::Input(Key::Char('q')), &mut flag);
    assert_eq!(next, Control::Quit);
    assert_eq!(app.dot_x(), 1);
    assert_eq!(app.dot_y(), 500);
    assert!(!app.is_beating());
    assert!(flag.is_raised());
    assert_eq!(app.visible(), vec![(0, 500)]);
}

#[test]
fn other_keys_change_nothing() {
    let mut app = App::new();
    let mut flag = LivenessFlag::new();
    flag.report(true);
    for key in [Key::Char('x'), Key::Char('Q'), Key::Char(' '), Key::Other] {
        let next = app.handle(Event::Input(key), &mut flag);
        assert_eq!(next, Control::Continue);
        assert_eq!(app.dot_x(), 0);
        assert!(!app.is_beating());
        assert!(flag.is_raised());
        assert!(app.visible().is_empty());
    }
}

#[test]
fn events_in_order() {
    let mut app = App::new();
    let mut flag = LivenessFlag::new();
    let stream = [
        Event::Tick,
        Event::Input(Key::Other),
        Event::Tick,
        Event::Tick,
        Event::Input(Key::Char('q')),
    ];
    let mut seen = Vec::new();
    for event in stream {
        seen.push(app.handle(event, &mut flag));
    }
    assert_eq!(
        seen,
        vec![
            Control::Continue,
            Control::Continue,
            Control::Continue,
            Control::Continue,
            Control::Quit
        ]
    );
    assert_eq!(app.dot_x(), 3);
}
