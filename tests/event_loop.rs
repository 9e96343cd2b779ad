use dungeons::app::{poll_timeout, tick_due, App, InputEvent, TICK_MS};

#[test]
fn new_session_runs() {
    let app = App::new(&vec![vec![1, 2], vec![3, 0]]);
    assert!(app.is_running());
    assert_eq!(app.map().cell_at(0, 1), Some(2));
}

#[test]
fn quit_key_ends_the_session() {
    let mut app = App::new(&vec![vec![0]]);
    app.handle_input(InputEvent::Char('q'));
    assert!(!app.is_running());
    app.handle_input(InputEvent::Char('x'));
    app.handle_input(InputEvent::NonKey);
    assert!(!app.is_running());
}

#[test]
fn other_events_change_nothing() {
    let mut app = App::new(&vec![vec![0, 1]]);
    for e in [
        InputEvent::Char('x'),
        InputEvent::Char('Q'),
        InputEvent::OtherKey,
        InputEvent::NonKey,
    ] {
        app.handle_input(e);
        assert!(app.is_running());
    }
    assert_eq!(app.map().dimensions(), (1, 2));
}

#[test]
fn wait_never_exceeds_a_tick() {
    assert_eq!(TICK_MS, 250);
    assert_eq!(poll_timeout(0), 250);
    assert_eq!(poll_timeout(100), 150);
    assert_eq!(poll_timeout(249), 1);
    assert_eq!(poll_timeout(250), 0);
    assert_eq!(poll_timeout(10_000), 0);
    assert_eq!(poll_timeout(u64::MAX), 0);
}

#[test]
fn tick_boundary_moves_after_a_full_tick() {
    assert!(!tick_due(0));
    assert!(!tick_due(249));
    assert!(tick_due(250));
    assert!(tick_due(u64::MAX));
}
