use viewing_system::{must_wait, plan_frame, Event, FramePlan, Key};

#[test]
fn closing_the_window_ends_the_session() {
    assert!(Event::Closed.ends_session());
}

#[test]
fn escape_ends_the_session() {
    assert!(Event::KeyboardInput { key: Some(Key::Escape) }.ends_session());
}

#[test]
fn other_keys_do_not_end_the_session() {
    assert!(!Event::KeyboardInput { key: Some(Key::Other) }.ends_session());
    assert!(!Event::KeyboardInput { key: None }.ends_session());
    assert!(!Event::Other.ends_session());
}

#[test]
fn empty_poll_waits() {
    assert!(must_wait(&Vec::new()));
    assert!(!must_wait(&vec![Event::Other]));
}

#[test]
fn frame_without_exit_forwards_all() {
    let events = vec![Event::Other, Event::KeyboardInput { key: None }, Event::Other];
    assert_eq!(plan_frame(&events), FramePlan { forwarded: 3, quit: false });
}

#[test]
fn frame_stops_at_first_exit() {
    let events = vec![
        Event::Other,
        Event::KeyboardInput { key: Some(Key::Escape) },
        Event::Closed,
        Event::Other,
    ];
    assert_eq!(plan_frame(&events), FramePlan { forwarded: 1, quit: true });
}

#[test]
fn frame_with_exit_first_forwards_nothing() {
    let events = vec![Event::Closed, Event::Other];
    assert_eq!(plan_frame(&events), FramePlan { forwarded: 0, quit: true });
}

#[test]
fn empty_frame_forwards_nothing() {
    assert_eq!(plan_frame(&Vec::new()), FramePlan { forwarded: 0, quit: false });
}
