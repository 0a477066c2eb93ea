use viewing_system::{handle_presses, reset_line, PressAction, ViewMode};

#[test]
fn no_presses_change_nothing() {
    let r = handle_presses(ViewMode::Parallel, 0, 0, 0);
    assert!(r.actions.is_empty());
    assert_eq!(r.mode, ViewMode::Parallel);
}

#[test]
fn open_presses_come_before_reset_presses() {
    let r = handle_presses(ViewMode::Parallel, 2, 1, 0);
    assert_eq!(
        r.actions,
        vec![
            PressAction::OpenDataFileDialog,
            PressAction::OpenDataFileDialog,
            PressAction::ReportReset,
        ]
    );
    assert_eq!(r.mode, ViewMode::Parallel);
}

#[test]
fn toggle_presses_switch_the_mode_once() {
    let r = handle_presses(ViewMode::Perspective, 0, 3, 2);
    assert_eq!(r.actions, vec![PressAction::ReportReset; 3]);
    assert_eq!(r.mode, ViewMode::Parallel);
}

#[test]
fn reset_line_text() {
    assert_eq!(reset_line(), "Press Reset button.");
}
