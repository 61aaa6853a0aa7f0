use dashboard::terminal::{Mode, TerminalModes};

#[test]
fn nothing_is_held_at_first() {
    let mut modes = TerminalModes::new();
    assert!(!modes.holds_any());
    assert!(!modes.holds(Mode::RawMode));
    assert!(!modes.holds(Mode::AlternateScreen));
    assert!(!modes.holds(Mode::MouseCapture));
    assert_eq!(modes.release(), vec![]);
}

#[test]
fn release_gives_back_all_three_in_order() {
    let mut modes = TerminalModes::new();
    modes.acquire(Mode::MouseCapture);
    modes.acquire(Mode::RawMode);
    modes.acquire(Mode::AlternateScreen);
    assert!(modes.holds_any());
    assert_eq!(
        modes.release(),
        vec![Mode::RawMode, Mode::AlternateScreen, Mode::MouseCapture]
    );
}

#[test]
fn release_gives_back_only_what_was_taken() {
    let mut modes = TerminalModes::new();
    modes.acquire(Mode::RawMode);
    assert!(modes.holds(Mode::RawMode));
    assert!(!modes.holds(Mode::AlternateScreen));
    assert_eq!(modes.release(), vec![Mode::RawMode]);

    let mut modes = TerminalModes::new();
    modes.acquire(Mode::AlternateScreen);
    modes.acquire(Mode::MouseCapture);
    assert_eq!(modes.release(), vec![Mode::AlternateScreen, Mode::MouseCapture]);
}

#[test]
fn teardown_runs_once() {
    let mut modes = TerminalModes::new();
    modes.acquire(Mode::RawMode);
    modes.acquire(Mode::AlternateScreen);
    modes.acquire(Mode::MouseCapture);
    assert_eq!(modes.release().len(), 3);
    assert!(!modes.holds_any());
    assert_eq!(modes.release(), vec![]);
    assert_eq!(modes.release(), vec![]);
}

#[test]
fn taking_a_mode_twice_gives_it_back_once() {
    let mut modes = TerminalModes::new();
    modes.acquire(Mode::RawMode);
    modes.acquire(Mode::RawMode);
    assert_eq!(modes.release(), vec![Mode::RawMode]);
}

#[test]
fn a_mode_can_be_taken_again_after_release() {
    let mut modes = TerminalModes::new();
    modes.acquire(Mode::AlternateScreen);
    assert_eq!(modes.release(), vec![Mode::AlternateScreen]);
    modes.acquire(Mode::MouseCapture);
    assert!(modes.holds(Mode::MouseCapture));
    assert!(!modes.holds(Mode::AlternateScreen));
    assert_eq!(modes.release(), vec![Mode::MouseCapture]);
}
