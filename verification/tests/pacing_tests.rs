use byte::tui::pacing::{opens_picker, tick, Tick};
use byte::tui::{InputMode, Key};

#[test]
fn one_turn_of_the_loop() {
    assert_eq!(
        tick(true, Some(3000), true, Some(499), true, 999),
        Tick { advance_frame: true, hide_result: true, deliver_result: false, reload: false }
    );
    assert_eq!(
        tick(false, Some(2999), true, Some(500), true, 1000),
        Tick { advance_frame: false, hide_result: false, deliver_result: true, reload: true }
    );
    assert_eq!(
        tick(false, None, true, None, false, 5000),
        Tick { advance_frame: false, hide_result: false, deliver_result: true, reload: false }
    );
    assert!(!tick(false, None, false, Some(10_000), false, 0).deliver_result);
}

#[test]
fn ctrl_d_opens_the_picker_only_while_adding() {
    assert!(opens_picker(InputMode::AddingDirectory, Key::Char('d'), true));
    assert!(!opens_picker(InputMode::AddingDirectory, Key::Char('d'), false));
    assert!(!opens_picker(InputMode::Normal, Key::Char('d'), true));
    assert!(!opens_picker(InputMode::AddingDirectory, Key::Char('e'), true));
}
