use vixel::editor::EditorEvent;
use vixel::editor::EditorModeController;
use vixel::editor::Mode;

#[test]
fn mode_labels() {
    assert_eq!(Mode::Command.get_str(), "CMD");
    assert_eq!(Mode::Visual.get_str(), "VIS");
    assert_eq!(Mode::Edit.get_str(), "EDIT");
}

#[test]
fn starts_in_edit_with_empty_buffer() {
    let ctl = EditorModeController::new();
    assert_eq!(ctl.mode(), Mode::Edit);
    assert_eq!(ctl.command().as_str(), "");
}

#[test]
fn toggle_visual_from_edit_and_back() {
    let mut ctl = EditorModeController::new();
    ctl.toggle_visual();
    assert_eq!(ctl.mode(), Mode::Visual);
    ctl.toggle_visual();
    assert_eq!(ctl.mode(), Mode::Edit);
}

#[test]
fn enter_command_from_edit_and_visual() {
    let mut ctl = EditorModeController::new();
    ctl.enter_command();
    assert_eq!(ctl.mode(), Mode::Command);
    assert_eq!(ctl.command().as_str(), "");

    let mut ctl = EditorModeController::new();
    ctl.toggle_visual();
    ctl.enter_command();
    assert_eq!(ctl.mode(), Mode::Command);
    assert_eq!(ctl.command().as_str(), "");
}

#[test]
fn toggle_has_no_effect_in_command_mode() {
    let mut ctl = EditorModeController::new();
    ctl.enter_command();
    ctl.toggle_visual();
    assert_eq!(ctl.mode(), Mode::Command);
}

#[test]
fn focus_lost_in_command_resets_and_clears() {
    let mut ctl = EditorModeController::new();
    ctl.enter_command();
    ctl.text_input('x');
    ctl.handle_event(EditorEvent::FocusLost);
    assert_eq!(ctl.mode(), Mode::Edit);
    assert_eq!(ctl.command().as_str(), "");
}

#[test]
fn focus_lost_outside_command_is_a_no_op() {
    let mut ctl = EditorModeController::new();
    ctl.handle_event(EditorEvent::FocusLost);
    assert_eq!(ctl.mode(), Mode::Edit);

    ctl.toggle_visual();
    ctl.handle_event(EditorEvent::FocusLost);
    assert_eq!(ctl.mode(), Mode::Visual);
}

#[test]
fn characters_append_only_in_command_mode() {
    let mut ctl = EditorModeController::new();
    ctl.text_input('z');
    assert_eq!(ctl.command().as_str(), "");
    ctl.toggle_visual();
    ctl.text_input('z');
    assert_eq!(ctl.command().as_str(), "");

    ctl.toggle_visual();
    ctl.enter_command();
    ctl.text_input('a');
    ctl.text_input('b');
    assert_eq!(ctl.command().as_str(), "ab");
}

#[test]
fn command_sequence_then_submit() {
    let mut ctl = EditorModeController::new();
    ctl.handle_event(EditorEvent::EnterCommandKey);
    ctl.handle_event(EditorEvent::CharacterInput('a'));
    ctl.handle_event(EditorEvent::CharacterInput('b'));
    assert_eq!(ctl.command().as_str(), "ab");
    ctl.handle_event(EditorEvent::FocusLost);
    assert_eq!(ctl.command().as_str(), "");
    assert_eq!(ctl.mode(), Mode::Edit);
}

#[test]
fn handle_event_covers_the_transition_table() {
    let mut ctl = EditorModeController::new();
    ctl.handle_event(EditorEvent::ToggleVisualKey);
    assert_eq!(ctl.mode(), Mode::Visual);
    ctl.handle_event(EditorEvent::ToggleVisualKey);
    assert_eq!(ctl.mode(), Mode::Edit);
    ctl.handle_event(EditorEvent::EnterCommandKey);
    assert_eq!(ctl.mode(), Mode::Command);
    ctl.handle_event(EditorEvent::ToggleVisualKey);
    assert_eq!(ctl.mode(), Mode::Command);
    ctl.handle_event(EditorEvent::EnterCommandKey);
    assert_eq!(ctl.mode(), Mode::Command);
    ctl.handle_event(EditorEvent::FocusLost);
    assert_eq!(ctl.mode(), Mode::Edit);
}

#[test]
fn character_events_keep_the_mode() {
    let mut ctl = EditorModeController::new();
    ctl.handle_event(EditorEvent::CharacterInput('q'));
    assert_eq!(ctl.mode(), Mode::Edit);
    ctl.enter_command();
    ctl.handle_event(EditorEvent::CharacterInput('q'));
    assert_eq!(ctl.mode(), Mode::Command);
}

#[test]
fn status_matches_mode_label() {
    let mut ctl = EditorModeController::new();
    assert_eq!(ctl.status(), "EDIT");
    ctl.toggle_visual();
    assert_eq!(ctl.status(), "VIS");
    ctl.enter_command();
    assert_eq!(ctl.status(), "CMD");
}
