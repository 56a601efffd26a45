use blink::command::{BlinkCommand, ParseError};
use blink::config::{default_mode, default_true, BlinkConfig, HTTPRequest, KeybindingConfig, LocalRequests};
use blink::keys::{Key, KeyChord};
use blink::mode::VimMode;
use blink::regions::SidePanel;
use blink::state::{BlinkState, FocusArea};

fn request(name: &str, url: &str, body: &str) -> HTTPRequest {
    HTTPRequest {
        name: name.to_string(),
        url: url.to_string(),
        body: body.to_string(),
        method: "GET".to_string(),
    }
}

fn config(requests: Vec<HTTPRequest>, keybindings: Vec<KeybindingConfig>, vim_mode: bool) -> BlinkConfig {
    BlinkConfig { local_requests: LocalRequests { requests }, keybindings, vim_mode }
}

fn lines(v: Vec<Vec<char>>) -> Vec<String> {
    v.into_iter().map(|l| l.into_iter().collect()).collect()
}

fn key(c: char) -> KeyChord {
    KeyChord::plain(Key::Char(c))
}

#[test]
fn word_motion_then_delete_in_normal_mode() {
    let mut st = BlinkState::new(config(vec![], vec![], true)).unwrap();
    st.toggle_focus();
    st.toggle_focus();
    assert_eq!(st.renderer.focus_area, FocusArea::Editor);
    st.renderer.editor.buffer.replace_text("hello world");
    st.renderer.editor.buffer.move_cursor_bol();
    assert_eq!(st.focused_mode(), VimMode::Normal);
    st.handle_key(key('w'));
    assert_eq!(st.renderer.editor.buffer.cursor(), (0, 6));
    st.handle_key(key('x'));
    assert_eq!(lines(st.renderer.editor.buffer.text_lines()), vec!["hello orld"]);
    assert_eq!(st.renderer.editor.buffer.cursor(), (0, 6));
}

#[test]
fn insert_mode_typing_through_keys() {
    let mut st = BlinkState::new(config(vec![], vec![], true)).unwrap();
    st.dispatch(BlinkCommand::ToggleFocus);
    st.dispatch(BlinkCommand::ToggleFocus);
    st.handle_key(key('i'));
    assert_eq!(st.focused_mode(), VimMode::Insert);
    st.handle_key(key('a'));
    st.handle_key(key('b'));
    assert_eq!(lines(st.renderer.editor.buffer.text_lines()), vec!["ab"]);
    assert_eq!(st.renderer.editor.buffer.cursor(), (0, 2));
    st.handle_key(KeyChord::plain(Key::Backspace));
    assert_eq!(lines(st.renderer.editor.buffer.text_lines()), vec!["a"]);
    assert_eq!(st.renderer.editor.buffer.cursor(), (0, 1));
    st.handle_key(KeyChord::plain(Key::Esc));
    assert_eq!(st.focused_mode(), VimMode::Normal);
}

#[test]
fn insert_char_is_ignored_in_normal_mode() {
    let mut st = BlinkState::new(config(vec![], vec![], true)).unwrap();
    st.dispatch(BlinkCommand::ToggleFocus);
    st.dispatch(BlinkCommand::ToggleFocus);
    st.dispatch(BlinkCommand::InsertChar('z'));
    assert_eq!(lines(st.renderer.editor.buffer.text_lines()), vec![""]);
}

#[test]
fn side_panel_selection_is_clamped() {
    let reqs = vec![request("a", "http://a", ""), request("b", "http://b", ""), request("c", "http://c", "")];
    let mut st = BlinkState::new(config(reqs, vec![], true)).unwrap();
    assert_eq!(st.renderer.focus_area, FocusArea::SidePanel);
    st.dispatch(BlinkCommand::MoveCursorDown);
    st.dispatch(BlinkCommand::MoveCursorDown);
    assert_eq!(st.renderer.side_panel.selected_request, 2);
    st.dispatch(BlinkCommand::MoveCursorDown);
    assert_eq!(st.renderer.side_panel.selected_request, 2);
    st.dispatch(BlinkCommand::MoveCursorUp);
    assert_eq!(st.renderer.side_panel.selected_request, 1);
}

#[test]
fn side_panel_direct_moves() {
    let reqs = vec![request("a", "", ""), request("b", "", ""), request("c", "", "")];
    let mut p = SidePanel::new(reqs, true);
    p.selected_request = 2;
    p.move_cursor_down();
    assert_eq!(p.selected_request, 2);
    p.move_cursor_up();
    p.move_cursor_up();
    p.move_cursor_up();
    assert_eq!(p.selected_request, 0);
    assert_eq!(p.mode, VimMode::Normal);
    p.enter_insert_mode();
    assert_eq!(p.mode, VimMode::Insert);
    p.enter_normal_mode();
    assert_eq!(p.mode, VimMode::Normal);
    let mut q = SidePanel::new(vec![], false);
    q.move_cursor_down();
    assert_eq!(q.selected_request, 0);
    q.enter_insert_mode();
    assert_eq!(q.mode, VimMode::Any);
}

#[test]
fn enter_on_side_panel_loads_request() {
    let reqs = vec![request("a", "http://a", ""), request("b", "http://b/x", "{\n  \"k\": 1\n}")];
    let mut st = BlinkState::new(config(reqs, vec![], true)).unwrap();
    st.dispatch(BlinkCommand::MoveCursorDown);
    st.dispatch(BlinkCommand::Enter);
    assert_eq!(st.renderer.focus_area, FocusArea::Editor);
    assert_eq!(lines(st.renderer.url_input.buffer.text_lines()), vec!["http://b/x"]);
    assert_eq!(lines(st.renderer.editor.buffer.text_lines()), vec!["{", "  \"k\": 1", "}"]);
}

#[test]
fn toggle_focus_cycles_and_keeps_modes() {
    let mut st = BlinkState::new(config(vec![], vec![], true)).unwrap();
    st.toggle_focus();
    assert_eq!(st.renderer.focus_area, FocusArea::URLInput);
    st.dispatch(BlinkCommand::EnterInsertMode);
    assert_eq!(st.focused_mode(), VimMode::Insert);
    st.handle_key(KeyChord::plain(Key::Tab));
    assert_eq!(st.renderer.focus_area, FocusArea::Editor);
    assert_eq!(st.focused_mode(), VimMode::Normal);
    st.toggle_focus();
    assert_eq!(st.renderer.focus_area, FocusArea::SidePanel);
    st.toggle_focus();
    assert_eq!(st.focused_mode(), VimMode::Insert);
}

#[test]
fn quit_and_open_in_editor() {
    let mut st = BlinkState::new(config(vec![], vec![], true)).unwrap();
    assert!(!st.should_quit());
    assert!(!st.dispatch(BlinkCommand::OpenInEditor));
    st.toggle_focus();
    st.toggle_focus();
    assert!(st.handle_key(KeyChord::new(Key::Enter, false, true, false)));
    st.handle_key(key('q'));
    assert!(st.should_quit());
}

#[test]
fn url_field_ignores_vertical_commands() {
    let mut st = BlinkState::new(config(vec![], vec![], true)).unwrap();
    st.toggle_focus();
    st.dispatch(BlinkCommand::MoveCursorUp);
    st.dispatch(BlinkCommand::Newline);
    st.dispatch(BlinkCommand::MoveCursorBOLIntoInsertMode);
    assert_eq!(st.renderer.url_input.buffer.cursor(), (0, 0));
    assert_eq!(st.focused_mode(), VimMode::Insert);
    st.handle_key(KeyChord::plain(Key::Enter));
    assert_eq!(lines(st.renderer.url_input.buffer.text_lines()), vec!["http://"]);
}

#[test]
fn editing_without_vim_emulation() {
    let mut st = BlinkState::new(config(vec![], vec![], false)).unwrap();
    st.toggle_focus();
    st.toggle_focus();
    assert_eq!(st.focused_mode(), VimMode::Any);
    st.handle_key(key('h'));
    st.handle_key(key('i'));
    st.handle_key(KeyChord::plain(Key::Left));
    st.handle_key(KeyChord::plain(Key::Enter));
    assert_eq!(lines(st.renderer.editor.buffer.text_lines()), vec!["h", "i"]);
    st.handle_key(KeyChord::new(Key::Char('u'), true, false, false));
    assert_eq!(lines(st.renderer.editor.buffer.text_lines()), vec!["hi"]);
}

#[test]
fn cut_into_insert_mode_in_visual() {
    let mut st = BlinkState::new(config(vec![], vec![], true)).unwrap();
    st.toggle_focus();
    st.toggle_focus();
    st.renderer.editor.buffer.replace_text("abcd");
    st.renderer.editor.buffer.move_cursor_bol();
    st.handle_key(key('v'));
    assert_eq!(st.focused_mode(), VimMode::Visual);
    st.handle_key(key('l'));
    st.handle_key(key('l'));
    st.handle_key(key('c'));
    assert_eq!(lines(st.renderer.editor.buffer.text_lines()), vec!["cd"]);
    assert_eq!(st.focused_mode(), VimMode::Insert);
    st.handle_key(KeyChord::plain(Key::Esc));
    st.handle_key(key('p'));
    assert_eq!(lines(st.renderer.editor.buffer.text_lines()), vec!["abcd"]);
}

#[test]
fn bad_override_fails_start_up() {
    let kb = KeybindingConfig {
        key: "j".to_string(),
        modifiers: vec!["super".to_string()],
        command: "quit".to_string(),
        mode: default_mode(),
    };
    let r = BlinkState::new(config(vec![], vec![kb], true));
    assert!(matches!(r, Err(ParseError::UnknownModifier(ref m)) if m == "super"));
}

#[test]
fn reload_keeps_state_on_error_and_applies_on_success() {
    let mut st = BlinkState::new(config(vec![request("a", "", "")], vec![], true)).unwrap();
    let bad = KeybindingConfig {
        key: "nokey".to_string(),
        modifiers: vec![],
        command: "quit".to_string(),
        mode: default_mode(),
    };
    let r = st.reload_config(config(vec![], vec![bad], false));
    assert_eq!(r, Err(ParseError::UnknownKey("nokey".to_string())));
    assert_eq!(st.renderer.side_panel.requests.len(), 1);
    let good = KeybindingConfig {
        key: "z".to_string(),
        modifiers: vec![],
        command: "Quit".to_string(),
        mode: "normal".to_string(),
    };
    assert!(st.reload_config(config(vec![], vec![good], default_true())).is_ok());
    assert_eq!(st.renderer.side_panel.requests.len(), 0);
    st.handle_key(key('z'));
    assert!(st.should_quit());
}

#[test]
fn override_in_any_mode_wins_without_vim_emulation() {
    let kb = KeybindingConfig {
        key: "u".to_string(),
        modifiers: vec!["Control".to_string()],
        command: "quit".to_string(),
        mode: default_mode(),
    };
    let mut st = BlinkState::new(config(vec![], vec![kb], false)).unwrap();
    st.toggle_focus();
    st.toggle_focus();
    st.handle_key(KeyChord::new(Key::Char('u'), true, false, false));
    assert!(st.should_quit());
}

#[test]
fn loaded_body_with_final_newline() {
    let reqs = vec![request("a", "http://a", "a\n")];
    let mut st = BlinkState::new(config(reqs, vec![], true)).unwrap();
    st.dispatch(BlinkCommand::Enter);
    assert_eq!(lines(st.renderer.editor.buffer.text_lines()), vec!["a"]);
    assert_eq!(st.renderer.editor.buffer.cursor(), (0, 1));
}
