use blink::command::{parse_blink_command, parse_mode, BlinkCommand, ParseError};
use blink::config::KeybindingConfig;
use blink::events::handle_event;
use blink::keys::{parse_key, Key, KeyChord, KeybindingMap};
use blink::mode::VimMode;

fn binding(key: &str, modifiers: &[&str], command: &str, mode: &str) -> KeybindingConfig {
    KeybindingConfig {
        key: key.to_string(),
        modifiers: modifiers.iter().map(|m| m.to_string()).collect(),
        command: command.to_string(),
        mode: mode.to_string(),
    }
}

#[test]
fn exact_mode_binding_wins_over_any() {
    let mut map = KeybindingMap::new();
    let j = KeyChord::plain(Key::Char('j'));
    map.add_binding(j, BlinkCommand::Quit, VimMode::Any);
    map.add_binding(j, BlinkCommand::MoveCursorDown, VimMode::Normal);
    assert_eq!(map.get_command(j, VimMode::Normal), Some(BlinkCommand::MoveCursorDown));
    assert_eq!(map.get_command(j, VimMode::Insert), Some(BlinkCommand::Quit));
    assert_eq!(map.get_command(j, VimMode::Normal), map.get_command(j, VimMode::Normal));
    assert_eq!(map.get_command(KeyChord::plain(Key::Char('k')), VimMode::Normal), None);
}

#[test]
fn later_binding_shadows_earlier_one() {
    let mut map = KeybindingMap::new();
    let q = KeyChord::plain(Key::Char('q'));
    map.add_binding(q, BlinkCommand::Quit, VimMode::Normal);
    map.add_binding(q, BlinkCommand::Undo, VimMode::Normal);
    assert_eq!(map.get_command(q, VimMode::Normal), Some(BlinkCommand::Undo));
}

#[test]
fn override_of_j_is_idempotent() {
    let mut map = KeybindingMap::default_keybindings();
    let j = KeyChord::plain(Key::Char('j'));
    assert_eq!(map.get_command(j, VimMode::Normal), Some(BlinkCommand::MoveCursorDown));
    let r = map.add_bindings_from_config(&vec![binding("j", &[], "MoveCursorDown", "normal")]);
    assert!(r.is_ok());
    assert_eq!(map.get_command(j, VimMode::Normal), Some(BlinkCommand::MoveCursorDown));
    assert_eq!(map.get_command(j, VimMode::Insert), None);
}

#[test]
fn override_shadows_default() {
    let mut map = KeybindingMap::default_keybindings();
    let r = map.add_bindings_from_config(&vec![binding("J", &["Shift"], "quit", "Normal")]);
    assert!(r.is_ok());
    let chord = KeyChord::new(Key::Char('J'), false, false, true);
    assert_eq!(map.get_command(chord, VimMode::Normal), Some(BlinkCommand::Quit));
}

#[test]
fn override_with_any_mode_applies_in_every_mode() {
    let mut map = KeybindingMap::new();
    let r = map.add_bindings_from_config(&vec![binding("Enter", &["CTRL", "alt"], "ToggleFocus", "any")]);
    assert!(r.is_ok());
    let chord = KeyChord::new(Key::Enter, true, true, false);
    assert_eq!(map.get_command(chord, VimMode::Normal), Some(BlinkCommand::ToggleFocus));
    assert_eq!(map.get_command(chord, VimMode::Visual), Some(BlinkCommand::ToggleFocus));
}

#[test]
fn unknown_key_is_reported_and_table_kept() {
    let mut map = KeybindingMap::default_keybindings();
    let r = map.add_bindings_from_config(&vec![
        binding("x", &[], "quit", "normal"),
        binding("F13", &[], "quit", "normal"),
    ]);
    assert_eq!(r, Err(ParseError::UnknownKey("F13".to_string())));
    let x = KeyChord::plain(Key::Char('x'));
    assert_eq!(map.get_command(x, VimMode::Normal), Some(BlinkCommand::DeleteForward));
}

#[test]
fn unknown_modifier_is_reported() {
    let mut map = KeybindingMap::new();
    let r = map.add_bindings_from_config(&vec![binding("a", &["ctrl", "hyper", "meta"], "quit", "normal")]);
    assert_eq!(r, Err(ParseError::UnknownModifier("hyper".to_string())));
}

#[test]
fn unknown_command_is_reported() {
    let mut map = KeybindingMap::new();
    let r = map.add_bindings_from_config(&vec![binding("a", &[], "Teleport", "normal")]);
    assert_eq!(r, Err(ParseError::UnknownCommand("Teleport".to_string())));
    assert_eq!(map.get_command(KeyChord::plain(Key::Char('a')), VimMode::Normal), None);
}

#[test]
fn command_names_ignore_case() {
    assert_eq!(parse_blink_command("MoveCursorDown"), Ok(BlinkCommand::MoveCursorDown));
    assert_eq!(parse_blink_command("QUIT"), Ok(BlinkCommand::Quit));
    assert_eq!(parse_blink_command("DeleteWord"), Ok(BlinkCommand::DeleteWordBack));
    assert_eq!(parse_blink_command("cutintoinsertmode"), Ok(BlinkCommand::CutIntoInsertMode));
    assert_eq!(parse_blink_command("nothing"), Err(ParseError::UnknownCommand("nothing".to_string())));
}

#[test]
fn mode_names() {
    assert_eq!(parse_mode("Normal"), VimMode::Normal);
    assert_eq!(parse_mode("INSERT"), VimMode::Insert);
    assert_eq!(parse_mode("visual"), VimMode::Visual);
    assert_eq!(parse_mode("any"), VimMode::Any);
    assert_eq!(parse_mode("other"), VimMode::Any);
}

#[test]
fn key_names_and_modifiers() {
    let b = binding("Escape", &["Control", "Shift"], "quit", "normal");
    assert_eq!(parse_key(&b), Ok(KeyChord::new(Key::Esc, true, false, true)));
    let b = binding("TAB", &[], "quit", "normal");
    assert_eq!(parse_key(&b), Ok(KeyChord::plain(Key::Tab)));
    let b = binding("$", &["alt"], "quit", "normal");
    assert_eq!(parse_key(&b), Ok(KeyChord::new(Key::Char('$'), false, true, false)));
    let b = binding("home", &[], "quit", "normal");
    assert_eq!(parse_key(&b), Ok(KeyChord::plain(Key::Home)));
}

#[test]
fn unbound_character_is_typed_in_insert_mode() {
    let map = KeybindingMap::default_keybindings();
    let z = KeyChord::plain(Key::Char('z'));
    assert_eq!(handle_event(z, &map, VimMode::Insert), vec![BlinkCommand::InsertChar('z')]);
    assert_eq!(handle_event(z, &map, VimMode::Any), vec![BlinkCommand::InsertChar('z')]);
    assert_eq!(handle_event(z, &map, VimMode::Normal), vec![]);
    let esc = KeyChord::plain(Key::Esc);
    assert_eq!(handle_event(esc, &map, VimMode::Insert), vec![BlinkCommand::EnterNormalMode]);
    let unbound = KeyChord::new(Key::Home, true, true, true);
    assert_eq!(handle_event(unbound, &map, VimMode::Normal), vec![]);
    assert_eq!(handle_event(unbound, &map, VimMode::Any), vec![]);
}

#[test]
fn bound_chord_resolves_before_fallback() {
    let map = KeybindingMap::default_keybindings();
    let ctrl_a = KeyChord::new(Key::Char('a'), true, false, false);
    assert_eq!(handle_event(ctrl_a, &map, VimMode::Insert), vec![BlinkCommand::MoveCursorBOL]);
    assert_eq!(handle_event(ctrl_a, &map, VimMode::Any), vec![BlinkCommand::MoveCursorBOL]);
    let w = KeyChord::plain(Key::Char('w'));
    assert_eq!(handle_event(w, &map, VimMode::Normal), vec![BlinkCommand::MoveCursorRightByWord]);
}

#[test]
fn default_table_entries() {
    let map = KeybindingMap::default_keybindings();
    let expected = vec![
        (KeyChord::new(Key::Char('b'), true, false, false), VimMode::Insert, BlinkCommand::MoveCursorLeft),
        (KeyChord::new(Key::Char('b'), false, true, false), VimMode::Insert, BlinkCommand::MoveCursorLeftByWord),
        (KeyChord::new(Key::Char('B'), false, true, true), VimMode::Insert, BlinkCommand::MoveCursorLeftByWordSelecting),
        (KeyChord::new(Key::Char('f'), true, false, false), VimMode::Insert, BlinkCommand::MoveCursorRight),
        (KeyChord::new(Key::Char('f'), false, true, false), VimMode::Insert, BlinkCommand::MoveCursorRightByWord),
        (KeyChord::new(Key::Char('F'), false, true, true), VimMode::Insert, BlinkCommand::MoveCursorRightByWordSelecting),
        (KeyChord::new(Key::Char('q'), true, false, false), VimMode::Insert, BlinkCommand::Quit),
        (KeyChord::new(Key::Tab, false, false, false), VimMode::Insert, BlinkCommand::ToggleFocus),
        (KeyChord::new(Key::Tab, false, false, false), VimMode::Normal, BlinkCommand::ToggleFocus),
        (KeyChord::new(Key::Up, false, false, false), VimMode::Insert, BlinkCommand::MoveCursorUp),
        (KeyChord::new(Key::Char('p'), true, false, false), VimMode::Insert, BlinkCommand::MoveCursorUp),
        (KeyChord::new(Key::Char('p'), true, false, true), VimMode::Insert, BlinkCommand::MoveCursorUpSelecting),
        (KeyChord::new(Key::Char('p'), false, true, false), VimMode::Insert, BlinkCommand::MoveCursorUpParagraph),
        (KeyChord::new(Key::Char('P'), false, true, true), VimMode::Insert, BlinkCommand::MoveCursorUpParagraphSelecting),
        (KeyChord::new(Key::Down, false, false, false), VimMode::Insert, BlinkCommand::MoveCursorDown),
        (KeyChord::new(Key::Char('n'), true, false, false), VimMode::Insert, BlinkCommand::MoveCursorDown),
        (KeyChord::new(Key::Char('n'), true, false, true), VimMode::Insert, BlinkCommand::MoveCursorDownSelecting),
        (KeyChord::new(Key::Char('n'), false, true, false), VimMode::Insert, BlinkCommand::MoveCursorDownParagraph),
        (KeyChord::new(Key::Char('N'), false, true, true), VimMode::Insert, BlinkCommand::MoveCursorDownParagraphSelecting),
        (KeyChord::new(Key::Left, false, false, false), VimMode::Insert, BlinkCommand::MoveCursorLeft),
        (KeyChord::new(Key::Left, false, false, true), VimMode::Insert, BlinkCommand::MoveCursorLeftSelecting),
        (KeyChord::new(Key::Left, true, false, false), VimMode::Insert, BlinkCommand::MoveCursorLeftByWord),
        (KeyChord::new(Key::Left, false, true, false), VimMode::Insert, BlinkCommand::MoveCursorLeftByWord),
        (KeyChord::new(Key::Left, true, false, true), VimMode::Insert, BlinkCommand::MoveCursorLeftByWordSelecting),
        (KeyChord::new(Key::Left, false, true, true), VimMode::Insert, BlinkCommand::MoveCursorLeftByWordSelecting),
        (KeyChord::new(Key::Right, false, false, false), VimMode::Insert, BlinkCommand::MoveCursorRight),
        (KeyChord::new(Key::Right, false, false, true), VimMode::Insert, BlinkCommand::MoveCursorRightSelecting),
        (KeyChord::new(Key::Right, true, false, false), VimMode::Insert, BlinkCommand::MoveCursorRightByWord),
        (KeyChord::new(Key::Right, false, true, false), VimMode::Insert, BlinkCommand::MoveCursorRightByWord),
        (KeyChord::new(Key::Right, true, false, true), VimMode::Insert, BlinkCommand::MoveCursorRightByWordSelecting),
        (KeyChord::new(Key::Right, false, true, true), VimMode::Insert, BlinkCommand::MoveCursorRightByWordSelecting),
        (KeyChord::new(Key::Up, false, false, true), VimMode::Insert, BlinkCommand::MoveCursorUpSelecting),
        (KeyChord::new(Key::Up, true, false, false), VimMode::Insert, BlinkCommand::MoveCursorUpParagraph),
        (KeyChord::new(Key::Up, true, false, true), VimMode::Insert, BlinkCommand::MoveCursorUpParagraphSelecting),
        (KeyChord::new(Key::Down, false, false, true), VimMode::Insert, BlinkCommand::MoveCursorDownSelecting),
        (KeyChord::new(Key::Down, true, false, false), VimMode::Insert, BlinkCommand::MoveCursorDownParagraph),
        (KeyChord::new(Key::Down, true, false, true), VimMode::Insert, BlinkCommand::MoveCursorDownParagraphSelecting),
        (KeyChord::new(Key::Backspace, false, false, false), VimMode::Insert, BlinkCommand::DeleteBackward),
        (KeyChord::new(Key::Backspace, false, true, false), VimMode::Insert, BlinkCommand::DeleteWordBack),
        (KeyChord::new(Key::Delete, false, false, false), VimMode::Insert, BlinkCommand::DeleteForward),
        (KeyChord::new(Key::Delete, false, true, false), VimMode::Insert, BlinkCommand::DeleteWordForward),
        (KeyChord::new(Key::Char('k'), true, false, false), VimMode::Insert, BlinkCommand::DeleteUntilEOL),
        (KeyChord::new(Key::Char('j'), true, false, false), VimMode::Insert, BlinkCommand::DeleteUntilHOL),
        (KeyChord::new(Key::Char('u'), true, false, false), VimMode::Insert, BlinkCommand::Undo),
        (KeyChord::new(Key::Char('r'), true, false, false), VimMode::Insert, BlinkCommand::Redo),
        (KeyChord::new(Key::Char('c'), true, false, false), VimMode::Insert, BlinkCommand::Copy),
        (KeyChord::new(Key::Char('v'), true, false, false), VimMode::Insert, BlinkCommand::Paste),
        (KeyChord::new(Key::Char('x'), true, false, false), VimMode::Insert, BlinkCommand::Cut),
        (KeyChord::new(Key::Char('a'), true, false, false), VimMode::Insert, BlinkCommand::MoveCursorBOL),
        (KeyChord::new(Key::Char('A'), true, false, true), VimMode::Insert, BlinkCommand::MoveCursorBOLSelecting),
        (KeyChord::new(Key::Home, false, false, false), VimMode::Insert, BlinkCommand::MoveCursorBOL),
        (KeyChord::new(Key::Home, false, false, true), VimMode::Insert, BlinkCommand::MoveCursorBOLSelecting),
        (KeyChord::new(Key::Char('e'), true, false, false), VimMode::Insert, BlinkCommand::MoveCursorEOL),
        (KeyChord::new(Key::Char('E'), true, false, true), VimMode::Insert, BlinkCommand::MoveCursorEOLSelecting),
        (KeyChord::new(Key::End, false, false, false), VimMode::Insert, BlinkCommand::MoveCursorEOL),
        (KeyChord::new(Key::End, false, false, true), VimMode::Insert, BlinkCommand::MoveCursorEOLSelecting),
        (KeyChord::new(Key::Enter, false, false, false), VimMode::Insert, BlinkCommand::Enter),
        (KeyChord::new(Key::Esc, false, false, false), VimMode::Insert, BlinkCommand::EnterNormalMode),
        (KeyChord::new(Key::Char('k'), false, false, false), VimMode::Normal, BlinkCommand::MoveCursorUp),
        (KeyChord::new(Key::Char('h'), false, false, false), VimMode::Normal, BlinkCommand::MoveCursorLeft),
        (KeyChord::new(Key::Char('j'), false, false, false), VimMode::Normal, BlinkCommand::MoveCursorDown),
        (KeyChord::new(Key::Char('l'), false, false, false), VimMode::Normal, BlinkCommand::MoveCursorRight),
        (KeyChord::new(Key::Char('b'), false, false, false), VimMode::Normal, BlinkCommand::MoveCursorLeftByWord),
        (KeyChord::new(Key::Char('w'), false, false, false), VimMode::Normal, BlinkCommand::MoveCursorRightByWord),
        (KeyChord::new(Key::Char('e'), false, false, false), VimMode::Normal, BlinkCommand::MoveCursorRightByWordEnd),
        (KeyChord::new(Key::Char('b'), false, false, true), VimMode::Normal, BlinkCommand::MoveCursorLeftByWordParagraph),
        (KeyChord::new(Key::Char('w'), false, false, true), VimMode::Normal, BlinkCommand::MoveCursorRightByWordParagraph),
        (KeyChord::new(Key::Char('i'), false, false, false), VimMode::Normal, BlinkCommand::EnterInsertMode),
        (KeyChord::new(Key::Char('v'), false, false, false), VimMode::Normal, BlinkCommand::EnterVisualMode),
        (KeyChord::new(Key::Char('x'), false, false, false), VimMode::Normal, BlinkCommand::DeleteForward),
        (KeyChord::new(Key::Char('$'), false, false, false), VimMode::Normal, BlinkCommand::MoveCursorEOL),
        (KeyChord::new(Key::Char('A'), false, false, true), VimMode::Normal, BlinkCommand::MoveCursorEOLIntoInsertMode),
        (KeyChord::new(Key::Char('0'), false, false, false), VimMode::Normal, BlinkCommand::MoveCursorBOL),
        (KeyChord::new(Key::Char('I'), false, false, true), VimMode::Normal, BlinkCommand::MoveCursorBOLIntoInsertMode),
        (KeyChord::new(Key::Char('D'), false, false, true), VimMode::Normal, BlinkCommand::DeleteUntilEOL),
        (KeyChord::new(Key::Char('C'), false, false, true), VimMode::Normal, BlinkCommand::DeleteUntilEOLIntoInsertMode),
        (KeyChord::new(Key::Char('p'), false, false, false), VimMode::Normal, BlinkCommand::Paste),
        (KeyChord::new(Key::Char('u'), false, false, false), VimMode::Normal, BlinkCommand::Undo),
        (KeyChord::new(Key::Char('U'), false, false, true), VimMode::Normal, BlinkCommand::Redo),
        (KeyChord::new(Key::Char('o'), false, false, false), VimMode::Normal, BlinkCommand::Newline),
        (KeyChord::new(Key::Char('O'), false, false, true), VimMode::Normal, BlinkCommand::NewlineUp),
        (KeyChord::new(Key::Char('q'), false, false, false), VimMode::Normal, BlinkCommand::Quit),
        (KeyChord::new(Key::Enter, false, false, false), VimMode::Normal, BlinkCommand::Enter),
        (KeyChord::new(Key::Enter, false, true, false), VimMode::Normal, BlinkCommand::OpenInEditor),
        (KeyChord::new(Key::Char('k'), false, false, false), VimMode::Visual, BlinkCommand::MoveCursorUp),
        (KeyChord::new(Key::Char('h'), false, false, false), VimMode::Visual, BlinkCommand::MoveCursorLeft),
        (KeyChord::new(Key::Char('j'), false, false, false), VimMode::Visual, BlinkCommand::MoveCursorDown),
        (KeyChord::new(Key::Char('l'), false, false, false), VimMode::Visual, BlinkCommand::MoveCursorRight),
        (KeyChord::new(Key::Char('b'), false, false, false), VimMode::Visual, BlinkCommand::MoveCursorLeftByWord),
        (KeyChord::new(Key::Char('w'), false, false, false), VimMode::Visual, BlinkCommand::MoveCursorRightByWord),
        (KeyChord::new(Key::Char('e'), false, false, false), VimMode::Visual, BlinkCommand::MoveCursorRightByWordEnd),
        (KeyChord::new(Key::Char('b'), false, false, true), VimMode::Visual, BlinkCommand::MoveCursorLeftByWordParagraph),
        (KeyChord::new(Key::Char('w'), false, false, true), VimMode::Visual, BlinkCommand::MoveCursorRightByWordParagraph),
        (KeyChord::new(Key::Char('$'), false, false, false), VimMode::Visual, BlinkCommand::MoveCursorEOL),
        (KeyChord::new(Key::Char('0'), false, false, false), VimMode::Visual, BlinkCommand::MoveCursorBOL),
        (KeyChord::new(Key::Char('y'), false, false, false), VimMode::Visual, BlinkCommand::Copy),
        (KeyChord::new(Key::Char('d'), false, false, false), VimMode::Visual, BlinkCommand::Cut),
        (KeyChord::new(Key::Char('c'), false, false, false), VimMode::Visual, BlinkCommand::CutIntoInsertMode),
        (KeyChord::new(Key::Char('s'), false, false, false), VimMode::Visual, BlinkCommand::CutIntoInsertMode),
        (KeyChord::new(Key::Char('p'), false, false, false), VimMode::Visual, BlinkCommand::CutIntoInsertMode),
        (KeyChord::new(Key::Char('q'), false, false, false), VimMode::Visual, BlinkCommand::Quit),
        (KeyChord::new(Key::Esc, false, false, false), VimMode::Visual, BlinkCommand::EnterNormalMode),
        (KeyChord::new(Key::Char('b'), true, false, false), VimMode::Any, BlinkCommand::MoveCursorLeft),
        (KeyChord::new(Key::Char('b'), false, true, false), VimMode::Any, BlinkCommand::MoveCursorLeftByWord),
        (KeyChord::new(Key::Char('B'), false, true, true), VimMode::Any, BlinkCommand::MoveCursorLeftByWordSelecting),
        (KeyChord::new(Key::Char('f'), true, false, false), VimMode::Any, BlinkCommand::MoveCursorRight),
        (KeyChord::new(Key::Char('f'), false, true, false), VimMode::Any, BlinkCommand::MoveCursorRightByWord),
        (KeyChord::new(Key::Char('F'), false, true, true), VimMode::Any, BlinkCommand::MoveCursorRightByWordSelecting),
        (KeyChord::new(Key::Char('q'), true, false, false), VimMode::Any, BlinkCommand::Quit),
        (KeyChord::new(Key::Tab, false, false, false), VimMode::Any, BlinkCommand::ToggleFocus),
        (KeyChord::new(Key::Up, false, false, false), VimMode::Any, BlinkCommand::MoveCursorUp),
        (KeyChord::new(Key::Char('p'), true, false, false), VimMode::Any, BlinkCommand::MoveCursorUp),
        (KeyChord::new(Key::Char('p'), true, false, true), VimMode::Any, BlinkCommand::MoveCursorUpSelecting),
        (KeyChord::new(Key::Char('p'), false, true, false), VimMode::Any, BlinkCommand::MoveCursorUpParagraph),
        (KeyChord::new(Key::Char('P'), false, true, true), VimMode::Any, BlinkCommand::MoveCursorUpParagraphSelecting),
        (KeyChord::new(Key::Down, false, false, false), VimMode::Any, BlinkCommand::MoveCursorDown),
        (KeyChord::new(Key::Char('n'), true, false, false), VimMode::Any, BlinkCommand::MoveCursorDown),
        (KeyChord::new(Key::Char('n'), true, false, true), VimMode::Any, BlinkCommand::MoveCursorDownSelecting),
        (KeyChord::new(Key::Char('n'), false, true, false), VimMode::Any, BlinkCommand::MoveCursorDownParagraph),
        (KeyChord::new(Key::Char('N'), false, true, true), VimMode::Any, BlinkCommand::MoveCursorDownParagraphSelecting),
        (KeyChord::new(Key::Left, false, false, false), VimMode::Any, BlinkCommand::MoveCursorLeft),
        (KeyChord::new(Key::Left, false, false, true), VimMode::Any, BlinkCommand::MoveCursorLeftSelecting),
        (KeyChord::new(Key::Left, true, false, false), VimMode::Any, BlinkCommand::MoveCursorLeftByWord),
        (KeyChord::new(Key::Left, false, true, false), VimMode::Any, BlinkCommand::MoveCursorLeftByWord),
        (KeyChord::new(Key::Left, true, false, true), VimMode::Any, BlinkCommand::MoveCursorLeftByWordSelecting),
        (KeyChord::new(Key::Left, false, true, true), VimMode::Any, BlinkCommand::MoveCursorLeftByWordSelecting),
        (KeyChord::new(Key::Right, false, false, false), VimMode::Any, BlinkCommand::MoveCursorRight),
        (KeyChord::new(Key::Right, false, false, true), VimMode::Any, BlinkCommand::MoveCursorRightSelecting),
        (KeyChord::new(Key::Right, true, false, false), VimMode::Any, BlinkCommand::MoveCursorRightByWord),
        (KeyChord::new(Key::Right, false, true, false), VimMode::Any, BlinkCommand::MoveCursorRightByWord),
        (KeyChord::new(Key::Right, true, false, true), VimMode::Any, BlinkCommand::MoveCursorRightByWordSelecting),
        (KeyChord::new(Key::Right, false, true, true), VimMode::Any, BlinkCommand::MoveCursorRightByWordSelecting),
        (KeyChord::new(Key::Up, false, false, true), VimMode::Any, BlinkCommand::MoveCursorUpSelecting),
        (KeyChord::new(Key::Up, true, false, false), VimMode::Any, BlinkCommand::MoveCursorUpParagraph),
        (KeyChord::new(Key::Up, true, false, true), VimMode::Any, BlinkCommand::MoveCursorUpParagraphSelecting),
        (KeyChord::new(Key::Down, false, false, true), VimMode::Any, BlinkCommand::MoveCursorDownSelecting),
        (KeyChord::new(Key::Down, true, false, false), VimMode::Any, BlinkCommand::MoveCursorDownParagraph),
        (KeyChord::new(Key::Down, true, false, true), VimMode::Any, BlinkCommand::MoveCursorDownParagraphSelecting),
        (KeyChord::new(Key::Backspace, false, false, false), VimMode::Any, BlinkCommand::DeleteBackward),
        (KeyChord::new(Key::Backspace, false, true, false), VimMode::Any, BlinkCommand::DeleteWordBack),
        (KeyChord::new(Key::Delete, false, false, false), VimMode::Any, BlinkCommand::DeleteForward),
        (KeyChord::new(Key::Delete, false, true, false), VimMode::Any, BlinkCommand::DeleteWordForward),
        (KeyChord::new(Key::Char('k'), true, false, false), VimMode::Any, BlinkCommand::DeleteUntilEOL),
        (KeyChord::new(Key::Char('j'), true, false, false), VimMode::Any, BlinkCommand::DeleteUntilHOL),
        (KeyChord::new(Key::Char('u'), true, false, false), VimMode::Any, BlinkCommand::Undo),
        (KeyChord::new(Key::Char('r'), true, false, false), VimMode::Any, BlinkCommand::Redo),
        (KeyChord::new(Key::Char('c'), true, false, false), VimMode::Any, BlinkCommand::Copy),
        (KeyChord::new(Key::Char('v'), true, false, false), VimMode::Any, BlinkCommand::Paste),
        (KeyChord::new(Key::Char('x'), true, false, false), VimMode::Any, BlinkCommand::Cut),
        (KeyChord::new(Key::Char('a'), true, false, false), VimMode::Any, BlinkCommand::MoveCursorBOL),
        (KeyChord::new(Key::Char('A'), true, false, true), VimMode::Any, BlinkCommand::MoveCursorBOLSelecting),
        (KeyChord::new(Key::Home, false, false, false), VimMode::Any, BlinkCommand::MoveCursorBOL),
        (KeyChord::new(Key::Home, false, false, true), VimMode::Any, BlinkCommand::MoveCursorBOLSelecting),
        (KeyChord::new(Key::Char('e'), true, false, false), VimMode::Any, BlinkCommand::MoveCursorEOL),
        (KeyChord::new(Key::Char('E'), true, false, true), VimMode::Any, BlinkCommand::MoveCursorEOLSelecting),
        (KeyChord::new(Key::End, false, false, false), VimMode::Any, BlinkCommand::MoveCursorEOL),
        (KeyChord::new(Key::End, false, false, true), VimMode::Any, BlinkCommand::MoveCursorEOLSelecting),
        (KeyChord::new(Key::Enter, false, false, false), VimMode::Any, BlinkCommand::Enter),
        (KeyChord::new(Key::Esc, false, false, false), VimMode::Any, BlinkCommand::EnterNormalMode),
    ];
    for (chord, mode, command) in expected {
        assert_eq!(map.get_command(chord, mode), Some(command), "{:?} in {:?}", chord, mode);
    }
    assert_eq!(map.get_command(KeyChord::plain(Key::Char('x')), VimMode::Visual), None);
    assert_eq!(map.get_command(KeyChord::plain(Key::Char('i')), VimMode::Insert), None);
}

#[test]
fn any_mode_resolves_its_own_bindings_first() {
    let mut map = KeybindingMap::default_keybindings();
    let ctrl_u = KeyChord::new(Key::Char('u'), true, false, false);
    assert_eq!(handle_event(ctrl_u, &map, VimMode::Any), vec![BlinkCommand::Undo]);
    let r = map.add_bindings_from_config(&vec![binding("u", &["ctrl"], "Quit", "any")]);
    assert!(r.is_ok());
    assert_eq!(handle_event(ctrl_u, &map, VimMode::Any), vec![BlinkCommand::Quit]);
    assert_eq!(handle_event(ctrl_u, &map, VimMode::Insert), vec![BlinkCommand::Undo]);
}

#[test]
fn insert_only_binding_is_absent_in_any_mode() {
    let mut map = KeybindingMap::new();
    map.add_binding(KeyChord::plain(Key::Up), BlinkCommand::MoveCursorUp, VimMode::Insert);
    assert_eq!(handle_event(KeyChord::plain(Key::Up), &map, VimMode::Any), vec![]);
    assert_eq!(handle_event(KeyChord::plain(Key::Up), &map, VimMode::Insert), vec![BlinkCommand::MoveCursorUp]);
}
