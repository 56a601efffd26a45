use blink::buffer::ModalBuffer;
use blink::mode::VimMode;
use blink::regions::{Editor, URLInput};

fn text(b: &ModalBuffer) -> Vec<String> {
    b.text_lines().into_iter().map(|l| l.into_iter().collect()).collect()
}

fn editor_with(s: &str) -> ModalBuffer {
    let mut b = ModalBuffer::new(true, true);
    b.replace_text(s);
    b
}

#[test]
fn typing_then_backspace() {
    let mut e = Editor::new(true);
    e.enter_insert_mode();
    assert_eq!(e.buffer.mode(), VimMode::Insert);
    e.insert_char('a');
    e.insert_char('b');
    assert_eq!(text(&e.buffer), vec!["ab"]);
    assert_eq!(e.buffer.cursor(), (0, 2));
    e.backspace();
    assert_eq!(text(&e.buffer), vec!["a"]);
    assert_eq!(e.buffer.cursor(), (0, 1));
}

#[test]
fn word_forward_then_delete_forward() {
    let mut b = editor_with("hello world");
    b.move_cursor_bol();
    b.move_cursor_right_by_word();
    assert_eq!(b.cursor(), (0, 6));
    b.delete_char();
    assert_eq!(text(&b), vec!["hello orld"]);
    assert_eq!(b.cursor(), (0, 6));
}

#[test]
fn backspace_at_line_start_does_nothing() {
    let mut b = editor_with("ab\ncd");
    b.move_cursor_bol();
    assert_eq!(b.cursor(), (1, 0));
    b.backspace();
    assert_eq!(text(&b), vec!["ab", "cd"]);
    assert_eq!(b.cursor(), (1, 0));
}

#[test]
fn operations_on_empty_buffer_saturate() {
    let mut b = ModalBuffer::new(true, true);
    b.move_cursor_left();
    b.move_cursor_right();
    b.move_cursor_up();
    b.move_cursor_down();
    b.move_cursor_left_by_word();
    b.move_cursor_right_by_word();
    b.move_cursor_right_by_word_end();
    b.move_cursor_down_paragraph();
    b.move_cursor_up_paragraph();
    b.backspace();
    b.delete_char();
    b.delete_word_back();
    b.delete_word_forward();
    b.delete_until_eol();
    b.delete_until_hol();
    b.undo();
    b.redo();
    b.paste();
    assert_eq!(text(&b), vec![""]);
    assert_eq!(b.cursor(), (0, 0));
}

#[test]
fn cursor_stays_in_bounds_through_motions() {
    let mut b = editor_with("a long line\n\nxy\nlast one here");
    b.move_cursor_up();
    b.move_cursor_up();
    assert_eq!(b.cursor(), (1, 0));
    b.move_cursor_up();
    assert_eq!(b.cursor(), (0, 0));
    b.move_cursor_eol();
    assert_eq!(b.cursor(), (0, 11));
    b.move_cursor_down();
    assert_eq!(b.cursor(), (1, 0));
    b.move_cursor_right();
    assert_eq!(b.cursor(), (2, 0));
    b.move_cursor_eol();
    b.move_cursor_right();
    assert_eq!(b.cursor(), (3, 0));
    b.move_cursor_left();
    assert_eq!(b.cursor(), (2, 2));
    let lines = text(&b);
    for _ in 0..20 {
        b.move_cursor_right_by_word();
        let (r, c) = b.cursor();
        assert!(r < lines.len());
        assert!(c <= lines[r].chars().count());
    }
    assert_eq!(b.cursor(), (3, 13));
}

#[test]
fn word_motions() {
    let mut b = editor_with("foo.bar  baz");
    b.move_cursor_bol();
    b.move_cursor_right_by_word();
    assert_eq!(b.cursor(), (0, 3));
    b.move_cursor_right_by_word();
    assert_eq!(b.cursor(), (0, 4));
    b.move_cursor_right_by_word();
    assert_eq!(b.cursor(), (0, 9));
    b.move_cursor_left_by_word();
    assert_eq!(b.cursor(), (0, 4));
    b.move_cursor_bol();
    b.move_cursor_right_by_word_end();
    assert_eq!(b.cursor(), (0, 2));
    b.move_cursor_right_by_word_end();
    assert_eq!(b.cursor(), (0, 3));
}

#[test]
fn word_forward_then_backward_does_not_pass_start() {
    let mut b = editor_with("alpha beta\n  gamma");
    for start in [(0usize, 0usize), (0, 2), (0, 5), (0, 8), (0, 10), (1, 0), (1, 3)] {
        while b.cursor().0 > start.0 {
            b.move_cursor_up();
        }
        while b.cursor().0 < start.0 {
            b.move_cursor_down();
        }
        b.move_cursor_bol();
        for _ in 0..start.1 {
            b.move_cursor_right();
        }
        assert_eq!(b.cursor(), start);
        b.move_cursor_right_by_word();
        b.move_cursor_left_by_word();
        assert!(b.cursor() <= start, "from {:?} back to {:?}", start, b.cursor());
    }
}

#[test]
fn word_round_trip_across_lines() {
    let mut b = editor_with("one\n  two");
    b.move_cursor_up();
    b.move_cursor_bol();
    b.move_cursor_right_by_word();
    assert_eq!(b.cursor(), (1, 2));
    b.move_cursor_left_by_word();
    assert_eq!(b.cursor(), (0, 0));
}

#[test]
fn paragraph_motions() {
    let mut b = editor_with("a\nb\n\nc\nd");
    b.move_cursor_up_paragraph();
    assert_eq!(b.cursor(), (2, 0));
    b.move_cursor_up_paragraph();
    assert_eq!(b.cursor(), (0, 0));
    b.move_cursor_down_paragraph();
    assert_eq!(b.cursor(), (2, 0));
    b.move_cursor_down_paragraph();
    assert_eq!(b.cursor(), (4, 1));
}

#[test]
fn single_line_buffer_ignores_vertical_and_paragraph_motions() {
    let mut u = URLInput::new(true);
    assert_eq!(text(&u.buffer), vec!["http://"]);
    assert_eq!(u.buffer.cursor(), (0, 7));
    u.move_cursor_right_by_word_paragraph();
    u.move_cursor_left_by_word_paragraph();
    assert_eq!(u.buffer.cursor(), (0, 7));
    u.enter_insert_mode();
    u.insert_char('\n');
    assert_eq!(text(&u.buffer), vec!["http://"]);
    u.buffer.newline();
    assert_eq!(text(&u.buffer), vec!["http://"]);
}

#[test]
fn undo_and_redo_of_an_edit() {
    let mut b = editor_with("hello world");
    b.move_cursor_bol();
    b.move_cursor_right_by_word();
    b.delete_word_forward();
    assert_eq!(text(&b), vec!["hello "]);
    assert_eq!(b.cursor(), (0, 6));
    b.undo();
    assert_eq!(text(&b), vec!["hello world"]);
    assert_eq!(b.cursor(), (0, 6));
    b.redo();
    assert_eq!(text(&b), vec!["hello "]);
    assert_eq!(b.cursor(), (0, 6));
    b.redo();
    assert_eq!(text(&b), vec!["hello "]);
}

#[test]
fn motions_are_not_undone() {
    let mut b = editor_with("abc");
    b.insert_char('x');
    b.move_cursor_bol();
    b.move_cursor_right();
    b.undo();
    assert_eq!(text(&b), vec!["abc"]);
    assert_eq!(b.cursor(), (0, 3));
    b.undo();
    assert_eq!(text(&b), vec!["abc"]);
}

#[test]
fn cut_then_paste_restores_text() {
    let mut b = editor_with("first line\nsecond line\nthird");
    b.move_cursor_up();
    b.move_cursor_bol();
    b.move_cursor_right_by_word();
    b.enter_visual_mode();
    b.move_cursor_down();
    b.move_cursor_left();
    b.cut();
    assert_eq!(text(&b), vec!["first line", "second d"]);
    assert_eq!(b.mode(), VimMode::Normal);
    b.paste();
    assert_eq!(text(&b), vec!["first line", "second line", "third"]);
}

#[test]
fn cut_without_selection_takes_the_line() {
    let mut b = editor_with("abc\ndef");
    b.cut();
    assert_eq!(text(&b), vec!["abc", ""]);
    assert_eq!(b.cursor(), (1, 0));
    b.paste();
    assert_eq!(text(&b), vec!["abc", "def"]);
    assert_eq!(b.cursor(), (1, 3));
    b.move_cursor_up();
    b.move_cursor_eol();
    b.paste();
    assert_eq!(text(&b), vec!["abcdef", "def"]);
}

#[test]
fn copy_and_paste() {
    let mut b = editor_with("ab");
    b.move_cursor_bol();
    b.move_cursor_right_selecting();
    assert_eq!(b.selection_anchor(), Some((0, 0)));
    b.copy();
    assert_eq!(b.selection_anchor(), Some((0, 0)));
    b.move_cursor_eol();
    assert_eq!(b.selection_anchor(), None);
    b.paste();
    assert_eq!(text(&b), vec!["aba"]);
    assert_eq!(b.cursor(), (0, 3));
}

#[test]
fn selection_follows_selecting_motions() {
    let mut b = editor_with("abcdef");
    b.move_cursor_bol();
    b.move_cursor_right_selecting();
    b.move_cursor_right_selecting();
    assert_eq!(b.selection_anchor(), Some((0, 0)));
    assert_eq!(b.cursor(), (0, 2));
    b.move_cursor_right();
    assert_eq!(b.selection_anchor(), None);
    b.enter_visual_mode();
    b.move_cursor_right();
    assert_eq!(b.selection_anchor(), Some((0, 3)));
    b.enter_normal_mode();
    assert_eq!(b.selection_anchor(), None);
}

#[test]
fn line_bound_deletes() {
    let mut b = editor_with("hello world");
    b.move_cursor_bol();
    b.move_cursor_right_by_word();
    b.delete_until_hol();
    assert_eq!(text(&b), vec!["world"]);
    assert_eq!(b.cursor(), (0, 0));
    b.move_cursor_right();
    b.move_cursor_right();
    b.delete_until_eol();
    assert_eq!(text(&b), vec!["wo"]);
    assert_eq!(b.cursor(), (0, 2));
    b.delete_word_back();
    assert_eq!(text(&b), vec![""]);
}

#[test]
fn newlines_open_lines() {
    let mut b = editor_with("ab");
    b.move_cursor_bol();
    b.newline();
    assert_eq!(text(&b), vec!["ab", ""]);
    assert_eq!(b.cursor(), (1, 0));
    b.newline_up();
    assert_eq!(text(&b), vec!["ab", "", ""]);
    assert_eq!(b.cursor(), (1, 0));
    b.move_cursor_up();
    b.move_cursor_right();
    b.enter_insert_mode();
    b.insert_char('\n');
    assert_eq!(text(&b), vec!["a", "b", "", ""]);
    assert_eq!(b.cursor(), (1, 0));
}

#[test]
fn modes_without_vim_emulation_stay_any() {
    let mut b = ModalBuffer::new(false, true);
    assert_eq!(b.mode(), VimMode::Any);
    b.enter_insert_mode();
    b.enter_visual_mode();
    b.enter_normal_mode();
    assert_eq!(b.mode(), VimMode::Any);
    assert_eq!(b.selection_anchor(), None);
    b.set_vim_mode(true);
    assert_eq!(b.mode(), VimMode::Normal);
}

#[test]
fn edits_keep_visual_mode() {
    let mut b = editor_with("abcdef");
    b.move_cursor_bol();
    b.move_cursor_right();
    b.move_cursor_right();
    b.move_cursor_right();
    b.move_cursor_right();
    b.enter_visual_mode();
    b.delete_char();
    assert_eq!(text(&b), vec!["abcdf"]);
    assert_eq!(b.mode(), VimMode::Visual);
    assert_eq!(b.selection_anchor(), Some((0, 4)));
    b.move_cursor_eol();
    b.delete_char();
    assert_eq!(b.mode(), VimMode::Visual);
    b.insert_char('z');
    assert_eq!(text(&b), vec!["abcdfz"]);
    assert_eq!(b.mode(), VimMode::Visual);
    b.delete_until_hol();
    assert_eq!(text(&b), vec![""]);
    assert_eq!(b.selection_anchor(), Some((0, 0)));
    assert_eq!(b.mode(), VimMode::Visual);
    b.copy();
    assert_eq!(b.mode(), VimMode::Visual);
    b.cut();
    assert_eq!(b.mode(), VimMode::Normal);
    assert_eq!(b.selection_anchor(), None);
}

#[test]
fn loading_splits_like_str_lines() {
    let mut b = editor_with("a\n");
    assert_eq!(text(&b), vec!["a"]);
    b.replace_text("x\r\ny\n\nz\r");
    assert_eq!(text(&b), vec!["x", "y", "", "z\r"]);
    b.replace_text("");
    assert_eq!(text(&b), vec![""]);
    assert_eq!(b.cursor(), (0, 0));
    b.replace_text("\n\n");
    assert_eq!(text(&b), vec!["", ""]);
    let mut u = URLInput::new(true);
    u.buffer.replace_text("http://h\nrest");
    assert_eq!(text(&u.buffer), vec!["http://h"]);
}

#[test]
fn contents_joins_lines() {
    let b = editor_with("one\ntwo\n\nthree");
    let s: String = b.contents().into_iter().collect();
    assert_eq!(s, "one\ntwo\n\nthree");
    let e = ModalBuffer::new(true, true);
    assert!(e.contents().is_empty());
}
