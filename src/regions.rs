use vstd::prelude::*;
use crate::buffer::{
    ModalBuffer, after_motion, after_edit, after_undo, after_redo, left_of, right_of, up_of,
    down_of, word_forward_of, word_backward_of, word_end_of, paragraph_forward_of,
    paragraph_backward_of, line_removal, typed, pasted, target_text, BufferState, with_insert_mode,
    with_normal_mode, with_visual_mode, after_cut,
};
use crate::config::HTTPRequest;
use crate::mode::{VimMode, initial_mode, starting_mode};
use crate::text::{word_forward_in, word_backward_in};

verus! {

/// The request body editor: a multi-line buffer.
pub struct Editor {
    pub buffer: ModalBuffer,
}

impl Editor {
    /// An empty body editor.
    pub fn new(vim_mode: bool) -> (r: Editor)
        ensures
            r.buffer.wf(),
            r.buffer@.text == seq![Seq::<char>::empty()],
            r.buffer@.cursor == (0int, 0int),
            r.buffer@.mode == initial_mode(vim_mode),
            r.buffer@.vim_mode == vim_mode,
            r.buffer@.multi_line,
            r.buffer@.anchor is None,
            r.buffer@.undo.len() == 0,
            r.buffer@.redo.len() == 0,
            r.buffer@.clipboard.len() == 0,
    {
        Editor { buffer: ModalBuffer::new(vim_mode, true) }
    }

    /// Enters Insert mode, ending any selection; nothing happens without vim
    /// emulation.
    pub fn enter_insert_mode(&mut self)
        requires
            old(self).buffer.wf(),
        ensures
            final(self).buffer.wf(),
            final(self).buffer@ == with_insert_mode(old(self).buffer@),
    {
        self.buffer.enter_insert_mode()
    }

    /// Enters Normal mode, ending any selection; nothing happens without vim
    /// emulation.
    pub fn enter_normal_mode(&mut self)
        requires
            old(self).buffer.wf(),
        ensures
            final(self).buffer.wf(),
            final(self).buffer@ == with_normal_mode(old(self).buffer@),
    {
        self.buffer.enter_normal_mode()
    }

    /// Enters Visual mode with a selection anchored at the cursor; nothing
    /// happens without vim emulation.
    pub fn enter_visual_mode(&mut self)
        requires
            old(self).buffer.wf(),
        ensures
            final(self).buffer.wf(),
            final(self).buffer@ == with_visual_mode(old(self).buffer@),
    {
        self.buffer.enter_visual_mode()
    }

    /// Types a character at the cursor (see `typed`).
    pub fn insert_char(&mut self, ch: char)
        requires
            old(self).buffer.wf(),
        ensures
            final(self).buffer.wf(),
            final(self).buffer@ == after_edit(old(self).buffer@, typed(old(self).buffer@, ch).0, typed(old(self).buffer@, ch).1),
    {
        self.buffer.insert_char(ch)
    }

    /// Deletes the character under the cursor; the cursor stays.
    pub fn delete_char(&mut self)
        requires
            old(self).buffer.wf(),
        ensures
            final(self).buffer.wf(),
            ({
                let s = old(self).buffer@;
                let b = if s.cursor.1 < s.text[s.cursor.0].len() { s.cursor.1 + 1 } else { s.cursor.1 };
                final(self).buffer@ == after_edit(s, line_removal(s, s.cursor.1, b).0, line_removal(s, s.cursor.1, b).1)
            }),
    {
        self.buffer.delete_char()
    }

    /// Deletes the character before the cursor. At the start of a line it
    /// does nothing: lines are never joined.
    pub fn backspace(&mut self)
        requires
            old(self).buffer.wf(),
        ensures
            final(self).buffer.wf(),
            ({
                let s = old(self).buffer@;
                let a = if s.cursor.1 > 0 { s.cursor.1 - 1 } else { s.cursor.1 };
                final(self).buffer@ == after_edit(s, line_removal(s, a, s.cursor.1).0, line_removal(s, a, s.cursor.1).1)
            }),
    {
        self.buffer.backspace()
    }

    /// One character left; from the start of a line to the end of the line before.
    pub fn move_cursor_left(&mut self)
        requires
            old(self).buffer.wf(),
        ensures
            final(self).buffer.wf(),
            final(self).buffer@ == after_motion(old(self).buffer@, left_of(old(self).buffer@.text, old(self).buffer@.cursor), false),
    {
        self.buffer.move_cursor_left()
    }

    /// One character right; from the end of a line to the start of the next.
    pub fn move_cursor_right(&mut self)
        requires
            old(self).buffer.wf(),
        ensures
            final(self).buffer.wf(),
            final(self).buffer@ == after_motion(old(self).buffer@, right_of(old(self).buffer@.text, old(self).buffer@.cursor), false),
    {
        self.buffer.move_cursor_right()
    }

    /// One line up, keeping the column where the line allows.
    pub fn move_cursor_up(&mut self)
        requires
            old(self).buffer.wf(),
        ensures
            final(self).buffer.wf(),
            final(self).buffer@ == after_motion(old(self).buffer@, up_of(old(self).buffer@.text, old(self).buffer@.cursor), false),
    {
        self.buffer.move_cursor_up()
    }

    /// One line down, keeping the column where the line allows.
    pub fn move_cursor_down(&mut self)
        requires
            old(self).buffer.wf(),
        ensures
            final(self).buffer.wf(),
            final(self).buffer@ == after_motion(old(self).buffer@, down_of(old(self).buffer@.text, old(self).buffer@.cursor), false),
    {
        self.buffer.move_cursor_down()
    }
}

/// The URL field: a single-line buffer.
pub struct URLInput {
    pub buffer: ModalBuffer,
}

impl URLInput {
    /// A URL field holding `http://`, the cursor after it.
    pub fn new(vim_mode: bool) -> (r: URLInput)
        ensures
            r.buffer.wf(),
            r.buffer@.text == seq!["http://"@],
            r.buffer@.cursor == (0int, 7int),
            r.buffer@.mode == initial_mode(vim_mode),
            r.buffer@.vim_mode == vim_mode,
            !r.buffer@.multi_line,
            r.buffer@.anchor is None,
            r.buffer@.undo.len() == 0,
            r.buffer@.redo.len() == 0,
            r.buffer@.clipboard.len() == 0,
    {
        let mut buffer = ModalBuffer::new(vim_mode, false);
        buffer.replace_text("http://");
        proof {
            reveal_strlit("http://");
            crate::text::lemma_lines_of_single("http://"@);
        }
        URLInput { buffer }
    }

    /// Enters Insert mode, ending any selection; nothing happens without vim
    /// emulation.
    pub fn enter_insert_mode(&mut self)
        requires
            old(self).buffer.wf(),
        ensures
            final(self).buffer.wf(),
            final(self).buffer@ == with_insert_mode(old(self).buffer@),
    {
        self.buffer.enter_insert_mode()
    }

    /// Enters Normal mode, ending any selection; nothing happens without vim
    /// emulation.
    pub fn enter_normal_mode(&mut self)
        requires
            old(self).buffer.wf(),
        ensures
            final(self).buffer.wf(),
            final(self).buffer@ == with_normal_mode(old(self).buffer@),
    {
        self.buffer.enter_normal_mode()
    }

    /// Enters Visual mode with a selection anchored at the cursor; nothing
    /// happens without vim emulation.
    pub fn enter_visual_mode(&mut self)
        requires
            old(self).buffer.wf(),
        ensures
            final(self).buffer.wf(),
            final(self).buffer@ == with_visual_mode(old(self).buffer@),
    {
        self.buffer.enter_visual_mode()
    }

    /// One character left; from the start of a line to the end of the line before.
    pub fn move_cursor_left(&mut self)
        requires
            old(self).buffer.wf(),
        ensures
            final(self).buffer.wf(),
            final(self).buffer@ == after_motion(old(self).buffer@, left_of(old(self).buffer@.text, old(self).buffer@.cursor), false),
    {
        self.buffer.move_cursor_left()
    }

    /// As `move_cursor_left`, extending the selection.
    pub fn move_cursor_left_selecting(&mut self)
        requires
            old(self).buffer.wf(),
        ensures
            final(self).buffer.wf(),
            final(self).buffer@ == after_motion(old(self).buffer@, left_of(old(self).buffer@.text, old(self).buffer@.cursor), true),
    {
        self.buffer.move_cursor_left_selecting()
    }

    /// To the start of the previous word.
    pub fn move_cursor_left_by_word(&mut self)
        requires
            old(self).buffer.wf(),
        ensures
            final(self).buffer.wf(),
            final(self).buffer@ == after_motion(old(self).buffer@, word_backward_of(old(self).buffer@.text, old(self).buffer@.cursor), false),
    {
        self.buffer.move_cursor_left_by_word()
    }

    /// As `move_cursor_left_by_word`, extending the selection.
    pub fn move_cursor_left_by_word_selecting(&mut self)
        requires
            old(self).buffer.wf(),
        ensures
            final(self).buffer.wf(),
            final(self).buffer@ == after_motion(old(self).buffer@, word_backward_of(old(self).buffer@.text, old(self).buffer@.cursor), true),
    {
        self.buffer.move_cursor_left_by_word_selecting()
    }

    /// To the previous empty line, or the start of the text. Stays put in a single-line buffer.
    pub fn move_cursor_left_by_word_paragraph(&mut self)
        requires
            old(self).buffer.wf(),
        ensures
            final(self).buffer.wf(),
            final(self).buffer@ == after_motion(
                old(self).buffer@,
                if old(self).buffer@.multi_line {
                    paragraph_backward_of(old(self).buffer@.text, old(self).buffer@.cursor)
                } else {
                    old(self).buffer@.cursor
                },
                false,
            ),
    {
        self.buffer.move_cursor_up_paragraph()
    }

    /// One character right; from the end of a line to the start of the next.
    pub fn move_cursor_right(&mut self)
        requires
            old(self).buffer.wf(),
        ensures
            final(self).buffer.wf(),
            final(self).buffer@ == after_motion(old(self).buffer@, right_of(old(self).buffer@.text, old(self).buffer@.cursor), false),
    {
        self.buffer.move_cursor_right()
    }

    /// As `move_cursor_right`, extending the selection.
    pub fn move_cursor_right_selecting(&mut self)
        requires
            old(self).buffer.wf(),
        ensures
            final(self).buffer.wf(),
            final(self).buffer@ == after_motion(old(self).buffer@, right_of(old(self).buffer@.text, old(self).buffer@.cursor), true),
    {
        self.buffer.move_cursor_right_selecting()
    }

    /// To the start of the next word.
    pub fn move_cursor_right_by_word(&mut self)
        requires
            old(self).buffer.wf(),
        ensures
            final(self).buffer.wf(),
            final(self).buffer@ == after_motion(old(self).buffer@, word_forward_of(old(self).buffer@.text, old(self).buffer@.cursor), false),
    {
        self.buffer.move_cursor_right_by_word()
    }

    /// As `move_cursor_right_by_word`, extending the selection.
    pub fn move_cursor_right_by_word_selecting(&mut self)
        requires
            old(self).buffer.wf(),
        ensures
            final(self).buffer.wf(),
            final(self).buffer@ == after_motion(old(self).buffer@, word_forward_of(old(self).buffer@.text, old(self).buffer@.cursor), true),
    {
        self.buffer.move_cursor_right_by_word_selecting()
    }

    /// To the next empty line, or the end of the text. Stays put in a single-line buffer.
    pub fn move_cursor_right_by_word_paragraph(&mut self)
        requires
            old(self).buffer.wf(),
        ensures
            final(self).buffer.wf(),
            final(self).buffer@ == after_motion(
                old(self).buffer@,
                if old(self).buffer@.multi_line {
                    paragraph_forward_of(old(self).buffer@.text, old(self).buffer@.cursor)
                } else {
                    old(self).buffer@.cursor
                },
                false,
            ),
    {
        self.buffer.move_cursor_down_paragraph()
    }

    /// To the last character of the current or next word.
    pub fn move_cursor_right_by_word_end(&mut self)
        requires
            old(self).buffer.wf(),
        ensures
            final(self).buffer.wf(),
            final(self).buffer@ == after_motion(old(self).buffer@, word_end_of(old(self).buffer@.text, old(self).buffer@.cursor), false),
    {
        self.buffer.move_cursor_right_by_word_end()
    }

    /// To the start of the line.
    pub fn move_cursor_bol(&mut self)
        requires
            old(self).buffer.wf(),
        ensures
            final(self).buffer.wf(),
            final(self).buffer@ == after_motion(old(self).buffer@, (old(self).buffer@.cursor.0, 0), false),
    {
        self.buffer.move_cursor_bol()
    }

    /// As `move_cursor_bol`, extending the selection.
    pub fn move_cursor_bol_selecting(&mut self)
        requires
            old(self).buffer.wf(),
        ensures
            final(self).buffer.wf(),
            final(self).buffer@ == after_motion(old(self).buffer@, (old(self).buffer@.cursor.0, 0), true),
    {
        self.buffer.move_cursor_bol_selecting()
    }

    /// Past the last character of the line.
    pub fn move_cursor_eol(&mut self)
        requires
            old(self).buffer.wf(),
        ensures
            final(self).buffer.wf(),
            final(self).buffer@ == after_motion(old(self).buffer@, (old(self).buffer@.cursor.0, old(self).buffer@.text[old(self).buffer@.cursor.0].len() as int), false),
    {
        self.buffer.move_cursor_eol()
    }

    /// As `move_cursor_eol`, extending the selection.
    pub fn move_cursor_eol_selecting(&mut self)
        requires
            old(self).buffer.wf(),
        ensures
            final(self).buffer.wf(),
            final(self).buffer@ == after_motion(old(self).buffer@, (old(self).buffer@.cursor.0, old(self).buffer@.text[old(self).buffer@.cursor.0].len() as int), true),
    {
        self.buffer.move_cursor_eol_selecting()
    }

    /// Deletes from the start of the previous word, inside the line, up to
    /// the cursor.
    pub fn delete_word_back(&mut self)
        requires
            old(self).buffer.wf(),
        ensures
            final(self).buffer.wf(),
            ({
                let s = old(self).buffer@;
                let a = word_backward_in(s.text[s.cursor.0], s.cursor.1);
                final(self).buffer@ == after_edit(s, line_removal(s, a, s.cursor.1).0, line_removal(s, a, s.cursor.1).1)
            }),
    {
        self.buffer.delete_word_back()
    }

    /// Deletes from the cursor up to the start of the next word, inside the
    /// line.
    pub fn delete_word_forward(&mut self)
        requires
            old(self).buffer.wf(),
        ensures
            final(self).buffer.wf(),
            ({
                let s = old(self).buffer@;
                let b = word_forward_in(s.text[s.cursor.0], s.cursor.1);
                final(self).buffer@ == after_edit(s, line_removal(s, s.cursor.1, b).0, line_removal(s, s.cursor.1, b).1)
            }),
    {
        self.buffer.delete_word_forward()
    }

    /// Deletes the character under the cursor; the cursor stays.
    pub fn delete_char(&mut self)
        requires
            old(self).buffer.wf(),
        ensures
            final(self).buffer.wf(),
            ({
                let s = old(self).buffer@;
                let b = if s.cursor.1 < s.text[s.cursor.0].len() { s.cursor.1 + 1 } else { s.cursor.1 };
                final(self).buffer@ == after_edit(s, line_removal(s, s.cursor.1, b).0, line_removal(s, s.cursor.1, b).1)
            }),
    {
        self.buffer.delete_char()
    }

    /// Deletes the character before the cursor. At the start of a line it
    /// does nothing: lines are never joined.
    pub fn backspace(&mut self)
        requires
            old(self).buffer.wf(),
        ensures
            final(self).buffer.wf(),
            ({
                let s = old(self).buffer@;
                let a = if s.cursor.1 > 0 { s.cursor.1 - 1 } else { s.cursor.1 };
                final(self).buffer@ == after_edit(s, line_removal(s, a, s.cursor.1).0, line_removal(s, a, s.cursor.1).1)
            }),
    {
        self.buffer.backspace()
    }

    /// Types a character at the cursor (see `typed`).
    pub fn insert_char(&mut self, ch: char)
        requires
            old(self).buffer.wf(),
        ensures
            final(self).buffer.wf(),
            final(self).buffer@ == after_edit(old(self).buffer@, typed(old(self).buffer@, ch).0, typed(old(self).buffer@, ch).1),
    {
        self.buffer.insert_char(ch)
    }

    /// Deletes from the cursor to the end of the line.
    pub fn delete_until_eol(&mut self)
        requires
            old(self).buffer.wf(),
        ensures
            final(self).buffer.wf(),
            ({
                let s = old(self).buffer@;
                let b = s.text[s.cursor.0].len() as int;
                final(self).buffer@ == after_edit(s, line_removal(s, s.cursor.1, b).0, line_removal(s, s.cursor.1, b).1)
            }),
    {
        self.buffer.delete_until_eol()
    }

    /// Deletes from the start of the line to the cursor.
    pub fn delete_until_hol(&mut self)
        requires
            old(self).buffer.wf(),
        ensures
            final(self).buffer.wf(),
            final(self).buffer@ == after_edit(
                old(self).buffer@,
                line_removal(old(self).buffer@, 0, old(self).buffer@.cursor.1).0,
                line_removal(old(self).buffer@, 0, old(self).buffer@.cursor.1).1,
            ),
    {
        self.buffer.delete_until_hol()
    }

    /// Goes back to the most recent state of the undo history, if any.
    pub fn undo(&mut self)
        requires
            old(self).buffer.wf(),
        ensures
            final(self).buffer.wf(),
            final(self).buffer@ == after_undo(old(self).buffer@),
    {
        self.buffer.undo()
    }

    /// Goes forward to the most recently undone state, if any.
    pub fn redo(&mut self)
        requires
            old(self).buffer.wf(),
        ensures
            final(self).buffer.wf(),
            final(self).buffer@ == after_redo(old(self).buffer@),
    {
        self.buffer.redo()
    }

    /// Copies the selection, or the current line when there is none. The
    /// mode and the selection stay.
    pub fn copy(&mut self)
        requires
            old(self).buffer.wf(),
        ensures
            final(self).buffer.wf(),
            final(self).buffer@ == (BufferState { clipboard: target_text(old(self).buffer@), ..old(self).buffer@ }),
    {
        self.buffer.copy()
    }

    /// Pastes the clipboard at the cursor (see `pasted`).
    pub fn paste(&mut self)
        requires
            old(self).buffer.wf(),
        ensures
            final(self).buffer.wf(),
            final(self).buffer@ == after_edit(old(self).buffer@, pasted(old(self).buffer@).0, pasted(old(self).buffer@).1),
    {
        self.buffer.paste()
    }

    /// Cuts the selection, or the current line's text when there is none:
    /// the text goes to the clipboard, the cursor to where it began, and the
    /// selection and Visual mode end.
    pub fn cut(&mut self)
        requires
            old(self).buffer.wf(),
        ensures
            final(self).buffer.wf(),
            final(self).buffer@ == after_cut(old(self).buffer@),
    {
        self.buffer.cut()
    }
}

/// The request list: a selection index into the requests, no text.
pub struct SidePanel {
    pub requests: Vec<HTTPRequest>,
    pub selected_request: usize,
    pub mode: VimMode,
    pub vim_mode: bool,
}

impl SidePanel {
    /// The selection is a request of the list, or 0 when the list is empty.
    pub open spec fn wf(&self) -> bool {
        self.selected_request < self.requests@.len() || (self.requests@.len() == 0
            && self.selected_request == 0)
    }

    /// A panel over `requests` with the first one selected.
    pub fn new(requests: Vec<HTTPRequest>, vim_mode: bool) -> (r: SidePanel)
        ensures
            r.wf(),
            r.requests@ == requests@,
            r.selected_request == 0,
            r.mode == initial_mode(vim_mode),
            r.vim_mode == vim_mode,
    {
        SidePanel { requests, selected_request: 0, mode: starting_mode(vim_mode), vim_mode }
    }

    /// Selects the request above; stays at the first.
    pub fn move_cursor_up(&mut self)
        ensures
            final(self).selected_request as int == if old(self).selected_request > 0 {
                old(self).selected_request - 1
            } else {
                old(self).selected_request as int
            },
            final(self).requests@ == old(self).requests@,
            final(self).mode == old(self).mode,
            final(self).vim_mode == old(self).vim_mode,
            old(self).wf() ==> final(self).wf(),
    {
        if self.selected_request > 0 {
            self.selected_request = self.selected_request - 1;
        }
    }

    /// Selects the request below; stays at the last.
    pub fn move_cursor_down(&mut self)
        ensures
            final(self).selected_request as int == if old(self).selected_request + 1
                < old(self).requests@.len() {
                old(self).selected_request + 1
            } else {
                old(self).selected_request as int
            },
            final(self).requests@ == old(self).requests@,
            final(self).mode == old(self).mode,
            final(self).vim_mode == old(self).vim_mode,
            old(self).wf() ==> final(self).wf(),
    {
        let n = self.requests.len();
        if n > 0 && self.selected_request < n - 1 {
            self.selected_request = self.selected_request + 1;
        }
    }

    /// Enters Insert mode when vim emulation is on.
    pub fn enter_insert_mode(&mut self)
        ensures
            final(self).mode == if old(self).vim_mode {
                VimMode::Insert
            } else {
                old(self).mode
            },
            final(self).requests@ == old(self).requests@,
            final(self).selected_request == old(self).selected_request,
            final(self).vim_mode == old(self).vim_mode,
    {
        if self.vim_mode {
            self.mode = VimMode::Insert;
        }
    }

    /// Enters Normal mode when vim emulation is on.
    pub fn enter_normal_mode(&mut self)
        ensures
            final(self).mode == if old(self).vim_mode {
                VimMode::Normal
            } else {
                old(self).mode
            },
            final(self).requests@ == old(self).requests@,
            final(self).selected_request == old(self).selected_request,
            final(self).vim_mode == old(self).vim_mode,
    {
        if self.vim_mode {
            self.mode = VimMode::Normal;
        }
    }
}

} // verus!
