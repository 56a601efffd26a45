use vstd::prelude::*;
use crate::buffer::{
    BufferState, ModalBuffer, after_motion, after_edit, after_undo, after_redo, left_of, right_of,
    up_of, down_of, word_forward_of, word_backward_of, word_end_of, paragraph_forward_of,
    paragraph_backward_of, line_removal, typed, pasted, target_text, after_cut, with_insert_mode,
    with_normal_mode, with_visual_mode, line_break, reloaded, with_vim,
};
use crate::command::{BlinkCommand, ParseError};
use crate::config::{BlinkConfig, HTTPRequest};
use crate::events::{command_for, handle_event};
use crate::keys::{
    KeyChord, KeybindingMap, table_of, default_bindings, with_overrides, binding_ok, reports,
};
use crate::mode::{VimMode, initial_mode};
use crate::regions::{Editor, SidePanel, URLInput};
use crate::text::{insert_pieces, word_forward_in, word_backward_in};

verus! {

/// What a command does to a text region's buffer; `in_editor` tells the
/// body editor from the URL field, which ignores vertical motions and line
/// openings. A character is typed only in Insert mode or without vim
/// emulation, and Enter breaks the line only there, in the editor.
pub open spec fn text_step(b: BufferState, cmd: BlinkCommand, in_editor: bool) -> BufferState {
    match cmd {
        BlinkCommand::EnterInsertMode => with_insert_mode(b),
        BlinkCommand::EnterNormalMode => with_normal_mode(b),
        BlinkCommand::EnterVisualMode => with_visual_mode(b),
        BlinkCommand::MoveCursorUp => if in_editor {
            after_motion(b, up_of(b.text, b.cursor), false)
        } else {
            b
        },
        BlinkCommand::MoveCursorUpSelecting => if in_editor {
            after_motion(b, up_of(b.text, b.cursor), true)
        } else {
            b
        },
        BlinkCommand::MoveCursorUpParagraph => if in_editor {
            after_motion(b, if b.multi_line { paragraph_backward_of(b.text, b.cursor) } else { b.cursor }, false)
        } else {
            b
        },
        BlinkCommand::MoveCursorUpParagraphSelecting => if in_editor {
            after_motion(b, if b.multi_line { paragraph_backward_of(b.text, b.cursor) } else { b.cursor }, true)
        } else {
            b
        },
        BlinkCommand::MoveCursorDown => if in_editor {
            after_motion(b, down_of(b.text, b.cursor), false)
        } else {
            b
        },
        BlinkCommand::MoveCursorDownSelecting => if in_editor {
            after_motion(b, down_of(b.text, b.cursor), true)
        } else {
            b
        },
        BlinkCommand::MoveCursorDownParagraph => if in_editor {
            after_motion(b, if b.multi_line { paragraph_forward_of(b.text, b.cursor) } else { b.cursor }, false)
        } else {
            b
        },
        BlinkCommand::MoveCursorDownParagraphSelecting => if in_editor {
            after_motion(b, if b.multi_line { paragraph_forward_of(b.text, b.cursor) } else { b.cursor }, true)
        } else {
            b
        },
        BlinkCommand::MoveCursorLeft => after_motion(b, left_of(b.text, b.cursor), false),
        BlinkCommand::MoveCursorLeftSelecting => after_motion(b, left_of(b.text, b.cursor), true),
        BlinkCommand::MoveCursorLeftByWord => after_motion(b, word_backward_of(b.text, b.cursor), false),
        BlinkCommand::MoveCursorLeftByWordSelecting => after_motion(b, word_backward_of(b.text, b.cursor), true),
        BlinkCommand::MoveCursorLeftByWordParagraph => after_motion(b, if b.multi_line { paragraph_backward_of(b.text, b.cursor) } else { b.cursor }, false),
        BlinkCommand::MoveCursorRight => after_motion(b, right_of(b.text, b.cursor), false),
        BlinkCommand::MoveCursorRightSelecting => after_motion(b, right_of(b.text, b.cursor), true),
        BlinkCommand::MoveCursorRightByWord => after_motion(b, word_forward_of(b.text, b.cursor), false),
        BlinkCommand::MoveCursorRightByWordSelecting => after_motion(b, word_forward_of(b.text, b.cursor), true),
        BlinkCommand::MoveCursorRightByWordParagraph => after_motion(b, if b.multi_line { paragraph_forward_of(b.text, b.cursor) } else { b.cursor }, false),
        BlinkCommand::MoveCursorRightByWordEnd => after_motion(b, word_end_of(b.text, b.cursor), false),
        BlinkCommand::MoveCursorBOL => after_motion(b, (b.cursor.0, 0), false),
        BlinkCommand::MoveCursorBOLSelecting => after_motion(b, (b.cursor.0, 0), true),
        BlinkCommand::MoveCursorBOLIntoInsertMode => with_insert_mode(after_motion(b, (b.cursor.0, 0), false)),
        BlinkCommand::MoveCursorEOL => after_motion(b, (b.cursor.0, b.text[b.cursor.0].len() as int), false),
        BlinkCommand::MoveCursorEOLSelecting => after_motion(b, (b.cursor.0, b.text[b.cursor.0].len() as int), true),
        BlinkCommand::MoveCursorEOLIntoInsertMode => with_insert_mode(after_motion(b, (b.cursor.0, b.text[b.cursor.0].len() as int), false)),
        BlinkCommand::DeleteBackward => after_edit(b, line_removal(b, if b.cursor.1 > 0 { b.cursor.1 - 1 } else { b.cursor.1 }, b.cursor.1).0, line_removal(b, if b.cursor.1 > 0 { b.cursor.1 - 1 } else { b.cursor.1 }, b.cursor.1).1),
        BlinkCommand::DeleteForward => after_edit(b, line_removal(b, b.cursor.1, if b.cursor.1 < b.text[b.cursor.0].len() { b.cursor.1 + 1 } else { b.cursor.1 }).0, line_removal(b, b.cursor.1, if b.cursor.1 < b.text[b.cursor.0].len() { b.cursor.1 + 1 } else { b.cursor.1 }).1),
        BlinkCommand::DeleteWordBack => after_edit(b, line_removal(b, word_backward_in(b.text[b.cursor.0], b.cursor.1), b.cursor.1).0, line_removal(b, word_backward_in(b.text[b.cursor.0], b.cursor.1), b.cursor.1).1),
        BlinkCommand::DeleteWordForward => after_edit(b, line_removal(b, b.cursor.1, word_forward_in(b.text[b.cursor.0], b.cursor.1)).0, line_removal(b, b.cursor.1, word_forward_in(b.text[b.cursor.0], b.cursor.1)).1),
        BlinkCommand::DeleteUntilEOL => after_edit(b, line_removal(b, b.cursor.1, b.text[b.cursor.0].len() as int).0, line_removal(b, b.cursor.1, b.text[b.cursor.0].len() as int).1),
        BlinkCommand::DeleteUntilEOLIntoInsertMode => with_insert_mode(after_edit(b, line_removal(b, b.cursor.1, b.text[b.cursor.0].len() as int).0, line_removal(b, b.cursor.1, b.text[b.cursor.0].len() as int).1)),
        BlinkCommand::DeleteUntilHOL => after_edit(b, line_removal(b, 0, b.cursor.1).0, line_removal(b, 0, b.cursor.1).1),
        BlinkCommand::Newline => if in_editor {
            if b.multi_line { after_edit(b, insert_pieces(b.text, b.cursor.0, b.text[b.cursor.0].len() as int, line_break()), (b.cursor.0 + 1, 0)) } else { after_edit(b, b.text, b.cursor) }
        } else {
            b
        },
        BlinkCommand::NewlineUp => if in_editor {
            if b.multi_line { after_edit(b, insert_pieces(b.text, b.cursor.0, 0, line_break()), (b.cursor.0, 0)) } else { after_edit(b, b.text, b.cursor) }
        } else {
            b
        },
        BlinkCommand::Undo => after_undo(b),
        BlinkCommand::Redo => after_redo(b),
        BlinkCommand::Copy => BufferState { clipboard: target_text(b), ..b },
        BlinkCommand::Paste => after_edit(b, pasted(b).0, pasted(b).1),
        BlinkCommand::Cut => after_cut(b),
        BlinkCommand::CutIntoInsertMode => with_insert_mode(after_cut(b)),
        BlinkCommand::InsertChar(ch) => if b.mode == VimMode::Insert || b.mode == VimMode::Any {
            after_edit(b, typed(b, ch).0, typed(b, ch).1)
        } else {
            b
        },
        BlinkCommand::Enter => if in_editor && (b.mode == VimMode::Insert || b.mode == VimMode::Any) {
            after_edit(b, typed(b, '\n').0, typed(b, '\n').1)
        } else {
            b
        },
        _ => b,
    }
}

/// Applies a command to a text region's buffer.
fn buffer_step(b: &mut ModalBuffer, cmd: BlinkCommand, in_editor: bool)
    requires
        old(b).wf(),
        old(b)@.multi_line == in_editor,
    ensures
        final(b).wf(),
        final(b)@ == text_step(old(b)@, cmd, in_editor),
        final(b)@.multi_line == in_editor,
{
    match cmd {
        BlinkCommand::EnterInsertMode => b.enter_insert_mode(),
        BlinkCommand::EnterNormalMode => b.enter_normal_mode(),
        BlinkCommand::EnterVisualMode => b.enter_visual_mode(),
        BlinkCommand::MoveCursorUp => if in_editor {
            b.move_cursor_up()
        },
        BlinkCommand::MoveCursorUpSelecting => if in_editor {
            b.move_cursor_up_selecting()
        },
        BlinkCommand::MoveCursorUpParagraph => if in_editor {
            b.move_cursor_up_paragraph()
        },
        BlinkCommand::MoveCursorUpParagraphSelecting => if in_editor {
            b.move_cursor_up_paragraph_selecting()
        },
        BlinkCommand::MoveCursorDown => if in_editor {
            b.move_cursor_down()
        },
        BlinkCommand::MoveCursorDownSelecting => if in_editor {
            b.move_cursor_down_selecting()
        },
        BlinkCommand::MoveCursorDownParagraph => if in_editor {
            b.move_cursor_down_paragraph()
        },
        BlinkCommand::MoveCursorDownParagraphSelecting => if in_editor {
            b.move_cursor_down_paragraph_selecting()
        },
        BlinkCommand::MoveCursorLeft => b.move_cursor_left(),
        BlinkCommand::MoveCursorLeftSelecting => b.move_cursor_left_selecting(),
        BlinkCommand::MoveCursorLeftByWord => b.move_cursor_left_by_word(),
        BlinkCommand::MoveCursorLeftByWordSelecting => b.move_cursor_left_by_word_selecting(),
        BlinkCommand::MoveCursorLeftByWordParagraph => b.move_cursor_up_paragraph(),
        BlinkCommand::MoveCursorRight => b.move_cursor_right(),
        BlinkCommand::MoveCursorRightSelecting => b.move_cursor_right_selecting(),
        BlinkCommand::MoveCursorRightByWord => b.move_cursor_right_by_word(),
        BlinkCommand::MoveCursorRightByWordSelecting => b.move_cursor_right_by_word_selecting(),
        BlinkCommand::MoveCursorRightByWordParagraph => b.move_cursor_down_paragraph(),
        BlinkCommand::MoveCursorRightByWordEnd => b.move_cursor_right_by_word_end(),
        BlinkCommand::MoveCursorBOL => b.move_cursor_bol(),
        BlinkCommand::MoveCursorBOLSelecting => b.move_cursor_bol_selecting(),
        BlinkCommand::MoveCursorBOLIntoInsertMode => { b.move_cursor_bol(); b.enter_insert_mode() },
        BlinkCommand::MoveCursorEOL => b.move_cursor_eol(),
        BlinkCommand::MoveCursorEOLSelecting => b.move_cursor_eol_selecting(),
        BlinkCommand::MoveCursorEOLIntoInsertMode => { b.move_cursor_eol(); b.enter_insert_mode() },
        BlinkCommand::DeleteBackward => b.backspace(),
        BlinkCommand::DeleteForward => b.delete_char(),
        BlinkCommand::DeleteWordBack => b.delete_word_back(),
        BlinkCommand::DeleteWordForward => b.delete_word_forward(),
        BlinkCommand::DeleteUntilEOL => b.delete_until_eol(),
        BlinkCommand::DeleteUntilEOLIntoInsertMode => { b.delete_until_eol(); b.enter_insert_mode() },
        BlinkCommand::DeleteUntilHOL => b.delete_until_hol(),
        BlinkCommand::Newline => if in_editor {
            b.newline()
        },
        BlinkCommand::NewlineUp => if in_editor {
            b.newline_up()
        },
        BlinkCommand::Undo => b.undo(),
        BlinkCommand::Redo => b.redo(),
        BlinkCommand::Copy => b.copy(),
        BlinkCommand::Paste => b.paste(),
        BlinkCommand::Cut => b.cut(),
        BlinkCommand::CutIntoInsertMode => { b.cut(); b.enter_insert_mode() },
        BlinkCommand::InsertChar(ch) => {
            if b.mode() == VimMode::Insert || b.mode() == VimMode::Any {
                b.insert_char(ch);
            }
        },
        BlinkCommand::Enter => {
            if in_editor && (b.mode() == VimMode::Insert || b.mode() == VimMode::Any) {
                b.insert_char('\n');
            }
        },
        _ => {},
    }
}

/// The region that has focus.
#[derive(Debug, Clone, Copy, PartialEq, Eq, Structural)]
pub enum FocusArea {
    SidePanel,
    URLInput,
    Editor,
}

/// Focus cycles side panel, URL field, editor, side panel.
pub open spec fn next_focus(f: FocusArea) -> FocusArea {
    match f {
        FocusArea::SidePanel => FocusArea::URLInput,
        FocusArea::URLInput => FocusArea::Editor,
        FocusArea::Editor => FocusArea::SidePanel,
    }
}

/// The side panel's mode once vim emulation is turned on or off.
pub open spec fn panel_mode_with_vim(m: VimMode, vim_mode: bool) -> VimMode {
    if !vim_mode {
        VimMode::Any
    } else if m == VimMode::Any {
        VimMode::Normal
    } else {
        m
    }
}

/// The selection kept over a new list of `n` requests.
pub open spec fn clamped_selection(selected: int, n: int) -> int {
    if selected < n {
        selected
    } else if n > 0 {
        n - 1
    } else {
        0
    }
}

/// The three regions and which one has focus: all that is drawn.
pub struct BlinkRenderer {
    pub focus_area: FocusArea,
    pub url_input: URLInput,
    pub editor: Editor,
    pub side_panel: SidePanel,
    pub vim_mode: bool,
}

impl BlinkRenderer {
    pub open spec fn wf(&self) -> bool {
        &&& self.url_input.buffer.wf()
        &&& !self.url_input.buffer@.multi_line
        &&& self.editor.buffer.wf()
        &&& self.editor.buffer@.multi_line
        &&& self.side_panel.wf()
    }

    /// The mode of the focused region, which decides what keys mean.
    pub open spec fn focused_mode_spec(&self) -> VimMode {
        match self.focus_area {
            FocusArea::SidePanel => self.side_panel.mode,
            FocusArea::URLInput => self.url_input.buffer@.mode,
            FocusArea::Editor => self.editor.buffer@.mode,
        }
    }

    /// Fresh regions over `requests`, the side panel focused.
    pub fn new(requests: Vec<HTTPRequest>, vim_mode: bool) -> (r: BlinkRenderer)
        ensures
            r.wf(),
            r.focus_area == FocusArea::SidePanel,
            r.vim_mode == vim_mode,
            r.side_panel.requests@ == requests@,
            r.side_panel.selected_request == 0,
            r.side_panel.mode == initial_mode(vim_mode),
            r.url_input.buffer@.text == seq!["http://"@],
            r.url_input.buffer@.cursor == (0int, 7int),
            r.url_input.buffer@.mode == initial_mode(vim_mode),
            r.editor.buffer@.text == seq![Seq::<char>::empty()],
            r.editor.buffer@.cursor == (0int, 0int),
            r.editor.buffer@.mode == initial_mode(vim_mode),
    {
        BlinkRenderer {
            focus_area: FocusArea::SidePanel,
            url_input: URLInput::new(vim_mode),
            editor: Editor::new(vim_mode),
            side_panel: SidePanel::new(requests, vim_mode),
            vim_mode,
        }
    }

    pub fn focused_mode(&self) -> (r: VimMode)
        ensures
            r == self.focused_mode_spec(),
    {
        match self.focus_area {
            FocusArea::SidePanel => self.side_panel.mode,
            FocusArea::URLInput => self.url_input.buffer.mode(),
            FocusArea::Editor => self.editor.buffer.mode(),
        }
    }

    /// Replaces the request list; the selection is kept where it still
    /// names a request, else moved to the last one.
    pub fn update_requests(&mut self, new_requests: Vec<HTTPRequest>)
        requires
            old(self).wf(),
        ensures
            final(self).wf(),
            final(self).side_panel.requests@ == new_requests@,
            final(self).side_panel.selected_request == clamped_selection(
                old(self).side_panel.selected_request as int,
                new_requests@.len() as int,
            ),
            final(self).side_panel.mode == old(self).side_panel.mode,
            final(self).side_panel.vim_mode == old(self).side_panel.vim_mode,
            final(self).url_input == old(self).url_input,
            final(self).editor == old(self).editor,
            final(self).focus_area == old(self).focus_area,
            final(self).vim_mode == old(self).vim_mode,
    {
        let n = new_requests.len();
        self.side_panel.requests = new_requests;
        if self.side_panel.selected_request >= n {
            self.side_panel.selected_request = if n > 0 {
                n - 1
            } else {
                0
            };
        }
    }

    /// Turns vim emulation on or off in every region.
    pub fn update_vim_mode(&mut self, vim_mode: bool)
        requires
            old(self).wf(),
        ensures
            final(self).wf(),
            final(self).vim_mode == vim_mode,
            final(self).side_panel.vim_mode == vim_mode,
            final(self).url_input.buffer@ == with_vim(old(self).url_input.buffer@, vim_mode),
            final(self).editor.buffer@ == with_vim(old(self).editor.buffer@, vim_mode),
            final(self).side_panel.mode == panel_mode_with_vim(old(self).side_panel.mode, vim_mode),
            final(self).side_panel.requests@ == old(self).side_panel.requests@,
            final(self).side_panel.selected_request == old(self).side_panel.selected_request,
            final(self).focus_area == old(self).focus_area,
    {
        self.vim_mode = vim_mode;
        self.url_input.buffer.set_vim_mode(vim_mode);
        self.editor.buffer.set_vim_mode(vim_mode);
        self.side_panel.vim_mode = vim_mode;
        if !vim_mode {
            self.side_panel.mode = VimMode::Any;
        } else if self.side_panel.mode == VimMode::Any {
            self.side_panel.mode = VimMode::Normal;
        }
    }

    /// Loads a request: its URL replaces the URL field's content and its
    /// body the editor's.
    pub fn load_request(&mut self, req: &HTTPRequest)
        requires
            old(self).wf(),
        ensures
            final(self).wf(),
            final(self).url_input.buffer@ == reloaded(old(self).url_input.buffer@, req.url@),
            final(self).editor.buffer@ == reloaded(old(self).editor.buffer@, req.body@),
            final(self).side_panel == old(self).side_panel,
            final(self).focus_area == old(self).focus_area,
            final(self).vim_mode == old(self).vim_mode,
    {
        self.url_input.buffer.replace_text(req.url.as_str());
        self.editor.buffer.replace_text(req.body.as_str());
    }
}

/// The state the router works on, seen as values.
pub struct RouterState {
    pub focus: FocusArea,
    pub url: BufferState,
    pub editor: BufferState,
    pub requests: Seq<HTTPRequest>,
    pub selected: int,
    pub panel_mode: VimMode,
    pub quit: bool,
    pub table: Map<(KeyChord, VimMode), BlinkCommand>,
}

/// What a command does. Quit and ToggleFocus act whatever has focus; the
/// side panel takes only Up, Down and Enter (which loads the selected
/// request into the URL field and the editor and focuses the editor); any
/// other command goes to the focused text region (see `text_step`).
/// Opening the external editor is left to the caller.
pub open spec fn routed(s: RouterState, cmd: BlinkCommand) -> RouterState {
    match cmd {
        BlinkCommand::Quit => RouterState { quit: true, ..s },
        BlinkCommand::ToggleFocus => RouterState { focus: next_focus(s.focus), ..s },
        BlinkCommand::OpenInEditor => s,
        _ => match s.focus {
            FocusArea::SidePanel => match cmd {
                BlinkCommand::MoveCursorUp => RouterState {
                    selected: if s.selected > 0 {
                        s.selected - 1
                    } else {
                        s.selected
                    },
                    ..s
                },
                BlinkCommand::MoveCursorDown => RouterState {
                    selected: if s.selected + 1 < s.requests.len() {
                        s.selected + 1
                    } else {
                        s.selected
                    },
                    ..s
                },
                BlinkCommand::Enter => if 0 <= s.selected < s.requests.len() {
                    RouterState {
                        url: reloaded(s.url, s.requests[s.selected].url@),
                        editor: reloaded(s.editor, s.requests[s.selected].body@),
                        focus: FocusArea::Editor,
                        ..s
                    }
                } else {
                    s
                },
                _ => s,
            },
            FocusArea::URLInput => RouterState { url: text_step(s.url, cmd, false), ..s },
            FocusArea::Editor => RouterState { editor: text_step(s.editor, cmd, true), ..s },
        },
    }
}

/// The application state: the regions, the key table and whether to quit.
pub struct BlinkState {
    pub renderer: BlinkRenderer,
    key_bindings: KeybindingMap,
    should_quit: bool,
}

impl View for BlinkState {
    type V = RouterState;

    closed spec fn view(&self) -> RouterState {
        RouterState {
            focus: self.renderer.focus_area,
            url: self.renderer.url_input.buffer@,
            editor: self.renderer.editor.buffer@,
            requests: self.renderer.side_panel.requests@,
            selected: self.renderer.side_panel.selected_request as int,
            panel_mode: self.renderer.side_panel.mode,
            quit: self.should_quit,
            table: self.key_bindings@,
        }
    }
}

/// The mode that decides what keys mean: that of the focused region.
pub open spec fn focused_mode_of(s: RouterState) -> VimMode {
    match s.focus {
        FocusArea::SidePanel => s.panel_mode,
        FocusArea::URLInput => s.url.mode,
        FocusArea::Editor => s.editor.mode,
    }
}

impl BlinkState {
    pub closed spec fn wf(&self) -> bool {
        self.renderer.wf()
    }

    /// The state at start-up: the built-in table with the configured
    /// overrides, the side panel focused over the configured requests.
    /// Fails, naming the offending text, when an override does not parse.
    pub fn new(config: BlinkConfig) -> (r: Result<BlinkState, ParseError>)
        ensures
            r is Ok <==> forall|i: int|
                0 <= i < config.keybindings@.len() ==> binding_ok(#[trigger] config.keybindings@[i]),
            r matches Err(e) ==> exists|i: int|
                0 <= i < config.keybindings@.len() && reports(#[trigger] config.keybindings@[i], e)
                    && !binding_ok(config.keybindings@[i])
                    && forall|j: int| 0 <= j < i ==> binding_ok(#[trigger] config.keybindings@[j]),
            r matches Ok(st) ==> {
                &&& st.wf()
                &&& st@.table == with_overrides(table_of(default_bindings()), config.keybindings@)
                &&& st@.focus == FocusArea::SidePanel
                &&& st@.editor.multi_line
                &&& !st@.url.multi_line
                &&& !st@.quit
                &&& st@.requests == config.local_requests.requests@
                &&& st@.selected == 0
                &&& st@.url.text == seq!["http://"@]
                &&& st@.editor.text == seq![Seq::<char>::empty()]
                &&& st@.url.mode == initial_mode(config.vim_mode)
                &&& st@.editor.mode == initial_mode(config.vim_mode)
                &&& st@.panel_mode == initial_mode(config.vim_mode)
            },
    {
        let mut key_bindings = KeybindingMap::default_keybindings();
        match key_bindings.add_bindings_from_config(&config.keybindings) {
            Ok(()) => {},
            Err(e) => {
                return Err(e);
            },
        }
        let vim_mode = config.vim_mode;
        let renderer = BlinkRenderer::new(config.local_requests.requests, vim_mode);
        Ok(BlinkState { renderer, key_bindings, should_quit: false })
    }

    pub fn should_quit(&self) -> (r: bool)
        ensures
            r == self@.quit,
    {
        self.should_quit
    }

    /// The mode of the focused region.
    pub fn focused_mode(&self) -> (r: VimMode)
        ensures
            r == focused_mode_of(self@),
    {
        self.renderer.focused_mode()
    }

    /// Moves focus to the next region; no region's mode changes.
    pub fn toggle_focus(&mut self)
        requires
            old(self).wf(),
        ensures
            final(self).wf(),
            final(self)@ == routed(old(self)@, BlinkCommand::ToggleFocus),
    {
        self.renderer.focus_area = match self.renderer.focus_area {
            FocusArea::SidePanel => FocusArea::URLInput,
            FocusArea::URLInput => FocusArea::Editor,
            FocusArea::Editor => FocusArea::SidePanel,
        };
    }

    /// Carries out one command (see `routed`). Returns whether the caller
    /// is to open the editor's content in an external editor: for
    /// OpenInEditor while the editor has focus.
    pub fn dispatch(&mut self, command: BlinkCommand) -> (open_editor: bool)
        requires
            old(self).wf(),
        ensures
            final(self).wf(),
            final(self)@ == routed(old(self)@, command),
            open_editor == (command == BlinkCommand::OpenInEditor && old(self)@.focus
                == FocusArea::Editor),
    {
        match command {
            BlinkCommand::Quit => {
                self.should_quit = true;
                false
            },
            BlinkCommand::ToggleFocus => {
                self.toggle_focus();
                false
            },
            BlinkCommand::OpenInEditor => self.renderer.focus_area == FocusArea::Editor,
            _ => {
                match self.renderer.focus_area {
                    FocusArea::SidePanel => {
                        match command {
                            BlinkCommand::MoveCursorUp => self.renderer.side_panel.move_cursor_up(),
                            BlinkCommand::MoveCursorDown => self.renderer.side_panel.move_cursor_down(),
                            BlinkCommand::Enter => self.enter_on_panel(),
                            _ => {},
                        }
                    },
                    FocusArea::URLInput => buffer_step(&mut self.renderer.url_input.buffer, command, false),
                    FocusArea::Editor => buffer_step(&mut self.renderer.editor.buffer, command, true),
                }
                false
            },
        }
    }

    fn enter_on_panel(&mut self)
        requires
            old(self).wf(),
            old(self).renderer.focus_area == FocusArea::SidePanel,
        ensures
            final(self).wf(),
            final(self)@ == routed(old(self)@, BlinkCommand::Enter),
    {
        let index = self.renderer.side_panel.selected_request;
        if index < self.renderer.side_panel.requests.len() {
            let req = &self.renderer.side_panel.requests[index];
            let url = req.url.as_str();
            let body = req.body.as_str();
            self.renderer.url_input.buffer.replace_text(url);
            self.renderer.editor.buffer.replace_text(body);
            self.renderer.focus_area = FocusArea::Editor;
        }
    }

    /// Handles one key press: resolves it in the focused region's mode and
    /// carries out what it means, if anything. Returns whether the external
    /// editor is to be opened.
    pub fn handle_key(&mut self, chord: KeyChord) -> (open_editor: bool)
        requires
            old(self).wf(),
        ensures
            final(self).wf(),
            final(self)@ == match command_for(old(self)@.table, chord, focused_mode_of(old(self)@)) {
                Some(c) => routed(old(self)@, c),
                None => old(self)@,
            },
    {
        let mode = self.renderer.focused_mode();
        let commands = handle_event(chord, &self.key_bindings, mode);
        if commands.len() == 1 {
            self.dispatch(commands[0])
        } else {
            false
        }
    }

    /// Applies a reloaded configuration: a fresh key table from the
    /// built-in one and the overrides, the new request list and the vim
    /// setting. When an override does not parse nothing changes.
    pub fn reload_config(&mut self, config: BlinkConfig) -> (r: Result<(), ParseError>)
        requires
            old(self).wf(),
        ensures
            final(self).wf(),
            r is Ok <==> forall|i: int|
                0 <= i < config.keybindings@.len() ==> binding_ok(#[trigger] config.keybindings@[i]),
            r is Err ==> final(self)@ == old(self)@,
            r matches Err(e) ==> exists|i: int|
                0 <= i < config.keybindings@.len() && reports(#[trigger] config.keybindings@[i], e)
                    && !binding_ok(config.keybindings@[i])
                    && forall|j: int| 0 <= j < i ==> binding_ok(#[trigger] config.keybindings@[j]),
            r is Ok ==> {
                &&& final(self)@.table == with_overrides(table_of(default_bindings()), config.keybindings@)
                &&& final(self)@.requests == config.local_requests.requests@
                &&& final(self)@.selected == clamped_selection(
                    old(self)@.selected,
                    config.local_requests.requests@.len() as int,
                )
                &&& final(self)@.panel_mode == panel_mode_with_vim(old(self)@.panel_mode, config.vim_mode)
                &&& final(self)@.url == with_vim(old(self)@.url, config.vim_mode)
                &&& final(self)@.editor == with_vim(old(self)@.editor, config.vim_mode)
                &&& final(self)@.focus == old(self)@.focus
                &&& final(self)@.quit == old(self)@.quit
            },
    {
        let mut table = KeybindingMap::default_keybindings();
        match table.add_bindings_from_config(&config.keybindings) {
            Ok(()) => {},
            Err(e) => {
                return Err(e);
            },
        }
        self.key_bindings = table;
        self.renderer.update_requests(config.local_requests.requests);
        self.renderer.update_vim_mode(config.vim_mode);
        Ok(())
    }
}

} // verus!
