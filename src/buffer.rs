use vstd::prelude::*;
use crate::mode::VimMode;
use crate::text::{
    Line, lines_view, group_lines_view, run_end, run_start, word_forward_in, word_backward_in,
    word_end_in, range_ok, extract, remove_range, insert_pieces, paste_end, text_lines_of, joined,
    join_lines, body_lines, skip_run, skip_run_back, word_forward, word_backward, word_end,
    lemma_run_end, lemma_run_start_within, lemma_word_round_trip_in, lemma_cut_paste, extract_range,
    remove_range_in, insert_pieces_in, copy_lines, slice,
};

verus! {

broadcast use group_lines_view;

/// A position: line, then column.
pub type Pos = (int, int);

/// A text and a cursor, as the history keeps them.
pub type Snap = (Seq<Line>, Pos);

/// What a buffer holds, seen as mathematical values.
pub struct BufferState {
    pub text: Seq<Line>,
    pub cursor: Pos,
    /// The fixed end of a selection in progress; the cursor is the moving end.
    pub anchor: Option<Pos>,
    pub mode: VimMode,
    pub vim_mode: bool,
    pub multi_line: bool,
    /// Earlier states, the most recent last.
    pub undo: Seq<Snap>,
    /// Undone states, the most recently undone last.
    pub redo: Seq<Snap>,
    /// The copied text, one piece per line; empty when nothing was copied.
    pub clipboard: Seq<Line>,
}

pub open spec fn pos_ok(t: Seq<Line>, p: Pos) -> bool {
    0 <= p.0 < t.len() && 0 <= p.1 <= t[p.0].len()
}

pub open spec fn text_ok(t: Seq<Line>, multi_line: bool) -> bool {
    t.len() >= 1 && (!multi_line ==> t.len() == 1)
}

pub open spec fn snap_ok(s: Snap, multi_line: bool) -> bool {
    text_ok(s.0, multi_line) && pos_ok(s.0, s.1)
}

/// The invariant of a buffer: at least one line (exactly one in a
/// single-line buffer), the cursor and the anchor inside the text, Visual
/// mode always with an anchor, mode `Any` exactly when vim emulation is off,
/// and every state of the history well formed.
pub open spec fn state_ok(s: BufferState) -> bool {
    &&& text_ok(s.text, s.multi_line)
    &&& pos_ok(s.text, s.cursor)
    &&& (s.anchor matches Some(a) ==> pos_ok(s.text, a))
    &&& (s.mode == VimMode::Visual ==> s.anchor is Some)
    &&& (s.vim_mode <==> s.mode != VimMode::Any)
    &&& forall|i: int| 0 <= i < s.undo.len() ==> snap_ok(#[trigger] s.undo[i], s.multi_line)
    &&& forall|i: int| 0 <= i < s.redo.len() ==> snap_ok(#[trigger] s.redo[i], s.multi_line)
    &&& (!s.multi_line ==> s.clipboard.len() <= 1)
}

pub open spec fn pos_le(a: Pos, b: Pos) -> bool {
    a.0 < b.0 || (a.0 == b.0 && a.1 <= b.1)
}

pub open spec fn min_int(a: int, b: int) -> int {
    if a <= b {
        a
    } else {
        b
    }
}

//
// Motions, as functions from a text and a position to a position.
//

/// One character back; from the start of a line, to the end of the one
/// before.
pub open spec fn left_of(t: Seq<Line>, p: Pos) -> Pos {
    if p.1 > 0 {
        (p.0, p.1 - 1)
    } else if p.0 > 0 {
        (p.0 - 1, t[p.0 - 1].len() as int)
    } else {
        p
    }
}

/// One character forward; from the end of a line, to the start of the next.
pub open spec fn right_of(t: Seq<Line>, p: Pos) -> Pos {
    if p.1 < t[p.0].len() {
        (p.0, p.1 + 1)
    } else if p.0 + 1 < t.len() {
        (p.0 + 1, 0)
    } else {
        p
    }
}

/// One line up, the column clamped to that line.
pub open spec fn up_of(t: Seq<Line>, p: Pos) -> Pos {
    if p.0 > 0 {
        (p.0 - 1, min_int(p.1, t[p.0 - 1].len() as int))
    } else {
        p
    }
}

/// One line down, the column clamped to that line.
pub open spec fn down_of(t: Seq<Line>, p: Pos) -> Pos {
    if p.0 + 1 < t.len() {
        (p.0 + 1, min_int(p.1, t[p.0 + 1].len() as int))
    } else {
        p
    }
}

/// To the start of the next word; past the end of a line, to the first
/// non-blank of the next line.
pub open spec fn word_forward_of(t: Seq<Line>, p: Pos) -> Pos {
    let j = word_forward_in(t[p.0], p.1);
    if j < t[p.0].len() || p.0 + 1 >= t.len() {
        (p.0, j)
    } else {
        (p.0 + 1, run_end(t[p.0 + 1], 0, 0))
    }
}

/// To the start of the previous word; with only blanks before the cursor,
/// to the last word of the line before.
pub open spec fn word_backward_of(t: Seq<Line>, p: Pos) -> Pos {
    if run_start(t[p.0], p.1, 0) == 0 && p.0 > 0 {
        (p.0 - 1, word_backward_in(t[p.0 - 1], t[p.0 - 1].len() as int))
    } else {
        (p.0, word_backward_in(t[p.0], p.1))
    }
}

/// To the last character of the current or next word of the line.
pub open spec fn word_end_of(t: Seq<Line>, p: Pos) -> Pos {
    (p.0, word_end_in(t[p.0], p.1))
}

/// The first empty line at or after `r`, or the number of lines.
pub open spec fn next_blank(t: Seq<Line>, r: int) -> int
    decreases t.len() - r,
{
    if 0 <= r < t.len() {
        if t[r].len() == 0 {
            r
        } else {
            next_blank(t, r + 1)
        }
    } else {
        t.len() as int
    }
}

/// The last empty line at or before `r`, or -1.
pub open spec fn prev_blank(t: Seq<Line>, r: int) -> int
    decreases r + 1,
{
    if 0 <= r < t.len() {
        if t[r].len() == 0 {
            r
        } else {
            prev_blank(t, r - 1)
        }
    } else {
        -1
    }
}

/// To the next empty line, or the end of the text.
pub open spec fn paragraph_forward_of(t: Seq<Line>, p: Pos) -> Pos {
    let b = next_blank(t, p.0 + 1);
    if b < t.len() {
        (b, 0)
    } else {
        (t.len() - 1, t.last().len() as int)
    }
}

/// To the previous empty line, or the start of the text.
pub open spec fn paragraph_backward_of(t: Seq<Line>, p: Pos) -> Pos {
    let b = prev_blank(t, p.0 - 1);
    if b >= 0 {
        (b, 0)
    } else {
        (0, 0)
    }
}

/// The anchor after a motion: a selecting motion starts a selection at the
/// cursor unless one is in progress; any other motion ends the selection,
/// except in Visual mode.
pub open spec fn motion_anchor(s: BufferState, selecting: bool) -> Option<Pos> {
    if selecting {
        if s.anchor is Some {
            s.anchor
        } else {
            Some(s.cursor)
        }
    } else if s.mode == VimMode::Visual {
        s.anchor
    } else {
        None
    }
}

/// The state after moving the cursor to `to`.
pub open spec fn after_motion(s: BufferState, to: Pos, selecting: bool) -> BufferState {
    BufferState { cursor: to, anchor: motion_anchor(s, selecting), ..s }
}

/// The mode after a cut: it ends Visual mode.
pub open spec fn mode_after_edit(m: VimMode) -> VimMode {
    if m == VimMode::Visual {
        VimMode::Normal
    } else {
        m
    }
}

/// A position moved into `t`: the last line at most, and at most that
/// line's length.
pub open spec fn clamp_pos(t: Seq<Line>, p: Pos) -> Pos {
    let r = if p.0 < t.len() {
        p.0
    } else {
        t.len() - 1
    };
    (r, min_int(p.1, t[r].len() as int))
}

/// The anchor that a buffer in mode `m` keeps once its text is `t`: in
/// Visual mode the old anchor moved into the text, otherwise none.
pub open spec fn anchor_for(m: VimMode, t: Seq<Line>, a: Option<Pos>) -> Option<Pos> {
    if m == VimMode::Visual {
        match a {
            Some(p) => Some(clamp_pos(t, p)),
            None => Some((0, 0)),
        }
    } else {
        None
    }
}

/// The anchor after the text of `s` becomes `t`.
pub open spec fn anchor_after(s: BufferState, t: Seq<Line>) -> Option<Pos> {
    anchor_for(s.mode, t, s.anchor)
}

/// The state after an edit that leaves text `t` and the cursor at `to`: the
/// mode stays, a selection outside Visual mode ends, and when the text
/// changed the old state goes on the undo history and the redo history is
/// dropped.
pub open spec fn after_edit(s: BufferState, t: Seq<Line>, to: Pos) -> BufferState {
    BufferState {
        text: t,
        cursor: to,
        anchor: anchor_after(s, t),
        undo: if t == s.text {
            s.undo
        } else {
            s.undo.push((s.text, s.cursor))
        },
        redo: if t == s.text {
            s.redo
        } else {
            Seq::empty()
        },
        ..s
    }
}

/// The state with its selection ended and Visual mode left, as a cut does.
pub open spec fn selection_ended(s: BufferState) -> BufferState {
    BufferState { anchor: None, mode: mode_after_edit(s.mode), ..s }
}

/// The state after a cut: the target text goes to the clipboard, the
/// selection and Visual mode end, and the target range is taken out.
pub open spec fn after_cut(s: BufferState) -> BufferState {
    BufferState {
        clipboard: target_text(s),
        ..after_edit(selection_ended(s), cut_text(s), target_range(s).0)
    }
}

/// The range that copy and cut work on, start then end: the selection when
/// there is one, else the whole current line.
pub open spec fn target_range(s: BufferState) -> (Pos, Pos) {
    match s.anchor {
        Some(a) => if pos_le(a, s.cursor) {
            (a, s.cursor)
        } else {
            (s.cursor, a)
        },
        None => ((s.cursor.0, 0), (s.cursor.0, s.text[s.cursor.0].len() as int)),
    }
}

pub open spec fn target_text(s: BufferState) -> Seq<Line> {
    let (a, b) = target_range(s);
    extract(s.text, a.0, a.1, b.0, b.1)
}

/// The state after undo: the most recent state of the undo history comes
/// back and the current one goes on the redo history; the mode stays.
/// Nothing changes when the undo history is empty.
pub open spec fn after_undo(s: BufferState) -> BufferState {
    if s.undo.len() == 0 {
        s
    } else {
        BufferState {
            text: s.undo.last().0,
            cursor: s.undo.last().1,
            anchor: anchor_after(s, s.undo.last().0),
            undo: s.undo.drop_last(),
            redo: s.redo.push((s.text, s.cursor)),
            ..s
        }
    }
}

/// The state after redo, the mirror of undo.
pub open spec fn after_redo(s: BufferState) -> BufferState {
    if s.redo.len() == 0 {
        s
    } else {
        BufferState {
            text: s.redo.last().0,
            cursor: s.redo.last().1,
            anchor: anchor_after(s, s.redo.last().0),
            undo: s.undo.push((s.text, s.cursor)),
            redo: s.redo.drop_last(),
            ..s
        }
    }
}

/// The text and cursor after taking out columns `a` to `b` of the cursor's
/// line, the cursor going to column `a`; nothing changes when the range is
/// empty.
pub open spec fn line_removal(s: BufferState, a: int, b: int) -> (Seq<Line>, Pos) {
    if a < b {
        (remove_range(s.text, s.cursor.0, a, s.cursor.0, b), (s.cursor.0, a))
    } else {
        (s.text, s.cursor)
    }
}

/// Two empty pieces: what a line break puts in.
pub open spec fn line_break() -> Seq<Line> {
    seq![Seq::<char>::empty(), Seq::<char>::empty()]
}

/// The text and cursor after typing `ch`: it goes in at the cursor and the
/// cursor moves past it. A `'\n'` breaks the line, and does nothing in a
/// single-line buffer.
pub open spec fn typed(s: BufferState, ch: char) -> (Seq<Line>, Pos) {
    let (r, c) = s.cursor;
    if ch == '\n' {
        if s.multi_line {
            (insert_pieces(s.text, r, c, line_break()), paste_end(r, c, line_break()))
        } else {
            (s.text, s.cursor)
        }
    } else {
        (insert_pieces(s.text, r, c, seq![seq![ch]]), paste_end(r, c, seq![seq![ch]]))
    }
}

/// The text and cursor after pasting: the clipboard goes in at the cursor
/// and the cursor moves past it.
pub open spec fn pasted(s: BufferState) -> (Seq<Line>, Pos) {
    let (r, c) = s.cursor;
    if s.clipboard.len() == 0 {
        (s.text, s.cursor)
    } else {
        (insert_pieces(s.text, r, c, s.clipboard), paste_end(r, c, s.clipboard))
    }
}

/// The text after cutting: the target range taken out.
pub open spec fn cut_text(s: BufferState) -> Seq<Line> {
    let (a, b) = target_range(s);
    if a != b {
        remove_range(s.text, a.0, a.1, b.0, b.1)
    } else {
        s.text
    }
}

/// The lines a buffer holds after loading `s`: all of them, or only the
/// first in a single-line buffer.
pub open spec fn loaded(multi_line: bool, s: Seq<char>) -> Seq<Line> {
    if multi_line {
        text_lines_of(s)
    } else {
        seq![text_lines_of(s)[0]]
    }
}

/// The position past the last character of a text.
pub open spec fn end_of(t: Seq<Line>) -> Pos {
    (t.len() - 1, t.last().len() as int)
}

/// A word-forward motion followed by a word-backward motion never leaves the
/// cursor after the place it started from.
pub proof fn lemma_word_round_trip(t: Seq<Line>, p: Pos)
    requires
        pos_ok(t, p),
    ensures
        pos_le(word_backward_of(t, word_forward_of(t, p)), p),
{
    let (r, c) = p;
    let l = t[r];
    lemma_word_round_trip_in(l, c);
    let j = word_forward_in(l, c);
    if c < l.len() {
        lemma_run_end(l, c, crate::text::class_of(l[c]));
        lemma_run_end(l, crate::text::run_end(l, c, crate::text::class_of(l[c])), 0);
    }
    if !(j < l.len() || r + 1 >= t.len()) {
        let n = t[r + 1];
        let s = run_end(n, 0, 0);
        lemma_run_end(n, 0, 0);
        lemma_run_start_within(n, s, 0, 0);
        assert(j == l.len());
    }
}

/// In a well-formed buffer the cursor names a line of the text and a column
/// from 0 up to that line's length. Every motion and edit keeps the buffer
/// well formed, so this holds after each of them.
pub proof fn lemma_cursor_in_bounds(s: BufferState)
    requires
        state_ok(s),
    ensures
        0 <= s.cursor.0 < s.text.len(),
        0 <= s.cursor.1 <= s.text[s.cursor.0].len(),
{
}

/// Undo right after an edit that changed the text brings back the text and
/// cursor from before it; redo then brings back the edited text and cursor.
/// Every edit that changes the text leaves the history as this asks.
pub proof fn lemma_undo_redo(before: BufferState, edited: BufferState)
    requires
        edited.undo == before.undo.push((before.text, before.cursor)),
    ensures
        after_undo(edited).text == before.text,
        after_undo(edited).cursor == before.cursor,
        after_redo(after_undo(edited)).text == edited.text,
        after_redo(after_undo(edited)).cursor == edited.cursor,
{
}

/// An edit that changes the text puts the state before it on the undo
/// history.
pub proof fn lemma_edit_records(s: BufferState, t: Seq<Line>, to: Pos)
    requires
        t != s.text,
    ensures
        after_edit(s, t, to).undo == s.undo.push((s.text, s.cursor)),
{
}

/// Cutting, then pasting at the cursor where the cut left it, gives back
/// the text as it was.
pub proof fn lemma_cut_then_paste(s: BufferState)
    requires
        state_ok(s),
    ensures
        pasted(after_cut(s)).0 == s.text,
{
    let (a, b) = target_range(s);
    let t = s.text;
    if a != b {
        lemma_cut_paste(t, a.0, a.1, b.0, b.1);
    } else {
        let l = t[a.0];
        assert(l.subrange(0, a.1) + l.subrange(a.1, a.1) + l.subrange(a.1, l.len() as int) =~= l);
        assert(insert_pieces(t, a.0, a.1, extract(t, a.0, a.1, b.0, b.1)) =~= t);
    }
}

/// Insert mode with no selection; without vim emulation, no change.
pub open spec fn with_insert_mode(s: BufferState) -> BufferState {
    if s.vim_mode {
        BufferState { mode: VimMode::Insert, anchor: None, ..s }
    } else {
        s
    }
}

/// Normal mode with no selection; without vim emulation, no change.
pub open spec fn with_normal_mode(s: BufferState) -> BufferState {
    if s.vim_mode {
        BufferState { mode: VimMode::Normal, anchor: None, ..s }
    } else {
        s
    }
}

/// Visual mode with a selection anchored at the cursor; without vim
/// emulation, no change.
pub open spec fn with_visual_mode(s: BufferState) -> BufferState {
    if s.vim_mode {
        BufferState { mode: VimMode::Visual, anchor: Some(s.cursor), ..s }
    } else {
        s
    }
}

/// The state after vim emulation is turned on or off: off pins the mode to
/// `Any` and ends the selection; on leaves `Any` for Normal mode.
pub open spec fn with_vim(s: BufferState, vim_mode: bool) -> BufferState {
    if vim_mode {
        BufferState {
            vim_mode: true,
            mode: if s.mode == VimMode::Any {
                VimMode::Normal
            } else {
                s.mode
            },
            ..s
        }
    } else {
        BufferState { vim_mode: false, mode: VimMode::Any, anchor: None, ..s }
    }
}

/// The state after the content is replaced by `src`.
pub open spec fn reloaded(s: BufferState, src: Seq<char>) -> BufferState {
    BufferState {
        text: loaded(s.multi_line, src),
        cursor: end_of(loaded(s.multi_line, src)),
        anchor: anchor_after(s, loaded(s.multi_line, src)),
        undo: Seq::empty(),
        redo: Seq::empty(),
        ..s
    }
}

/// A saved text and cursor.
pub struct Snapshot {
    lines: Vec<Vec<char>>,
    row: usize,
    col: usize,
}

pub open spec fn opt_pos(a: Option<(usize, usize)>) -> Option<Pos> {
    match a {
        Some(p) => Some((p.0 as int, p.1 as int)),
        None => None,
    }
}

pub closed spec fn snap_view(s: Snapshot) -> Snap {
    (lines_view(s.lines@), (s.row as int, s.col as int))
}

/// A line-structured text with a cursor, an optional selection anchor, a
/// mode, undo and redo histories and a clipboard. A single-line buffer (a
/// URL field) never holds more than one line.
pub struct ModalBuffer {
    lines: Vec<Vec<char>>,
    row: usize,
    col: usize,
    anchor: Option<(usize, usize)>,
    mode: VimMode,
    vim_mode: bool,
    multi_line: bool,
    undo_stack: Vec<Snapshot>,
    redo_stack: Vec<Snapshot>,
    clipboard: Vec<Vec<char>>,
}

impl View for ModalBuffer {
    type V = BufferState;

    closed spec fn view(&self) -> BufferState {
        BufferState {
            text: lines_view(self.lines@),
            cursor: (self.row as int, self.col as int),
            anchor: match self.anchor {
                Some(a) => Some((a.0 as int, a.1 as int)),
                None => None,
            },
            mode: self.mode,
            vim_mode: self.vim_mode,
            multi_line: self.multi_line,
            undo: self.undo_stack@.map_values(|s: Snapshot| snap_view(s)),
            redo: self.redo_stack@.map_values(|s: Snapshot| snap_view(s)),
            clipboard: lines_view(self.clipboard@),
        }
    }
}

impl ModalBuffer {
    pub open spec fn wf(&self) -> bool {
        state_ok(self@)
    }

    /// An empty buffer; with vim emulation it starts in Normal mode, without
    /// it the mode is `Any`.
    pub fn new(vim_mode: bool, multi_line: bool) -> (r: ModalBuffer)
        ensures
            r.wf(),
            r@.text == seq![Seq::<char>::empty()],
            r@.cursor == (0int, 0int),
            r@.anchor is None,
            r@.mode == crate::mode::initial_mode(vim_mode),
            r@.vim_mode == vim_mode,
            r@.multi_line == multi_line,
            r@.undo.len() == 0,
            r@.redo.len() == 0,
            r@.clipboard.len() == 0,
    {
        let mut lines: Vec<Vec<char>> = Vec::new();
        lines.push(Vec::new());
        let r = ModalBuffer {
            lines,
            row: 0,
            col: 0,
            anchor: None,
            mode: crate::mode::starting_mode(vim_mode),
            vim_mode,
            multi_line,
            undo_stack: Vec::new(),
            redo_stack: Vec::new(),
            clipboard: Vec::new(),
        };
        assert(r@.text =~= seq![Seq::<char>::empty()]);
        r
    }

    pub fn mode(&self) -> (r: VimMode)
        ensures
            r == self@.mode,
    {
        self.mode
    }

    pub fn vim_mode(&self) -> (r: bool)
        ensures
            r == self@.vim_mode,
    {
        self.vim_mode
    }

    /// The cursor as (line, column).
    pub fn cursor(&self) -> (r: (usize, usize))
        ensures
            (r.0 as int, r.1 as int) == self@.cursor,
    {
        (self.row, self.col)
    }

    /// The selection anchor, if a selection is in progress.
    pub fn selection_anchor(&self) -> (r: Option<(usize, usize)>)
        ensures
            r matches Some(a) ==> self@.anchor == Some((a.0 as int, a.1 as int)),
            r is None ==> self@.anchor is None,
    {
        self.anchor
    }

    /// A copy of the text, line by line.
    pub fn text_lines(&self) -> (r: Vec<Vec<char>>)
        ensures
            lines_view(r@) == self@.text,
    {
        copy_lines(&self.lines)
    }

    /// A copy of the clipboard, one piece per line.
    pub fn clipboard_text(&self) -> (r: Vec<Vec<char>>)
        ensures
            lines_view(r@) == self@.clipboard,
    {
        copy_lines(&self.clipboard)
    }

    proof fn lemma_views(&self)
        ensures
            self@.undo.len() == self.undo_stack@.len(),
            self@.redo.len() == self.redo_stack@.len(),
            forall|i: int| 0 <= i < self.undo_stack@.len() ==> self@.undo[i] == snap_view(#[trigger] self.undo_stack@[i]),
            forall|i: int| 0 <= i < self.redo_stack@.len() ==> self@.redo[i] == snap_view(#[trigger] self.redo_stack@[i]),
    {
    }

    fn line_len(&self, r: usize) -> (n: usize)
        requires
            r < self@.text.len(),
        ensures
            n == self@.text[r as int].len(),
    {
        self.lines[r].len()
    }

    fn line_count(&self) -> (n: usize)
        ensures
            n == self@.text.len(),
    {
        self.lines.len()
    }

    /// Moves the cursor to `to`, with the anchor rule of motions.
    fn go_to(&mut self, to: (usize, usize), selecting: bool)
        requires
            old(self).wf(),
            pos_ok(old(self)@.text, (to.0 as int, to.1 as int)),
        ensures
            final(self).wf(),
            final(self)@ == after_motion(old(self)@, (to.0 as int, to.1 as int), selecting),
    {
        if selecting {
            if self.anchor.is_none() {
                self.anchor = Some((self.row, self.col));
            }
        } else if self.mode != VimMode::Visual {
            self.anchor = None;
        }
        self.row = to.0;
        self.col = to.1;
        proof {
            let s = old(self)@;
            assert(self@.undo =~= s.undo);
            assert(self@.redo =~= s.redo);
            assert(self@ == after_motion(s, (to.0 as int, to.1 as int), selecting));
        }
    }

    fn left_pos(&self) -> (p: (usize, usize))
        requires
            self.wf(),
        ensures
            (p.0 as int, p.1 as int) == left_of(self@.text, self@.cursor),
            pos_ok(self@.text, (p.0 as int, p.1 as int)),
    {
        if self.col > 0 {
            (self.row, self.col - 1)
        } else if self.row > 0 {
            (self.row - 1, self.line_len(self.row - 1))
        } else {
            (self.row, self.col)
        }
    }

    fn right_pos(&self) -> (p: (usize, usize))
        requires
            self.wf(),
        ensures
            (p.0 as int, p.1 as int) == right_of(self@.text, self@.cursor),
            pos_ok(self@.text, (p.0 as int, p.1 as int)),
    {
        if self.col < self.line_len(self.row) {
            (self.row, self.col + 1)
        } else if self.row < self.line_count() - 1 {
            (self.row + 1, 0)
        } else {
            (self.row, self.col)
        }
    }

    fn up_pos(&self) -> (p: (usize, usize))
        requires
            self.wf(),
        ensures
            (p.0 as int, p.1 as int) == up_of(self@.text, self@.cursor),
            pos_ok(self@.text, (p.0 as int, p.1 as int)),
    {
        if self.row > 0 {
            let n = self.line_len(self.row - 1);
            (self.row - 1, if self.col <= n { self.col } else { n })
        } else {
            (self.row, self.col)
        }
    }

    fn down_pos(&self) -> (p: (usize, usize))
        requires
            self.wf(),
        ensures
            (p.0 as int, p.1 as int) == down_of(self@.text, self@.cursor),
            pos_ok(self@.text, (p.0 as int, p.1 as int)),
    {
        if self.row < self.line_count() - 1 {
            let n = self.line_len(self.row + 1);
            (self.row + 1, if self.col <= n { self.col } else { n })
        } else {
            (self.row, self.col)
        }
    }

    fn word_forward_pos(&self) -> (p: (usize, usize))
        requires
            self.wf(),
        ensures
            (p.0 as int, p.1 as int) == word_forward_of(self@.text, self@.cursor),
            pos_ok(self@.text, (p.0 as int, p.1 as int)),
    {
        let j = word_forward(&self.lines[self.row], self.col);
        if j < self.line_len(self.row) || self.row >= self.line_count() - 1 {
            (self.row, j)
        } else {
            (self.row + 1, skip_run(&self.lines[self.row + 1], 0, 0))
        }
    }

    fn word_backward_pos(&self) -> (p: (usize, usize))
        requires
            self.wf(),
        ensures
            (p.0 as int, p.1 as int) == word_backward_of(self@.text, self@.cursor),
            pos_ok(self@.text, (p.0 as int, p.1 as int)),
    {
        if skip_run_back(&self.lines[self.row], self.col, 0) == 0 && self.row > 0 {
            let prev = &self.lines[self.row - 1];
            (self.row - 1, word_backward(prev, prev.len()))
        } else {
            (self.row, word_backward(&self.lines[self.row], self.col))
        }
    }

    fn word_end_pos(&self) -> (p: (usize, usize))
        requires
            self.wf(),
        ensures
            (p.0 as int, p.1 as int) == word_end_of(self@.text, self@.cursor),
            pos_ok(self@.text, (p.0 as int, p.1 as int)),
    {
        (self.row, word_end(&self.lines[self.row], self.col))
    }

    fn paragraph_forward_pos(&self) -> (p: (usize, usize))
        requires
            self.wf(),
        ensures
            (p.0 as int, p.1 as int) == paragraph_forward_of(self@.text, self@.cursor),
            pos_ok(self@.text, (p.0 as int, p.1 as int)),
    {
        let n = self.line_count();
        let mut b = self.row + 1;
        while b < n && self.line_len(b) != 0
            invariant
                self.wf(),
                n == self@.text.len(),
                self.row + 1 <= b <= n,
                next_blank(self@.text, b as int) == next_blank(self@.text, self.row + 1),
            decreases n - b,
        {
            b = b + 1;
        }
        if b < n {
            (b, 0)
        } else {
            (n - 1, self.line_len(n - 1))
        }
    }

    fn paragraph_backward_pos(&self) -> (p: (usize, usize))
        requires
            self.wf(),
        ensures
            (p.0 as int, p.1 as int) == paragraph_backward_of(self@.text, self@.cursor),
            pos_ok(self@.text, (p.0 as int, p.1 as int)),
    {
        let mut b = self.row;
        while b > 0 && self.line_len(b - 1) != 0
            invariant
                self.wf(),
                b <= self.row,
                prev_blank(self@.text, b - 1) == prev_blank(self@.text, self.row - 1),
            decreases b,
        {
            b = b - 1;
        }
        if b > 0 {
            (b - 1, 0)
        } else {
            (0, 0)
        }
    }

    /// One character left; from the start of a line to the end of the line before.
    pub fn move_cursor_left(&mut self)
        requires
            old(self).wf(),
        ensures
            final(self).wf(),
            final(self)@ == after_motion(old(self)@, left_of(old(self)@.text, old(self)@.cursor), false),
    {
        let p = self.left_pos();
        self.go_to(p, false);
    }

    /// As `move_cursor_left`, extending the selection.
    pub fn move_cursor_left_selecting(&mut self)
        requires
            old(self).wf(),
        ensures
            final(self).wf(),
            final(self)@ == after_motion(old(self)@, left_of(old(self)@.text, old(self)@.cursor), true),
    {
        let p = self.left_pos();
        self.go_to(p, true);
    }

    /// One character right; from the end of a line to the start of the next.
    pub fn move_cursor_right(&mut self)
        requires
            old(self).wf(),
        ensures
            final(self).wf(),
            final(self)@ == after_motion(old(self)@, right_of(old(self)@.text, old(self)@.cursor), false),
    {
        let p = self.right_pos();
        self.go_to(p, false);
    }

    /// As `move_cursor_right`, extending the selection.
    pub fn move_cursor_right_selecting(&mut self)
        requires
            old(self).wf(),
        ensures
            final(self).wf(),
            final(self)@ == after_motion(old(self)@, right_of(old(self)@.text, old(self)@.cursor), true),
    {
        let p = self.right_pos();
        self.go_to(p, true);
    }

    /// One line up, keeping the column where the line allows.
    pub fn move_cursor_up(&mut self)
        requires
            old(self).wf(),
        ensures
            final(self).wf(),
            final(self)@ == after_motion(old(self)@, up_of(old(self)@.text, old(self)@.cursor), false),
    {
        let p = self.up_pos();
        self.go_to(p, false);
    }

    /// As `move_cursor_up`, extending the selection.
    pub fn move_cursor_up_selecting(&mut self)
        requires
            old(self).wf(),
        ensures
            final(self).wf(),
            final(self)@ == after_motion(old(self)@, up_of(old(self)@.text, old(self)@.cursor), true),
    {
        let p = self.up_pos();
        self.go_to(p, true);
    }

    /// One line down, keeping the column where the line allows.
    pub fn move_cursor_down(&mut self)
        requires
            old(self).wf(),
        ensures
            final(self).wf(),
            final(self)@ == after_motion(old(self)@, down_of(old(self)@.text, old(self)@.cursor), false),
    {
        let p = self.down_pos();
        self.go_to(p, false);
    }

    /// As `move_cursor_down`, extending the selection.
    pub fn move_cursor_down_selecting(&mut self)
        requires
            old(self).wf(),
        ensures
            final(self).wf(),
            final(self)@ == after_motion(old(self)@, down_of(old(self)@.text, old(self)@.cursor), true),
    {
        let p = self.down_pos();
        self.go_to(p, true);
    }

    /// To the start of the previous word.
    pub fn move_cursor_left_by_word(&mut self)
        requires
            old(self).wf(),
        ensures
            final(self).wf(),
            final(self)@ == after_motion(old(self)@, word_backward_of(old(self)@.text, old(self)@.cursor), false),
    {
        let p = self.word_backward_pos();
        self.go_to(p, false);
    }

    /// As `move_cursor_left_by_word`, extending the selection.
    pub fn move_cursor_left_by_word_selecting(&mut self)
        requires
            old(self).wf(),
        ensures
            final(self).wf(),
            final(self)@ == after_motion(old(self)@, word_backward_of(old(self)@.text, old(self)@.cursor), true),
    {
        let p = self.word_backward_pos();
        self.go_to(p, true);
    }

    /// To the start of the next word.
    pub fn move_cursor_right_by_word(&mut self)
        requires
            old(self).wf(),
        ensures
            final(self).wf(),
            final(self)@ == after_motion(old(self)@, word_forward_of(old(self)@.text, old(self)@.cursor), false),
    {
        let p = self.word_forward_pos();
        self.go_to(p, false);
    }

    /// As `move_cursor_right_by_word`, extending the selection.
    pub fn move_cursor_right_by_word_selecting(&mut self)
        requires
            old(self).wf(),
        ensures
            final(self).wf(),
            final(self)@ == after_motion(old(self)@, word_forward_of(old(self)@.text, old(self)@.cursor), true),
    {
        let p = self.word_forward_pos();
        self.go_to(p, true);
    }

    /// To the last character of the current or next word.
    pub fn move_cursor_right_by_word_end(&mut self)
        requires
            old(self).wf(),
        ensures
            final(self).wf(),
            final(self)@ == after_motion(old(self)@, word_end_of(old(self)@.text, old(self)@.cursor), false),
    {
        let p = self.word_end_pos();
        self.go_to(p, false);
    }

    /// To the previous empty line, or the start of the text. Stays put in a single-line buffer.
    pub fn move_cursor_up_paragraph(&mut self)
        requires
            old(self).wf(),
        ensures
            final(self).wf(),
            final(self)@ == after_motion(
                old(self)@,
                if old(self)@.multi_line {
                    paragraph_backward_of(old(self)@.text, old(self)@.cursor)
                } else {
                    old(self)@.cursor
                },
                false,
            ),
    {
        let p = if self.multi_line {
            self.paragraph_backward_pos()
        } else {
            (self.row, self.col)
        };
        self.go_to(p, false);
    }

    /// As `move_cursor_up_paragraph`, extending the selection.
    pub fn move_cursor_up_paragraph_selecting(&mut self)
        requires
            old(self).wf(),
        ensures
            final(self).wf(),
            final(self)@ == after_motion(
                old(self)@,
                if old(self)@.multi_line {
                    paragraph_backward_of(old(self)@.text, old(self)@.cursor)
                } else {
                    old(self)@.cursor
                },
                true,
            ),
    {
        let p = if self.multi_line {
            self.paragraph_backward_pos()
        } else {
            (self.row, self.col)
        };
        self.go_to(p, true);
    }

    /// To the next empty line, or the end of the text. Stays put in a single-line buffer.
    pub fn move_cursor_down_paragraph(&mut self)
        requires
            old(self).wf(),
        ensures
            final(self).wf(),
            final(self)@ == after_motion(
                old(self)@,
                if old(self)@.multi_line {
                    paragraph_forward_of(old(self)@.text, old(self)@.cursor)
                } else {
                    old(self)@.cursor
                },
                false,
            ),
    {
        let p = if self.multi_line {
            self.paragraph_forward_pos()
        } else {
            (self.row, self.col)
        };
        self.go_to(p, false);
    }

    /// As `move_cursor_down_paragraph`, extending the selection.
    pub fn move_cursor_down_paragraph_selecting(&mut self)
        requires
            old(self).wf(),
        ensures
            final(self).wf(),
            final(self)@ == after_motion(
                old(self)@,
                if old(self)@.multi_line {
                    paragraph_forward_of(old(self)@.text, old(self)@.cursor)
                } else {
                    old(self)@.cursor
                },
                true,
            ),
    {
        let p = if self.multi_line {
            self.paragraph_forward_pos()
        } else {
            (self.row, self.col)
        };
        self.go_to(p, true);
    }

    /// To the start of the line.
    pub fn move_cursor_bol(&mut self)
        requires
            old(self).wf(),
        ensures
            final(self).wf(),
            final(self)@ == after_motion(old(self)@, (old(self)@.cursor.0, 0), false),
    {
        let c: usize = 0;
        self.go_to((self.row, c), false);
    }

    /// As `move_cursor_bol`, extending the selection.
    pub fn move_cursor_bol_selecting(&mut self)
        requires
            old(self).wf(),
        ensures
            final(self).wf(),
            final(self)@ == after_motion(old(self)@, (old(self)@.cursor.0, 0), true),
    {
        let c: usize = 0;
        self.go_to((self.row, c), true);
    }

    /// Past the last character of the line.
    pub fn move_cursor_eol(&mut self)
        requires
            old(self).wf(),
        ensures
            final(self).wf(),
            final(self)@ == after_motion(old(self)@, (old(self)@.cursor.0, old(self)@.text[old(self)@.cursor.0].len() as int), false),
    {
        let c = self.line_len(self.row);
        self.go_to((self.row, c), false);
    }

    /// As `move_cursor_eol`, extending the selection.
    pub fn move_cursor_eol_selecting(&mut self)
        requires
            old(self).wf(),
        ensures
            final(self).wf(),
            final(self)@ == after_motion(old(self)@, (old(self)@.cursor.0, old(self)@.text[old(self)@.cursor.0].len() as int), true),
    {
        let c = self.line_len(self.row);
        self.go_to((self.row, c), true);
    }

    /// Ends the selection, and Visual mode with it.
    fn end_selection(&mut self)
        requires
            old(self).wf(),
        ensures
            final(self).wf(),
            final(self)@ == (BufferState {
                anchor: None,
                mode: mode_after_edit(old(self)@.mode),
                ..old(self)@
            }),
    {
        self.anchor = None;
        if self.mode == VimMode::Visual {
            self.mode = VimMode::Normal;
        }
        proof {
            assert(self@.undo =~= old(self)@.undo);
            assert(self@.redo =~= old(self)@.redo);
        }
    }

    /// Sets the anchor aside for an edit: in Visual mode it stands at the
    /// start of the text meanwhile, elsewhere the selection ends.
    fn park_anchor(&mut self) -> (kept: Option<(usize, usize)>)
        requires
            old(self).wf(),
        ensures
            final(self).wf(),
            opt_pos(kept) == old(self)@.anchor,
            final(self)@ == (BufferState {
                anchor: if old(self)@.mode == VimMode::Visual {
                    Some((0int, 0int))
                } else {
                    None
                },
                ..old(self)@
            }),
    {
        let kept = self.anchor;
        if self.mode == VimMode::Visual {
            self.anchor = Some((0, 0));
        } else {
            self.anchor = None;
        }
        proof {
            assert(self@.undo =~= old(self)@.undo);
            assert(self@.redo =~= old(self)@.redo);
        }
        kept
    }

    /// Brings back the anchor set aside, moved into the current text.
    fn settle_anchor(&mut self, kept: Option<(usize, usize)>)
        requires
            old(self).wf(),
        ensures
            final(self).wf(),
            final(self)@ == (BufferState {
                anchor: anchor_for(old(self)@.mode, old(self)@.text, opt_pos(kept)),
                ..old(self)@
            }),
    {
        if self.mode == VimMode::Visual {
            let (ar, ac) = match kept {
                Some(a) => a,
                None => (0, 0),
            };
            let n = self.line_count();
            let r = if ar < n {
                ar
            } else {
                n - 1
            };
            let len = self.line_len(r);
            let c = if ac <= len {
                ac
            } else {
                len
            };
            self.anchor = Some((r, c));
        } else {
            self.anchor = None;
        }
        proof {
            assert(self@.undo =~= old(self)@.undo);
            assert(self@.redo =~= old(self)@.redo);
        }
    }

    /// An edit that leaves the text and cursor as they are.
    fn touch(&mut self)
        requires
            old(self).wf(),
        ensures
            final(self).wf(),
            final(self)@ == after_edit(old(self)@, old(self)@.text, old(self)@.cursor),
    {
        let kept = self.park_anchor();
        self.settle_anchor(kept);
    }

    /// Saves the current text and cursor on the undo history and drops the
    /// redo history.
    fn record(&mut self)
        requires
            old(self).wf(),
        ensures
            final(self).wf(),
            final(self)@ == (BufferState {
                undo: old(self)@.undo.push((old(self)@.text, old(self)@.cursor)),
                redo: Seq::empty(),
                ..old(self)@
            }),
    {
        let snap = Snapshot { lines: copy_lines(&self.lines), row: self.row, col: self.col };
        let ghost sv = snap_view(snap);
        self.undo_stack.push(snap);
        self.redo_stack = Vec::new();
        proof {
            assert(sv == (old(self)@.text, old(self)@.cursor));
            assert(self@.undo =~= old(self)@.undo.push(sv));
            assert(self@.redo =~= Seq::<Snap>::empty());
        }
    }

    /// Takes out columns `a` to `b` of the cursor's line.
    fn remove_in_line(&mut self, a: usize, b: usize)
        requires
            old(self).wf(),
            a <= b <= old(self)@.text[old(self)@.cursor.0].len(),
            a == old(self)@.cursor.1 || b == old(self)@.cursor.1,
        ensures
            final(self).wf(),
            final(self)@ == after_edit(
                old(self)@,
                line_removal(old(self)@, a as int, b as int).0,
                line_removal(old(self)@, a as int, b as int).1,
            ),
    {
        let kept = self.park_anchor();
        if a < b {
            let r = self.row;
            let ghost t = self@.text;
            self.record();
            remove_range_in(&mut self.lines, r, a, r, b);
            self.col = a;
            proof {
                let u = remove_range(t, r as int, a as int, r as int, b as int);
                assert(u[r as int] == t[r as int].subrange(0, a as int) + t[r as int].subrange(b as int, t[r as int].len() as int));
                assert(u[r as int].len() != t[r as int].len());
                assert(u != t);
                assert(self@.undo =~= old(self)@.undo.push((t, old(self)@.cursor)));
                assert(self@.redo =~= Seq::<Snap>::empty());
            }
        }
        self.settle_anchor(kept);
    }

    /// Puts the pieces `p` in at `(r, c)` and moves the cursor past them.
    fn insert_at(&mut self, r: usize, c: usize, p: Vec<Vec<char>>)
        requires
            old(self).wf(),
            pos_ok(old(self)@.text, (r as int, c as int)),
            p@.len() >= 1,
            !old(self)@.multi_line ==> p@.len() == 1,
        ensures
            final(self).wf(),
            final(self)@ == after_edit(
                old(self)@,
                insert_pieces(old(self)@.text, r as int, c as int, lines_view(p@)),
                paste_end(r as int, c as int, lines_view(p@)),
            ),
    {
        let kept = self.park_anchor();
        let ghost t = self@.text;
        let ghost q = lines_view(p@);
        let ghost u = insert_pieces(t, r as int, c as int, q);
        if p.len() == 1 && p[0].len() == 0 {
            self.row = r;
            self.col = c;
            proof {
                assert(t[r as int].subrange(0, c as int) + q[0] + t[r as int].subrange(c as int, t[r as int].len() as int) =~= t[r as int]);
                assert(u =~= t);
            }
            self.settle_anchor(kept);
            return;
        }
        let old_len = self.line_len(r);
        self.record();
        let n = p.len();
        insert_pieces_in(&mut self.lines, r, c, &p);
        if n == 1 {
            let nl = self.line_len(r);
            self.row = r;
            self.col = nl - (old_len - c);
            proof {
                assert(u[r as int] == t[r as int].subrange(0, c as int) + q[0] + t[r as int].subrange(c as int, t[r as int].len() as int));
                assert(u[r as int].len() != t[r as int].len());
            }
        } else {
            let cnt = self.line_count();
            assert(u.len() == t.len() + n - 1);
            assert(r + (n - 1) < cnt);
            self.row = r + (n - 1);
            self.col = p[n - 1].len();
            proof {
                assert(u.len() != t.len());
                assert(u[r + n - 1] == q.last() + t[r as int].subrange(c as int, t[r as int].len() as int));
            }
        }
        proof {
            assert(u != t);
            assert(self@.undo =~= old(self)@.undo.push((t, old(self)@.cursor)));
            assert(self@.redo =~= Seq::<Snap>::empty());
        }
        self.settle_anchor(kept);
    }

    /// Types a character at the cursor (see `typed`).
    pub fn insert_char(&mut self, ch: char)
        requires
            old(self).wf(),
        ensures
            final(self).wf(),
            final(self)@ == after_edit(old(self)@, typed(old(self)@, ch).0, typed(old(self)@, ch).1),
    {
        if ch == '\n' {
            if self.multi_line {
                let mut p: Vec<Vec<char>> = Vec::new();
                p.push(Vec::new());
                p.push(Vec::new());
                assert(lines_view(p@) =~= line_break());
                self.insert_at(self.row, self.col, p);
            } else {
                self.touch();
            }
        } else {
            let mut piece: Vec<char> = Vec::new();
            piece.push(ch);
            let mut p: Vec<Vec<char>> = Vec::new();
            p.push(piece);
            assert(lines_view(p@) =~= seq![seq![ch]]);
            self.insert_at(self.row, self.col, p);
        }
    }

    /// Deletes the character before the cursor. At the start of a line it
    /// does nothing: lines are never joined.
    pub fn backspace(&mut self)
        requires
            old(self).wf(),
        ensures
            final(self).wf(),
            ({
                let s = old(self)@;
                let a = if s.cursor.1 > 0 { s.cursor.1 - 1 } else { s.cursor.1 };
                final(self)@ == after_edit(s, line_removal(s, a, s.cursor.1).0, line_removal(s, a, s.cursor.1).1)
            }),
    {
        let a = if self.col > 0 { self.col - 1 } else { self.col };
        self.remove_in_line(a, self.col);
    }

    /// Deletes the character under the cursor; the cursor stays.
    pub fn delete_char(&mut self)
        requires
            old(self).wf(),
        ensures
            final(self).wf(),
            ({
                let s = old(self)@;
                let b = if s.cursor.1 < s.text[s.cursor.0].len() { s.cursor.1 + 1 } else { s.cursor.1 };
                final(self)@ == after_edit(s, line_removal(s, s.cursor.1, b).0, line_removal(s, s.cursor.1, b).1)
            }),
    {
        let b = if self.col < self.line_len(self.row) { self.col + 1 } else { self.col };
        self.remove_in_line(self.col, b);
    }

    /// Deletes from the start of the previous word, inside the line, up to
    /// the cursor.
    pub fn delete_word_back(&mut self)
        requires
            old(self).wf(),
        ensures
            final(self).wf(),
            ({
                let s = old(self)@;
                let a = word_backward_in(s.text[s.cursor.0], s.cursor.1);
                final(self)@ == after_edit(s, line_removal(s, a, s.cursor.1).0, line_removal(s, a, s.cursor.1).1)
            }),
    {
        let a = word_backward(&self.lines[self.row], self.col);
        self.remove_in_line(a, self.col);
    }

    /// Deletes from the cursor up to the start of the next word, inside the
    /// line.
    pub fn delete_word_forward(&mut self)
        requires
            old(self).wf(),
        ensures
            final(self).wf(),
            ({
                let s = old(self)@;
                let b = word_forward_in(s.text[s.cursor.0], s.cursor.1);
                final(self)@ == after_edit(s, line_removal(s, s.cursor.1, b).0, line_removal(s, s.cursor.1, b).1)
            }),
    {
        let b = word_forward(&self.lines[self.row], self.col);
        self.remove_in_line(self.col, b);
    }

    /// Deletes from the cursor to the end of the line.
    pub fn delete_until_eol(&mut self)
        requires
            old(self).wf(),
        ensures
            final(self).wf(),
            ({
                let s = old(self)@;
                let b = s.text[s.cursor.0].len() as int;
                final(self)@ == after_edit(s, line_removal(s, s.cursor.1, b).0, line_removal(s, s.cursor.1, b).1)
            }),
    {
        let b = self.line_len(self.row);
        self.remove_in_line(self.col, b);
    }

    /// Deletes from the start of the line to the cursor.
    pub fn delete_until_hol(&mut self)
        requires
            old(self).wf(),
        ensures
            final(self).wf(),
            final(self)@ == after_edit(
                old(self)@,
                line_removal(old(self)@, 0, old(self)@.cursor.1).0,
                line_removal(old(self)@, 0, old(self)@.cursor.1).1,
            ),
    {
        self.remove_in_line(0, self.col);
    }

    /// Opens an empty line below the cursor's line and moves into it. Does
    /// nothing in a single-line buffer.
    pub fn newline(&mut self)
        requires
            old(self).wf(),
        ensures
            final(self).wf(),
            ({
                let s = old(self)@;
                let (r, c) = s.cursor;
                let n = s.text[r].len() as int;
                final(self)@ == if s.multi_line {
                    after_edit(s, insert_pieces(s.text, r, n, line_break()), (r + 1, 0))
                } else {
                    after_edit(s, s.text, s.cursor)
                }
            }),
    {
        if self.multi_line {
            let n = self.line_len(self.row);
            let mut p: Vec<Vec<char>> = Vec::new();
            p.push(Vec::new());
            p.push(Vec::new());
            assert(lines_view(p@) =~= line_break());
            self.insert_at(self.row, n, p);
        } else {
            self.touch();
        }
    }

    /// Opens an empty line above the cursor's line and moves into it. Does
    /// nothing in a single-line buffer.
    pub fn newline_up(&mut self)
        requires
            old(self).wf(),
        ensures
            final(self).wf(),
            ({
                let s = old(self)@;
                let r = s.cursor.0;
                final(self)@ == if s.multi_line {
                    after_edit(s, insert_pieces(s.text, r, 0, line_break()), (r, 0))
                } else {
                    after_edit(s, s.text, s.cursor)
                }
            }),
    {
        if self.multi_line {
            let r = self.row;
            let mut p: Vec<Vec<char>> = Vec::new();
            p.push(Vec::new());
            p.push(Vec::new());
            assert(lines_view(p@) =~= line_break());
            self.insert_at(r, 0, p);
            let ghost mid = self@;
            self.row = r;
            self.col = 0;
            proof {
                assert(self@.undo =~= mid.undo);
                assert(self@.redo =~= mid.redo);
                assert(self@ == (BufferState { cursor: (r as int, 0int), ..mid }));
            }
        } else {
            self.touch();
        }
    }

    fn target(&self) -> (r: ((usize, usize), (usize, usize)))
        requires
            self.wf(),
        ensures
            ((r.0.0 as int, r.0.1 as int), (r.1.0 as int, r.1.1 as int)) == target_range(self@),
            range_ok(self@.text, r.0.0 as int, r.0.1 as int, r.1.0 as int, r.1.1 as int),
    {
        match self.anchor {
            Some(a) => {
                if a.0 < self.row || (a.0 == self.row && a.1 <= self.col) {
                    (a, (self.row, self.col))
                } else {
                    ((self.row, self.col), a)
                }
            },
            None => ((self.row, 0), (self.row, self.line_len(self.row))),
        }
    }

    /// Copies the selection, or the current line when there is none. The
    /// mode and the selection stay.
    pub fn copy(&mut self)
        requires
            old(self).wf(),
        ensures
            final(self).wf(),
            final(self)@ == (BufferState { clipboard: target_text(old(self)@), ..old(self)@ }),
    {
        let (a, b) = self.target();
        let piece = extract_range(&self.lines, a.0, a.1, b.0, b.1);
        self.clipboard = piece;
        proof {
            assert(self@.undo =~= old(self)@.undo);
            assert(self@.redo =~= old(self)@.redo);
        }
    }

    /// Cuts the selection, or the current line's text when there is none:
    /// the text goes to the clipboard, the cursor to where it began, and the
    /// selection and Visual mode end.
    pub fn cut(&mut self)
        requires
            old(self).wf(),
        ensures
            final(self).wf(),
            final(self)@ == after_cut(old(self)@),
    {
        let (a, b) = self.target();
        let piece = extract_range(&self.lines, a.0, a.1, b.0, b.1);
        self.end_selection();
        let ghost t = self@.text;
        let nonempty = a.0 != b.0 || a.1 != b.1;
        if nonempty {
            self.record();
            remove_range_in(&mut self.lines, a.0, a.1, b.0, b.1);
            proof {
                let u = remove_range(t, a.0 as int, a.1 as int, b.0 as int, b.1 as int);
                if a.0 == b.0 {
                    assert(u[a.0 as int] == t[a.0 as int].subrange(0, a.1 as int) + t[a.0 as int].subrange(b.1 as int, t[a.0 as int].len() as int));
                    assert(u[a.0 as int].len() != t[a.0 as int].len());
                } else {
                    assert(u.len() != t.len());
                }
                assert(u != t);
            }
        }
        self.row = a.0;
        self.col = a.1;
        self.clipboard = piece;
        proof {
            if nonempty {
                assert(self@.undo =~= old(self)@.undo.push((t, old(self)@.cursor)));
                assert(self@.redo =~= Seq::<Snap>::empty());
            } else {
                assert(self@.undo =~= old(self)@.undo);
                assert(self@.redo =~= old(self)@.redo);
            }
        }
    }

    /// Pastes the clipboard at the cursor (see `pasted`).
    pub fn paste(&mut self)
        requires
            old(self).wf(),
        ensures
            final(self).wf(),
            final(self)@ == after_edit(old(self)@, pasted(old(self)@).0, pasted(old(self)@).1),
    {
        if self.clipboard.len() == 0 {
            self.touch();
        } else {
            let p = copy_lines(&self.clipboard);
            self.insert_at(self.row, self.col, p);
        }
    }

    /// Goes back to the most recent state of the undo history, if any.
    pub fn undo(&mut self)
        requires
            old(self).wf(),
        ensures
            final(self).wf(),
            final(self)@ == after_undo(old(self)@),
    {
        proof {
            self.lemma_views();
        }
        if self.undo_stack.len() == 0 {
            return;
        }
        let kept = self.park_anchor();
        match self.undo_stack.pop() {
            Some(snap) => {
                let cur = Snapshot { lines: copy_lines(&self.lines), row: self.row, col: self.col };
                let ghost cv = snap_view(cur);
                let ghost sv = snap_view(snap);
                self.redo_stack.push(cur);
                self.lines = snap.lines;
                self.row = snap.row;
                self.col = snap.col;
                proof {
                    let s = old(self)@;
                    assert(sv == s.undo.last());
                    assert(cv == (s.text, s.cursor));
                    assert(self@.undo =~= s.undo.drop_last());
                    assert(self@.redo =~= s.redo.push(cv));
                }
                self.settle_anchor(kept);
            },
            None => {},
        }
    }

    /// Goes forward to the most recently undone state, if any.
    pub fn redo(&mut self)
        requires
            old(self).wf(),
        ensures
            final(self).wf(),
            final(self)@ == after_redo(old(self)@),
    {
        proof {
            self.lemma_views();
        }
        if self.redo_stack.len() == 0 {
            return;
        }
        let kept = self.park_anchor();
        match self.redo_stack.pop() {
            Some(snap) => {
                let cur = Snapshot { lines: copy_lines(&self.lines), row: self.row, col: self.col };
                let ghost cv = snap_view(cur);
                let ghost sv = snap_view(snap);
                self.undo_stack.push(cur);
                self.lines = snap.lines;
                self.row = snap.row;
                self.col = snap.col;
                proof {
                    let s = old(self)@;
                    assert(sv == s.redo.last());
                    assert(cv == (s.text, s.cursor));
                    assert(self@.redo =~= s.redo.drop_last());
                    assert(self@.undo =~= s.undo.push(cv));
                }
                self.settle_anchor(kept);
            },
            None => {},
        }
    }

    /// Enters Insert mode, ending any selection; nothing happens without vim
    /// emulation.
    pub fn enter_insert_mode(&mut self)
        requires
            old(self).wf(),
        ensures
            final(self).wf(),
            final(self)@ == with_insert_mode(old(self)@),
    {
        if self.vim_mode {
            self.anchor = None;
            self.mode = VimMode::Insert;
            proof {
                assert(self@.undo =~= old(self)@.undo);
                assert(self@.redo =~= old(self)@.redo);
            }
        }
    }

    /// Enters Normal mode, ending any selection; nothing happens without vim
    /// emulation.
    pub fn enter_normal_mode(&mut self)
        requires
            old(self).wf(),
        ensures
            final(self).wf(),
            final(self)@ == with_normal_mode(old(self)@),
    {
        if self.vim_mode {
            self.anchor = None;
            self.mode = VimMode::Normal;
            proof {
                assert(self@.undo =~= old(self)@.undo);
                assert(self@.redo =~= old(self)@.redo);
            }
        }
    }

    /// Enters Visual mode with a selection anchored at the cursor; nothing
    /// happens without vim emulation.
    pub fn enter_visual_mode(&mut self)
        requires
            old(self).wf(),
        ensures
            final(self).wf(),
            final(self)@ == with_visual_mode(old(self)@),
    {
        if self.vim_mode {
            self.anchor = Some((self.row, self.col));
            self.mode = VimMode::Visual;
            proof {
                assert(self@.undo =~= old(self)@.undo);
                assert(self@.redo =~= old(self)@.redo);
            }
        }
    }

    /// Turns vim emulation on or off. Turning it off pins the mode to `Any`
    /// and ends the selection; turning it on leaves `Any` for Normal mode.
    pub fn set_vim_mode(&mut self, vim_mode: bool)
        requires
            old(self).wf(),
        ensures
            final(self).wf(),
            final(self)@ == with_vim(old(self)@, vim_mode),
    {
        if vim_mode {
            if self.mode == VimMode::Any {
                self.mode = VimMode::Normal;
            }
        } else {
            self.mode = VimMode::Any;
            self.anchor = None;
        }
        self.vim_mode = vim_mode;
        proof {
            assert(self@.undo =~= old(self)@.undo);
            assert(self@.redo =~= old(self)@.redo);
        }
    }

    /// Replaces the whole content with the lines of `s` (see
    /// `text_lines_of`; only the first in a single-line buffer). The cursor
    /// goes to the end, both histories are dropped and the mode stays.
    pub fn replace_text(&mut self, s: &str)
        requires
            old(self).wf(),
        ensures
            final(self).wf(),
            final(self)@ == reloaded(old(self)@, s@),
    {
        let kept = self.park_anchor();
        let mut lines = body_lines(s);
        if !self.multi_line {
            let first = slice(&lines[0], 0, lines[0].len());
            assert(first@ =~= text_lines_of(s@)[0]);
            let mut one: Vec<Vec<char>> = Vec::new();
            one.push(first);
            proof {
                assert(lines_view(one@) =~= seq![text_lines_of(s@)[0]]);
            }
            lines = one;
        }
        let n = lines.len();
        let last = lines[n - 1].len();
        self.lines = lines;
        self.row = n - 1;
        self.col = last;
        self.undo_stack = Vec::new();
        self.redo_stack = Vec::new();
        proof {
            assert(self@.undo =~= Seq::<Snap>::empty());
            assert(self@.redo =~= Seq::<Snap>::empty());
        }
        self.settle_anchor(kept);
    }

    /// The whole text as one sequence of characters, lines joined by
    /// `'\n'`.
    pub fn contents(&self) -> (r: Vec<char>)
        ensures
            r@ == joined(self@.text),
    {
        join_lines(&self.lines)
    }
}

} // verus!
