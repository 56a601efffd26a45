use vstd::prelude::*;
use crate::command::{
    BlinkCommand, ParseError, command_named, lower_of, lowercase, text_is, mode_named, parse_mode,
    parse_blink_command,
};
use crate::config::KeybindingConfig;
use crate::mode::VimMode;

verus! {

/// A physical key, without modifiers.
#[derive(Debug, Clone, Copy, PartialEq, Eq, Hash, Structural)]
pub enum Key {
    Char(char),
    Enter,
    Backspace,
    Tab,
    Esc,
    Up,
    Down,
    Left,
    Right,
    Home,
    End,
    Delete,
}

/// A key together with its modifier flags, taken as one input.
#[derive(Debug, Clone, Copy, PartialEq, Eq, Hash, Structural)]
pub struct KeyChord {
    pub key: Key,
    pub ctrl: bool,
    pub alt: bool,
    pub shift: bool,
}

pub open spec fn chord(key: Key, ctrl: bool, alt: bool, shift: bool) -> KeyChord {
    KeyChord { key, ctrl, alt, shift }
}

impl KeyChord {
    pub fn new(key: Key, ctrl: bool, alt: bool, shift: bool) -> (r: KeyChord)
        ensures
            r == chord(key, ctrl, alt, shift),
    {
        KeyChord { key, ctrl, alt, shift }
    }

    /// A key pressed without modifiers.
    pub fn plain(key: Key) -> (r: KeyChord)
        ensures
            r == chord(key, false, false, false),
    {
        KeyChord { key, ctrl: false, alt: false, shift: false }
    }
}

/// One registered binding: a chord, its command, and the mode it is for.
pub type Binding = (KeyChord, BlinkCommand, VimMode);

/// The table that a list of bindings makes: a later binding of a chord in a
/// mode shadows an earlier one.
pub open spec fn table_of(s: Seq<Binding>) -> Map<(KeyChord, VimMode), BlinkCommand>
    decreases s.len(),
{
    if s.len() == 0 {
        Map::empty()
    } else {
        table_of(s.drop_last()).insert((s.last().0, s.last().2), s.last().1)
    }
}

/// What a chord resolves to in a mode: the binding for exactly that mode,
/// or else the binding for `Any`.
pub open spec fn resolved(
    t: Map<(KeyChord, VimMode), BlinkCommand>,
    c: KeyChord,
    m: VimMode,
) -> Option<BlinkCommand> {
    if t.contains_key((c, m)) {
        Some(t[(c, m)])
    } else if t.contains_key((c, VimMode::Any)) {
        Some(t[(c, VimMode::Any)])
    } else {
        None
    }
}

/// Resolution depends on nothing but the table, the chord and the mode
/// (`get_command` returns `resolved` of them); and when a chord is bound
/// both for the mode asked and for `Any`, the binding for that mode wins.
pub proof fn lemma_exact_mode_wins(
    t: Map<(KeyChord, VimMode), BlinkCommand>,
    c: KeyChord,
    m: VimMode,
)
    requires
        t.contains_key((c, m)),
        t.contains_key((c, VimMode::Any)),
    ensures
        resolved(t, c, m) == Some(t[(c, m)]),
{
}

/// Maps key chords, per mode, to commands.
pub struct KeybindingMap {
    bindings: Vec<Binding>,
}

impl View for KeybindingMap {
    type V = Map<(KeyChord, VimMode), BlinkCommand>;

    closed spec fn view(&self) -> Map<(KeyChord, VimMode), BlinkCommand> {
        table_of(self.bindings@)
    }
}

proof fn lemma_table_prefix(s: Seq<Binding>, i: int, k: (KeyChord, VimMode))
    requires
        0 <= i <= s.len(),
        forall|j: int| i <= j < s.len() ==> (s[j].0, s[j].2) != k,
    ensures
        table_of(s).contains_key(k) == table_of(s.subrange(0, i)).contains_key(k),
        table_of(s).contains_key(k) ==> table_of(s)[k] == table_of(s.subrange(0, i))[k],
    decreases s.len(),
{
    if i == s.len() {
        assert(s.subrange(0, i) =~= s);
    } else {
        lemma_table_prefix(s.drop_last(), i, k);
        assert(s.drop_last().subrange(0, i) =~= s.subrange(0, i));
    }
}

impl KeybindingMap {
    /// An empty table.
    pub fn new() -> (r: KeybindingMap)
        ensures
            r@ == Map::<(KeyChord, VimMode), BlinkCommand>::empty(),
    {
        KeybindingMap { bindings: Vec::new() }
    }

    /// Binds `input` to `command` in `mode`, replacing what that chord did in
    /// that mode before.
    pub fn add_binding(&mut self, input: KeyChord, command: BlinkCommand, mode: VimMode)
        ensures
            final(self)@ == old(self)@.insert((input, mode), command),
    {
        self.bindings.push((input, command, mode));
        assert(self.bindings@.drop_last() =~= old(self).bindings@);
    }

    /// The command bound to `input` in exactly `mode`, if any.
    fn lookup(&self, input: KeyChord, mode: VimMode) -> (r: Option<BlinkCommand>)
        ensures
            r == (if self@.contains_key((input, mode)) {
                Some(self@[(input, mode)])
            } else {
                None
            }),
    {
        let n = self.bindings.len();
        let mut i: usize = n;
        while i > 0
            invariant
                i <= n,
                n == self.bindings@.len(),
                forall|j: int| i <= j < n ==> (self.bindings@[j].0, self.bindings@[j].2) != (input, mode),
            decreases i,
        {
            let b = &self.bindings[i - 1];
            if b.0 == input && b.2 == mode {
                proof {
                    lemma_table_prefix(self.bindings@, i as int, (input, mode));
                    let s = self.bindings@.subrange(0, i as int);
                    assert(s.drop_last() =~= self.bindings@.subrange(0, i - 1));
                }
                return Some(b.1);
            }
            i = i - 1;
        }
        proof {
            lemma_table_prefix(self.bindings@, 0, (input, mode));
        }
        None
    }

    /// Resolves a chord in the current mode: the binding for that mode wins
    /// over one for `Any`; `None` when neither exists.
    pub fn get_command(&self, input: KeyChord, current_mode: VimMode) -> (r: Option<BlinkCommand>)
        ensures
            r == resolved(self@, input, current_mode),
    {
        match self.lookup(input, current_mode) {
            Some(c) => Some(c),
            None => self.lookup(input, VimMode::Any),
        }
    }

    /// Adds configured overrides, each shadowing what its chord did in its
    /// mode. Every entry is read before any is applied: on the first entry
    /// that does not parse, the table is left as it was and the error names
    /// the offending text.
    pub fn add_bindings_from_config(&mut self, config_bindings: &Vec<KeybindingConfig>) -> (r: Result<(), ParseError>)
        ensures
            r is Ok <==> forall|i: int| 0 <= i < config_bindings@.len() ==> binding_ok(#[trigger] config_bindings@[i]),
            r is Ok ==> final(self)@ == with_overrides(old(self)@, config_bindings@),
            r is Err ==> final(self)@ == old(self)@ && exists|i: int|
                0 <= i < config_bindings@.len() && reports(#[trigger] config_bindings@[i], r->Err_0)
                && !binding_ok(config_bindings@[i])
                && forall|j: int| 0 <= j < i ==> binding_ok(#[trigger] config_bindings@[j]),
    {
        let n = config_bindings.len();
        let mut parsed: Vec<Binding> = Vec::new();
        let mut i: usize = 0;
        while i < n
            invariant
                n == config_bindings@.len(),
                i <= n,
                parsed@.len() == i,
                forall|j: int| 0 <= j < i ==> binding_ok(#[trigger] config_bindings@[j]),
                forall|j: int| 0 <= j < i ==> parsed@[j] == binding_of(#[trigger] config_bindings@[j]),
            decreases n - i,
        {
            match parse_binding(&config_bindings[i]) {
                Ok(b) => {
                    parsed.push(b);
                },
                Err(e) => {
                    return Err(e);
                },
            }
            i = i + 1;
        }
        let mut k: usize = 0;
        while k < n
            invariant
                n == config_bindings@.len(),
                k <= n,
                parsed@.len() == n,
                forall|j: int| 0 <= j < n ==> parsed@[j] == binding_of(#[trigger] config_bindings@[j]),
                self@ == with_overrides(old(self)@, config_bindings@.subrange(0, k as int)),
            decreases n - k,
        {
            let b = parsed[k];
            self.add_binding(b.0, b.1, b.2);
            proof {
                let s = config_bindings@.subrange(0, k + 1);
                assert(s.drop_last() =~= config_bindings@.subrange(0, k as int));
                assert(s.last() == config_bindings@[k as int]);
            }
            k = k + 1;
        }
        assert(config_bindings@.subrange(0, n as int) =~= config_bindings@);
        Ok(())
    }

    /// The built-in table.
    pub fn default_keybindings() -> (r: KeybindingMap)
        ensures
            r@ == table_of(default_bindings()),
    {
        let mut v: Vec<Binding> = Vec::new();
        v.push((KeyChord::new(Key::Char('b'), true, false, false), BlinkCommand::MoveCursorLeft, VimMode::Insert));
        v.push((KeyChord::new(Key::Char('b'), false, true, false), BlinkCommand::MoveCursorLeftByWord, VimMode::Insert));
        v.push((KeyChord::new(Key::Char('B'), false, true, true), BlinkCommand::MoveCursorLeftByWordSelecting, VimMode::Insert));
        v.push((KeyChord::new(Key::Char('f'), true, false, false), BlinkCommand::MoveCursorRight, VimMode::Insert));
        v.push((KeyChord::new(Key::Char('f'), false, true, false), BlinkCommand::MoveCursorRightByWord, VimMode::Insert));
        v.push((KeyChord::new(Key::Char('F'), false, true, true), BlinkCommand::MoveCursorRightByWordSelecting, VimMode::Insert));
        v.push((KeyChord::new(Key::Char('q'), true, false, false), BlinkCommand::Quit, VimMode::Insert));
        v.push((KeyChord::new(Key::Tab, false, false, false), BlinkCommand::ToggleFocus, VimMode::Insert));
        v.push((KeyChord::new(Key::Tab, false, false, false), BlinkCommand::ToggleFocus, VimMode::Normal));
        v.push((KeyChord::new(Key::Up, false, false, false), BlinkCommand::MoveCursorUp, VimMode::Insert));
        v.push((KeyChord::new(Key::Char('p'), true, false, false), BlinkCommand::MoveCursorUp, VimMode::Insert));
        v.push((KeyChord::new(Key::Char('p'), true, false, true), BlinkCommand::MoveCursorUpSelecting, VimMode::Insert));
        v.push((KeyChord::new(Key::Char('p'), false, true, false), BlinkCommand::MoveCursorUpParagraph, VimMode::Insert));
        v.push((KeyChord::new(Key::Char('P'), false, true, true), BlinkCommand::MoveCursorUpParagraphSelecting, VimMode::Insert));
        v.push((KeyChord::new(Key::Down, false, false, false), BlinkCommand::MoveCursorDown, VimMode::Insert));
        v.push((KeyChord::new(Key::Char('n'), true, false, false), BlinkCommand::MoveCursorDown, VimMode::Insert));
        v.push((KeyChord::new(Key::Char('n'), true, false, true), BlinkCommand::MoveCursorDownSelecting, VimMode::Insert));
        v.push((KeyChord::new(Key::Char('n'), false, true, false), BlinkCommand::MoveCursorDownParagraph, VimMode::Insert));
        v.push((KeyChord::new(Key::Char('N'), false, true, true), BlinkCommand::MoveCursorDownParagraphSelecting, VimMode::Insert));
        v.push((KeyChord::new(Key::Left, false, false, false), BlinkCommand::MoveCursorLeft, VimMode::Insert));
        v.push((KeyChord::new(Key::Left, false, false, true), BlinkCommand::MoveCursorLeftSelecting, VimMode::Insert));
        v.push((KeyChord::new(Key::Left, true, false, false), BlinkCommand::MoveCursorLeftByWord, VimMode::Insert));
        v.push((KeyChord::new(Key::Left, false, true, false), BlinkCommand::MoveCursorLeftByWord, VimMode::Insert));
        v.push((KeyChord::new(Key::Left, true, false, true), BlinkCommand::MoveCursorLeftByWordSelecting, VimMode::Insert));
        v.push((KeyChord::new(Key::Left, false, true, true), BlinkCommand::MoveCursorLeftByWordSelecting, VimMode::Insert));
        v.push((KeyChord::new(Key::Right, false, false, false), BlinkCommand::MoveCursorRight, VimMode::Insert));
        v.push((KeyChord::new(Key::Right, false, false, true), BlinkCommand::MoveCursorRightSelecting, VimMode::Insert));
        v.push((KeyChord::new(Key::Right, true, false, false), BlinkCommand::MoveCursorRightByWord, VimMode::Insert));
        v.push((KeyChord::new(Key::Right, false, true, false), BlinkCommand::MoveCursorRightByWord, VimMode::Insert));
        v.push((KeyChord::new(Key::Right, true, false, true), BlinkCommand::MoveCursorRightByWordSelecting, VimMode::Insert));
        v.push((KeyChord::new(Key::Right, false, true, true), BlinkCommand::MoveCursorRightByWordSelecting, VimMode::Insert));
        v.push((KeyChord::new(Key::Up, false, false, false), BlinkCommand::MoveCursorUp, VimMode::Insert));
        v.push((KeyChord::new(Key::Up, false, false, true), BlinkCommand::MoveCursorUpSelecting, VimMode::Insert));
        v.push((KeyChord::new(Key::Up, true, false, false), BlinkCommand::MoveCursorUpParagraph, VimMode::Insert));
        v.push((KeyChord::new(Key::Up, true, false, true), BlinkCommand::MoveCursorUpParagraphSelecting, VimMode::Insert));
        v.push((KeyChord::new(Key::Down, false, false, false), BlinkCommand::MoveCursorDown, VimMode::Insert));
        v.push((KeyChord::new(Key::Down, false, false, true), BlinkCommand::MoveCursorDownSelecting, VimMode::Insert));
        v.push((KeyChord::new(Key::Down, true, false, false), BlinkCommand::MoveCursorDownParagraph, VimMode::Insert));
        v.push((KeyChord::new(Key::Down, true, false, true), BlinkCommand::MoveCursorDownParagraphSelecting, VimMode::Insert));
        v.push((KeyChord::new(Key::Backspace, false, false, false), BlinkCommand::DeleteBackward, VimMode::Insert));
        v.push((KeyChord::new(Key::Backspace, false, true, false), BlinkCommand::DeleteWordBack, VimMode::Insert));
        v.push((KeyChord::new(Key::Delete, false, false, false), BlinkCommand::DeleteForward, VimMode::Insert));
        v.push((KeyChord::new(Key::Delete, false, true, false), BlinkCommand::DeleteWordForward, VimMode::Insert));
        v.push((KeyChord::new(Key::Char('k'), true, false, false), BlinkCommand::DeleteUntilEOL, VimMode::Insert));
        v.push((KeyChord::new(Key::Char('j'), true, false, false), BlinkCommand::DeleteUntilHOL, VimMode::Insert));
        v.push((KeyChord::new(Key::Char('u'), true, false, false), BlinkCommand::Undo, VimMode::Insert));
        v.push((KeyChord::new(Key::Char('r'), true, false, false), BlinkCommand::Redo, VimMode::Insert));
        v.push((KeyChord::new(Key::Char('c'), true, false, false), BlinkCommand::Copy, VimMode::Insert));
        v.push((KeyChord::new(Key::Char('v'), true, false, false), BlinkCommand::Paste, VimMode::Insert));
        v.push((KeyChord::new(Key::Char('x'), true, false, false), BlinkCommand::Cut, VimMode::Insert));
        v.push((KeyChord::new(Key::Char('a'), true, false, false), BlinkCommand::MoveCursorBOL, VimMode::Insert));
        v.push((KeyChord::new(Key::Char('A'), true, false, true), BlinkCommand::MoveCursorBOLSelecting, VimMode::Insert));
        v.push((KeyChord::new(Key::Home, false, false, false), BlinkCommand::MoveCursorBOL, VimMode::Insert));
        v.push((KeyChord::new(Key::Home, false, false, true), BlinkCommand::MoveCursorBOLSelecting, VimMode::Insert));
        v.push((KeyChord::new(Key::Char('e'), true, false, false), BlinkCommand::MoveCursorEOL, VimMode::Insert));
        v.push((KeyChord::new(Key::Char('E'), true, false, true), BlinkCommand::MoveCursorEOLSelecting, VimMode::Insert));
        v.push((KeyChord::new(Key::End, false, false, false), BlinkCommand::MoveCursorEOL, VimMode::Insert));
        v.push((KeyChord::new(Key::End, false, false, true), BlinkCommand::MoveCursorEOLSelecting, VimMode::Insert));
        v.push((KeyChord::new(Key::Enter, false, false, false), BlinkCommand::Enter, VimMode::Insert));
        v.push((KeyChord::new(Key::Esc, false, false, false), BlinkCommand::EnterNormalMode, VimMode::Insert));
        v.push((KeyChord::new(Key::Char('k'), false, false, false), BlinkCommand::MoveCursorUp, VimMode::Normal));
        v.push((KeyChord::new(Key::Char('h'), false, false, false), BlinkCommand::MoveCursorLeft, VimMode::Normal));
        v.push((KeyChord::new(Key::Char('j'), false, false, false), BlinkCommand::MoveCursorDown, VimMode::Normal));
        v.push((KeyChord::new(Key::Char('l'), false, false, false), BlinkCommand::MoveCursorRight, VimMode::Normal));
        v.push((KeyChord::new(Key::Char('b'), false, false, false), BlinkCommand::MoveCursorLeftByWord, VimMode::Normal));
        v.push((KeyChord::new(Key::Char('w'), false, false, false), BlinkCommand::MoveCursorRightByWord, VimMode::Normal));
        v.push((KeyChord::new(Key::Char('e'), false, false, false), BlinkCommand::MoveCursorRightByWordEnd, VimMode::Normal));
        v.push((KeyChord::new(Key::Char('b'), false, false, true), BlinkCommand::MoveCursorLeftByWordParagraph, VimMode::Normal));
        v.push((KeyChord::new(Key::Char('w'), false, false, true), BlinkCommand::MoveCursorRightByWordParagraph, VimMode::Normal));
        v.push((KeyChord::new(Key::Char('i'), false, false, false), BlinkCommand::EnterInsertMode, VimMode::Normal));
        v.push((KeyChord::new(Key::Char('v'), false, false, false), BlinkCommand::EnterVisualMode, VimMode::Normal));
        v.push((KeyChord::new(Key::Char('x'), false, false, false), BlinkCommand::DeleteForward, VimMode::Normal));
        v.push((KeyChord::new(Key::Char('$'), false, false, false), BlinkCommand::MoveCursorEOL, VimMode::Normal));
        v.push((KeyChord::new(Key::Char('A'), false, false, true), BlinkCommand::MoveCursorEOLIntoInsertMode, VimMode::Normal));
        v.push((KeyChord::new(Key::Char('0'), false, false, false), BlinkCommand::MoveCursorBOL, VimMode::Normal));
        v.push((KeyChord::new(Key::Char('I'), false, false, true), BlinkCommand::MoveCursorBOLIntoInsertMode, VimMode::Normal));
        v.push((KeyChord::new(Key::Char('D'), false, false, true), BlinkCommand::DeleteUntilEOL, VimMode::Normal));
        v.push((KeyChord::new(Key::Char('C'), false, false, true), BlinkCommand::DeleteUntilEOLIntoInsertMode, VimMode::Normal));
        v.push((KeyChord::new(Key::Char('p'), false, false, false), BlinkCommand::Paste, VimMode::Normal));
        v.push((KeyChord::new(Key::Char('u'), false, false, false), BlinkCommand::Undo, VimMode::Normal));
        v.push((KeyChord::new(Key::Char('U'), false, false, true), BlinkCommand::Redo, VimMode::Normal));
        v.push((KeyChord::new(Key::Char('o'), false, false, false), BlinkCommand::Newline, VimMode::Normal));
        v.push((KeyChord::new(Key::Char('O'), false, false, true), BlinkCommand::NewlineUp, VimMode::Normal));
        v.push((KeyChord::new(Key::Char('q'), false, false, false), BlinkCommand::Quit, VimMode::Normal));
        v.push((KeyChord::new(Key::Enter, false, false, false), BlinkCommand::Enter, VimMode::Normal));
        v.push((KeyChord::new(Key::Enter, false, true, false), BlinkCommand::OpenInEditor, VimMode::Normal));
        v.push((KeyChord::new(Key::Char('k'), false, false, false), BlinkCommand::MoveCursorUp, VimMode::Visual));
        v.push((KeyChord::new(Key::Char('h'), false, false, false), BlinkCommand::MoveCursorLeft, VimMode::Visual));
        v.push((KeyChord::new(Key::Char('j'), false, false, false), BlinkCommand::MoveCursorDown, VimMode::Visual));
        v.push((KeyChord::new(Key::Char('l'), false, false, false), BlinkCommand::MoveCursorRight, VimMode::Visual));
        v.push((KeyChord::new(Key::Char('b'), false, false, false), BlinkCommand::MoveCursorLeftByWord, VimMode::Visual));
        v.push((KeyChord::new(Key::Char('w'), false, false, false), BlinkCommand::MoveCursorRightByWord, VimMode::Visual));
        v.push((KeyChord::new(Key::Char('e'), false, false, false), BlinkCommand::MoveCursorRightByWordEnd, VimMode::Visual));
        v.push((KeyChord::new(Key::Char('b'), false, false, true), BlinkCommand::MoveCursorLeftByWordParagraph, VimMode::Visual));
        v.push((KeyChord::new(Key::Char('w'), false, false, true), BlinkCommand::MoveCursorRightByWordParagraph, VimMode::Visual));
        v.push((KeyChord::new(Key::Char('$'), false, false, false), BlinkCommand::MoveCursorEOL, VimMode::Visual));
        v.push((KeyChord::new(Key::Char('0'), false, false, false), BlinkCommand::MoveCursorBOL, VimMode::Visual));
        v.push((KeyChord::new(Key::Char('y'), false, false, false), BlinkCommand::Copy, VimMode::Visual));
        v.push((KeyChord::new(Key::Char('d'), false, false, false), BlinkCommand::Cut, VimMode::Visual));
        v.push((KeyChord::new(Key::Char('c'), false, false, false), BlinkCommand::CutIntoInsertMode, VimMode::Visual));
        v.push((KeyChord::new(Key::Char('s'), false, false, false), BlinkCommand::CutIntoInsertMode, VimMode::Visual));
        v.push((KeyChord::new(Key::Char('p'), false, false, false), BlinkCommand::CutIntoInsertMode, VimMode::Visual));
        v.push((KeyChord::new(Key::Char('q'), false, false, false), BlinkCommand::Quit, VimMode::Visual));
        v.push((KeyChord::new(Key::Esc, false, false, false), BlinkCommand::EnterNormalMode, VimMode::Visual));
        // Without vim emulation a region's mode is `Any`: the Insert set
        // serves there too, and as a fallback in Normal and Visual mode.
        v.push((KeyChord::new(Key::Char('b'), true, false, false), BlinkCommand::MoveCursorLeft, VimMode::Any));
        v.push((KeyChord::new(Key::Char('b'), false, true, false), BlinkCommand::MoveCursorLeftByWord, VimMode::Any));
        v.push((KeyChord::new(Key::Char('B'), false, true, true), BlinkCommand::MoveCursorLeftByWordSelecting, VimMode::Any));
        v.push((KeyChord::new(Key::Char('f'), true, false, false), BlinkCommand::MoveCursorRight, VimMode::Any));
        v.push((KeyChord::new(Key::Char('f'), false, true, false), BlinkCommand::MoveCursorRightByWord, VimMode::Any));
        v.push((KeyChord::new(Key::Char('F'), false, true, true), BlinkCommand::MoveCursorRightByWordSelecting, VimMode::Any));
        v.push((KeyChord::new(Key::Char('q'), true, false, false), BlinkCommand::Quit, VimMode::Any));
        v.push((KeyChord::new(Key::Tab, false, false, false), BlinkCommand::ToggleFocus, VimMode::Any));
        v.push((KeyChord::new(Key::Up, false, false, false), BlinkCommand::MoveCursorUp, VimMode::Any));
        v.push((KeyChord::new(Key::Char('p'), true, false, false), BlinkCommand::MoveCursorUp, VimMode::Any));
        v.push((KeyChord::new(Key::Char('p'), true, false, true), BlinkCommand::MoveCursorUpSelecting, VimMode::Any));
        v.push((KeyChord::new(Key::Char('p'), false, true, false), BlinkCommand::MoveCursorUpParagraph, VimMode::Any));
        v.push((KeyChord::new(Key::Char('P'), false, true, true), BlinkCommand::MoveCursorUpParagraphSelecting, VimMode::Any));
        v.push((KeyChord::new(Key::Down, false, false, false), BlinkCommand::MoveCursorDown, VimMode::Any));
        v.push((KeyChord::new(Key::Char('n'), true, false, false), BlinkCommand::MoveCursorDown, VimMode::Any));
        v.push((KeyChord::new(Key::Char('n'), true, false, true), BlinkCommand::MoveCursorDownSelecting, VimMode::Any));
        v.push((KeyChord::new(Key::Char('n'), false, true, false), BlinkCommand::MoveCursorDownParagraph, VimMode::Any));
        v.push((KeyChord::new(Key::Char('N'), false, true, true), BlinkCommand::MoveCursorDownParagraphSelecting, VimMode::Any));
        v.push((KeyChord::new(Key::Left, false, false, false), BlinkCommand::MoveCursorLeft, VimMode::Any));
        v.push((KeyChord::new(Key::Left, false, false, true), BlinkCommand::MoveCursorLeftSelecting, VimMode::Any));
        v.push((KeyChord::new(Key::Left, true, false, false), BlinkCommand::MoveCursorLeftByWord, VimMode::Any));
        v.push((KeyChord::new(Key::Left, false, true, false), BlinkCommand::MoveCursorLeftByWord, VimMode::Any));
        v.push((KeyChord::new(Key::Left, true, false, true), BlinkCommand::MoveCursorLeftByWordSelecting, VimMode::Any));
        v.push((KeyChord::new(Key::Left, false, true, true), BlinkCommand::MoveCursorLeftByWordSelecting, VimMode::Any));
        v.push((KeyChord::new(Key::Right, false, false, false), BlinkCommand::MoveCursorRight, VimMode::Any));
        v.push((KeyChord::new(Key::Right, false, false, true), BlinkCommand::MoveCursorRightSelecting, VimMode::Any));
        v.push((KeyChord::new(Key::Right, true, false, false), BlinkCommand::MoveCursorRightByWord, VimMode::Any));
        v.push((KeyChord::new(Key::Right, false, true, false), BlinkCommand::MoveCursorRightByWord, VimMode::Any));
        v.push((KeyChord::new(Key::Right, true, false, true), BlinkCommand::MoveCursorRightByWordSelecting, VimMode::Any));
        v.push((KeyChord::new(Key::Right, false, true, true), BlinkCommand::MoveCursorRightByWordSelecting, VimMode::Any));
        v.push((KeyChord::new(Key::Up, false, false, false), BlinkCommand::MoveCursorUp, VimMode::Any));
        v.push((KeyChord::new(Key::Up, false, false, true), BlinkCommand::MoveCursorUpSelecting, VimMode::Any));
        v.push((KeyChord::new(Key::Up, true, false, false), BlinkCommand::MoveCursorUpParagraph, VimMode::Any));
        v.push((KeyChord::new(Key::Up, true, false, true), BlinkCommand::MoveCursorUpParagraphSelecting, VimMode::Any));
        v.push((KeyChord::new(Key::Down, false, false, false), BlinkCommand::MoveCursorDown, VimMode::Any));
        v.push((KeyChord::new(Key::Down, false, false, true), BlinkCommand::MoveCursorDownSelecting, VimMode::Any));
        v.push((KeyChord::new(Key::Down, true, false, false), BlinkCommand::MoveCursorDownParagraph, VimMode::Any));
        v.push((KeyChord::new(Key::Down, true, false, true), BlinkCommand::MoveCursorDownParagraphSelecting, VimMode::Any));
        v.push((KeyChord::new(Key::Backspace, false, false, false), BlinkCommand::DeleteBackward, VimMode::Any));
        v.push((KeyChord::new(Key::Backspace, false, true, false), BlinkCommand::DeleteWordBack, VimMode::Any));
        v.push((KeyChord::new(Key::Delete, false, false, false), BlinkCommand::DeleteForward, VimMode::Any));
        v.push((KeyChord::new(Key::Delete, false, true, false), BlinkCommand::DeleteWordForward, VimMode::Any));
        v.push((KeyChord::new(Key::Char('k'), true, false, false), BlinkCommand::DeleteUntilEOL, VimMode::Any));
        v.push((KeyChord::new(Key::Char('j'), true, false, false), BlinkCommand::DeleteUntilHOL, VimMode::Any));
        v.push((KeyChord::new(Key::Char('u'), true, false, false), BlinkCommand::Undo, VimMode::Any));
        v.push((KeyChord::new(Key::Char('r'), true, false, false), BlinkCommand::Redo, VimMode::Any));
        v.push((KeyChord::new(Key::Char('c'), true, false, false), BlinkCommand::Copy, VimMode::Any));
        v.push((KeyChord::new(Key::Char('v'), true, false, false), BlinkCommand::Paste, VimMode::Any));
        v.push((KeyChord::new(Key::Char('x'), true, false, false), BlinkCommand::Cut, VimMode::Any));
        v.push((KeyChord::new(Key::Char('a'), true, false, false), BlinkCommand::MoveCursorBOL, VimMode::Any));
        v.push((KeyChord::new(Key::Char('A'), true, false, true), BlinkCommand::MoveCursorBOLSelecting, VimMode::Any));
        v.push((KeyChord::new(Key::Home, false, false, false), BlinkCommand::MoveCursorBOL, VimMode::Any));
        v.push((KeyChord::new(Key::Home, false, false, true), BlinkCommand::MoveCursorBOLSelecting, VimMode::Any));
        v.push((KeyChord::new(Key::Char('e'), true, false, false), BlinkCommand::MoveCursorEOL, VimMode::Any));
        v.push((KeyChord::new(Key::Char('E'), true, false, true), BlinkCommand::MoveCursorEOLSelecting, VimMode::Any));
        v.push((KeyChord::new(Key::End, false, false, false), BlinkCommand::MoveCursorEOL, VimMode::Any));
        v.push((KeyChord::new(Key::End, false, false, true), BlinkCommand::MoveCursorEOLSelecting, VimMode::Any));
        v.push((KeyChord::new(Key::Enter, false, false, false), BlinkCommand::Enter, VimMode::Any));
        v.push((KeyChord::new(Key::Esc, false, false, false), BlinkCommand::EnterNormalMode, VimMode::Any));
        KeybindingMap { bindings: v }
    }
}

/// The named key that a lowercase key name stands for.
pub open spec fn named_key(t: Seq<char>) -> Option<Key> {
    if t == "enter"@ {
        Some(Key::Enter)
    } else if t == "backspace"@ {
        Some(Key::Backspace)
    } else if t == "tab"@ {
        Some(Key::Tab)
    } else if t == "esc"@ || t == "escape"@ {
        Some(Key::Esc)
    } else if t == "up"@ {
        Some(Key::Up)
    } else if t == "down"@ {
        Some(Key::Down)
    } else if t == "left"@ {
        Some(Key::Left)
    } else if t == "right"@ {
        Some(Key::Right)
    } else if t == "home"@ {
        Some(Key::Home)
    } else if t == "end"@ {
        Some(Key::End)
    } else if t == "delete"@ {
        Some(Key::Delete)
    } else {
        None
    }
}

/// The key that a key name from configuration stands for: a key name in any
/// case, or else a single character. A single character is taken as it is
/// written, not lowercased: a chord tells `'A'` from `'a'` (the built-in
/// table binds both), so lowercasing would make upper-case keys impossible
/// to bind. Only the names of keys, modifiers, commands and modes ignore
/// case.
pub open spec fn key_of(raw: Seq<char>) -> Option<Key> {
    match named_key(lower_of(raw)) {
        Some(k) => Some(k),
        None => if raw.len() == 1 {
            Some(Key::Char(raw[0]))
        } else {
            None
        },
    }
}

fn named_key_from_lowercase(t: &str) -> (r: Option<Key>)
    ensures
        r == named_key(t@),
{
    if text_is(t, "enter") {
        Some(Key::Enter)
    } else if text_is(t, "backspace") {
        Some(Key::Backspace)
    } else if text_is(t, "tab") {
        Some(Key::Tab)
    } else if text_is(t, "esc") || text_is(t, "escape") {
        Some(Key::Esc)
    } else if text_is(t, "up") {
        Some(Key::Up)
    } else if text_is(t, "down") {
        Some(Key::Down)
    } else if text_is(t, "left") {
        Some(Key::Left)
    } else if text_is(t, "right") {
        Some(Key::Right)
    } else if text_is(t, "home") {
        Some(Key::Home)
    } else if text_is(t, "end") {
        Some(Key::End)
    } else if text_is(t, "delete") {
        Some(Key::Delete)
    } else {
        None
    }
}

/// Which flag a lowercase modifier name sets: 0 for ctrl, 1 for alt, 2 for
/// shift.
pub open spec fn modifier_named(t: Seq<char>) -> Option<u8> {
    if t == "control"@ || t == "ctrl"@ {
        Some(0)
    } else if t == "alt"@ {
        Some(1)
    } else if t == "shift"@ {
        Some(2)
    } else {
        None
    }
}

fn modifier_from_lowercase(t: &str) -> (r: Option<u8>)
    ensures
        r == modifier_named(t@),
{
    if text_is(t, "control") || text_is(t, "ctrl") {
        Some(0)
    } else if text_is(t, "alt") {
        Some(1)
    } else if text_is(t, "shift") {
        Some(2)
    } else {
        None
    }
}

/// The flag that a modifier name from configuration sets, in any case.
pub open spec fn modifier_of(m: String) -> Option<u8> {
    modifier_named(lower_of(m@))
}

pub open spec fn all_modifiers_known(mods: Seq<String>) -> bool {
    forall|i: int| 0 <= i < mods.len() ==> (#[trigger] modifier_of(mods[i])) is Some
}

pub open spec fn has_modifier(mods: Seq<String>, flag: u8) -> bool {
    exists|i: int| 0 <= i < mods.len() && #[trigger] modifier_of(mods[i]) == Some(flag)
}

/// A list of modifier names with one more name sets a flag exactly when the
/// shorter list or the new name sets it.
proof fn lemma_has_modifier_push(mods: Seq<String>, m: String, flag: u8)
    ensures
        has_modifier(mods.push(m), flag) == (has_modifier(mods, flag) || modifier_of(m) == Some(
            flag,
        )),
{
    let after = mods.push(m);
    if has_modifier(after, flag) {
        let j = choose|j: int| 0 <= j < after.len() && modifier_of(after[j]) == Some(flag);
        if j < mods.len() {
            assert(modifier_of(mods[j]) == Some(flag));
        }
    }
    if has_modifier(mods, flag) {
        let j = choose|j: int| 0 <= j < mods.len() && modifier_of(mods[j]) == Some(flag);
        assert(modifier_of(after[j]) == Some(flag));
    }
    if modifier_of(m) == Some(flag) {
        assert(after[mods.len() as int] == m);
    }
}

/// Whether every token of an override is understood.
pub open spec fn binding_ok(b: KeybindingConfig) -> bool {
    &&& key_of(b.key@) is Some
    &&& all_modifiers_known(b.modifiers@)
    &&& command_named(lower_of(b.command@)) is Some
}

/// The chord that a well-formed override names.
pub open spec fn chord_of(b: KeybindingConfig) -> KeyChord {
    chord(
        key_of(b.key@)->Some_0,
        has_modifier(b.modifiers@, 0),
        has_modifier(b.modifiers@, 1),
        has_modifier(b.modifiers@, 2),
    )
}

/// The binding that a well-formed override adds.
pub open spec fn binding_of(b: KeybindingConfig) -> Binding {
    (chord_of(b), command_named(lower_of(b.command@))->Some_0, mode_named(lower_of(b.mode@)))
}

/// Whether `e` reports what is wrong with `b`: its key if that is unknown,
/// else its first unknown modifier, else its command.
pub open spec fn reports(b: KeybindingConfig, e: ParseError) -> bool {
    if key_of(b.key@) is None {
        e is UnknownKey && e->UnknownKey_0@ == b.key@
    } else if !all_modifiers_known(b.modifiers@) {
        exists|i: int|
            0 <= i < b.modifiers@.len() && modifier_of(#[trigger] b.modifiers@[i]) is None
                && all_modifiers_known(b.modifiers@.subrange(0, i)) && e is UnknownModifier
                && e->UnknownModifier_0@ == b.modifiers@[i]@
    } else {
        e is UnknownCommand && e->UnknownCommand_0@ == b.command@
    }
}

/// The table after applying well-formed overrides in order.
pub open spec fn with_overrides(
    t: Map<(KeyChord, VimMode), BlinkCommand>,
    s: Seq<KeybindingConfig>,
) -> Map<(KeyChord, VimMode), BlinkCommand>
    decreases s.len(),
{
    if s.len() == 0 {
        t
    } else {
        let b = binding_of(s.last());
        with_overrides(t, s.drop_last()).insert((b.0, b.2), b.1)
    }
}

fn parse_key_code(raw: &String) -> (r: Option<Key>)
    ensures
        r == key_of(raw@),
{
    let lowered = lowercase(raw.as_str());
    match named_key_from_lowercase(lowered.as_str()) {
        Some(k) => Some(k),
        None => {
            if raw.as_str().unicode_len() == 1 {
                Some(Key::Char(raw.as_str().get_char(0)))
            } else {
                None
            }
        },
    }
}

/// Reads the chord of an override: its key name and modifier names, in any
/// case. An unknown key is reported before an unknown modifier.
pub fn parse_key(binding: &KeybindingConfig) -> (r: Result<KeyChord, ParseError>)
    ensures
        r is Ok <==> key_of(binding.key@) is Some && all_modifiers_known(binding.modifiers@),
        r is Ok ==> r->Ok_0 == chord_of(*binding),
        r is Err ==> reports(*binding, r->Err_0),
{
    let key = match parse_key_code(&binding.key) {
        Some(k) => k,
        None => {
            return Err(ParseError::UnknownKey(binding.key.clone()));
        },
    };
    let mods = &binding.modifiers;
    let mut ctrl = false;
    let mut alt = false;
    let mut shift = false;
    let mut i: usize = 0;
    while i < mods.len()
        invariant
            i <= mods@.len(),
            mods == &binding.modifiers,
            key_of(binding.key@) == Some(key),
            all_modifiers_known(mods@.subrange(0, i as int)),
            ctrl == has_modifier(mods@.subrange(0, i as int), 0),
            alt == has_modifier(mods@.subrange(0, i as int), 1),
            shift == has_modifier(mods@.subrange(0, i as int), 2),
        decreases mods@.len() - i,
    {
        let lowered = lowercase(mods[i].as_str());
        let flag = modifier_from_lowercase(lowered.as_str());
        let ghost before = mods@.subrange(0, i as int);
        let ghost after = mods@.subrange(0, i + 1);
        assert(after =~= before.push(mods@[i as int]));
        match flag {
            None => {
                proof {
                    assert(!all_modifiers_known(mods@)) by {
                        assert(modifier_of(mods@[i as int]) is None);
                    }
                }
                return Err(ParseError::UnknownModifier(mods[i].clone()));
            },
            Some(f) => {
                assert(forall|j: int| 0 <= j < i ==> after[j] == before[j]);
                assert(after[i as int] == mods@[i as int]);
                if f == 0 {
                    ctrl = true;
                } else if f == 1 {
                    alt = true;
                } else {
                    shift = true;
                }
                assert(all_modifiers_known(after));
                proof {
                    lemma_has_modifier_push(before, mods@[i as int], 0);
                    lemma_has_modifier_push(before, mods@[i as int], 1);
                    lemma_has_modifier_push(before, mods@[i as int], 2);
                }
            },
        }
        i = i + 1;
    }
    assert(mods@.subrange(0, mods@.len() as int) =~= mods@);
    Ok(KeyChord::new(key, ctrl, alt, shift))
}

/// Reads one override whole.
fn parse_binding(b: &KeybindingConfig) -> (r: Result<Binding, ParseError>)
    ensures
        r is Ok <==> binding_ok(*b),
        r is Ok ==> r->Ok_0 == binding_of(*b),
        r is Err ==> reports(*b, r->Err_0),
{
    let key = match parse_key(b) {
        Ok(k) => k,
        Err(e) => {
            return Err(e);
        },
    };
    let command = match parse_blink_command(b.command.as_str()) {
        Ok(c) => c,
        Err(e) => {
            return Err(e);
        },
    };
    let mode = parse_mode(b.mode.as_str());
    Ok((key, command, mode))
}

/// The built-in bindings, in the order they are registered. The bindings
/// for Insert mode are registered for `Any` as well.
pub open spec fn default_bindings() -> Seq<Binding> {
    Seq::empty()
        .push((chord(Key::Char('b'), true, false, false), BlinkCommand::MoveCursorLeft, VimMode::Insert))
        .push((chord(Key::Char('b'), false, true, false), BlinkCommand::MoveCursorLeftByWord, VimMode::Insert))
        .push((chord(Key::Char('B'), false, true, true), BlinkCommand::MoveCursorLeftByWordSelecting, VimMode::Insert))
        .push((chord(Key::Char('f'), true, false, false), BlinkCommand::MoveCursorRight, VimMode::Insert))
        .push((chord(Key::Char('f'), false, true, false), BlinkCommand::MoveCursorRightByWord, VimMode::Insert))
        .push((chord(Key::Char('F'), false, true, true), BlinkCommand::MoveCursorRightByWordSelecting, VimMode::Insert))
        .push((chord(Key::Char('q'), true, false, false), BlinkCommand::Quit, VimMode::Insert))
        .push((chord(Key::Tab, false, false, false), BlinkCommand::ToggleFocus, VimMode::Insert))
        .push((chord(Key::Tab, false, false, false), BlinkCommand::ToggleFocus, VimMode::Normal))
        .push((chord(Key::Up, false, false, false), BlinkCommand::MoveCursorUp, VimMode::Insert))
        .push((chord(Key::Char('p'), true, false, false), BlinkCommand::MoveCursorUp, VimMode::Insert))
        .push((chord(Key::Char('p'), true, false, true), BlinkCommand::MoveCursorUpSelecting, VimMode::Insert))
        .push((chord(Key::Char('p'), false, true, false), BlinkCommand::MoveCursorUpParagraph, VimMode::Insert))
        .push((chord(Key::Char('P'), false, true, true), BlinkCommand::MoveCursorUpParagraphSelecting, VimMode::Insert))
        .push((chord(Key::Down, false, false, false), BlinkCommand::MoveCursorDown, VimMode::Insert))
        .push((chord(Key::Char('n'), true, false, false), BlinkCommand::MoveCursorDown, VimMode::Insert))
        .push((chord(Key::Char('n'), true, false, true), BlinkCommand::MoveCursorDownSelecting, VimMode::Insert))
        .push((chord(Key::Char('n'), false, true, false), BlinkCommand::MoveCursorDownParagraph, VimMode::Insert))
        .push((chord(Key::Char('N'), false, true, true), BlinkCommand::MoveCursorDownParagraphSelecting, VimMode::Insert))
        .push((chord(Key::Left, false, false, false), BlinkCommand::MoveCursorLeft, VimMode::Insert))
        .push((chord(Key::Left, false, false, true), BlinkCommand::MoveCursorLeftSelecting, VimMode::Insert))
        .push((chord(Key::Left, true, false, false), BlinkCommand::MoveCursorLeftByWord, VimMode::Insert))
        .push((chord(Key::Left, false, true, false), BlinkCommand::MoveCursorLeftByWord, VimMode::Insert))
        .push((chord(Key::Left, true, false, true), BlinkCommand::MoveCursorLeftByWordSelecting, VimMode::Insert))
        .push((chord(Key::Left, false, true, true), BlinkCommand::MoveCursorLeftByWordSelecting, VimMode::Insert))
        .push((chord(Key::Right, false, false, false), BlinkCommand::MoveCursorRight, VimMode::Insert))
        .push((chord(Key::Right, false, false, true), BlinkCommand::MoveCursorRightSelecting, VimMode::Insert))
        .push((chord(Key::Right, true, false, false), BlinkCommand::MoveCursorRightByWord, VimMode::Insert))
        .push((chord(Key::Right, false, true, false), BlinkCommand::MoveCursorRightByWord, VimMode::Insert))
        .push((chord(Key::Right, true, false, true), BlinkCommand::MoveCursorRightByWordSelecting, VimMode::Insert))
        .push((chord(Key::Right, false, true, true), BlinkCommand::MoveCursorRightByWordSelecting, VimMode::Insert))
        .push((chord(Key::Up, false, false, false), BlinkCommand::MoveCursorUp, VimMode::Insert))
        .push((chord(Key::Up, false, false, true), BlinkCommand::MoveCursorUpSelecting, VimMode::Insert))
        .push((chord(Key::Up, true, false, false), BlinkCommand::MoveCursorUpParagraph, VimMode::Insert))
        .push((chord(Key::Up, true, false, true), BlinkCommand::MoveCursorUpParagraphSelecting, VimMode::Insert))
        .push((chord(Key::Down, false, false, false), BlinkCommand::MoveCursorDown, VimMode::Insert))
        .push((chord(Key::Down, false, false, true), BlinkCommand::MoveCursorDownSelecting, VimMode::Insert))
        .push((chord(Key::Down, true, false, false), BlinkCommand::MoveCursorDownParagraph, VimMode::Insert))
        .push((chord(Key::Down, true, false, true), BlinkCommand::MoveCursorDownParagraphSelecting, VimMode::Insert))
        .push((chord(Key::Backspace, false, false, false), BlinkCommand::DeleteBackward, VimMode::Insert))
        .push((chord(Key::Backspace, false, true, false), BlinkCommand::DeleteWordBack, VimMode::Insert))
        .push((chord(Key::Delete, false, false, false), BlinkCommand::DeleteForward, VimMode::Insert))
        .push((chord(Key::Delete, false, true, false), BlinkCommand::DeleteWordForward, VimMode::Insert))
        .push((chord(Key::Char('k'), true, false, false), BlinkCommand::DeleteUntilEOL, VimMode::Insert))
        .push((chord(Key::Char('j'), true, false, false), BlinkCommand::DeleteUntilHOL, VimMode::Insert))
        .push((chord(Key::Char('u'), true, false, false), BlinkCommand::Undo, VimMode::Insert))
        .push((chord(Key::Char('r'), true, false, false), BlinkCommand::Redo, VimMode::Insert))
        .push((chord(Key::Char('c'), true, false, false), BlinkCommand::Copy, VimMode::Insert))
        .push((chord(Key::Char('v'), true, false, false), BlinkCommand::Paste, VimMode::Insert))
        .push((chord(Key::Char('x'), true, false, false), BlinkCommand::Cut, VimMode::Insert))
        .push((chord(Key::Char('a'), true, false, false), BlinkCommand::MoveCursorBOL, VimMode::Insert))
        .push((chord(Key::Char('A'), true, false, true), BlinkCommand::MoveCursorBOLSelecting, VimMode::Insert))
        .push((chord(Key::Home, false, false, false), BlinkCommand::MoveCursorBOL, VimMode::Insert))
        .push((chord(Key::Home, false, false, true), BlinkCommand::MoveCursorBOLSelecting, VimMode::Insert))
        .push((chord(Key::Char('e'), true, false, false), BlinkCommand::MoveCursorEOL, VimMode::Insert))
        .push((chord(Key::Char('E'), true, false, true), BlinkCommand::MoveCursorEOLSelecting, VimMode::Insert))
        .push((chord(Key::End, false, false, false), BlinkCommand::MoveCursorEOL, VimMode::Insert))
        .push((chord(Key::End, false, false, true), BlinkCommand::MoveCursorEOLSelecting, VimMode::Insert))
        .push((chord(Key::Enter, false, false, false), BlinkCommand::Enter, VimMode::Insert))
        .push((chord(Key::Esc, false, false, false), BlinkCommand::EnterNormalMode, VimMode::Insert))
        .push((chord(Key::Char('k'), false, false, false), BlinkCommand::MoveCursorUp, VimMode::Normal))
        .push((chord(Key::Char('h'), false, false, false), BlinkCommand::MoveCursorLeft, VimMode::Normal))
        .push((chord(Key::Char('j'), false, false, false), BlinkCommand::MoveCursorDown, VimMode::Normal))
        .push((chord(Key::Char('l'), false, false, false), BlinkCommand::MoveCursorRight, VimMode::Normal))
        .push((chord(Key::Char('b'), false, false, false), BlinkCommand::MoveCursorLeftByWord, VimMode::Normal))
        .push((chord(Key::Char('w'), false, false, false), BlinkCommand::MoveCursorRightByWord, VimMode::Normal))
        .push((chord(Key::Char('e'), false, false, false), BlinkCommand::MoveCursorRightByWordEnd, VimMode::Normal))
        .push((chord(Key::Char('b'), false, false, true), BlinkCommand::MoveCursorLeftByWordParagraph, VimMode::Normal))
        .push((chord(Key::Char('w'), false, false, true), BlinkCommand::MoveCursorRightByWordParagraph, VimMode::Normal))
        .push((chord(Key::Char('i'), false, false, false), BlinkCommand::EnterInsertMode, VimMode::Normal))
        .push((chord(Key::Char('v'), false, false, false), BlinkCommand::EnterVisualMode, VimMode::Normal))
        .push((chord(Key::Char('x'), false, false, false), BlinkCommand::DeleteForward, VimMode::Normal))
        .push((chord(Key::Char('$'), false, false, false), BlinkCommand::MoveCursorEOL, VimMode::Normal))
        .push((chord(Key::Char('A'), false, false, true), BlinkCommand::MoveCursorEOLIntoInsertMode, VimMode::Normal))
        .push((chord(Key::Char('0'), false, false, false), BlinkCommand::MoveCursorBOL, VimMode::Normal))
        .push((chord(Key::Char('I'), false, false, true), BlinkCommand::MoveCursorBOLIntoInsertMode, VimMode::Normal))
        .push((chord(Key::Char('D'), false, false, true), BlinkCommand::DeleteUntilEOL, VimMode::Normal))
        .push((chord(Key::Char('C'), false, false, true), BlinkCommand::DeleteUntilEOLIntoInsertMode, VimMode::Normal))
        .push((chord(Key::Char('p'), false, false, false), BlinkCommand::Paste, VimMode::Normal))
        .push((chord(Key::Char('u'), false, false, false), BlinkCommand::Undo, VimMode::Normal))
        .push((chord(Key::Char('U'), false, false, true), BlinkCommand::Redo, VimMode::Normal))
        .push((chord(Key::Char('o'), false, false, false), BlinkCommand::Newline, VimMode::Normal))
        .push((chord(Key::Char('O'), false, false, true), BlinkCommand::NewlineUp, VimMode::Normal))
        .push((chord(Key::Char('q'), false, false, false), BlinkCommand::Quit, VimMode::Normal))
        .push((chord(Key::Enter, false, false, false), BlinkCommand::Enter, VimMode::Normal))
        .push((chord(Key::Enter, false, true, false), BlinkCommand::OpenInEditor, VimMode::Normal))
        .push((chord(Key::Char('k'), false, false, false), BlinkCommand::MoveCursorUp, VimMode::Visual))
        .push((chord(Key::Char('h'), false, false, false), BlinkCommand::MoveCursorLeft, VimMode::Visual))
        .push((chord(Key::Char('j'), false, false, false), BlinkCommand::MoveCursorDown, VimMode::Visual))
        .push((chord(Key::Char('l'), false, false, false), BlinkCommand::MoveCursorRight, VimMode::Visual))
        .push((chord(Key::Char('b'), false, false, false), BlinkCommand::MoveCursorLeftByWord, VimMode::Visual))
        .push((chord(Key::Char('w'), false, false, false), BlinkCommand::MoveCursorRightByWord, VimMode::Visual))
        .push((chord(Key::Char('e'), false, false, false), BlinkCommand::MoveCursorRightByWordEnd, VimMode::Visual))
        .push((chord(Key::Char('b'), false, false, true), BlinkCommand::MoveCursorLeftByWordParagraph, VimMode::Visual))
        .push((chord(Key::Char('w'), false, false, true), BlinkCommand::MoveCursorRightByWordParagraph, VimMode::Visual))
        .push((chord(Key::Char('$'), false, false, false), BlinkCommand::MoveCursorEOL, VimMode::Visual))
        .push((chord(Key::Char('0'), false, false, false), BlinkCommand::MoveCursorBOL, VimMode::Visual))
        .push((chord(Key::Char('y'), false, false, false), BlinkCommand::Copy, VimMode::Visual))
        .push((chord(Key::Char('d'), false, false, false), BlinkCommand::Cut, VimMode::Visual))
        .push((chord(Key::Char('c'), false, false, false), BlinkCommand::CutIntoInsertMode, VimMode::Visual))
        .push((chord(Key::Char('s'), false, false, false), BlinkCommand::CutIntoInsertMode, VimMode::Visual))
        .push((chord(Key::Char('p'), false, false, false), BlinkCommand::CutIntoInsertMode, VimMode::Visual))
        .push((chord(Key::Char('q'), false, false, false), BlinkCommand::Quit, VimMode::Visual))
        .push((chord(Key::Esc, false, false, false), BlinkCommand::EnterNormalMode, VimMode::Visual))
        .push((chord(Key::Char('b'), true, false, false), BlinkCommand::MoveCursorLeft, VimMode::Any))
        .push((chord(Key::Char('b'), false, true, false), BlinkCommand::MoveCursorLeftByWord, VimMode::Any))
        .push((chord(Key::Char('B'), false, true, true), BlinkCommand::MoveCursorLeftByWordSelecting, VimMode::Any))
        .push((chord(Key::Char('f'), true, false, false), BlinkCommand::MoveCursorRight, VimMode::Any))
        .push((chord(Key::Char('f'), false, true, false), BlinkCommand::MoveCursorRightByWord, VimMode::Any))
        .push((chord(Key::Char('F'), false, true, true), BlinkCommand::MoveCursorRightByWordSelecting, VimMode::Any))
        .push((chord(Key::Char('q'), true, false, false), BlinkCommand::Quit, VimMode::Any))
        .push((chord(Key::Tab, false, false, false), BlinkCommand::ToggleFocus, VimMode::Any))
        .push((chord(Key::Up, false, false, false), BlinkCommand::MoveCursorUp, VimMode::Any))
        .push((chord(Key::Char('p'), true, false, false), BlinkCommand::MoveCursorUp, VimMode::Any))
        .push((chord(Key::Char('p'), true, false, true), BlinkCommand::MoveCursorUpSelecting, VimMode::Any))
        .push((chord(Key::Char('p'), false, true, false), BlinkCommand::MoveCursorUpParagraph, VimMode::Any))
        .push((chord(Key::Char('P'), false, true, true), BlinkCommand::MoveCursorUpParagraphSelecting, VimMode::Any))
        .push((chord(Key::Down, false, false, false), BlinkCommand::MoveCursorDown, VimMode::Any))
        .push((chord(Key::Char('n'), true, false, false), BlinkCommand::MoveCursorDown, VimMode::Any))
        .push((chord(Key::Char('n'), true, false, true), BlinkCommand::MoveCursorDownSelecting, VimMode::Any))
        .push((chord(Key::Char('n'), false, true, false), BlinkCommand::MoveCursorDownParagraph, VimMode::Any))
        .push((chord(Key::Char('N'), false, true, true), BlinkCommand::MoveCursorDownParagraphSelecting, VimMode::Any))
        .push((chord(Key::Left, false, false, false), BlinkCommand::MoveCursorLeft, VimMode::Any))
        .push((chord(Key::Left, false, false, true), BlinkCommand::MoveCursorLeftSelecting, VimMode::Any))
        .push((chord(Key::Left, true, false, false), BlinkCommand::MoveCursorLeftByWord, VimMode::Any))
        .push((chord(Key::Left, false, true, false), BlinkCommand::MoveCursorLeftByWord, VimMode::Any))
        .push((chord(Key::Left, true, false, true), BlinkCommand::MoveCursorLeftByWordSelecting, VimMode::Any))
        .push((chord(Key::Left, false, true, true), BlinkCommand::MoveCursorLeftByWordSelecting, VimMode::Any))
        .push((chord(Key::Right, false, false, false), BlinkCommand::MoveCursorRight, VimMode::Any))
        .push((chord(Key::Right, false, false, true), BlinkCommand::MoveCursorRightSelecting, VimMode::Any))
        .push((chord(Key::Right, true, false, false), BlinkCommand::MoveCursorRightByWord, VimMode::Any))
        .push((chord(Key::Right, false, true, false), BlinkCommand::MoveCursorRightByWord, VimMode::Any))
        .push((chord(Key::Right, true, false, true), BlinkCommand::MoveCursorRightByWordSelecting, VimMode::Any))
        .push((chord(Key::Right, false, true, true), BlinkCommand::MoveCursorRightByWordSelecting, VimMode::Any))
        .push((chord(Key::Up, false, false, false), BlinkCommand::MoveCursorUp, VimMode::Any))
        .push((chord(Key::Up, false, false, true), BlinkCommand::MoveCursorUpSelecting, VimMode::Any))
        .push((chord(Key::Up, true, false, false), BlinkCommand::MoveCursorUpParagraph, VimMode::Any))
        .push((chord(Key::Up, true, false, true), BlinkCommand::MoveCursorUpParagraphSelecting, VimMode::Any))
        .push((chord(Key::Down, false, false, false), BlinkCommand::MoveCursorDown, VimMode::Any))
        .push((chord(Key::Down, false, false, true), BlinkCommand::MoveCursorDownSelecting, VimMode::Any))
        .push((chord(Key::Down, true, false, false), BlinkCommand::MoveCursorDownParagraph, VimMode::Any))
        .push((chord(Key::Down, true, false, true), BlinkCommand::MoveCursorDownParagraphSelecting, VimMode::Any))
        .push((chord(Key::Backspace, false, false, false), BlinkCommand::DeleteBackward, VimMode::Any))
        .push((chord(Key::Backspace, false, true, false), BlinkCommand::DeleteWordBack, VimMode::Any))
        .push((chord(Key::Delete, false, false, false), BlinkCommand::DeleteForward, VimMode::Any))
        .push((chord(Key::Delete, false, true, false), BlinkCommand::DeleteWordForward, VimMode::Any))
        .push((chord(Key::Char('k'), true, false, false), BlinkCommand::DeleteUntilEOL, VimMode::Any))
        .push((chord(Key::Char('j'), true, false, false), BlinkCommand::DeleteUntilHOL, VimMode::Any))
        .push((chord(Key::Char('u'), true, false, false), BlinkCommand::Undo, VimMode::Any))
        .push((chord(Key::Char('r'), true, false, false), BlinkCommand::Redo, VimMode::Any))
        .push((chord(Key::Char('c'), true, false, false), BlinkCommand::Copy, VimMode::Any))
        .push((chord(Key::Char('v'), true, false, false), BlinkCommand::Paste, VimMode::Any))
        .push((chord(Key::Char('x'), true, false, false), BlinkCommand::Cut, VimMode::Any))
        .push((chord(Key::Char('a'), true, false, false), BlinkCommand::MoveCursorBOL, VimMode::Any))
        .push((chord(Key::Char('A'), true, false, true), BlinkCommand::MoveCursorBOLSelecting, VimMode::Any))
        .push((chord(Key::Home, false, false, false), BlinkCommand::MoveCursorBOL, VimMode::Any))
        .push((chord(Key::Home, false, false, true), BlinkCommand::MoveCursorBOLSelecting, VimMode::Any))
        .push((chord(Key::Char('e'), true, false, false), BlinkCommand::MoveCursorEOL, VimMode::Any))
        .push((chord(Key::Char('E'), true, false, true), BlinkCommand::MoveCursorEOLSelecting, VimMode::Any))
        .push((chord(Key::End, false, false, false), BlinkCommand::MoveCursorEOL, VimMode::Any))
        .push((chord(Key::End, false, false, true), BlinkCommand::MoveCursorEOLSelecting, VimMode::Any))
        .push((chord(Key::Enter, false, false, false), BlinkCommand::Enter, VimMode::Any))
        .push((chord(Key::Esc, false, false, false), BlinkCommand::EnterNormalMode, VimMode::Any))
}

} // verus!
