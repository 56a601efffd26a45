use vstd::prelude::*;
use crate::mode::VimMode;

verus! {

/// A high-level command that a key chord resolves to.
#[derive(Debug, Clone, Copy, PartialEq, Eq, Hash, Structural)]
pub enum BlinkCommand {
    Quit,
    ToggleFocus,
    EnterInsertMode,
    EnterVisualMode,
    EnterNormalMode,
    Enter,
    // Movement.
    MoveCursorUp,
    MoveCursorUpParagraph,
    MoveCursorUpSelecting,
    MoveCursorUpParagraphSelecting,
    MoveCursorDown,
    MoveCursorDownParagraph,
    MoveCursorDownSelecting,
    MoveCursorDownParagraphSelecting,
    MoveCursorLeft,
    MoveCursorLeftSelecting,
    MoveCursorLeftByWord,
    MoveCursorLeftByWordSelecting,
    MoveCursorLeftByWordParagraph,
    MoveCursorRight,
    MoveCursorRightSelecting,
    MoveCursorRightByWord,
    MoveCursorRightByWordSelecting,
    MoveCursorRightByWordParagraph,
    MoveCursorRightByWordEnd,
    MoveCursorBOL,
    MoveCursorBOLIntoInsertMode,
    MoveCursorBOLSelecting,
    MoveCursorEOL,
    MoveCursorEOLIntoInsertMode,
    MoveCursorEOLSelecting,
    // Editing.
    InsertChar(char),
    DeleteBackward,
    DeleteForward,
    DeleteWordBack,
    DeleteWordForward,
    DeleteUntilEOL,
    DeleteUntilEOLIntoInsertMode,
    DeleteUntilHOL,
    Newline,
    NewlineUp,
    // History and clipboard.
    Undo,
    Redo,
    Copy,
    Paste,
    Cut,
    CutIntoInsertMode,
    OpenInEditor,
}

/// A configuration token that names no key, modifier or command. Each
/// variant holds the offending text as it was written.
#[derive(Debug, Clone, PartialEq, Eq)]
pub enum ParseError {
    UnknownKey(String),
    UnknownModifier(String),
    UnknownCommand(String),
}

/// What `str::to_lowercase` makes of a string.
pub uninterp spec fn lower_of(s: Seq<char>) -> Seq<char>;

/// Relies on `str::to_lowercase`: the lowercase form of the text, which
/// depends on its characters alone.
#[verifier::external_body]
pub(crate) fn lowercase(s: &str) -> (r: String)
    ensures
        r@ == lower_of(s@),
{
    s.to_lowercase()
}

/// Whether `t` holds exactly the characters of `lit`.
pub fn text_is(t: &str, lit: &str) -> (r: bool)
    ensures
        r == (t@ == lit@),
{
    let n = t.unicode_len();
    let m = lit.unicode_len();
    if n != m {
        return false;
    }
    let mut i: usize = 0;
    while i < n
        invariant
            n == t@.len(),
            m == lit@.len(),
            n == m,
            i <= n,
            forall|j: int| 0 <= j < i ==> t@[j] == lit@[j],
        decreases n - i,
    {
        if t.get_char(i) != lit.get_char(i) {
            return false;
        }
        i = i + 1;
    }
    assert(t@ =~= lit@);
    true
}

/// The command that a lowercase command name stands for.
pub open spec fn command_named(t: Seq<char>) -> Option<BlinkCommand> {
    if t == "quit"@ {
        Some(BlinkCommand::Quit)
    } else if t == "togglefocus"@ {
        Some(BlinkCommand::ToggleFocus)
    } else if t == "enterinsertmode"@ {
        Some(BlinkCommand::EnterInsertMode)
    } else if t == "entervisualmode"@ {
        Some(BlinkCommand::EnterVisualMode)
    } else if t == "enternormalmode"@ {
        Some(BlinkCommand::EnterNormalMode)
    } else if t == "enter"@ {
        Some(BlinkCommand::Enter)
    } else if t == "movecursorup"@ {
        Some(BlinkCommand::MoveCursorUp)
    } else if t == "movecursorupparagraph"@ {
        Some(BlinkCommand::MoveCursorUpParagraph)
    } else if t == "movecursorupselecting"@ {
        Some(BlinkCommand::MoveCursorUpSelecting)
    } else if t == "movecursorupparagraphselecting"@ {
        Some(BlinkCommand::MoveCursorUpParagraphSelecting)
    } else if t == "movecursordown"@ {
        Some(BlinkCommand::MoveCursorDown)
    } else if t == "movecursordownparagraph"@ {
        Some(BlinkCommand::MoveCursorDownParagraph)
    } else if t == "movecursordownselecting"@ {
        Some(BlinkCommand::MoveCursorDownSelecting)
    } else if t == "movecursordownparagraphselecting"@ {
        Some(BlinkCommand::MoveCursorDownParagraphSelecting)
    } else if t == "movecursorleft"@ {
        Some(BlinkCommand::MoveCursorLeft)
    } else if t == "movecursorleftselecting"@ {
        Some(BlinkCommand::MoveCursorLeftSelecting)
    } else if t == "movecursorleftbyword"@ {
        Some(BlinkCommand::MoveCursorLeftByWord)
    } else if t == "movecursorleftbywordselecting"@ {
        Some(BlinkCommand::MoveCursorLeftByWordSelecting)
    } else if t == "movecursorleftbywordparagraph"@ {
        Some(BlinkCommand::MoveCursorLeftByWordParagraph)
    } else if t == "movecursorright"@ {
        Some(BlinkCommand::MoveCursorRight)
    } else if t == "movecursorrightselecting"@ {
        Some(BlinkCommand::MoveCursorRightSelecting)
    } else if t == "movecursorrightbyword"@ {
        Some(BlinkCommand::MoveCursorRightByWord)
    } else if t == "movecursorrightbywordselecting"@ {
        Some(BlinkCommand::MoveCursorRightByWordSelecting)
    } else if t == "movecursorrightbywordparagraph"@ {
        Some(BlinkCommand::MoveCursorRightByWordParagraph)
    } else if t == "movecursorrightbywordend"@ {
        Some(BlinkCommand::MoveCursorRightByWordEnd)
    } else if t == "movecursorbol"@ {
        Some(BlinkCommand::MoveCursorBOL)
    } else if t == "movecursorbolintoinsertmode"@ {
        Some(BlinkCommand::MoveCursorBOLIntoInsertMode)
    } else if t == "movecursorbolselecting"@ {
        Some(BlinkCommand::MoveCursorBOLSelecting)
    } else if t == "movecursoreol"@ {
        Some(BlinkCommand::MoveCursorEOL)
    } else if t == "movecursoreolintoinsertmode"@ {
        Some(BlinkCommand::MoveCursorEOLIntoInsertMode)
    } else if t == "movecursoreolselecting"@ {
        Some(BlinkCommand::MoveCursorEOLSelecting)
    } else if t == "deletebackward"@ {
        Some(BlinkCommand::DeleteBackward)
    } else if t == "deleteforward"@ {
        Some(BlinkCommand::DeleteForward)
    } else if t == "deletewordback"@ {
        Some(BlinkCommand::DeleteWordBack)
    } else if t == "deletewordforward"@ {
        Some(BlinkCommand::DeleteWordForward)
    } else if t == "deleteuntileol"@ {
        Some(BlinkCommand::DeleteUntilEOL)
    } else if t == "deleteuntileolintoinsertmode"@ {
        Some(BlinkCommand::DeleteUntilEOLIntoInsertMode)
    } else if t == "deleteuntilhol"@ {
        Some(BlinkCommand::DeleteUntilHOL)
    } else if t == "newline"@ {
        Some(BlinkCommand::Newline)
    } else if t == "newlineup"@ {
        Some(BlinkCommand::NewlineUp)
    } else if t == "undo"@ {
        Some(BlinkCommand::Undo)
    } else if t == "redo"@ {
        Some(BlinkCommand::Redo)
    } else if t == "copy"@ {
        Some(BlinkCommand::Copy)
    } else if t == "paste"@ {
        Some(BlinkCommand::Paste)
    } else if t == "cut"@ {
        Some(BlinkCommand::Cut)
    } else if t == "cutintoinsertmode"@ {
        Some(BlinkCommand::CutIntoInsertMode)
    } else if t == "openineditor"@ {
        Some(BlinkCommand::OpenInEditor)
    } else if t == "deleteword"@ {
        Some(BlinkCommand::DeleteWordBack)
    } else {
        None
    }
}

/// Reads a command name, ignoring case. Every command but `InsertChar` has a
/// name: the variant's name; `DeleteWord` also names `DeleteWordBack`.
pub fn command_from_lowercase(t: &str) -> (r: Option<BlinkCommand>)
    ensures
        r == command_named(t@),
{
    if text_is(t, "quit") {
        Some(BlinkCommand::Quit)
    } else if text_is(t, "togglefocus") {
        Some(BlinkCommand::ToggleFocus)
    } else if text_is(t, "enterinsertmode") {
        Some(BlinkCommand::EnterInsertMode)
    } else if text_is(t, "entervisualmode") {
        Some(BlinkCommand::EnterVisualMode)
    } else if text_is(t, "enternormalmode") {
        Some(BlinkCommand::EnterNormalMode)
    } else if text_is(t, "enter") {
        Some(BlinkCommand::Enter)
    } else if text_is(t, "movecursorup") {
        Some(BlinkCommand::MoveCursorUp)
    } else if text_is(t, "movecursorupparagraph") {
        Some(BlinkCommand::MoveCursorUpParagraph)
    } else if text_is(t, "movecursorupselecting") {
        Some(BlinkCommand::MoveCursorUpSelecting)
    } else if text_is(t, "movecursorupparagraphselecting") {
        Some(BlinkCommand::MoveCursorUpParagraphSelecting)
    } else if text_is(t, "movecursordown") {
        Some(BlinkCommand::MoveCursorDown)
    } else if text_is(t, "movecursordownparagraph") {
        Some(BlinkCommand::MoveCursorDownParagraph)
    } else if text_is(t, "movecursordownselecting") {
        Some(BlinkCommand::MoveCursorDownSelecting)
    } else if text_is(t, "movecursordownparagraphselecting") {
        Some(BlinkCommand::MoveCursorDownParagraphSelecting)
    } else if text_is(t, "movecursorleft") {
        Some(BlinkCommand::MoveCursorLeft)
    } else if text_is(t, "movecursorleftselecting") {
        Some(BlinkCommand::MoveCursorLeftSelecting)
    } else if text_is(t, "movecursorleftbyword") {
        Some(BlinkCommand::MoveCursorLeftByWord)
    } else if text_is(t, "movecursorleftbywordselecting") {
        Some(BlinkCommand::MoveCursorLeftByWordSelecting)
    } else if text_is(t, "movecursorleftbywordparagraph") {
        Some(BlinkCommand::MoveCursorLeftByWordParagraph)
    } else if text_is(t, "movecursorright") {
        Some(BlinkCommand::MoveCursorRight)
    } else if text_is(t, "movecursorrightselecting") {
        Some(BlinkCommand::MoveCursorRightSelecting)
    } else if text_is(t, "movecursorrightbyword") {
        Some(BlinkCommand::MoveCursorRightByWord)
    } else if text_is(t, "movecursorrightbywordselecting") {
        Some(BlinkCommand::MoveCursorRightByWordSelecting)
    } else if text_is(t, "movecursorrightbywordparagraph") {
        Some(BlinkCommand::MoveCursorRightByWordParagraph)
    } else if text_is(t, "movecursorrightbywordend") {
        Some(BlinkCommand::MoveCursorRightByWordEnd)
    } else if text_is(t, "movecursorbol") {
        Some(BlinkCommand::MoveCursorBOL)
    } else if text_is(t, "movecursorbolintoinsertmode") {
        Some(BlinkCommand::MoveCursorBOLIntoInsertMode)
    } else if text_is(t, "movecursorbolselecting") {
        Some(BlinkCommand::MoveCursorBOLSelecting)
    } else if text_is(t, "movecursoreol") {
        Some(BlinkCommand::MoveCursorEOL)
    } else if text_is(t, "movecursoreolintoinsertmode") {
        Some(BlinkCommand::MoveCursorEOLIntoInsertMode)
    } else if text_is(t, "movecursoreolselecting") {
        Some(BlinkCommand::MoveCursorEOLSelecting)
    } else if text_is(t, "deletebackward") {
        Some(BlinkCommand::DeleteBackward)
    } else if text_is(t, "deleteforward") {
        Some(BlinkCommand::DeleteForward)
    } else if text_is(t, "deletewordback") {
        Some(BlinkCommand::DeleteWordBack)
    } else if text_is(t, "deletewordforward") {
        Some(BlinkCommand::DeleteWordForward)
    } else if text_is(t, "deleteuntileol") {
        Some(BlinkCommand::DeleteUntilEOL)
    } else if text_is(t, "deleteuntileolintoinsertmode") {
        Some(BlinkCommand::DeleteUntilEOLIntoInsertMode)
    } else if text_is(t, "deleteuntilhol") {
        Some(BlinkCommand::DeleteUntilHOL)
    } else if text_is(t, "newline") {
        Some(BlinkCommand::Newline)
    } else if text_is(t, "newlineup") {
        Some(BlinkCommand::NewlineUp)
    } else if text_is(t, "undo") {
        Some(BlinkCommand::Undo)
    } else if text_is(t, "redo") {
        Some(BlinkCommand::Redo)
    } else if text_is(t, "copy") {
        Some(BlinkCommand::Copy)
    } else if text_is(t, "paste") {
        Some(BlinkCommand::Paste)
    } else if text_is(t, "cut") {
        Some(BlinkCommand::Cut)
    } else if text_is(t, "cutintoinsertmode") {
        Some(BlinkCommand::CutIntoInsertMode)
    } else if text_is(t, "openineditor") {
        Some(BlinkCommand::OpenInEditor)
    } else if text_is(t, "deleteword") {
        Some(BlinkCommand::DeleteWordBack)
    } else {
        None
    }
}

/// Parses a command name from configuration, ignoring case.
pub fn parse_blink_command(cmd: &str) -> (r: Result<BlinkCommand, ParseError>)
    ensures
        match r {
            Ok(c) => command_named(lower_of(cmd@)) == Some(c),
            Err(e) => command_named(lower_of(cmd@)) is None && e is UnknownCommand
                && e->UnknownCommand_0@ == cmd@,
        },
{
    let lowered = lowercase(cmd);
    match command_from_lowercase(lowered.as_str()) {
        Some(c) => Ok(c),
        None => Err(ParseError::UnknownCommand(cmd.to_string())),
    }
}

/// The mode that a lowercase mode name stands for: `normal`, `insert` and
/// `visual` name their modes, anything else (`any` among them) means `Any`.
pub open spec fn mode_named(t: Seq<char>) -> VimMode {
    if t == "normal"@ {
        VimMode::Normal
    } else if t == "insert"@ {
        VimMode::Insert
    } else if t == "visual"@ {
        VimMode::Visual
    } else {
        VimMode::Any
    }
}

/// Reads a lowercase mode name.
pub fn mode_from_lowercase(t: &str) -> (r: VimMode)
    ensures
        r == mode_named(t@),
{
    if text_is(t, "normal") {
        VimMode::Normal
    } else if text_is(t, "insert") {
        VimMode::Insert
    } else if text_is(t, "visual") {
        VimMode::Visual
    } else {
        VimMode::Any
    }
}

/// Parses a mode name from configuration, ignoring case.
pub fn parse_mode(s: &str) -> (r: VimMode)
    ensures
        r == mode_named(lower_of(s@)),
{
    let lowered = lowercase(s);
    mode_from_lowercase(lowered.as_str())
}

} // verus!
