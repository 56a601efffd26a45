use vstd::prelude::*;
use crate::command::BlinkCommand;
use crate::keys::{Key, KeyChord, KeybindingMap, resolved};
use crate::mode::VimMode;

verus! {

/// What a chord means in a region's mode: its binding for that mode (or
/// for `Any`), or else, in Insert mode or without vim emulation, a typed
/// character for a character key and a return to Normal mode for Esc.
pub open spec fn command_for(
    t: Map<(KeyChord, VimMode), BlinkCommand>,
    c: KeyChord,
    m: VimMode,
) -> Option<BlinkCommand> {
    match resolved(t, c, m) {
        Some(cmd) => Some(cmd),
        None => if m == VimMode::Insert || m == VimMode::Any {
            match c.key {
                Key::Char(ch) => Some(BlinkCommand::InsertChar(ch)),
                Key::Esc => Some(BlinkCommand::EnterNormalMode),
                _ => None,
            }
        } else {
            None
        },
    }
}

/// The commands a key press gives in the focused region's mode: none or
/// one.
pub fn handle_event(input: KeyChord, bindings: &KeybindingMap, editor_mode: VimMode) -> (r: Vec<
    BlinkCommand,
>)
    ensures
        r@ == match command_for(bindings@, input, editor_mode) {
            Some(c) => seq![c],
            None => Seq::<BlinkCommand>::empty(),
        },
{
    let mut commands: Vec<BlinkCommand> = Vec::new();
    match bindings.get_command(input, editor_mode) {
        Some(command) => {
            commands.push(command);
        },
        None => {
            if editor_mode == VimMode::Insert || editor_mode == VimMode::Any {
                match input.key {
                    Key::Char(c) => {
                        commands.push(BlinkCommand::InsertChar(c));
                    },
                    Key::Esc => {
                        commands.push(BlinkCommand::EnterNormalMode);
                    },
                    _ => {},
                }
            }
        },
    }
    proof {
        match command_for(bindings@, input, editor_mode) {
            Some(c) => {
                assert(commands@ =~= seq![c]);
            },
            None => {
                assert(commands@ =~= Seq::<BlinkCommand>::empty());
            },
        }
    }
    commands
}

} // verus!
