use vstd::prelude::*;

verus! {

/// The modal-editing state of a region.
///
/// `Any` means that vim emulation is off for the region: there are no mode
/// transitions and every movement or insertion is legal.
#[derive(Debug, Clone, Copy, PartialEq, Eq, Hash, Structural)]
pub enum VimMode {
    Normal,
    Insert,
    Visual,
    Any,
}

/// The mode a region starts in.
pub open spec fn initial_mode(vim_mode: bool) -> VimMode {
    if vim_mode {
        VimMode::Normal
    } else {
        VimMode::Any
    }
}

/// The mode a region starts in: `Normal` with vim emulation, `Any` without.
pub fn starting_mode(vim_mode: bool) -> (r: VimMode)
    ensures
        r == initial_mode(vim_mode),
{
    if vim_mode {
        VimMode::Normal
    } else {
        VimMode::Any
    }
}

} // verus!
