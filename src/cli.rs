use vstd::prelude::*;

verus! {

/// The command line: an optional subcommand.
pub struct CLI {
    pub commands: Option<Commands>,
}

/// The subcommands.
pub enum Commands {
    /// A check that the program starts.
    Test,
}

} // verus!
