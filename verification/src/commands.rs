//! The command line: one subcommand starts the listener, its absence opens
//! the view.

use vstd::prelude::*;

verus! {

/// The subcommand that starts the listener.
pub const START: &'static str = "start";

/// What the program does until it ends.
#[derive(Debug, Clone, Copy, PartialEq, Eq, Structural)]
pub enum Mode {
    /// Poll the clipboard and store what is new.
    Listen,
    /// Show the history in the terminal.
    Display,
}

/// The mode that goes with the subcommand `name`.
pub open spec fn spec_select_mode(name: Option<Seq<char>>) -> Mode {
    if name == Some(START@) {
        Mode::Listen
    } else {
        Mode::Display
    }
}

/// Selects the mode from the subcommand that the command line holds, if it
/// holds one: `start` listens, everything else displays.
pub fn select_mode(subcommand: Option<&str>) -> (mode: Mode)
    ensures
        mode == spec_select_mode(
            match subcommand {
                Some(name) => Some(name@),
                None => None,
            },
        ),
{
    match subcommand {
        Some(name) => {
            if name.to_owned() == START.to_owned() {
                Mode::Listen
            } else {
                Mode::Display
            }
        },
        None => Mode::Display,
    }
}

} // verus!
