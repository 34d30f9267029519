//! Why the picker cannot start, and the status a run ends with.

use vstd::prelude::*;

verus! {

/// The bookmark source gives the picker nothing to start on.
#[derive(Clone, Copy, Debug, PartialEq, Eq, Structural)]
pub enum StartupConfigError {
    /// The source is missing or cannot be read.
    SourceUnreadable,
    /// The source was read and names no path.
    NoBookmarks,
}

/// How a run of the picker ended.
#[derive(Clone, Copy, Debug, PartialEq, Eq, Structural)]
pub enum Ending {
    /// The loop ended on the user's word, with or without a choice.
    Normal,
    /// The picker could not start.
    Startup(StartupConfigError),
    /// The terminal could not be set up, drawn on or restored.
    TerminalIo,
}

/// The exit status of a run that ended normally.
pub const EXIT_NORMAL: u8 = 0;

/// The exit status of a run that failed on the terminal.
pub const EXIT_TERMINAL_IO: u8 = 1;

/// The exit status of a run that could not start for want of bookmarks.
pub const EXIT_STARTUP_CONFIG: u8 = 2;

/// The exit status that goes with an ending.
pub open spec fn status_of(ending: Ending) -> u8 {
    match ending {
        Ending::Normal => EXIT_NORMAL,
        Ending::Startup(_) => EXIT_STARTUP_CONFIG,
        Ending::TerminalIo => EXIT_TERMINAL_IO,
    }
}

/// The exit status that goes with an ending: zero for a normal one, and a
/// status of its own for a failed startup.
pub fn exit_status(ending: Ending) -> (status: u8)
    ensures
        status == status_of(ending),
        status == 0 <==> ending == Ending::Normal,
{
    match ending {
        Ending::Normal => EXIT_NORMAL,
        Ending::Startup(_) => EXIT_STARTUP_CONFIG,
        Ending::TerminalIo => EXIT_TERMINAL_IO,
    }
}

impl StartupConfigError {
    /// A sentence for the user.
    pub fn message(&self) -> (text: &'static str)
        ensures
            text@ == match self {
                StartupConfigError::SourceUnreadable => "the bookmark source cannot be read"@,
                StartupConfigError::NoBookmarks => "the bookmark source names no path"@,
            },
    {
        match self {
            StartupConfigError::SourceUnreadable => "the bookmark source cannot be read",
            StartupConfigError::NoBookmarks => "the bookmark source names no path",
        }
    }
}

} // verus!
