//! The reasons an operation can be refused or can fail.

use vstd::prelude::*;
use vstd::string::*;

verus! {

/// How the window of an operation was named by the caller.
#[derive(Clone, Copy, Debug, PartialEq, Eq, Structural)]
pub enum Subject {
    /// By its identifier.
    Window,
    /// As the window that has the focus.
    ActiveWindow,
}

/// A membership precondition that did not hold.
#[derive(Clone, Copy, Debug, PartialEq, Eq, Structural)]
pub enum Unmet {
    /// Only a sticky window can be staged.
    NotSticky,
    /// Only a staged window can be unstaged.
    NotStaged(Subject),
    /// A staged window cannot be marked sticky: it comes back by being
    /// unstaged.
    Staged(Subject),
}

/// A request line that is not part of the protocol.
#[derive(Clone, Copy, Debug, PartialEq, Eq, Structural)]
pub enum Malformed {
    UnknownCommand,
    MissingWindowId,
    InvalidWindowId,
    MissingStageArgument,
    MissingUnstageArgument,
    InvalidStageCommand,
    InvalidUnstageCommand,
}

/// Why an operation did not succeed.
#[derive(Debug, PartialEq, Eq)]
pub enum EngineError {
    /// The window is not among those the compositor reports.
    NotFound(Subject),
    /// The window is not in the set the operation takes it from.
    InvalidState(Unmet),
    /// The focused window or the active workspace could not be resolved;
    /// the text is the compositor's.
    ActiveWindowUnavailable(String),
    /// The compositor did not carry out a move; the text is the compositor's.
    RemoteActionFailure(String),
    /// The query for the live windows failed; the text is the compositor's.
    RegistryError(String),
    /// The request was not understood.
    ProtocolError(Malformed),
}

impl Malformed {
    /// The wording of each protocol fault.
    pub open spec fn text(self) -> Seq<char> {
        match self {
            Malformed::UnknownCommand => "Unknown command"@,
            Malformed::MissingWindowId => "Missing window id"@,
            Malformed::InvalidWindowId => "Invalid window id"@,
            Malformed::MissingStageArgument => "Missing argument for stage"@,
            Malformed::MissingUnstageArgument => "Missing argument for unstage"@,
            Malformed::InvalidStageCommand => "Invalid stage command"@,
            Malformed::InvalidUnstageCommand => "Invalid unstage command"@,
        }
    }

    /// The reason as shown to a client.
    pub fn message(&self) -> (text: String)
        ensures
            text@ == self.text(),
    {
        match self {
            Malformed::UnknownCommand => String::from_str("Unknown command"),
            Malformed::MissingWindowId => String::from_str("Missing window id"),
            Malformed::InvalidWindowId => String::from_str("Invalid window id"),
            Malformed::MissingStageArgument => String::from_str("Missing argument for stage"),
            Malformed::MissingUnstageArgument => String::from_str("Missing argument for unstage"),
            Malformed::InvalidStageCommand => String::from_str("Invalid stage command"),
            Malformed::InvalidUnstageCommand => String::from_str("Invalid unstage command"),
        }
    }
}

impl EngineError {
    /// The wording of each error. What the compositor said is passed on as it came.
    pub open spec fn text(self) -> Seq<char> {
        match self {
            EngineError::NotFound(Subject::Window) => "Window not found in Niri"@,
            EngineError::NotFound(Subject::ActiveWindow) => "Active window not found in Niri"@,
            EngineError::InvalidState(Unmet::NotSticky) => "Window is not sticky, cannot stage"@,
            EngineError::InvalidState(Unmet::NotStaged(Subject::Window)) => "Window is not staged"@,
            EngineError::InvalidState(Unmet::NotStaged(Subject::ActiveWindow)) =>
                "Active window is not staged"@,
            EngineError::InvalidState(Unmet::Staged(Subject::Window)) =>
                "Window is staged, cannot make sticky"@,
            EngineError::InvalidState(Unmet::Staged(Subject::ActiveWindow)) =>
                "Active window is staged, cannot make sticky"@,
            EngineError::ActiveWindowUnavailable(reason) => reason@,
            EngineError::RemoteActionFailure(reason) => reason@,
            EngineError::RegistryError(reason) => reason@,
            EngineError::ProtocolError(fault) => fault.text(),
        }
    }

    /// The reason as shown to a client.
    pub fn message(&self) -> (text: String)
        ensures
            text@ == self.text(),
    {
        match self {
            EngineError::NotFound(Subject::Window) => String::from_str("Window not found in Niri"),
            EngineError::NotFound(Subject::ActiveWindow) => String::from_str(
                "Active window not found in Niri",
            ),
            EngineError::InvalidState(Unmet::NotSticky) => String::from_str(
                "Window is not sticky, cannot stage",
            ),
            EngineError::InvalidState(Unmet::NotStaged(Subject::Window)) => String::from_str(
                "Window is not staged",
            ),
            EngineError::InvalidState(Unmet::NotStaged(Subject::ActiveWindow)) => String::from_str(
                "Active window is not staged",
            ),
            EngineError::InvalidState(Unmet::Staged(Subject::Window)) => String::from_str(
                "Window is staged, cannot make sticky",
            ),
            EngineError::InvalidState(Unmet::Staged(Subject::ActiveWindow)) => String::from_str(
                "Active window is staged, cannot make sticky",
            ),
            EngineError::ActiveWindowUnavailable(reason) => reason.clone(),
            EngineError::RemoteActionFailure(reason) => reason.clone(),
            EngineError::RegistryError(reason) => reason.clone(),
            EngineError::ProtocolError(fault) => fault.message(),
        }
    }
}

} // verus!
