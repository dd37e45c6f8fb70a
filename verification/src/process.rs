//! The values exchanged between the supervisor and its host.

use vstd::prelude::*;

verus! {

/// Identifier of a registered client: a 128-bit value.
pub type ClientId = u128;

/// Which client is active, and whether its process is alive.
#[derive(Copy, Clone, Debug, PartialEq, Eq, Structural)]
pub enum Status {
    Running(ClientId),
    Stopped(ClientId),
    Unselected,
}

/// Token for one live child process: the id under which the host finds the
/// process again.
#[derive(Copy, Clone, Debug, PartialEq, Eq, Structural)]
pub struct ProcessHandle {
    pub pid: u32,
}

/// What the host has been asked to do and has not reported on yet.
#[derive(Copy, Clone, Debug, PartialEq, Eq, Structural)]
pub enum Pending {
    /// Nothing is outstanding.
    Idle,
    /// A launch of the selected client. `select` is set when the launch ends
    /// a switchover, so that success records the selection.
    Starting { select: bool },
    /// A termination of the running client. `next` names the client to
    /// switch to once the process is gone.
    Stopping { next: Option<ClientId> },
}

impl Status {
    /// The active client, if any.
    pub open spec fn active(self) -> Option<ClientId> {
        match self {
            Status::Running(id) => Some(id),
            Status::Stopped(id) => Some(id),
            Status::Unselected => None,
        }
    }

    /// The active client, if any.
    pub fn active_client(&self) -> (r: Option<ClientId>)
        ensures
            r == self.active(),
    {
        match self {
            Status::Running(id) => Some(*id),
            Status::Stopped(id) => Some(*id),
            Status::Unselected => None,
        }
    }
}

/// A step that only the host can take.
#[derive(Debug, PartialEq, Eq)]
pub enum Action {
    /// The operation is complete.
    Nothing,
    /// Launch the executable at this path, then report `Spawned` or
    /// `SpawnFailed`.
    Spawn(String),
    /// Terminate this process, then report `Killed` or `KillFailed`.
    Kill(ProcessHandle),
}

/// An [`Action`] as a mathematical value.
pub enum ActionView {
    Nothing,
    Spawn(Seq<char>),
    Kill(ProcessHandle),
}

impl View for Action {
    type V = ActionView;

    open spec fn view(&self) -> ActionView {
        match self {
            Action::Nothing => ActionView::Nothing,
            Action::Spawn(path) => ActionView::Spawn(path@),
            Action::Kill(handle) => ActionView::Kill(*handle),
        }
    }
}

/// What the host reports after carrying out an [`Action`].
#[derive(Debug, PartialEq, Eq)]
pub enum Event {
    /// The launch succeeded; the handle stands for the new process.
    Spawned(ProcessHandle),
    /// The launch failed, with the reason the system gave.
    SpawnFailed(String),
    /// The process is gone.
    Killed,
    /// The termination failed, with the reason the system gave.
    KillFailed(String),
}

/// An [`Event`] as a mathematical value.
pub enum EventView {
    Spawned(ProcessHandle),
    SpawnFailed(Seq<char>),
    Killed,
    KillFailed(Seq<char>),
}

impl View for Event {
    type V = EventView;

    open spec fn view(&self) -> EventView {
        match self {
            Event::Spawned(handle) => EventView::Spawned(*handle),
            Event::SpawnFailed(reason) => EventView::SpawnFailed(reason@),
            Event::Killed => EventView::Killed,
            Event::KillFailed(reason) => EventView::KillFailed(reason@),
        }
    }
}

/// Why an operation was refused or did not complete.
#[derive(Debug, PartialEq, Eq)]
pub enum ManagerError {
    /// The client to remove is the one that is running.
    ClientIsRunning,
    /// A start was asked for while no stopped client is selected.
    OtherIsRunning,
    /// An operation was asked for while the host owes a report.
    Busy,
    /// A report arrived that answers no outstanding action.
    Unexpected,
    /// The launch failed, with the reason the system gave.
    Spawn(String),
    /// The termination failed, with the reason the system gave.
    Kill(String),
}

/// A [`ManagerError`] as a mathematical value.
pub enum ErrorView {
    ClientIsRunning,
    OtherIsRunning,
    Busy,
    Unexpected,
    Spawn(Seq<char>),
    Kill(Seq<char>),
}

impl View for ManagerError {
    type V = ErrorView;

    open spec fn view(&self) -> ErrorView {
        match self {
            ManagerError::ClientIsRunning => ErrorView::ClientIsRunning,
            ManagerError::OtherIsRunning => ErrorView::OtherIsRunning,
            ManagerError::Busy => ErrorView::Busy,
            ManagerError::Unexpected => ErrorView::Unexpected,
            ManagerError::Spawn(reason) => ErrorView::Spawn(reason@),
            ManagerError::Kill(reason) => ErrorView::Kill(reason@),
        }
    }
}

/// The result of an operation as a mathematical value.
pub open spec fn outcome_view(result: Result<Action, ManagerError>) -> Result<
    ActionView,
    ErrorView,
> {
    match result {
        Ok(action) => Ok(action@),
        Err(error) => Err(error@),
    }
}

/// The result of a removal as a mathematical value.
pub open spec fn refusal_view(result: Result<(), ManagerError>) -> Result<(), ErrorView> {
    match result {
        Ok(()) => Ok(()),
        Err(error) => Err(error@),
    }
}

impl ErrorView {
    /// The text shown to the user for this error.
    pub open spec fn message(self) -> Seq<char> {
        match self {
            ErrorView::ClientIsRunning => "Client is Running"@,
            ErrorView::OtherIsRunning => "Other Is Running"@,
            ErrorView::Busy => "Another operation is in progress"@,
            ErrorView::Unexpected => "No operation awaits this report"@,
            ErrorView::Spawn(reason) => reason,
            ErrorView::Kill(reason) => reason,
        }
    }
}

impl ManagerError {
    /// The text shown to the user for this error.
    pub fn message(&self) -> (text: String)
        ensures
            text@ == self@.message(),
    {
        match self {
            ManagerError::ClientIsRunning => "Client is Running".to_owned(),
            ManagerError::OtherIsRunning => "Other Is Running".to_owned(),
            ManagerError::Busy => "Another operation is in progress".to_owned(),
            ManagerError::Unexpected => "No operation awaits this report".to_owned(),
            ManagerError::Spawn(reason) => reason.clone(),
            ManagerError::Kill(reason) => reason.clone(),
        }
    }
}

} // verus!
