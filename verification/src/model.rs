//! The supervisor as a state machine over mathematical values.
//!
//! Each operation of the manager is a function from a state to the next state
//! and to what the operation hands back. The executable manager is proved to
//! follow these functions step by step; the laws at the end of this file are
//! proved of the functions themselves.

use crate::config::ConfigView;
use crate::process::{ActionView, ClientId, ErrorView, EventView, Pending, ProcessHandle, Status};
use vstd::prelude::*;

verus! {

/// The manager as a mathematical value.
#[verifier::ext_equal]
pub struct ManagerView {
    /// The registry and the last selection.
    pub config: ConfigView,
    /// The active client and whether its process is alive.
    pub status: Status,
    /// The handle of the live process.
    pub child: Option<ProcessHandle>,
    /// What the host owes a report on.
    pub pending: Pending,
}

/// What an operation hands back: the next step for the host, or the reason
/// why there is none.
pub type Outcome = Result<ActionView, ErrorView>;

impl ManagerView {
    /// The state right after construction: nothing selected, no process.
    pub open spec fn initial(config: ConfigView) -> ManagerView {
        ManagerView { config, status: Status::Unselected, child: None, pending: Pending::Idle }
    }

    /// What holds of every state that the operations can reach.
    ///
    /// A handle is held exactly while the status is `Running`; a pending
    /// launch has a stopped client to launch, a pending termination a running
    /// one, and the client to switch to is registered.
    pub open spec fn inv(self) -> bool {
        &&& self.child is Some <==> self.status is Running
        &&& self.pending is Starting ==> self.status is Stopped
        &&& self.pending is Stopping ==> self.status is Running
        &&& self.pending matches Pending::Stopping { next: Some(id) }
            ==> self.config.clients.contains_key(id)
    }

    /// Whether `id` is registered.
    pub open spec fn registered(self, id: ClientId) -> bool {
        self.config.clients.contains_key(id)
    }

    /// Whether a start finds the path it has to launch.
    pub open spec fn can_start(self) -> bool {
        self.pending is Idle ==> (self.status matches Status::Stopped(id) ==> self.registered(id))
    }

    /// Whether a selection of `id` finds the path it has to launch, where it
    /// leads to a switchover.
    pub open spec fn can_select(self, id: ClientId) -> bool {
        self.pending is Idle ==> (self.status matches Status::Running(active) ==> active == id
            || self.registered(id))
    }

    /// Whether the recovery at startup finds the path it has to launch.
    pub open spec fn can_init(self) -> bool {
        self.pending is Idle ==> (self.config.last_selected matches Some(id) ==> self.registered(
            id,
        ))
    }

    /// Registers `path` under `id`. The status is untouched.
    pub open spec fn add_client(self, id: ClientId, path: Seq<char>) -> ManagerView {
        ManagerView { config: self.config.add(id, path), ..self }
    }

    /// Removes `id`, unless it is the running client or a report is owed.
    /// Removing the stopped active client leaves nothing selected.
    pub open spec fn remove_client(self, id: ClientId) -> (ManagerView, Result<(), ErrorView>) {
        if !(self.pending is Idle) {
            (self, Err(ErrorView::Busy))
        } else if self.status == Status::Running(id) {
            (self, Err(ErrorView::ClientIsRunning))
        } else {
            (
                ManagerView {
                    config: self.config.forget(id),
                    status: if self.status == Status::Stopped(id) {
                        Status::Unselected
                    } else {
                        self.status
                    },
                    ..self
                },
                Ok(()),
            )
        }
    }

    /// Makes `id` the active client. With another client running this
    /// begins a switchover: the running process is to be terminated first.
    pub open spec fn select_client(self, id: ClientId) -> (ManagerView, Outcome) {
        if !(self.pending is Idle) {
            (self, Err(ErrorView::Busy))
        } else {
            match self.status {
                Status::Running(active) => if active == id {
                    (
                        ManagerView { config: self.config.select(id), ..self },
                        Ok(ActionView::Nothing),
                    )
                } else {
                    (
                        ManagerView { pending: Pending::Stopping { next: Some(id) }, ..self },
                        Ok(ActionView::Kill(self.child.unwrap())),
                    )
                },
                _ => (
                    ManagerView {
                        config: self.config.select(id),
                        status: Status::Stopped(id),
                        ..self
                    },
                    Ok(ActionView::Nothing),
                ),
            }
        }
    }

    /// Asks for the launch of the stopped active client.
    pub open spec fn start_background(self) -> (ManagerView, Outcome) {
        if !(self.pending is Idle) {
            (self, Err(ErrorView::Busy))
        } else {
            match self.status {
                Status::Stopped(id) => (
                    ManagerView { pending: Pending::Starting { select: false }, ..self },
                    Ok(ActionView::Spawn(self.config.clients[id])),
                ),
                _ => (self, Err(ErrorView::OtherIsRunning)),
            }
        }
    }

    /// Asks for the termination of the running client. With no client
    /// running there is nothing to do, and that is a success.
    pub open spec fn stop_background(self) -> (ManagerView, Outcome) {
        if !(self.pending is Idle) {
            (self, Err(ErrorView::Busy))
        } else {
            match self.status {
                Status::Running(_) => (
                    ManagerView { pending: Pending::Stopping { next: None }, ..self },
                    Ok(ActionView::Kill(self.child.unwrap())),
                ),
                _ => (self, Ok(ActionView::Nothing)),
            }
        }
    }

    /// Recovery at startup: the client that was selected last becomes the
    /// stopped active client, and its launch is asked for.
    pub open spec fn init(self) -> (ManagerView, ActionView) {
        match self.config.last_selected {
            Some(id) if self.pending is Idle => (
                ManagerView {
                    status: Status::Stopped(id),
                    child: None,
                    pending: Pending::Starting { select: false },
                    ..self
                },
                ActionView::Spawn(self.config.clients[id]),
            ),
            _ => (self, ActionView::Nothing),
        }
    }

    /// Takes the host's report on the action that is pending.
    ///
    /// A launch that succeeded makes the stopped client the running one. A
    /// termination that succeeded leaves the client stopped, or, in a
    /// switchover, makes the next client the stopped one and asks for its
    /// launch. A failure ends the operation where it stands. A report that
    /// answers no pending action changes nothing.
    pub open spec fn on_event(self, event: EventView) -> (ManagerView, Outcome) {
        match (self.pending, event, self.status) {
            (Pending::Starting { select }, EventView::Spawned(handle), Status::Stopped(id)) => (
                ManagerView {
                    config: if select {
                        self.config.select(id)
                    } else {
                        self.config
                    },
                    status: Status::Running(id),
                    child: Some(handle),
                    pending: Pending::Idle,
                },
                Ok(ActionView::Nothing),
            ),
            (Pending::Starting { .. }, EventView::SpawnFailed(reason), _) => (
                ManagerView { pending: Pending::Idle, ..self },
                Err(ErrorView::Spawn(reason)),
            ),
            (Pending::Stopping { next: None }, EventView::Killed, Status::Running(id)) => (
                ManagerView {
                    status: Status::Stopped(id),
                    child: None,
                    pending: Pending::Idle,
                    ..self
                },
                Ok(ActionView::Nothing),
            ),
            (Pending::Stopping { next: Some(id) }, EventView::Killed, Status::Running(_)) => (
                ManagerView {
                    status: Status::Stopped(id),
                    child: None,
                    pending: Pending::Starting { select: true },
                    ..self
                },
                Ok(ActionView::Spawn(self.config.clients[id])),
            ),
            (Pending::Stopping { .. }, EventView::KillFailed(reason), _) => (
                ManagerView { pending: Pending::Idle, ..self },
                Err(ErrorView::Kill(reason)),
            ),
            _ => (self, Err(ErrorView::Unexpected)),
        }
    }
}

/// One thing that can happen to the manager: an operation asked for, or a
/// report from the host.
pub enum Input {
    AddClient(ClientId, Seq<char>),
    RemoveClient(ClientId),
    SelectClient(ClientId),
    Start,
    Stop,
    Init,
    Report(EventView),
}

impl ManagerView {
    /// Whether `input` may happen in this state: the operations that look a
    /// path up ask that it be there.
    pub open spec fn admits(self, input: Input) -> bool {
        match input {
            Input::SelectClient(id) => self.can_select(id),
            Input::Start => self.can_start(),
            Input::Init => self.can_init(),
            _ => true,
        }
    }

    /// The state after `input`.
    pub open spec fn step(self, input: Input) -> ManagerView {
        match input {
            Input::AddClient(id, path) => self.add_client(id, path),
            Input::RemoveClient(id) => self.remove_client(id).0,
            Input::SelectClient(id) => self.select_client(id).0,
            Input::Start => self.start_background().0,
            Input::Stop => self.stop_background().0,
            Input::Init => self.init().0,
            Input::Report(event) => self.on_event(event).0,
        }
    }

    /// What `input` asks of the host.
    pub open spec fn asks(self, input: Input) -> ActionView {
        match input {
            Input::SelectClient(id) => action_of(self.select_client(id).1),
            Input::Start => action_of(self.start_background().1),
            Input::Stop => action_of(self.stop_background().1),
            Input::Init => self.init().1,
            Input::Report(event) => action_of(self.on_event(event).1),
            _ => ActionView::Nothing,
        }
    }
}

/// The action in an outcome; a failure asks for nothing.
pub open spec fn action_of(outcome: Outcome) -> ActionView {
    match outcome {
        Ok(action) => action,
        Err(_) => ActionView::Nothing,
    }
}

/// The state after `inputs`, in their order, from `start`.
pub open spec fn run(start: ManagerView, inputs: Seq<Input>) -> ManagerView
    decreases inputs.len(),
{
    if inputs.len() == 0 {
        start
    } else {
        run(start, inputs.drop_last()).step(inputs.last())
    }
}

/// Whether each of `inputs` may happen in the state that the ones before it
/// lead to.
pub open spec fn admissible(start: ManagerView, inputs: Seq<Input>) -> bool
    decreases inputs.len(),
{
    inputs.len() == 0 || (admissible(start, inputs.drop_last()) && run(
        start,
        inputs.drop_last(),
    ).admits(inputs.last()))
}

/// Every step keeps the invariant.
pub proof fn lemma_step_keeps_inv(state: ManagerView, input: Input)
    requires
        state.inv(),
        state.admits(input),
    ensures
        state.step(input).inv(),
{
}

/// In every state that can be reached from a fresh manager, a process handle
/// is held exactly while the status is `Running`.
pub proof fn lemma_handle_iff_running(config: ConfigView, inputs: Seq<Input>)
    requires
        admissible(ManagerView::initial(config), inputs),
    ensures
        run(ManagerView::initial(config), inputs).inv(),
        run(ManagerView::initial(config), inputs).child is Some <==> run(
            ManagerView::initial(config),
            inputs,
        ).status is Running,
    decreases inputs.len(),
{
    if inputs.len() > 0 {
        lemma_handle_iff_running(config, inputs.drop_last());
        lemma_step_keeps_inv(run(ManagerView::initial(config), inputs.drop_last()), inputs.last());
    }
}

/// There is never a second handle. A launch is asked for only while no
/// handle is held, and a handle is taken only from a report on the pending
/// launch, into the empty slot.
pub proof fn lemma_single_handle(state: ManagerView, input: Input)
    requires
        state.inv(),
        state.admits(input),
    ensures
        state.asks(input) is Spawn ==> state.step(input).child is None && state.step(
            input,
        ).pending is Starting,
        state.step(input).child != state.child && state.step(input).child is Some
            ==> state.child is None && state.pending is Starting && input == Input::Report(
            EventView::Spawned(state.step(input).child->0),
        ),
{
}

/// A handle is given up only when the host has reported the process gone,
/// or by the recovery at startup, which starts over from a stopped client.
pub proof fn lemma_handle_given_up(state: ManagerView, input: Input)
    requires
        state.inv(),
        state.admits(input),
        state.child is Some,
        state.step(input).child is None,
    ensures
        input is Init || (state.pending is Stopping && input == Input::Report(EventView::Killed)),
{
}

/// Stopping when nothing runs succeeds and changes nothing, however often
/// it is asked for.
pub proof fn lemma_stop_is_idempotent(state: ManagerView)
    requires
        state.pending is Idle,
        !(state.status is Running),
    ensures
        state.stop_background() == (state, Ok::<ActionView, ErrorView>(ActionView::Nothing)),
        state.stop_background().0.stop_background() == state.stop_background(),
{
}

/// A start carried through. From a stopped client the start asks for the
/// launch of its path. A launch that succeeds leaves that client running
/// with the new handle; one that fails leaves the state as it was.
pub proof fn lemma_start_carried_through(
    state: ManagerView,
    id: ClientId,
    handle: ProcessHandle,
    reason: Seq<char>,
)
    requires
        state.pending is Idle,
        state.status == Status::Stopped(id),
    ensures
        state.start_background().1 == Ok::<ActionView, ErrorView>(
            ActionView::Spawn(state.config.clients[id]),
        ),
        state.start_background().0.on_event(EventView::Spawned(handle)) == (
            ManagerView { status: Status::Running(id), child: Some(handle), ..state },
            Ok::<ActionView, ErrorView>(ActionView::Nothing),
        ),
        state.start_background().0.on_event(EventView::SpawnFailed(reason)) == (
            state,
            Err::<ActionView, ErrorView>(ErrorView::Spawn(reason)),
        ),
{
}

/// A stop carried through. From a running client the stop asks for the
/// termination of its process. A termination that succeeds leaves that
/// client stopped and no handle; one that fails leaves the state as it was,
/// handle included.
pub proof fn lemma_stop_carried_through(
    state: ManagerView,
    id: ClientId,
    handle: ProcessHandle,
    reason: Seq<char>,
)
    requires
        state.pending is Idle,
        state.status == Status::Running(id),
        state.child == Some(handle),
    ensures
        state.stop_background().1 == Ok::<ActionView, ErrorView>(ActionView::Kill(handle)),
        state.stop_background().0.on_event(EventView::Killed) == (
            ManagerView { status: Status::Stopped(id), child: None, ..state },
            Ok::<ActionView, ErrorView>(ActionView::Nothing),
        ),
        state.stop_background().0.on_event(EventView::KillFailed(reason)) == (
            state,
            Err::<ActionView, ErrorView>(ErrorView::Kill(reason)),
        ),
{
}

/// A switchover carried through. With `active` running, the selection of
/// another client `id` asks for the termination of the running process. If
/// that fails, the state is as it was. If it succeeds, the launch of `id` is
/// asked for: a launch that succeeds leaves `id` running with the new handle
/// and recorded as the last selection; one that fails leaves `id` stopped,
/// no handle, and the last selection as it was.
pub proof fn lemma_switchover_carried_through(
    state: ManagerView,
    active: ClientId,
    id: ClientId,
    old_handle: ProcessHandle,
    new_handle: ProcessHandle,
    reason: Seq<char>,
)
    requires
        state.pending is Idle,
        state.status == Status::Running(active),
        state.child == Some(old_handle),
        active != id,
    ensures
        state.select_client(id).1 == Ok::<ActionView, ErrorView>(ActionView::Kill(old_handle)),
        state.select_client(id).0.on_event(EventView::KillFailed(reason)) == (
            state,
            Err::<ActionView, ErrorView>(ErrorView::Kill(reason)),
        ),
        state.select_client(id).0.on_event(EventView::Killed).1 == Ok::<ActionView, ErrorView>(
            ActionView::Spawn(state.config.clients[id]),
        ),
        state.select_client(id).0.on_event(EventView::Killed).0.on_event(
            EventView::Spawned(new_handle),
        ) == (
            ManagerView {
                config: state.config.select(id),
                status: Status::Running(id),
                child: Some(new_handle),
                ..state
            },
            Ok::<ActionView, ErrorView>(ActionView::Nothing),
        ),
        state.select_client(id).0.on_event(EventView::Killed).0.on_event(
            EventView::SpawnFailed(reason),
        ) == (
            ManagerView { status: Status::Stopped(id), child: None, ..state },
            Err::<ActionView, ErrorView>(ErrorView::Spawn(reason)),
        ),
{
}

/// The recovery at startup carried through. With `id` selected last, it asks
/// for the launch of `id`. A launch that succeeds leaves `id` running with
/// the new handle; one that fails leaves `id` stopped.
pub proof fn lemma_recovery_carried_through(
    config: ConfigView,
    id: ClientId,
    handle: ProcessHandle,
    reason: Seq<char>,
)
    requires
        config.last_selected == Some(id),
    ensures
        ManagerView::initial(config).init().1 == ActionView::Spawn(config.clients[id]),
        ManagerView::initial(config).init().0.on_event(EventView::Spawned(handle)) == (
            ManagerView {
                config,
                status: Status::Running(id),
                child: Some(handle),
                pending: Pending::Idle,
            },
            Ok::<ActionView, ErrorView>(ActionView::Nothing),
        ),
        ManagerView::initial(config).init().0.on_event(EventView::SpawnFailed(reason)) == (
            ManagerView {
                config,
                status: Status::Stopped(id),
                child: None,
                pending: Pending::Idle,
            },
            Err::<ActionView, ErrorView>(ErrorView::Spawn(reason)),
        ),
{
}

} // verus!
