//! The manager: the registry, the status and the one process handle, behind
//! operations that keep them consistent.

use crate::config::{lists, Config};
use crate::ident::{fresh_id, is_random_id};
use crate::model::ManagerView;
use crate::process::{
    outcome_view, refusal_view, Action, ClientId, Event, ManagerError, Pending, ProcessHandle,
    Status,
};
use vstd::prelude::*;

verus! {

/// Registry of clients and supervisor of the active one.
///
/// The manager decides; the host acts. An operation that needs a process
/// launched or terminated hands back an [`Action`] and waits: the host
/// carries the action out and passes what happened to
/// [`PortguardManager::on_event`], which may hand back a further action.
/// Until the report is in, operations other than [`PortguardManager::add_client`]
/// are refused as `Busy`.
///
/// A start looks up the path of the active client. That the client is
/// registered is asked of the caller: selecting an identifier that was never
/// registered is accepted, starting it is not.
#[derive(Debug)]
pub struct PortguardManager {
    config: Config,
    status: Status,
    child: Option<ProcessHandle>,
    pending: Pending,
}

impl View for PortguardManager {
    type V = ManagerView;

    closed spec fn view(&self) -> ManagerView {
        ManagerView {
            config: self.config@,
            status: self.status,
            child: self.child,
            pending: self.pending,
        }
    }
}

impl PortguardManager {
    /// Whether the manager is in a state that its operations can reach.
    pub open spec fn wf(&self) -> bool {
        self@.inv()
    }

    /// A manager over `config`, with nothing selected and no process.
    pub fn new(config: Config) -> (manager: PortguardManager)
        ensures
            manager@ == ManagerView::initial(config@),
            manager.wf(),
    {
        PortguardManager { config, status: Status::Unselected, child: None, pending: Pending::Idle }
    }

    /// The active client and whether its process is alive.
    pub fn status(&self) -> (status: Status)
        ensures
            status == self@.status,
    {
        self.status
    }

    /// The handle of the live process.
    pub fn child(&self) -> (child: Option<ProcessHandle>)
        ensures
            child == self@.child,
    {
        self.child
    }

    /// What the host owes a report on.
    pub fn pending(&self) -> (pending: Pending)
        ensures
            pending == self@.pending,
    {
        self.pending
    }

    /// The state to persist.
    pub fn config(&self) -> (config: &Config)
        ensures
            config@ == self@.config,
    {
        &self.config
    }

    /// The registered clients, each once, in no particular order.
    pub fn list_clients(&self) -> (list: Vec<(ClientId, String)>)
        ensures
            lists(list.deep_view(), self@.config.clients),
    {
        self.config.list_clients()
    }

    /// Whether the recovery at startup finds the path it has to launch: the
    /// condition that [`PortguardManager::init`] asks of its caller.
    pub fn can_init(&self) -> (ready: bool)
        ensures
            ready == self@.can_init(),
    {
        match (self.pending, self.config.last_selected()) {
            (Pending::Idle, Some(id)) => self.config.contains(id),
            _ => true,
        }
    }

    /// Whether a selection of `id` finds the path it has to launch, where it
    /// leads to a switchover: the condition that
    /// [`PortguardManager::select_client`] asks of its caller.
    pub fn can_select(&self, id: ClientId) -> (ready: bool)
        ensures
            ready == self@.can_select(id),
    {
        match (self.pending, self.status) {
            (Pending::Idle, Status::Running(active)) => active == id || self.config.contains(id),
            _ => true,
        }
    }

    /// Whether a start finds the path it has to launch: the condition that
    /// [`PortguardManager::start_background`] asks of its caller.
    pub fn can_start(&self) -> (ready: bool)
        ensures
            ready == self@.can_start(),
    {
        match (self.pending, self.status) {
            (Pending::Idle, Status::Stopped(id)) => self.config.contains(id),
            _ => true,
        }
    }

    /// Recovery at startup. The client that was selected last becomes the
    /// stopped active client, and the action asks for its launch; with no
    /// last selection, or while a report is owed, nothing happens.
    pub fn init(&mut self) -> (action: Action)
        requires
            old(self).wf(),
            old(self)@.can_init(),
        ensures
            final(self).wf(),
            (final(self)@, action@) == old(self)@.init(),
    {
        match (self.config.last_selected(), self.pending) {
            (Some(id), Pending::Idle) => {
                let path = self.config.path_of(id).unwrap();
                self.status = Status::Stopped(id);
                self.child = None;
                self.pending = Pending::Starting { select: false };
                Action::Spawn(path)
            },
            _ => Action::Nothing,
        }
    }

    /// Registers `path` under a new random identifier and returns it. The
    /// status is untouched.
    pub fn add_client(&mut self, path: String) -> (id: ClientId)
        requires
            old(self).wf(),
        ensures
            final(self).wf(),
            final(self)@ == old(self)@.add_client(id, path@),
            is_random_id(id),
    {
        let id: ClientId = fresh_id();
        self.add_client_with_id(id, path);
        id
    }

    /// Registers `path` under `id`, replacing what `id` stood for. The
    /// status is untouched.
    pub fn add_client_with_id(&mut self, id: ClientId, path: String)
        requires
            old(self).wf(),
        ensures
            final(self).wf(),
            final(self)@ == old(self)@.add_client(id, path@),
    {
        self.config.add(id, path);
    }

    /// Removes `id` from the registry. The running client is not removed;
    /// removing the stopped active client leaves nothing selected.
    pub fn remove_client(&mut self, id: ClientId) -> (result: Result<(), ManagerError>)
        requires
            old(self).wf(),
        ensures
            final(self).wf(),
            (final(self)@, refusal_view(result)) == old(self)@.remove_client(id),
    {
        match self.pending {
            Pending::Idle => {},
            _ => {
                return Err(ManagerError::Busy);
            },
        }
        match self.status {
            Status::Running(active) => {
                if active == id {
                    return Err(ManagerError::ClientIsRunning);
                }
            },
            Status::Stopped(active) => {
                if active == id {
                    self.status = Status::Unselected;
                }
            },
            Status::Unselected => {},
        }
        self.config.forget(id);
        Ok(())
    }

    /// Makes `id` the active client.
    ///
    /// With `id` running already, or with no client running, this is done
    /// at once and `id` is recorded as the last selection. With another
    /// client running it begins a switchover: the action asks for the
    /// termination of that client; the launch of `id` follows the report, and
    /// the selection is recorded when the launch has succeeded.
    pub fn select_client(&mut self, id: ClientId) -> (result: Result<Action, ManagerError>)
        requires
            old(self).wf(),
            old(self)@.can_select(id),
        ensures
            final(self).wf(),
            (final(self)@, outcome_view(result)) == old(self)@.select_client(id),
    {
        match self.pending {
            Pending::Idle => {},
            _ => {
                return Err(ManagerError::Busy);
            },
        }
        match self.status {
            Status::Running(active) => {
                if active == id {
                    self.config.select(id);
                    Ok(Action::Nothing)
                } else {
                    self.pending = Pending::Stopping { next: Some(id) };
                    Ok(Action::Kill(self.child.unwrap()))
                }
            },
            _ => {
                self.status = Status::Stopped(id);
                self.config.select(id);
                Ok(Action::Nothing)
            },
        }
    }

    /// Asks for the launch of the stopped active client. With no stopped
    /// client selected this is refused and nothing changes.
    pub fn start_background(&mut self) -> (result: Result<Action, ManagerError>)
        requires
            old(self).wf(),
            old(self)@.can_start(),
        ensures
            final(self).wf(),
            (final(self)@, outcome_view(result)) == old(self)@.start_background(),
    {
        match self.pending {
            Pending::Idle => {},
            _ => {
                return Err(ManagerError::Busy);
            },
        }
        match self.status {
            Status::Stopped(id) => {
                let path = self.config.path_of(id).unwrap();
                self.pending = Pending::Starting { select: false };
                Ok(Action::Spawn(path))
            },
            _ => Err(ManagerError::OtherIsRunning),
        }
    }

    /// Asks for the termination of the running client. With no client
    /// running there is nothing to do, and that is a success.
    pub fn stop_background(&mut self) -> (result: Result<Action, ManagerError>)
        requires
            old(self).wf(),
        ensures
            final(self).wf(),
            (final(self)@, outcome_view(result)) == old(self)@.stop_background(),
    {
        match self.pending {
            Pending::Idle => {},
            _ => {
                return Err(ManagerError::Busy);
            },
        }
        match self.status {
            Status::Running(_) => {
                self.pending = Pending::Stopping { next: None };
                Ok(Action::Kill(self.child.unwrap()))
            },
            _ => Ok(Action::Nothing),
        }
    }

    /// Takes the host's report on the pending action and says what follows.
    pub fn on_event(&mut self, event: Event) -> (result: Result<Action, ManagerError>)
        requires
            old(self).wf(),
        ensures
            final(self).wf(),
            (final(self)@, outcome_view(result)) == old(self)@.on_event(event@),
    {
        match (self.pending, event, self.status) {
            (Pending::Starting { select }, Event::Spawned(handle), Status::Stopped(id)) => {
                if select {
                    self.config.select(id);
                }
                self.status = Status::Running(id);
                self.child = Some(handle);
                self.pending = Pending::Idle;
                Ok(Action::Nothing)
            },
            (Pending::Starting { .. }, Event::SpawnFailed(reason), _) => {
                self.pending = Pending::Idle;
                Err(ManagerError::Spawn(reason))
            },
            (Pending::Stopping { next: None }, Event::Killed, Status::Running(id)) => {
                self.status = Status::Stopped(id);
                self.child = None;
                self.pending = Pending::Idle;
                Ok(Action::Nothing)
            },
            (Pending::Stopping { next: Some(id) }, Event::Killed, Status::Running(_)) => {
                let path = self.config.path_of(id).unwrap();
                self.status = Status::Stopped(id);
                self.child = None;
                self.pending = Pending::Starting { select: true };
                Ok(Action::Spawn(path))
            },
            (Pending::Stopping { .. }, Event::KillFailed(reason), _) => {
                self.pending = Pending::Idle;
                Err(ManagerError::Kill(reason))
            },
            _ => Err(ManagerError::Unexpected),
        }
    }
}

} // verus!
