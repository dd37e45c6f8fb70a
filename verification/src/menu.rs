//! What the tray menu shows of the state: the clients with their command
//! tokens, which of them is selected, and whether a start or a stop is on
//! offer. Titles and layout are the host's.

use crate::command::{remove_text, remove_token, select_text, select_token};
use crate::config::lists;
use crate::manager::PortguardManager;
use crate::model::ManagerView;
use crate::process::{ClientId, Status};
use vstd::prelude::*;

verus! {

/// The menu entries of one client.
#[derive(Debug, PartialEq, Eq)]
pub struct ClientMenu {
    pub id: ClientId,
    /// The path of the executable.
    pub path: String,
    /// Whether this client is the active one.
    pub selected: bool,
    /// The token of the entry that selects this client.
    pub select_token: String,
    /// The token of the entry that removes this client.
    pub remove_token: String,
}

/// A [`ClientMenu`] as a mathematical value.
pub struct ClientMenuView {
    pub id: ClientId,
    pub path: Seq<char>,
    pub selected: bool,
    pub select_token: Seq<char>,
    pub remove_token: Seq<char>,
}

impl View for ClientMenu {
    type V = ClientMenuView;

    open spec fn view(&self) -> ClientMenuView {
        ClientMenuView {
            id: self.id,
            path: self.path@,
            selected: self.selected,
            select_token: self.select_token@,
            remove_token: self.remove_token@,
        }
    }
}

/// The parts of the tray menu that depend on the state.
#[derive(Debug, PartialEq, Eq)]
pub struct TrayMenu {
    /// One entry for each registered client, in no particular order.
    pub clients: Vec<ClientMenu>,
    /// Whether the start entry is enabled.
    pub start_enabled: bool,
    /// Whether the stop entry is enabled.
    pub stop_enabled: bool,
}

/// The menu entries of the registered client `id` in `state`.
pub open spec fn client_menu_of(state: ManagerView, id: ClientId) -> ClientMenuView {
    ClientMenuView {
        id,
        path: state.config.clients[id],
        selected: state.status.active() == Some(id),
        select_token: select_text(id),
        remove_token: remove_text(id),
    }
}

/// The clients that `menus` names, each with its path.
pub open spec fn named_clients(menus: Seq<ClientMenu>) -> Seq<(ClientId, Seq<char>)> {
    Seq::new(menus.len(), |i: int| (menus[i].id, menus[i].path@))
}

impl PortguardManager {
    /// Whether `id` is the active client.
    pub fn is_active(&self, id: ClientId) -> (active: bool)
        ensures
            active == (self@.status.active() == Some(id)),
    {
        match self.status().active_client() {
            Some(active) => active == id,
            None => false,
        }
    }

    /// The menu for the current state: each registered client once, marked
    /// if it is the active one; a start on offer while a client is stopped,
    /// a stop while one is running.
    pub fn build_menu(&self) -> (menu: TrayMenu)
        ensures
            menu.start_enabled == (self@.status is Stopped),
            menu.stop_enabled == (self@.status is Running),
            lists(named_clients(menu.clients@), self@.config.clients),
            forall|i: int|
                0 <= i < menu.clients.len() ==> (#[trigger] menu.clients[i])@ == client_menu_of(
                    self@,
                    menu.clients[i].id,
                ),
    {
        let list = self.list_clients();
        let mut clients: Vec<ClientMenu> = Vec::new();
        let mut i: usize = 0;
        while i < list.len()
            invariant
                i <= list.len(),
                clients.len() == i,
                lists(list.deep_view(), self@.config.clients),
                forall|k: int|
                    0 <= k < i ==> (#[trigger] clients[k])@ == client_menu_of(self@, list[k].0),
            decreases list.len() - i,
        {
            let id: ClientId = list[i].0;
            proof {
                let entry = list.deep_view()[i as int];
                assert(self@.config.clients[entry.0] == entry.1);
            }
            clients.push(
                ClientMenu {
                    id,
                    path: list[i].1.clone(),
                    selected: self.is_active(id),
                    select_token: select_token(id),
                    remove_token: remove_token(id),
                },
            );
            i = i + 1;
        }
        proof {
            assert forall|k: int| 0 <= k < list.len() implies named_clients(clients@)[k]
                == #[trigger] list.deep_view()[k] by {
                assert(clients[k]@ == client_menu_of(self@, list[k].0));
            }
            assert(named_clients(clients@) =~= list.deep_view());
        }
        let (start_enabled, stop_enabled) = match self.status() {
            Status::Running(_) => (false, true),
            Status::Stopped(_) => (true, false),
            Status::Unselected => (false, false),
        };
        TrayMenu { clients, start_enabled, stop_enabled }
    }
}

} // verus!
