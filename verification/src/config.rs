//! The durable part of the state: the registered clients and the last
//! selection.

use crate::process::ClientId;
use std::collections::HashMap;
use vstd::prelude::*;
use vstd::std_specs::hash::spec_hash_map_iter;
use vstd::std_specs::iter::IteratorSpec;

verus! {

broadcast use vstd::std_specs::hash::group_hash_axioms;

/// A [`Config`] as a mathematical value: each registered identifier with the
/// path of its executable, and the identifier that was selected last.
#[verifier::ext_equal]
pub struct ConfigView {
    pub clients: Map<ClientId, Seq<char>>,
    pub last_selected: Option<ClientId>,
}

impl ConfigView {
    /// No client, no selection.
    pub open spec fn empty() -> ConfigView {
        ConfigView { clients: Map::empty(), last_selected: None }
    }

    /// The registry with `id` bound to `path`, whatever it was bound to.
    pub open spec fn add(self, id: ClientId, path: Seq<char>) -> ConfigView {
        ConfigView { clients: self.clients.insert(id, path), ..self }
    }

    /// The registry without `id`; a last selection of `id` is forgotten.
    pub open spec fn forget(self, id: ClientId) -> ConfigView {
        ConfigView {
            clients: self.clients.remove(id),
            last_selected: if self.last_selected == Some(id) {
                None
            } else {
                self.last_selected
            },
        }
    }

    /// The same registry with `id` recorded as the last selection.
    pub open spec fn select(self, id: ClientId) -> ConfigView {
        ConfigView { last_selected: Some(id), ..self }
    }

    /// The state that holds `entries`, registered in their order, and
    /// `last_selected`.
    pub open spec fn from_entries(
        entries: Seq<(ClientId, Seq<char>)>,
        last_selected: Option<ClientId>,
    ) -> ConfigView
        decreases entries.len(),
    {
        if entries.len() == 0 {
            ConfigView { clients: Map::empty(), last_selected }
        } else {
            ConfigView::from_entries(entries.drop_last(), last_selected).add(
                entries.last().0,
                entries.last().1,
            )
        }
    }
}

/// Whether `entries` names each client of `clients` once, with its path, and
/// nothing else.
pub open spec fn lists(
    entries: Seq<(ClientId, Seq<char>)>,
    clients: Map<ClientId, Seq<char>>,
) -> bool {
    &&& forall|i: int|
        0 <= i < entries.len() ==> clients.contains_key(#[trigger] entries[i].0)
            && clients[entries[i].0] == entries[i].1
    &&& forall|id: ClientId| #[trigger]
        clients.contains_key(id) ==> exists|i: int|
            0 <= i < entries.len() && #[trigger] entries[i].0 == id
    &&& forall|i: int, j: int|
        0 <= i < j < entries.len() ==> #[trigger] entries[i].0 != #[trigger] entries[j].0
}

/// A state rebuilt from its own listing is the same state: what was written
/// out entry by entry comes back as it was.
pub proof fn lemma_listing_round_trip(config: ConfigView, entries: Seq<(ClientId, Seq<char>)>)
    requires
        lists(entries, config.clients),
    ensures
        ConfigView::from_entries(entries, config.last_selected) == config,
    decreases entries.len(),
{
    if entries.len() > 0 {
        let last = entries.last();
        let rest = entries.drop_last();
        let smaller = ConfigView { clients: config.clients.remove(last.0), ..config };
        assert forall|id: ClientId| #[trigger]
            smaller.clients.contains_key(id) implies exists|i: int|
            0 <= i < rest.len() && #[trigger] rest[i].0 == id by {
            let i: int = choose|i: int| 0 <= i < entries.len() && #[trigger] entries[i].0 == id;
            assert(rest[i].0 == id);
        }
        assert(lists(rest, smaller.clients));
        lemma_listing_round_trip(smaller, rest);
    }
}

/// The persisted state.
#[derive(Debug)]
pub struct Config {
    clients: HashMap<ClientId, String>,
    last_selected: Option<ClientId>,
}

impl View for Config {
    type V = ConfigView;

    closed spec fn view(&self) -> ConfigView {
        ConfigView {
            clients: self.clients@.map_values(|path: String| path@),
            last_selected: self.last_selected,
        }
    }
}

impl Config {
    /// The empty state: what a first start finds.
    pub fn new() -> (config: Config)
        ensures
            config@ == ConfigView::empty(),
    {
        let config = Config { clients: HashMap::new(), last_selected: None };
        config
    }

    /// The state that holds `entries`, registered in their order, and
    /// `last_selected`: the way back from [`Config::list_clients`] and
    /// [`Config::last_selected`].
    pub fn from_entries(
        entries: &Vec<(ClientId, String)>,
        last_selected: Option<ClientId>,
    ) -> (config: Config)
        ensures
            config@ == ConfigView::from_entries(entries.deep_view(), last_selected),
    {
        let mut config = Config { clients: HashMap::new(), last_selected };
        let ghost all = entries.deep_view();
        let mut i: usize = 0;
        while i < entries.len()
            invariant
                i <= entries.len(),
                all == entries.deep_view(),
                config@ == ConfigView::from_entries(all.take(i as int), last_selected),
            decreases entries.len() - i,
        {
            let id: ClientId = entries[i].0;
            let path = entries[i].1.clone();
            config.add(id, path);
            proof {
                let next = all.take(i + 1);
                assert(next.drop_last() =~= all.take(i as int));
            }
            i = i + 1;
        }
        assert(all.take(i as int) =~= all);
        config
    }

    /// Registers `path` under `id`, replacing what `id` stood for.
    pub fn add(&mut self, id: ClientId, path: String)
        ensures
            final(self)@ == old(self)@.add(id, path@),
    {
        self.clients.insert(id, path);
    }

    /// Removes `id` from the registry and from the last selection.
    pub fn forget(&mut self, id: ClientId)
        ensures
            final(self)@ == old(self)@.forget(id),
    {
        self.clients.remove(&id);
        if self.last_selected == Some(id) {
            self.last_selected = None;
        }
    }

    /// Records `id` as the last selection.
    pub fn select(&mut self, id: ClientId)
        ensures
            final(self)@ == old(self)@.select(id),
    {
        self.last_selected = Some(id);
    }

    /// The identifier that was selected last.
    pub fn last_selected(&self) -> (id: Option<ClientId>)
        ensures
            id == self@.last_selected,
    {
        self.last_selected
    }

    /// Whether `id` is registered.
    pub fn contains(&self, id: ClientId) -> (found: bool)
        ensures
            found == self@.clients.contains_key(id),
    {
        self.clients.contains_key(&id)
    }

    /// The registered clients, each once, in no particular order.
    pub fn list_clients(&self) -> (list: Vec<(ClientId, String)>)
        ensures
            lists(list.deep_view(), self@.clients),
    {
        let mut list: Vec<(ClientId, String)> = Vec::new();
        for entry in it: self.clients.iter()
            invariant
                it.seq() == spec_hash_map_iter(&self.clients).remaining(),
                it.seq().no_duplicates(),
                list.len() == it.index(),
                forall|i: int|
                    0 <= i < list.len() ==> list[i].0 == *it.seq()[i].0 && list[i].1@ == (
                    *it.seq()[i].1)@,
        {
            list.push((*entry.0, entry.1.clone()));
        }
        proof {
            let seen = spec_hash_map_iter(&self.clients).remaining();
            let entries = list.deep_view();
            let clients = self@.clients;
            assert forall|i: int| 0 <= i < entries.len() implies clients.contains_key(
                #[trigger] entries[i].0,
            ) && clients[entries[i].0] == entries[i].1 by {
                assert(self.clients@.contains_key(*seen[i].0));
            }
            assert forall|id: ClientId| #[trigger] clients.contains_key(id) implies exists|i: int|
                0 <= i < entries.len() && #[trigger] entries[i].0 == id by {
                let pair = (&id, &self.clients@[id]);
                let i: int = choose|i: int| 0 <= i < seen.len() && seen[i] == pair;
                assert(entries[i].0 == id);
            }
            assert forall|i: int, j: int| 0 <= i < j < entries.len() implies #[trigger] entries[i].0
                != #[trigger] entries[j].0 by {
                if entries[i].0 == entries[j].0 {
                    assert(seen[i] == seen[j]);
                }
            }
        }
        list
    }

    /// The path registered under `id`.
    pub fn path_of(&self, id: ClientId) -> (path: Option<String>)
        ensures
            match path {
                Some(p) => self@.clients.contains_key(id) && p@ == self@.clients[id],
                None => !self@.clients.contains_key(id),
            },
    {
        match self.clients.get(&id) {
            Some(p) => Some(p.clone()),
            None => None,
        }
    }
}

} // verus!
