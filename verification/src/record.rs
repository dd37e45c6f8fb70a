//! The state as a file holds it: each identifier written out as text.

use crate::config::{lemma_listing_round_trip, lists, Config, ConfigView};
use crate::ident::{hyphenated, id_text, parse_id, parsed_id};
use crate::process::ClientId;
use vstd::prelude::*;

verus! {

/// The persisted state with its identifiers as text.
#[derive(Debug, PartialEq, Eq)]
pub struct ConfigRecord {
    /// Each client: the text of its identifier, and the path of its
    /// executable.
    pub clients: Vec<(String, String)>,
    /// The text of the identifier that was selected last.
    pub last_selected: Option<String>,
}

/// A [`ConfigRecord`] as a mathematical value.
pub struct RecordView {
    pub clients: Seq<(Seq<char>, Seq<char>)>,
    pub last_selected: Option<Seq<char>>,
}

impl View for ConfigRecord {
    type V = RecordView;

    open spec fn view(&self) -> RecordView {
        RecordView {
            clients: self.clients.deep_view(),
            last_selected: match self.last_selected {
                Some(text) => Some(text@),
                None => None,
            },
        }
    }
}

/// `entries` with each identifier written out.
pub open spec fn spelled(entries: Seq<(ClientId, Seq<char>)>) -> Seq<(Seq<char>, Seq<char>)> {
    Seq::new(entries.len(), |i: int| (hyphenated(entries[i].0), entries[i].1))
}

/// An optional identifier written out.
pub open spec fn spelled_selection(selection: Option<ClientId>) -> Option<Seq<char>> {
    match selection {
        Some(id) => Some(hyphenated(id)),
        None => None,
    }
}

/// Whether `record` is `config` written out: a listing of its clients, each
/// once, and its last selection, every identifier in the hyphenated form.
pub open spec fn records(record: RecordView, config: ConfigView) -> bool {
    &&& record.last_selected == spelled_selection(config.last_selected)
    &&& exists|entries: Seq<(ClientId, Seq<char>)>|
        lists(entries, config.clients) && record.clients == #[trigger] spelled(entries)
}

/// The entries that the parser reads from `clients`: none where it refuses
/// one of the identifiers.
pub open spec fn read_entries(clients: Seq<(Seq<char>, Seq<char>)>) -> Option<
    Seq<(ClientId, Seq<char>)>,
>
    decreases clients.len(),
{
    if clients.len() == 0 {
        Some(Seq::empty())
    } else {
        match (read_entries(clients.drop_last()), parsed_id(clients.last().0)) {
            (Some(entries), Some(id)) => Some(entries.push((id, clients.last().1))),
            _ => None,
        }
    }
}

/// The selection that the parser reads from `text`: none where it refuses
/// the identifier.
pub open spec fn read_selection(text: Option<Seq<char>>) -> Option<Option<ClientId>> {
    match text {
        None => Some(None),
        Some(text) => match parsed_id(text) {
            Some(id) => Some(Some(id)),
            None => None,
        },
    }
}

/// The state that `record` stands for: its entries registered in their
/// order, and its selection; none where the parser refuses an identifier.
pub open spec fn read_record(record: RecordView) -> Option<ConfigView> {
    match (read_entries(record.clients), read_selection(record.last_selected)) {
        (Some(entries), Some(selection)) => Some(ConfigView::from_entries(entries, selection)),
        _ => None,
    }
}

impl ConfigRecord {
    /// Writes `config` out.
    pub fn of(config: &Config) -> (record: ConfigRecord)
        ensures
            records(record@, config@),
    {
        let list = config.list_clients();
        let mut clients: Vec<(String, String)> = Vec::new();
        let mut i: usize = 0;
        while i < list.len()
            invariant
                i <= list.len(),
                clients.deep_view() == spelled(list.deep_view().take(i as int)),
            decreases list.len() - i,
        {
            let ghost before = clients.deep_view();
            clients.push((id_text(list[i].0), list[i].1.clone()));
            proof {
                let entry = list.deep_view()[i as int];
                assert(clients.deep_view() =~= before.push((hyphenated(entry.0), entry.1)));
            }
            i = i + 1;
        }
        let last_selected = match config.last_selected() {
            Some(id) => Some(id_text(id)),
            None => None,
        };
        proof {
            assert(list.deep_view().take(i as int) =~= list.deep_view());
        }
        ConfigRecord { clients, last_selected }
    }

    /// Reads the state back: the entries registered in their order, and the
    /// selection; none where an identifier is not one.
    ///
    /// What [`ConfigRecord::of`] wrote is read back as the state it was
    /// written from.
    pub fn read(&self) -> (config: Option<Config>)
        ensures
            match config {
                Some(config) => read_record(self@) == Some(config@),
                None => read_record(self@) is None,
            },
            forall|written: ConfigView|
                records(self@, written) ==> config is Some && config->0@ == written,
    {
        let ghost texts = self.clients.deep_view();
        let mut entries: Vec<(ClientId, String)> = Vec::new();
        let mut i: usize = 0;
        while i < self.clients.len()
            invariant
                i <= self.clients.len(),
                texts == self.clients.deep_view(),
                read_entries(texts.take(i as int)) == Some(entries.deep_view()),
                forall|known: Seq<(ClientId, Seq<char>)>| #[trigger]
                    spelled(known) == texts ==> entries.deep_view() == known.take(i as int),
            decreases self.clients.len() - i,
        {
            let ghost text = texts[i as int];
            proof {
                assert(texts.take(i + 1).drop_last() =~= texts.take(i as int));
            }
            match parse_id(self.clients[i].0.as_str()) {
                Some(id) => {
                    entries.push((id, self.clients[i].1.clone()));
                    proof {
                        assert forall|known: Seq<(ClientId, Seq<char>)>| #[trigger]
                            spelled(known) == texts implies entries.deep_view() == known.take(
                            i + 1,
                        ) by {
                            assert(spelled(known)[i as int] == text);
                            assert(known.take(i + 1) =~= known.take(i as int).push(
                                known[i as int],
                            ));
                        }
                    }
                },
                None => {
                    proof {
                        lemma_read_entries_prefix(texts, i + 1);
                    }
                    return None;
                },
            }
            i = i + 1;
        }
        proof {
            assert(texts.take(i as int) =~= texts);
        }
        let selection = match &self.last_selected {
            Some(text) => match parse_id(text.as_str()) {
                Some(id) => Some(id),
                None => {
                    return None;
                },
            },
            None => None,
        };
        let config = Config::from_entries(&entries, selection);
        proof {
            assert forall|written: ConfigView| records(self@, written) implies config@
                == written by {
                let known = choose|known: Seq<(ClientId, Seq<char>)>|
                    lists(known, written.clients) && self@.clients == #[trigger] spelled(known);
                assert(known.take(i as int) =~= known);
                lemma_listing_round_trip(written, known);
            }
        }
        Some(config)
    }
}

/// Where the parser refuses an identifier among the first `n` entries, it
/// refuses the whole.
proof fn lemma_read_entries_prefix(clients: Seq<(Seq<char>, Seq<char>)>, n: int)
    requires
        0 <= n <= clients.len(),
        read_entries(clients.take(n)) is None,
    ensures
        read_entries(clients) is None,
    decreases clients.len() - n,
{
    if n < clients.len() {
        assert(clients.take(n + 1).drop_last() =~= clients.take(n));
        lemma_read_entries_prefix(clients, n + 1);
    } else {
        assert(clients.take(n) =~= clients);
    }
}

} // verus!
