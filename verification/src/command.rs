//! The commands that reach the manager from the menu, and the tokens that
//! stand for them.
//!
//! A fixed command is its own word. A command on a client is a two-character
//! prefix, `s-` to select and `r-` to remove, followed by the client's
//! identifier.

use crate::ident::{hyphenated, id_text, parse_id, parsed_id};
use crate::process::ClientId;
use vstd::prelude::*;
use vstd::string::StrSliceExecFns;
use vstd::string::StringExecFns;

verus! {

/// What the user can ask for.
#[derive(Copy, Clone, Debug, PartialEq, Eq, Structural)]
pub enum Command {
    Add,
    Start,
    Stop,
    Quit,
    About,
    Select(ClientId),
    Remove(ClientId),
}

/// The token that selects `id`.
pub open spec fn select_text(id: ClientId) -> Seq<char> {
    "s-"@ + hyphenated(id)
}

/// The token that removes `id`.
pub open spec fn remove_text(id: ClientId) -> Seq<char> {
    "r-"@ + hyphenated(id)
}

/// The fixed command that `token` spells.
pub open spec fn word_command(token: Seq<char>) -> Option<Command> {
    if token == "add"@ {
        Some(Command::Add)
    } else if token == "start"@ {
        Some(Command::Start)
    } else if token == "stop"@ {
        Some(Command::Stop)
    } else if token == "quit"@ {
        Some(Command::Quit)
    } else if token == "about"@ {
        Some(Command::About)
    } else {
        None
    }
}

/// The command on a client that `prefix` and the identifier read after it
/// make up.
pub open spec fn client_command_of(prefix: Seq<char>, id: Option<ClientId>) -> Option<Command> {
    match id {
        Some(id) => if prefix == "s-"@ {
            Some(Command::Select(id))
        } else if prefix == "r-"@ {
            Some(Command::Remove(id))
        } else {
            None
        },
        None => None,
    }
}

/// The command that `token` stands for: a fixed word, or a prefix of two
/// characters and an identifier that the parser accepts.
pub open spec fn command_of(token: Seq<char>) -> Option<Command> {
    if word_command(token) is Some {
        word_command(token)
    } else if token.len() < 2 {
        None
    } else {
        client_command_of(token.take(2), parsed_id(token.skip(2)))
    }
}

/// The token that selects `id`.
pub fn select_token(id: ClientId) -> (token: String)
    ensures
        token@ == select_text(id),
{
    let text = id_text(id);
    String::from_str("s-").concat(text.as_str())
}

/// The token that removes `id`.
pub fn remove_token(id: ClientId) -> (token: String)
    ensures
        token@ == remove_text(id),
{
    let text = id_text(id);
    String::from_str("r-").concat(text.as_str())
}

/// Whether `text` is `word`.
fn is_word(text: &str, word: &str) -> (same: bool)
    ensures
        same == (text@ == word@),
{
    text.to_owned() == word.to_owned()
}

/// The fixed command that `token` spells.
pub fn fixed_command(token: &str) -> (command: Option<Command>)
    ensures
        command == word_command(token@),
{
    if is_word(token, "add") {
        Some(Command::Add)
    } else if is_word(token, "start") {
        Some(Command::Start)
    } else if is_word(token, "stop") {
        Some(Command::Stop)
    } else if is_word(token, "quit") {
        Some(Command::Quit)
    } else if is_word(token, "about") {
        Some(Command::About)
    } else {
        None
    }
}

/// The command on a client that `prefix` and the identifier read after it
/// make up: none where no identifier was read or the prefix is unknown.
pub fn client_command(prefix: &str, id: Option<ClientId>) -> (command: Option<Command>)
    ensures
        command == client_command_of(prefix@, id),
{
    match id {
        Some(id) => {
            if is_word(prefix, "s-") {
                Some(Command::Select(id))
            } else if is_word(prefix, "r-") {
                Some(Command::Remove(id))
            } else {
                None
            }
        },
        None => None,
    }
}

/// Reads a token. The tokens that [`select_token`] and [`remove_token`]
/// write are read back as the commands they stand for.
pub fn parse_command(token: &str) -> (command: Option<Command>)
    ensures
        command == command_of(token@),
        forall|id: ClientId|
            token@ == #[trigger] select_text(id) ==> command == Some(Command::Select(id)),
        forall|id: ClientId|
            token@ == #[trigger] remove_text(id) ==> command == Some(Command::Remove(id)),
{
    proof {
        reveal_strlit("s-");
        reveal_strlit("r-");
        assert forall|known: ClientId| token@ == #[trigger] select_text(known) implies token@.len()
            == 38 && word_command(token@) is None by {
            lemma_client_token_is_no_word("s-"@, known);
        }
        assert forall|known: ClientId| token@ == #[trigger] remove_text(known) implies token@.len()
            == 38 && word_command(token@) is None by {
            lemma_client_token_is_no_word("r-"@, known);
        }
    }
    let fixed = fixed_command(token);
    if fixed.is_some() {
        return fixed;
    }
    let length: usize = token.unicode_len();
    if length < 2 {
        return None;
    }
    let prefix = token.substring_char(0, 2);
    let rest = token.substring_char(2, length);
    let id = parse_id(rest);
    proof {
        assert forall|known: ClientId| token@ == #[trigger] select_text(known) implies id == Some(
            known,
        ) && prefix@ == "s-"@ by {
            assert(token@.skip(2) =~= hyphenated(known));
        }
        assert forall|known: ClientId| token@ == #[trigger] remove_text(known) implies id == Some(
            known,
        ) && prefix@ == "r-"@ && prefix@ != "s-"@ by {
            assert(token@.skip(2) =~= hyphenated(known));
            assert("r-"@[0] != "s-"@[0]);
        }
    }
    client_command(prefix, id)
}

/// A prefix of two characters and an identifier spell no fixed word: the
/// token is longer than any of them.
proof fn lemma_client_token_is_no_word(prefix: Seq<char>, id: ClientId)
    requires
        prefix.len() == 2,
    ensures
        (prefix + hyphenated(id)).len() == 38,
        word_command(prefix + hyphenated(id)) is None,
{
    reveal_strlit("add");
    reveal_strlit("start");
    reveal_strlit("stop");
    reveal_strlit("quit");
    reveal_strlit("about");
    assert("add"@.len() == 3);
    assert("start"@.len() == 5);
    assert("stop"@.len() == 4);
    assert("quit"@.len() == 4);
    assert("about"@.len() == 5);
}

} // verus!
