//! Client identifiers: 128-bit values, drawn at random, written as 32
//! hexadecimal digits in five groups.

use crate::process::ClientId;
use vstd::arithmetic::power::pow;
use vstd::prelude::*;

verus! {

/// Whether `id` carries the marks of a random identifier: version 4 in bits
/// 76 to 79, and `10` in bits 62 and 63.
pub open spec fn is_random_id(id: ClientId) -> bool {
    id & 0x0000_0000_0000_f000_c000_0000_0000_0000 == 0x0000_0000_0000_4000_8000_0000_0000_0000
}

/// A new identifier from `uuid::Uuid::new_v4`, as the number that
/// `Uuid::as_u128` gives for it.
///
/// Trusted: that the number carries the version and variant marks, which
/// `new_v4` sets on the random bits. Nothing is claimed of the other bits, so
/// nothing says that two calls differ. `new_v4` panics where the system
/// cannot supply random bytes.
#[verifier::external_body]
pub(crate) fn fresh_id() -> (id: ClientId)
    ensures
        is_random_id(id),
{
    uuid::Uuid::new_v4().as_u128()
}

/// The digit for `n`, lower case.
pub open spec fn hex_digit(n: int) -> char {
    seq!['0', '1', '2', '3', '4', '5', '6', '7', '8', '9', 'a', 'b', 'c', 'd', 'e', 'f'][n]
}

/// Which of the 32 digits, counted from the most significant, stands at
/// place `i` of the 36 places of the text.
pub open spec fn digit_at(i: int) -> int {
    if i < 8 {
        i
    } else if i < 13 {
        i - 1
    } else if i < 18 {
        i - 2
    } else if i < 23 {
        i - 3
    } else {
        i - 4
    }
}

/// The text of `id`: its 32 hexadecimal digits, most significant first, in
/// groups of 8, 4, 4, 4 and 12 with a hyphen between two groups.
pub open spec fn hyphenated(id: ClientId) -> Seq<char> {
    Seq::new(
        36,
        |i: int|
            if i == 8 || i == 13 || i == 18 || i == 23 {
                '-'
            } else {
                hex_digit((id as int / pow(16, (31 - digit_at(i)) as nat)) % 16)
            },
    )
}

/// The text of `id`, from the `Display` of `uuid::Uuid` on
/// `Uuid::from_u128(id)`.
///
/// Trusted: that the text is the hyphenated lower-case form.
#[verifier::external_body]
pub(crate) fn id_text(id: ClientId) -> (text: String)
    ensures
        text@ == hyphenated(id),
{
    uuid::Uuid::from_u128(id).to_string()
}

/// What `uuid::Uuid::parse_str` makes of `text`: the identifier that it
/// reads, as a number, or `None` where it reports an error.
pub uninterp spec fn parsed_id(text: Seq<char>) -> Option<ClientId>;

/// Reads an identifier with `uuid::Uuid::parse_str`.
///
/// Trusted: that the result depends on the text alone, and that the
/// hyphenated form of an identifier is read back as that identifier, which
/// the parser promises of every form that the crate writes. The other forms
/// that it accepts are not described here.
#[verifier::external_body]
pub(crate) fn parse_id(text: &str) -> (id: Option<ClientId>)
    ensures
        id == parsed_id(text@),
        forall|known: ClientId| text@ == #[trigger] hyphenated(known) ==> id == Some(known),
{
    match uuid::Uuid::parse_str(text) {
        Ok(parsed) => Some(parsed.as_u128()),
        Err(_) => None,
    }
}

} // verus!
