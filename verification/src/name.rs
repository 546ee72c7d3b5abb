//! The text of generated unit names: one token for each constituent, and the
//! tokens joined by a separator.

use crate::decimal::{decimal, decimal_text};
use vstd::prelude::*;

verus! {

/// What stands between two tokens of a generated name: `" * "`.
pub open spec fn separator() -> Seq<char> {
    seq![' ', '*', ' ']
}

/// What a constituent called `name`, raised to `exponent`, contributes to a
/// generated name: the bare name for the first power, nothing for the zeroth,
/// and otherwise the name, a caret and the exponent in decimal.
pub open spec fn token(name: Seq<char>, exponent: int) -> Seq<char> {
    if exponent == 1 {
        name
    } else if exponent == 0 {
        Seq::empty()
    } else {
        name.push('^') + decimal(exponent)
    }
}

/// `parts` written one after another with `sep` between each two neighbours.
pub open spec fn joined(parts: Seq<Seq<char>>, sep: Seq<char>) -> Seq<char>
    decreases parts.len(),
{
    if parts.len() == 0 {
        Seq::empty()
    } else if parts.len() == 1 {
        parts.first()
    } else {
        parts.first() + sep + joined(parts.drop_first(), sep)
    }
}

/// The character sequences that a sequence of strings holds.
pub open spec fn texts(parts: Seq<String>) -> Seq<Seq<char>> {
    parts.map_values(|part: String| part@)
}

/// Builds the token of a constituent.
pub fn token_text(name: &str, exponent: i32) -> (text: String)
    ensures
        text@ == token(name@, exponent as int),
{
    if exponent == 1 {
        String::from_str(name)
    } else if exponent != 0 {
        let mut text = String::from_str(name);
        text.append("^");
        text.append(decimal_text(exponent).as_str());
        proof {
            reveal_strlit("^");
            assert(text@ =~= token(name@, exponent as int));
        }
        text
    } else {
        String::new()
    }
}

/// Calls `itertools::join` on the strings of `parts`.
///
/// Trusted, not proved: the result is empty where `parts` is empty, and
/// otherwise the first string followed, for each later string in order, by
/// `sep` and that string. Before it writes, the outside function reserves
/// `sep.len()` bytes for each string after the first. A separator of at most
/// three characters has at most twelve bytes, no more than a `String` takes
/// in the vector, so that product cannot overflow.
#[verifier::external_body]
pub(crate) fn join(parts: &Vec<String>, sep: &str) -> (text: String)
    requires
        sep@.len() <= 3,
    ensures
        text@ == joined(texts(parts@), sep@),
{
    itertools::join(parts, sep)
}

} // verus!
