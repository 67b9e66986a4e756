//! The answers a player types: the poison picked from the menu, and whether to
//! play another game.

use vstd::prelude::*;
use vstd::string::StrSliceExecFns;
use crate::poison::{poison_of_choice, PoisonType};

verus! {

/// What `str::trim` gives for a text.
pub uninterp spec fn trimmed_of(s: Seq<char>) -> Seq<char>;

/// What `str::parse::<u32>` gives for a text, `None` for an error.
pub uninterp spec fn parsed_u32_of(s: Seq<char>) -> Option<u32>;

/// What `str::to_uppercase` gives for a text.
pub uninterp spec fn upper_of(s: Seq<char>) -> Seq<char>;

/// Relies on `str::trim`: the text without its leading and trailing white space.
#[verifier::external_body]
fn trim_text(s: &str) -> (r: &str)
    ensures
        r@ == trimmed_of(s@),
{
    s.trim()
}

/// Relies on `str::parse::<u32>`: the number the text writes in decimal, if any.
#[verifier::external_body]
fn parse_number(s: &str) -> (r: Option<u32>)
    ensures
        r == parsed_u32_of(s@),
{
    s.parse::<u32>().ok()
}

/// Relies on `str::to_uppercase`: the text in upper case.
#[verifier::external_body]
fn uppercase(s: &str) -> (r: String)
    ensures
        r@ == upper_of(s@),
{
    s.to_uppercase()
}

/// The poison picked by a parsed menu answer.
pub open spec fn poison_of_answer(n: Option<u32>) -> Option<PoisonType> {
    match n {
        Some(choice) => poison_of_choice(choice),
        None => None,
    }
}

/// Whether an upper-cased answer asks for another game: `Y` yes, `N` no.
pub open spec fn replay_of(s: Seq<char>) -> Option<bool> {
    if s == seq!['Y'] {
        Some(true)
    } else if s == seq!['N'] {
        Some(false)
    } else {
        None
    }
}

/// The poison picked by a line typed at the menu: once trimmed, a number that
/// is 1 or 2.
pub fn parse_choice(line: &str) -> (r: Option<PoisonType>)
    ensures
        r == poison_of_answer(parsed_u32_of(trimmed_of(line@))),
{
    let number = parse_number(trim_text(line));
    match number {
        Some(choice) => PoisonType::from_choice(choice),
        None => None,
    }
}

/// Whether an upper-cased answer asks for another game.
pub fn replay_answer(answer: &str) -> (r: Option<bool>)
    ensures
        r == replay_of(answer@),
{
    if answer.unicode_len() != 1 {
        proof {
            assert(seq!['Y'].len() == 1);
            assert(seq!['N'].len() == 1);
        }
        return None;
    }
    let c = answer.get_char(0);
    if c == 'Y' {
        assert(answer@ =~= seq!['Y']);
        Some(true)
    } else if c == 'N' {
        assert(answer@ =~= seq!['N']);
        Some(false)
    } else {
        assert(answer@[0] != seq!['Y'][0]);
        assert(answer@[0] != seq!['N'][0]);
        None
    }
}

/// Whether a line typed after a game asks for another one: once trimmed and
/// upper-cased, `Y` for yes and `N` for no.
pub fn parse_replay(line: &str) -> (r: Option<bool>)
    ensures
        r == replay_of(upper_of(trimmed_of(line@))),
{
    let upper = uppercase(trim_text(line));
    replay_answer(upper.as_str())
}

} // verus!
