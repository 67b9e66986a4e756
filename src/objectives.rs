//! Random objectives for a turn.

use vstd::prelude::*;

verus! {

/// Highest value an objective can take.
pub const MAX_OBJECTIVE: u32 = 100;

/// Number of letters that key a map of objectives.
pub const LETTER_COUNT: u8 = 26;

/// Relies on rand's `Rng::random_range` over an inclusive range of the thread
/// generator: a value drawn between `low` and `high`, both included. It panics on
/// an empty range, which `requires` leaves out.
#[verifier::external_body]
fn random_between(low: u32, high: u32) -> (r: u32)
    requires
        low <= high,
    ensures
        low <= r <= high,
{
    rand::Rng::random_range(&mut rand::rng(), low..=high)
}

/// The `index`-th lowercase ASCII letter.
fn letter(index: u8) -> (r: char)
    requires
        index < LETTER_COUNT,
    ensures
        'a' <= r <= 'z',
{
    (97u8 + index) as char
}

/// No two entries share a key.
pub open spec fn keys_distinct(entries: Seq<(char, u32)>) -> bool {
    forall|i: int, j: int|
        0 <= i < entries.len() && 0 <= j < entries.len() && i != j ==> #[trigger] entries[i].0
            != #[trigger] entries[j].0
}

/// Every key is a lowercase ASCII letter and every value an objective.
pub open spec fn entries_valid(entries: Seq<(char, u32)>) -> bool {
    forall|i: int|
        0 <= i < entries.len() ==> 'a' <= #[trigger] entries[i].0 <= 'z' && entries[i].1
            <= MAX_OBJECTIVE
}

/// Sets the value of `key`, adding an entry where the key is new.
fn insert_entry(entries: &mut Vec<(char, u32)>, key: char, value: u32)
    requires
        keys_distinct(old(entries)@),
    ensures
        keys_distinct(final(entries)@),
        old(entries)@.len() <= final(entries)@.len() <= old(entries)@.len() + 1,
        forall|i: int|
            0 <= i < final(entries)@.len() ==> #[trigger] final(entries)@[i] == (key, value)
                || old(entries)@.contains(final(entries)@[i]),
        exists|i: int| 0 <= i < final(entries)@.len() && #[trigger] final(entries)@[i] == (key, value),
{
    let mut j: usize = 0;
    while j < entries.len()
        invariant
            entries@ == old(entries)@,
            keys_distinct(entries@),
            j <= entries@.len(),
            forall|k: int| 0 <= k < j ==> #[trigger] entries@[k].0 != key,
        decreases entries@.len() - j,
    {
        if entries[j].0 == key {
            let ghost before = entries@;
            entries.set(j, (key, value));
            assert forall|i: int| 0 <= i < entries@.len() && i != j implies #[trigger] before.contains(entries@[i]) by {
                assert(before[i] == entries@[i]);
            }
            assert(entries@[j as int] == (key, value));
            return;
        }
        j = j + 1;
    }
    let ghost before = entries@;
    entries.push((key, value));
    assert forall|i: int| 0 <= i < before.len() implies #[trigger] before.contains(entries@[i]) by {
        assert(before[i] == entries@[i]);
    }
    assert(entries@[before.len() as int] == (key, value));
}

/// Draws objectives for turns.
pub struct Objectives;

impl Objectives {
    /// `n` objectives, each drawn between 0 and 100.
    pub fn generate(n: usize) -> (r: Vec<u32>)
        ensures
            r@.len() == n,
            forall|i: int| 0 <= i < r@.len() ==> #[trigger] r@[i] <= MAX_OBJECTIVE,
    {
        let mut objectives: Vec<u32> = Vec::new();
        let mut i: usize = 0;
        while i < n
            invariant
                i <= n,
                objectives@.len() == i,
                forall|k: int| 0 <= k < objectives@.len() ==> #[trigger] objectives@[k] <= MAX_OBJECTIVE,
            decreases n - i,
        {
            let value = random_between(0, MAX_OBJECTIVE);
            objectives.push(value);
            i = i + 1;
        }
        objectives
    }

    /// Up to `n` objectives keyed by lowercase letters: `n` times a letter and a
    /// value between 0 and 100 are drawn, and a letter drawn again takes the new
    /// value. The keys are distinct.
    pub fn generate_map(n: usize) -> (r: Vec<(char, u32)>)
        ensures
            r@.len() <= n,
            n > 0 ==> r@.len() > 0,
            keys_distinct(r@),
            entries_valid(r@),
    {
        let mut entries: Vec<(char, u32)> = Vec::new();
        let mut i: usize = 0;
        while i < n
            invariant
                i <= n,
                entries@.len() <= i,
                i > 0 ==> entries@.len() > 0,
                keys_distinct(entries@),
                entries_valid(entries@),
            decreases n - i,
        {
            let index = random_between(0, (LETTER_COUNT - 1) as u32);
            let key = letter(index as u8);
            let value = random_between(0, MAX_OBJECTIVE);
            let ghost before = entries@;
            insert_entry(&mut entries, key, value);
            assert forall|k: int| 0 <= k < entries@.len() implies 'a' <= #[trigger] entries@[k].0 <= 'z'
                && entries@[k].1 <= MAX_OBJECTIVE by {
                if entries@[k] != (key, value) {
                    let m = choose|m: int| 0 <= m < before.len() && before[m] == entries@[k];
                    assert('a' <= before[m].0 <= 'z');
                }
            }
            i = i + 1;
        }
        entries
    }
}

} // verus!
