//! The calls this library makes into the clock, the random number generator
//! and the id generator. Each answer depends on the moment or on chance, so
//! the contracts below state only what holds of every answer.
use vstd::prelude::*;
use rand::seq::SliceRandom;
use rand::Rng;

verus! {

/// The current wall-clock time in milliseconds since the Unix epoch, as
/// `chrono::Utc::now().timestamp_millis()` reports it. `Utc::now` measures
/// the time since the epoch (and stops the program on a clock set before
/// it), so the reading is never negative; the value itself depends on the
/// moment of the call and is left unsaid.
#[verifier::external_body]
pub(crate) fn now_millis() -> (r: i64)
    ensures
        r >= 0,
{
    chrono::Utc::now().timestamp_millis()
}

/// A fresh random (version 4) UUID in its hyphenated text form, from
/// `uuid::Uuid::new_v4` and its `Display`, which writes the 36-character
/// lower-case hyphenated form. Stated: the length and the four hyphens;
/// the hexadecimal digits are left unsaid, being random.
#[verifier::external_body]
pub(crate) fn new_uuid_string() -> (r: String)
    ensures
        r@.len() == 36,
        r@[8] == '-' && r@[13] == '-' && r@[18] == '-' && r@[23] == '-',
{
    uuid::Uuid::new_v4().to_string()
}

/// One element of `candidates`, picked at random by `rand`'s
/// `SliceRandom::choose` with the thread-local generator: `None` exactly
/// when `candidates` is empty, otherwise one of its elements. Which element
/// is left unsaid: it is chance.
#[verifier::external_body]
pub(crate) fn choose_one(candidates: &Vec<usize>) -> (r: Option<usize>)
    ensures
        r is None <==> candidates@.len() == 0,
        r matches Some(x) ==> candidates@.contains(x),
{
    candidates.choose(&mut rand::thread_rng()).copied()
}

/// A random number below `n` from `rand`'s thread-local generator
/// (`Rng::gen_range(0..n)`, which picks uniformly in the range). Which one
/// is left unsaid: it is chance. An empty range would make `gen_range`
/// panic, hence `n > 0`.
#[verifier::external_body]
pub(crate) fn random_below(n: u32) -> (r: u32)
    requires
        n > 0,
    ensures
        r < n,
{
    rand::thread_rng().gen_range(0..n)
}

} // verus!
