//! The one source of chance: draws from the thread's random number generator.

use vstd::prelude::*;
use rand::seq::SliceRandom;
use rand::Rng;

verus! {

/// Draws a whole number from `lo..=hi`.
///
/// Calls `rand::thread_rng` and `rand::Rng::gen_range` on the inclusive
/// range. The range is never empty here, so the call does not panic on its
/// argument, and the number drawn lies in the range; which number it is
/// depends on chance, so nothing more is claimed of it. The generator seeds
/// itself from the operating system at its first use in a thread, and
/// panics if that fails.
#[verifier::external_body]
pub(crate) fn draw_in_range(lo: i64, hi: i64) -> (r: i64)
    requires
        lo <= hi,
    ensures
        lo <= r <= hi,
{
    rand::thread_rng().gen_range(lo..=hi)
}

/// Picks one of `choices`.
///
/// Calls `rand::thread_rng` and `rand::seq::SliceRandom::choose` on the
/// list as a slice: nothing is picked from an empty list, and else what is
/// picked is an entry of the list; which entry depends on chance.
#[verifier::external_body]
pub(crate) fn choose_one(choices: &Vec<u32>) -> (r: Option<u32>)
    ensures
        choices.len() == 0 ==> r.is_none(),
        choices.len() > 0 ==> r.is_some() && choices@.contains(r.unwrap()),
{
    choices.choose(&mut rand::thread_rng()).copied()
}

} // verus!
