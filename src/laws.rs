//! Properties that relate several operations on generators.
use vstd::prelude::*;
use crate::draw::{u32_outcome, RangeError};
use crate::source::{advanced_state, wy_fork, WYRAND_INCREMENT};

verus! {

/// One operation on a fast generator, as a call sequence records it.
pub enum Step {
    /// A draw from `lo..=hi`.
    Draw { lo: u32, hi: u32 },
    /// A fork into a new generator.
    Fork,
}

/// What one operation gave: a drawn value, or the state of a forked child.
pub enum Outcome {
    Drawn(Result<u32, RangeError>),
    Forked(u64),
}

/// Outcome and next state of one operation from state `s`, as the contracts
/// of `u32`, `fork` and the `from_*` constructors state them.
pub open spec fn step(s: u64, c: Step) -> (Outcome, u64) {
    match c {
        Step::Draw { lo, hi } => (Outcome::Drawn(u32_outcome(s, lo, hi).0), u32_outcome(s, lo, hi).1),
        Step::Fork => (Outcome::Forked(wy_fork(s)), advanced_state(s)),
    }
}

/// Outcomes of running `calls` in order from state `s`, and the final state.
pub open spec fn replay(s: u64, calls: Seq<Step>) -> (Seq<Outcome>, u64)
    decreases calls.len(),
{
    if calls.len() == 0 {
        (Seq::empty(), s)
    } else {
        let first = step(s, calls[0]);
        let rest = replay(first.1, calls.drop_first());
        (seq![first.0].add(rest.0), rest.1)
    }
}

/// A call sequence's outcomes depend on the starting state alone: running it
/// whole gives what running its first part, then the rest from where the first
/// part left the generator, gives. Two generators seeded alike thus replay any
/// call sequence alike, however it is cut into pieces.
pub proof fn lemma_replay_in_pieces(s: u64, a: Seq<Step>, b: Seq<Step>)
    ensures
        replay(s, a + b).0 == replay(s, a).0 + replay(replay(s, a).1, b).0,
        replay(s, a + b).1 == replay(replay(s, a).1, b).1,
    decreases a.len(),
{
    if a.len() == 0 {
        assert(a + b =~= b);
        assert(replay(s, a).0 + replay(s, b).0 =~= replay(s, b).0);
    } else {
        let first = step(s, a[0]);
        assert((a + b).drop_first() =~= a.drop_first() + b);
        assert((a + b)[0] == a[0]);
        lemma_replay_in_pieces(first.1, a.drop_first(), b);
        let tail_a = replay(first.1, a.drop_first());
        let tail_b = replay(tail_a.1, b);
        assert(replay(s, a + b).0 =~= seq![first.0].add(tail_a.0 + tail_b.0));
        assert(replay(s, a).0 + tail_b.0 =~= seq![first.0].add(tail_a.0 + tail_b.0));
    }
}

/// Forking moves the parent to a new state word, so two forks in a row start
/// from different parent states.
pub proof fn lemma_fork_advances(s: u64)
    ensures
        advanced_state(s) != s,
        advanced_state(advanced_state(s)) != advanced_state(s),
{
    assert(WYRAND_INCREMENT as int % 0x1_0000_0000_0000_0000int != 0);
}

} // verus!
