//! What each draw of a fast generator returns, as a function of its state.
use turborand::chacha_rng::ChaChaRng;
use turborand::rng::Rng;
use vstd::prelude::*;
use crate::source::{
    chacha_sample, chacha_sample_many, chacha_sample_multiple, chacha_sample_one, chacha_shuffle,
    chacha_shuffle_list, chacha_state, chacha_u32, chacha_u32_in, distinct_positions, rng_sample,
    rng_sample_multiple, rng_shuffle, rng_u32, sampled_items, wy_sample, wy_sample_multiple,
    wy_shuffle, wy_u32_in, wyrand_state,
};

verus! {

/// A range draw was asked for with a lower bound above the upper one.
#[derive(Clone, Copy, Debug, PartialEq, Eq, Structural)]
pub struct RangeError {
    pub lo: u32,
    pub hi: u32,
}

/// Result and next state of drawing from `lo..=hi` in state `s`.
pub open spec fn u32_outcome(s: u64, lo: u32, hi: u32) -> (Result<u32, RangeError>, u64) {
    if lo > hi {
        (Err(RangeError { lo, hi }), s)
    } else {
        (Ok(wy_u32_in(s, lo, hi).0), wy_u32_in(s, lo, hi).1)
    }
}

/// Result and next state of sampling one item of `list` in state `s`.
pub open spec fn sample_outcome<T>(s: u64, list: Seq<T>) -> (Option<T>, u64) {
    if list.len() == 0 {
        (None, s)
    } else if list.len() == 1 {
        (Some(list[0]), s)
    } else {
        (Some(list[wy_sample(s, list.len()).0 as int]), wy_sample(s, list.len()).1)
    }
}

/// Result and next state of sampling `n` items of `list` without
/// replacement in state `s`; a list shorter than `n` comes back whole.
pub open spec fn sample_multiple_outcome<T>(s: u64, list: Seq<T>, n: nat) -> (Seq<T>, u64) {
    if n < list.len() {
        (sampled_items(list, wy_sample_multiple(s, list.len(), n).0), wy_sample_multiple(s, list.len(), n).1)
    } else if n == list.len() {
        (list, s)
    } else {
        shuffle_outcome(s, list)
    }
}

/// Result and next state of shuffling `list` in state `s`.
pub open spec fn shuffle_outcome<T>(s: u64, list: Seq<T>) -> (Seq<T>, u64) {
    (sampled_items(list, wy_shuffle(s, list.len()).0), wy_shuffle(s, list.len()).1)
}

/// Draws from `lo..=hi`, or reports the range as invalid without a draw.
pub(crate) fn draw_u32(r: &mut Rng, lo: u32, hi: u32) -> (v: Result<u32, RangeError>)
    ensures
        (v, wyrand_state(*final(r))) == u32_outcome(wyrand_state(*old(r)), lo, hi),
        v is Err <==> lo > hi,
        v matches Ok(x) ==> lo <= x <= hi,
{
    if lo > hi {
        Err(RangeError { lo, hi })
    } else {
        Ok(rng_u32(r, lo, hi))
    }
}

/// Samples one item of `list`.
pub(crate) fn draw_sample<T: Copy>(r: &mut Rng, list: &[T]) -> (v: Option<T>)
    ensures
        (v, wyrand_state(*final(r))) == sample_outcome(wyrand_state(*old(r)), list@),
        v is None <==> list@.len() == 0,
        v matches Some(x) ==> list@.contains(x),
{
    let v = rng_sample(r, list);
    if list.len() >= 2 {
        let ghost i = wy_sample(wyrand_state(*old(r)), list@.len()).0;
        assert(list@[i as int] == v->0);
    } else if list.len() == 1 {
        assert(list@[0] == v->0);
    }
    v
}

/// Samples `n` items of `list` at distinct positions; when `n` exceeds its
/// length, all of `list` in a drawn order.
pub(crate) fn draw_sample_multiple<T: Copy>(r: &mut Rng, list: &[T], n: usize) -> (v: Vec<T>)
    ensures
        (v@, wyrand_state(*final(r))) == sample_multiple_outcome(wyrand_state(*old(r)), list@, n as nat),
        n <= list@.len() ==> v@.len() == n && drawn_without_replacement(v@, list@),
        n > list@.len() ==> v@.len() == list@.len() && v@.to_multiset() == list@.to_multiset(),
{
    if n <= list.len() {
        let v = rng_sample_multiple(r, list, n);
        if n < list.len() {
            let ghost pos = wy_sample_multiple(wyrand_state(*old(r)), list@.len(), n as nat).0;
            assert(drawn_without_replacement(v@, list@)) by {
                assert(distinct_positions(pos, list@.len()));
                assert(v@ == sampled_items(list@, pos));
            }
        } else {
            proof {
                lemma_whole_list_drawn(list@);
            }
        }
        v
    } else {
        let mut v = copy_items(list);
        draw_shuffle(r, &mut v);
        v
    }
}

/// Shuffles `list` in place.
pub(crate) fn draw_shuffle<T>(r: &mut Rng, list: &mut Vec<T>)
    ensures
        (final(list)@, wyrand_state(*final(r))) == shuffle_outcome(wyrand_state(*old(r)), old(list)@),
        final(list)@.len() == old(list)@.len(),
        final(list)@.to_multiset() == old(list)@.to_multiset(),
{
    rng_shuffle(r, list);
}

/// Result and next state of a secure generator in state `s` drawing from
/// `lo..=hi`.
pub open spec fn secure_u32_outcome(s: Seq<u8>, lo: u32, hi: u32) -> (Result<u32, RangeError>, Seq<u8>) {
    if lo > hi {
        (Err(RangeError { lo, hi }), s)
    } else {
        (Ok(chacha_u32_in(s, lo, hi).0), chacha_u32_in(s, lo, hi).1)
    }
}

/// Result and next state of a secure generator in state `s` sampling one
/// item of `list`.
pub open spec fn secure_sample_outcome<T>(s: Seq<u8>, list: Seq<T>) -> (Option<T>, Seq<u8>) {
    if list.len() == 0 {
        (None, s)
    } else if list.len() == 1 {
        (Some(list[0]), s)
    } else {
        (Some(list[chacha_sample(s, list.len()).0 as int]), chacha_sample(s, list.len()).1)
    }
}

/// Result and next state of a secure generator in state `s` sampling `n`
/// items of `list` without replacement.
pub open spec fn secure_sample_multiple_outcome<T>(s: Seq<u8>, list: Seq<T>, n: nat) -> (Seq<T>, Seq<u8>) {
    if n < list.len() {
        (sampled_items(list, chacha_sample_multiple(s, list.len(), n).0), chacha_sample_multiple(s, list.len(), n).1)
    } else if n == list.len() {
        (list, s)
    } else {
        secure_shuffle_outcome(s, list)
    }
}

/// Result and next state of a secure generator in state `s` shuffling
/// `list`.
pub open spec fn secure_shuffle_outcome<T>(s: Seq<u8>, list: Seq<T>) -> (Seq<T>, Seq<u8>) {
    (sampled_items(list, chacha_shuffle(s, list.len()).0), chacha_shuffle(s, list.len()).1)
}

/// Draws from `lo..=hi` with a secure generator, or reports the range as
/// invalid without a draw.
pub(crate) fn secure_draw_u32(r: &mut ChaChaRng, lo: u32, hi: u32) -> (v: Result<u32, RangeError>)
    ensures
        (v, chacha_state(*final(r))) == secure_u32_outcome(chacha_state(*old(r)), lo, hi),
        v is Err <==> lo > hi,
        v matches Ok(x) ==> lo <= x <= hi,
{
    if lo > hi {
        Err(RangeError { lo, hi })
    } else {
        Ok(chacha_u32(r, lo, hi))
    }
}

/// Samples one item of `list` with a secure generator.
pub(crate) fn secure_draw_sample<T: Copy>(r: &mut ChaChaRng, list: &[T]) -> (v: Option<T>)
    ensures
        (v, chacha_state(*final(r))) == secure_sample_outcome(chacha_state(*old(r)), list@),
        v is None <==> list@.len() == 0,
        v matches Some(x) ==> list@.contains(x),
{
    let v = chacha_sample_one(r, list);
    if list.len() >= 2 {
        let ghost i = chacha_sample(chacha_state(*old(r)), list@.len()).0;
        assert(list@[i as int] == v->0);
    } else if list.len() == 1 {
        assert(list@[0] == v->0);
    }
    v
}

/// Samples `n` items of `list` at distinct positions; when `n` exceeds its
/// length, all of `list` in a drawn order.
pub(crate) fn secure_draw_sample_multiple<T: Copy>(r: &mut ChaChaRng, list: &[T], n: usize) -> (v: Vec<T>)
    ensures
        (v@, chacha_state(*final(r))) == secure_sample_multiple_outcome(chacha_state(*old(r)), list@, n as nat),
        n <= list@.len() ==> v@.len() == n && drawn_without_replacement(v@, list@),
        n > list@.len() ==> v@.len() == list@.len() && v@.to_multiset() == list@.to_multiset(),
{
    if n <= list.len() {
        let v = chacha_sample_many(r, list, n);
        if n < list.len() {
            let ghost pos = chacha_sample_multiple(chacha_state(*old(r)), list@.len(), n as nat).0;
            assert(drawn_without_replacement(v@, list@)) by {
                assert(distinct_positions(pos, list@.len()));
                assert(v@ == sampled_items(list@, pos));
            }
        } else {
            proof {
                lemma_whole_list_drawn(list@);
            }
        }
        v
    } else {
        let mut v = copy_items(list);
        secure_draw_shuffle(r, &mut v);
        v
    }
}

/// Shuffles `list` in place with a secure generator.
pub(crate) fn secure_draw_shuffle<T>(r: &mut ChaChaRng, list: &mut Vec<T>)
    ensures
        (final(list)@, chacha_state(*final(r))) == secure_shuffle_outcome(chacha_state(*old(r)), old(list)@),
        final(list)@.len() == old(list)@.len(),
        final(list)@.to_multiset() == old(list)@.to_multiset(),
{
    chacha_shuffle_list(r, list);
}

/// The items of `list`, in order, in a vector of their own.
fn copy_items<T: Copy>(list: &[T]) -> (v: Vec<T>)
    ensures
        v@ == list@,
{
    let mut v: Vec<T> = Vec::new();
    let mut i: usize = 0;
    while i < list.len()
        invariant
            i <= list@.len(),
            v@ == list@.subrange(0, i as int),
        decreases list@.len() - i,
    {
        v.push(list[i]);
        i = i + 1;
        assert(v@ =~= list@.subrange(0, i as int));
    }
    assert(v@ =~= list@);
    v
}

/// A whole list is drawn without replacement, every position once.
proof fn lemma_whole_list_drawn<T>(list: Seq<T>)
    ensures
        drawn_without_replacement(list, list),
{
    let pos = Seq::new(list.len(), |i: int| i as nat);
    assert(sampled_items(list, pos) =~= list);
    assert(distinct_positions(pos, list.len()));
}

/// `items` are items of `list` taken from pairwise distinct positions.
pub open spec fn drawn_without_replacement<T>(items: Seq<T>, list: Seq<T>) -> bool {
    exists|pos: Seq<nat>|
        pos.len() == items.len() && distinct_positions(pos, list.len())
            && items == #[trigger] sampled_items(list, pos)
}

} // verus!
