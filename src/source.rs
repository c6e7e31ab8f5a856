//! The two generator algorithms of `turborand`, seen through their state.
//!
//! A generator is a deterministic state machine: every operation is a
//! function of the state it starts in and of its arguments, which gives both
//! its result and the state it leaves behind.  The fast generator keeps one
//! 64-bit state word; the secure one a ChaCha8 block state.  What an operation
//! returns is named below and never spelled out: the algorithms belong to
//! `turborand`.
use turborand::chacha_rng::ChaChaRng;
use turborand::rng::Rng;
use turborand::{ForkableCore, GenCore, SeededCore, TurboRand};
use vstd::prelude::*;

verus! {

#[verifier::external_type_specification]
#[verifier::external_body]
pub struct ExRng(Rng);

#[verifier::external_type_specification]
#[verifier::external_body]
pub struct ExChaChaRng(ChaChaRng);

/// The increment that the fast generator adds to its state word for each
/// 64-bit block it produces.
pub const WYRAND_INCREMENT: u64 = 0xa076_1d64_78bd_642f;

/// The state word of a fast generator.
pub uninterp spec fn wyrand_state(r: Rng) -> u64;

/// The state of a secure generator, as bytes.
pub uninterp spec fn chacha_state(r: ChaChaRng) -> Seq<u8>;

/// The state word that a fast generator seeded with `seed` starts in.
pub open spec fn seeded_state(seed: u64) -> u64 {
    (seed << 1u64) | 1u64
}

/// The state word after one 64-bit block was produced from state `s`.
pub open spec fn advanced_state(s: u64) -> u64 {
    ((s as int + WYRAND_INCREMENT as int) % 0x1_0000_0000_0000_0000int) as u64
}

/// State word of the child forked from a fast generator in state `s`.
pub uninterp spec fn wy_fork(s: u64) -> u64;

/// Value drawn from `lo..=hi` by a fast generator in state `s`, and its next
/// state.
pub uninterp spec fn wy_u32_in(s: u64, lo: u32, hi: u32) -> (u32, u64);

/// Position that a fast generator in state `s` samples from a list of `len`
/// items (`len >= 2`), and its next state.
pub uninterp spec fn wy_sample(s: u64, len: nat) -> (nat, u64);

/// Positions that a fast generator in state `s` samples, `amount` of them,
/// from a list of `len > amount` items, and its next state.
pub uninterp spec fn wy_sample_multiple(s: u64, len: nat, amount: nat) -> (Seq<nat>, u64);

/// Where each item of a shuffled list of `len` items comes from, shuffled by a
/// fast generator in state `s`, and its next state.
pub uninterp spec fn wy_shuffle(s: u64, len: nat) -> (Seq<nat>, u64);

/// Position that a secure generator in state `s` samples from a list of
/// `len` items (`len >= 2`), and its next state.
pub uninterp spec fn chacha_sample(s: Seq<u8>, len: nat) -> (nat, Seq<u8>);

/// Positions that a secure generator in state `s` samples, `amount` of them,
/// from a list of `len > amount` items, and its next state.
pub uninterp spec fn chacha_sample_multiple(s: Seq<u8>, len: nat, amount: nat) -> (Seq<nat>, Seq<u8>);

/// Where each item of a shuffled list of `len` items comes from, shuffled by a
/// secure generator in state `s`, and its next state.
pub uninterp spec fn chacha_shuffle(s: Seq<u8>, len: nat) -> (Seq<nat>, Seq<u8>);

/// Positions all below `len` and pairwise distinct.
pub open spec fn distinct_positions(pos: Seq<nat>, len: nat) -> bool {
    &&& forall|k: int| 0 <= k < pos.len() ==> #[trigger] pos[k] < len
    &&& forall|j: int, k: int| 0 <= j < k < pos.len() ==> #[trigger] pos[j] != #[trigger] pos[k]
}

/// The items of `list` at the positions `pos`, in that order.
pub open spec fn sampled_items<T>(list: Seq<T>, pos: Seq<nat>) -> Seq<T> {
    pos.map(|k: int, p: nat| list[p as int])
}

/// State a secure generator seeded with the 40 bytes `seed` starts in.
pub uninterp spec fn chacha_seeded(seed: Seq<u8>) -> Seq<u8>;

/// State of the child forked from a secure generator in state `s`, and the
/// parent's next state.
pub uninterp spec fn chacha_fork(s: Seq<u8>) -> (Seq<u8>, Seq<u8>);

/// The 64-bit value drawn by a secure generator in state `s`, and its next
/// state.
pub uninterp spec fn chacha_u64(s: Seq<u8>) -> (u64, Seq<u8>);

/// Value drawn from `lo..=hi` by a secure generator in state `s`, and its
/// next state.
pub uninterp spec fn chacha_u32_in(s: Seq<u8>, lo: u32, hi: u32) -> (u32, Seq<u8>);

/// Relies on `Rng::new`: a fast generator forked from a thread-local one that
/// was seeded from system entropy.
#[verifier::external_body]
pub(crate) fn rng_new() -> (r: Rng) {
    Rng::new()
}

/// Relies on `Rng::with_seed`: the state word becomes `seed << 1 | 1`.
#[verifier::external_body]
pub(crate) fn rng_with_seed(seed: u64) -> (r: Rng)
    ensures
        wyrand_state(r) == seeded_state(seed),
{
    Rng::with_seed(seed)
}

/// Relies on `ForkableCore::fork` of `Rng`: the parent produces one 64-bit
/// block (its state word advances once) and the child is seeded from it.
#[verifier::external_body]
pub(crate) fn rng_fork(r: &mut Rng) -> (c: Rng)
    ensures
        wyrand_state(c) == wy_fork(wyrand_state(*old(r))),
        wyrand_state(*final(r)) == advanced_state(wyrand_state(*old(r))),
{
    r.fork()
}

/// Relies on `TurboRand::u32` of `Rng` on `lo..=hi`, which panics when
/// `lo > hi` and otherwise lands in the range.
#[verifier::external_body]
pub(crate) fn rng_u32(r: &mut Rng, lo: u32, hi: u32) -> (v: u32)
    requires
        lo <= hi,
    ensures
        lo <= v <= hi,
        (v, wyrand_state(*final(r))) == wy_u32_in(wyrand_state(*old(r)), lo, hi),
{
    r.u32(lo..=hi)
}

/// Relies on `TurboRand::sample` of `Rng`: `None` for an empty list, the only
/// item of a list of one without a draw, else the item at a drawn position.
#[verifier::external_body]
pub(crate) fn rng_sample<T: Copy>(r: &mut Rng, list: &[T]) -> (v: Option<T>)
    ensures
        list@.len() == 0 ==> v.is_none() && wyrand_state(*final(r)) == wyrand_state(*old(r)),
        list@.len() == 1 ==> v == Some(list@[0]) && wyrand_state(*final(r)) == wyrand_state(*old(r)),
        list@.len() >= 2 ==> v == Some(list@[wy_sample(wyrand_state(*old(r)), list@.len()).0 as int])
            && wy_sample(wyrand_state(*old(r)), list@.len()).0 < list@.len(),
        list@.len() >= 2 ==> wyrand_state(*final(r)) == wy_sample(wyrand_state(*old(r)), list@.len()).1,
{
    r.sample(list).copied()
}

/// Relies on `TurboRand::sample_multiple` of `Rng`: a list of exactly
/// `amount` items comes back whole, in order and without a draw; from a longer
/// one `amount` items at distinct drawn positions. A larger `amount` is left
/// out: the result is first allocated with that capacity, which can overflow.
#[verifier::external_body]
pub(crate) fn rng_sample_multiple<T: Copy>(r: &mut Rng, list: &[T], amount: usize) -> (v: Vec<T>)
    requires
        amount <= list@.len(),
    ensures
        amount == list@.len() ==> v@ == list@ && wyrand_state(*final(r)) == wyrand_state(*old(r)),
        amount < list@.len() ==> v@ == sampled_items(list@, wy_sample_multiple(wyrand_state(*old(r)), list@.len(), amount as nat).0)
            && distinct_positions(wy_sample_multiple(wyrand_state(*old(r)), list@.len(), amount as nat).0, list@.len())
            && v@.len() == amount,
        amount < list@.len() ==> wyrand_state(*final(r))
            == wy_sample_multiple(wyrand_state(*old(r)), list@.len(), amount as nat).1,
{
    r.sample_multiple(list, amount).into_iter().copied().collect()
}

/// Relies on `TurboRand::shuffle` of `Rng`: a Fisher-Yates shuffle whose
/// swaps depend on the state word and the length alone.
#[verifier::external_body]
pub(crate) fn rng_shuffle<T>(r: &mut Rng, list: &mut Vec<T>)
    ensures
        final(list)@.len() == old(list)@.len(),
        final(list)@.to_multiset() == old(list)@.to_multiset(),
        final(list)@ == sampled_items(old(list)@, wy_shuffle(wyrand_state(*old(r)), old(list)@.len()).0)
            && distinct_positions(wy_shuffle(wyrand_state(*old(r)), old(list)@.len()).0, old(list)@.len()),
        wyrand_state(*final(r)) == wy_shuffle(wyrand_state(*old(r)), old(list)@.len()).1,
{
    r.shuffle(list.as_mut_slice())
}

/// Relies on `ChaChaRng::new`: a secure generator forked from a thread-local
/// one that was seeded from system entropy.
#[verifier::external_body]
pub(crate) fn chacha_new() -> (r: ChaChaRng) {
    ChaChaRng::new()
}

/// Relies on `ChaChaRng::with_seed`: the state is a function of the seed.
#[verifier::external_body]
pub(crate) fn chacha_with_seed(seed: [u8; 40]) -> (r: ChaChaRng)
    ensures
        chacha_state(r) == chacha_seeded(seed@),
{
    ChaChaRng::with_seed(seed)
}

/// Relies on `ForkableCore::fork` of `ChaChaRng`: the child is seeded from
/// 40 bytes that the parent produces.
#[verifier::external_body]
pub(crate) fn chacha_fork_child(r: &mut ChaChaRng) -> (c: ChaChaRng)
    ensures
        (chacha_state(c), chacha_state(*final(r))) == chacha_fork(chacha_state(*old(r))),
{
    r.fork()
}

/// Relies on `GenCore::gen_u64` of `ChaChaRng`.
#[verifier::external_body]
pub(crate) fn chacha_gen_u64(r: &mut ChaChaRng) -> (v: u64)
    ensures
        (v, chacha_state(*final(r))) == chacha_u64(chacha_state(*old(r))),
{
    r.gen_u64()
}

/// Relies on `TurboRand::u32` of `ChaChaRng` on `lo..=hi`, which panics when
/// `lo > hi` and otherwise lands in the range.
#[verifier::external_body]
pub(crate) fn chacha_u32(r: &mut ChaChaRng, lo: u32, hi: u32) -> (v: u32)
    requires
        lo <= hi,
    ensures
        lo <= v <= hi,
        (v, chacha_state(*final(r))) == chacha_u32_in(chacha_state(*old(r)), lo, hi),
{
    r.u32(lo..=hi)
}

/// Relies on `TurboRand::sample` of `ChaChaRng`: `None` for an empty list, the
/// only item of a list of one without a draw, else the item at a drawn
/// position.
#[verifier::external_body]
pub(crate) fn chacha_sample_one<T: Copy>(r: &mut ChaChaRng, list: &[T]) -> (v: Option<T>)
    ensures
        list@.len() == 0 ==> v.is_none() && chacha_state(*final(r)) == chacha_state(*old(r)),
        list@.len() == 1 ==> v == Some(list@[0]) && chacha_state(*final(r)) == chacha_state(*old(r)),
        list@.len() >= 2 ==> v == Some(list@[chacha_sample(chacha_state(*old(r)), list@.len()).0 as int])
            && chacha_sample(chacha_state(*old(r)), list@.len()).0 < list@.len(),
        list@.len() >= 2 ==> chacha_state(*final(r)) == chacha_sample(chacha_state(*old(r)), list@.len()).1,
{
    r.sample(list).copied()
}

/// Relies on `TurboRand::sample_multiple` of `ChaChaRng`: a list of exactly
/// `amount` items comes back whole, in order and without a draw; from a longer
/// one `amount` items at distinct drawn positions. A larger `amount` is left
/// out: the result is first allocated with that capacity, which can overflow.
#[verifier::external_body]
pub(crate) fn chacha_sample_many<T: Copy>(r: &mut ChaChaRng, list: &[T], amount: usize) -> (v: Vec<T>)
    requires
        amount <= list@.len(),
    ensures
        amount == list@.len() ==> v@ == list@ && chacha_state(*final(r)) == chacha_state(*old(r)),
        amount < list@.len() ==> v@ == sampled_items(list@, chacha_sample_multiple(chacha_state(*old(r)), list@.len(), amount as nat).0)
            && distinct_positions(chacha_sample_multiple(chacha_state(*old(r)), list@.len(), amount as nat).0, list@.len())
            && v@.len() == amount,
        amount < list@.len() ==> chacha_state(*final(r))
            == chacha_sample_multiple(chacha_state(*old(r)), list@.len(), amount as nat).1,
{
    r.sample_multiple(list, amount).into_iter().copied().collect()
}

/// Relies on `TurboRand::shuffle` of `ChaChaRng`: a shuffle whose swaps depend
/// on the state and the length alone.
#[verifier::external_body]
pub(crate) fn chacha_shuffle_list<T>(r: &mut ChaChaRng, list: &mut Vec<T>)
    ensures
        final(list)@.len() == old(list)@.len(),
        final(list)@.to_multiset() == old(list)@.to_multiset(),
        final(list)@ == sampled_items(old(list)@, chacha_shuffle(chacha_state(*old(r)), old(list)@.len()).0)
            && distinct_positions(chacha_shuffle(chacha_state(*old(r)), old(list)@.len()).0, old(list)@.len()),
        chacha_state(*final(r)) == chacha_shuffle(chacha_state(*old(r)), old(list)@.len()).1,
{
    r.shuffle(list.as_mut_slice())
}

} // verus!
