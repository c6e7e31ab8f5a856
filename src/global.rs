//! The root generators, one per quality tier, from which every entity's
//! generator is derived.
use turborand::chacha_rng::ChaChaRng;
use turborand::rng::Rng;
use vstd::prelude::*;
use crate::draw::{
    draw_sample, draw_sample_multiple, draw_shuffle, draw_u32, drawn_without_replacement,
    sample_multiple_outcome, sample_outcome, secure_draw_sample, secure_draw_sample_multiple,
    secure_draw_shuffle, secure_draw_u32, secure_sample_multiple_outcome, secure_sample_outcome,
    secure_shuffle_outcome, secure_u32_outcome, shuffle_outcome, u32_outcome, RangeError,
};
use crate::source::{
    advanced_state, chacha_fork, chacha_fork_child, chacha_gen_u64, chacha_new, chacha_seeded,
    chacha_state, chacha_u64, chacha_with_seed, rng_fork, rng_new,
    rng_with_seed, seeded_state, wy_fork, wyrand_state,
};
use crate::tier::Tier;

verus! {

/// The root fast generator. Meant to seed entity generators rather than to
/// serve draws during a simulation step.
pub struct GlobalRng {
    rng: Rng,
}

impl View for GlobalRng {
    type V = u64;

    closed spec fn view(&self) -> u64 {
        wyrand_state(self.rng)
    }
}

impl GlobalRng {
    /// A root generator with a randomised seed: not reproducible.
    pub fn new() -> (r: Self) {
        GlobalRng { rng: rng_new() }
    }

    /// A root generator with the given seed: fully reproducible.
    pub fn with_seed(seed: u64) -> (r: Self)
        ensures
            r@ == seeded_state(seed),
    {
        GlobalRng { rng: rng_with_seed(seed) }
    }

    pub fn tier(&self) -> (t: Tier)
        ensures
            t == Tier::Standard,
    {
        Tier::Standard
    }

    /// Forks the underlying generator, which advances once.
    pub(crate) fn fork_source(&mut self) -> (c: Rng)
        ensures
            wyrand_state(c) == wy_fork(old(self)@),
            final(self)@ == advanced_state(old(self)@),
    {
        rng_fork(&mut self.rng)
    }

    /// Resumes a generator from a saved underlying generator.
    pub fn from_source(rng: Rng) -> (g: Self)
        ensures
            g@ == wyrand_state(rng),
    {
        GlobalRng { rng }
    }

    /// Gives up the underlying generator, for saving.
    pub fn into_source(self) -> (r: Rng)
        ensures
            wyrand_state(r) == self@,
    {
        self.rng
    }

    /// The underlying generator, for work that the methods here do not cover.
    /// It is handed out under an exclusive borrow, as no other handle may draw
    /// while it is in use; draws made through it are not tracked here.
    pub fn get_mut(&mut self) -> (r: &Rng)
        ensures
            wyrand_state(*r) == old(self)@,
    {
        &self.rng
    }

    /// A value of `lo..=hi`; an invalid range is an error and draws nothing.
    pub fn u32(&mut self, lo: u32, hi: u32) -> (v: Result<u32, RangeError>)
        ensures
            (v, final(self)@) == u32_outcome(old(self)@, lo, hi),
            v is Err <==> lo > hi,
            v matches Ok(x) ==> lo <= x <= hi,
    {
        draw_u32(&mut self.rng, lo, hi)
    }

    /// One item of `list`, or `None` when it is empty.
    pub fn sample<T: Copy>(&mut self, list: &[T]) -> (v: Option<T>)
        ensures
            (v, final(self)@) == sample_outcome(old(self)@, list@),
            v is None <==> list@.len() == 0,
            v matches Some(x) ==> list@.contains(x),
    {
        draw_sample(&mut self.rng, list)
    }

    /// `n` items of `list` from distinct positions, in the order drawn; all
    /// of `list`, in a drawn order, when it holds fewer than `n`.
    pub fn sample_multiple<T: Copy>(&mut self, list: &[T], n: usize) -> (v: Vec<T>)
        ensures
            (v@, final(self)@) == sample_multiple_outcome(old(self)@, list@, n as nat),
            n <= list@.len() ==> v@.len() == n && drawn_without_replacement(v@, list@),
            n > list@.len() ==> v@.len() == list@.len() && v@.to_multiset() == list@.to_multiset(),
    {
        draw_sample_multiple(&mut self.rng, list, n)
    }

    /// Puts `list` in a random order.
    pub fn shuffle<T>(&mut self, list: &mut Vec<T>)
        ensures
            (final(list)@, final(self)@) == shuffle_outcome(old(self)@, old(list)@),
            final(list)@.len() == old(list)@.len(),
            final(list)@.to_multiset() == old(list)@.to_multiset(),
    {
        draw_shuffle(&mut self.rng, list)
    }
}

impl Default for GlobalRng {
    /// A root generator with a randomised seed: not reproducible.
    fn default() -> (r: Self) {
        Self::new()
    }
}

/// The root secure generator. It can seed generators of either tier.
pub struct GlobalSecureRng {
    rng: ChaChaRng,
}

impl View for GlobalSecureRng {
    type V = Seq<u8>;

    closed spec fn view(&self) -> Seq<u8> {
        chacha_state(self.rng)
    }
}

impl GlobalSecureRng {
    /// A secure root generator with a randomised seed: not reproducible.
    pub fn new() -> (r: Self) {
        GlobalSecureRng { rng: chacha_new() }
    }

    /// A secure root generator with the given seed: fully reproducible.
    pub fn with_seed(seed: [u8; 40]) -> (r: Self)
        ensures
            r@ == chacha_seeded(seed@),
    {
        GlobalSecureRng { rng: chacha_with_seed(seed) }
    }

    pub fn tier(&self) -> (t: Tier)
        ensures
            t == Tier::Cryptographic,
    {
        Tier::Cryptographic
    }

    /// Forks the underlying generator.
    pub(crate) fn fork_source(&mut self) -> (c: ChaChaRng)
        ensures
            (chacha_state(c), final(self)@) == chacha_fork(old(self)@),
    {
        chacha_fork_child(&mut self.rng)
    }

    /// Draws a 64-bit seed for a fast generator.
    pub(crate) fn gen_seed(&mut self) -> (v: u64)
        ensures
            (v, final(self)@) == chacha_u64(old(self)@),
    {
        chacha_gen_u64(&mut self.rng)
    }

    /// Resumes a generator from a saved underlying generator.
    pub fn from_source(rng: ChaChaRng) -> (g: Self)
        ensures
            g@ == chacha_state(rng),
    {
        GlobalSecureRng { rng }
    }

    /// Gives up the underlying generator, for saving.
    pub fn into_source(self) -> (r: ChaChaRng)
        ensures
            chacha_state(r) == self@,
    {
        self.rng
    }

    /// The underlying generator, for work that the methods here do not cover.
    /// It is handed out under an exclusive borrow, as no other handle may draw
    /// while it is in use; draws made through it are not tracked here.
    pub fn get_mut(&mut self) -> (r: &ChaChaRng)
        ensures
            chacha_state(*r) == old(self)@,
    {
        &self.rng
    }

    /// A value of `lo..=hi`; an invalid range is an error and draws nothing.
    pub fn u32(&mut self, lo: u32, hi: u32) -> (v: Result<u32, RangeError>)
        ensures
            (v, final(self)@) == secure_u32_outcome(old(self)@, lo, hi),
            v is Err <==> lo > hi,
            v matches Ok(x) ==> lo <= x <= hi,
    {
        secure_draw_u32(&mut self.rng, lo, hi)
    }

    /// One item of `list`, or `None` when it is empty.
    pub fn sample<T: Copy>(&mut self, list: &[T]) -> (v: Option<T>)
        ensures
            (v, final(self)@) == secure_sample_outcome(old(self)@, list@),
            v is None <==> list@.len() == 0,
            v matches Some(x) ==> list@.contains(x),
    {
        secure_draw_sample(&mut self.rng, list)
    }

    /// `n` items of `list` from distinct positions, in the order drawn; all
    /// of `list`, in a drawn order, when it holds fewer than `n`.
    pub fn sample_multiple<T: Copy>(&mut self, list: &[T], n: usize) -> (v: Vec<T>)
        ensures
            (v@, final(self)@) == secure_sample_multiple_outcome(old(self)@, list@, n as nat),
            n <= list@.len() ==> v@.len() == n && drawn_without_replacement(v@, list@),
            n > list@.len() ==> v@.len() == list@.len() && v@.to_multiset() == list@.to_multiset(),
    {
        secure_draw_sample_multiple(&mut self.rng, list, n)
    }

    /// Puts `list` in a random order.
    pub fn shuffle<T>(&mut self, list: &mut Vec<T>)
        ensures
            (final(list)@, final(self)@) == secure_shuffle_outcome(old(self)@, old(list)@),
            final(list)@.len() == old(list)@.len(),
            final(list)@.to_multiset() == old(list)@.to_multiset(),
    {
        secure_draw_shuffle(&mut self.rng, list)
    }
}

impl Default for GlobalSecureRng {
    /// A secure root generator with a randomised seed: not reproducible.
    fn default() -> (r: Self) {
        Self::new()
    }
}

} // verus!
