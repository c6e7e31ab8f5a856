//! Generators owned by single entities, each derived from a root generator or
//! from another entity's generator of equal or better quality.
use turborand::chacha_rng::ChaChaRng;
use turborand::rng::Rng;
use vstd::prelude::*;
use crate::draw::{
    draw_sample, draw_sample_multiple, draw_shuffle, draw_u32, drawn_without_replacement,
    sample_multiple_outcome, sample_outcome, secure_draw_sample, secure_draw_sample_multiple,
    secure_draw_shuffle, secure_draw_u32, secure_sample_multiple_outcome, secure_sample_outcome,
    secure_shuffle_outcome, secure_u32_outcome, shuffle_outcome, u32_outcome, RangeError,
};
use crate::global::{GlobalRng, GlobalSecureRng};
use crate::source::{
    advanced_state, chacha_fork, chacha_fork_child, chacha_gen_u64, chacha_state,
    chacha_u64, rng_fork, rng_with_seed, seeded_state, wy_fork, wyrand_state,
};
use crate::tier::Tier;

verus! {

/// A fast generator owned by one entity.
pub struct RngComponent {
    rng: Rng,
}

impl View for RngComponent {
    type V = u64;

    closed spec fn view(&self) -> u64 {
        wyrand_state(self.rng)
    }
}

impl RngComponent {
    /// Derives an entity generator from the root fast generator.
    pub fn from_global(root: &mut GlobalRng) -> (c: Self)
        ensures
            c@ == wy_fork(old(root)@),
            final(root)@ == advanced_state(old(root)@),
    {
        RngComponent { rng: root.fork_source() }
    }

    /// Derives an entity generator from another entity's fast generator.
    pub fn from_component(parent: &mut RngComponent) -> (c: Self)
        ensures
            c@ == wy_fork(old(parent)@),
            final(parent)@ == advanced_state(old(parent)@),
    {
        parent.fork()
    }

    /// Derives an entity generator from the root secure generator.
    pub fn from_global_secure(root: &mut GlobalSecureRng) -> (c: Self)
        ensures
            c@ == seeded_state(chacha_u64(old(root)@).0),
            final(root)@ == chacha_u64(old(root)@).1,
    {
        let seed = root.gen_seed();
        RngComponent { rng: rng_with_seed(seed) }
    }

    /// Derives an entity generator from an entity's secure generator.
    pub fn from_secure_component(parent: &mut SecureRngComponent) -> (c: Self)
        ensures
            c@ == seeded_state(chacha_u64(old(parent)@).0),
            final(parent)@ == chacha_u64(old(parent)@).1,
    {
        let seed = chacha_gen_u64(&mut parent.rng);
        RngComponent { rng: rng_with_seed(seed) }
    }

    /// A generator of the same tier derived from this one, which advances.
    pub fn fork(&mut self) -> (c: Self)
        ensures
            c@ == wy_fork(old(self)@),
            final(self)@ == advanced_state(old(self)@),
    {
        RngComponent { rng: rng_fork(&mut self.rng) }
    }

    pub fn tier(&self) -> (t: Tier)
        ensures
            t == Tier::Standard,
    {
        Tier::Standard
    }

    /// Resumes a generator from a saved underlying generator.
    pub fn from_source(rng: Rng) -> (g: Self)
        ensures
            g@ == wyrand_state(rng),
    {
        RngComponent { rng }
    }

    /// Gives up the underlying generator, for saving.
    pub fn into_source(self) -> (r: Rng)
        ensures
            wyrand_state(r) == self@,
    {
        self.rng
    }

    /// The underlying generator, for work that the methods here do not cover.
    /// It is handed out under an exclusive borrow, as no other handle may draw
    /// while it is in use; draws made through it are not tracked here.
    pub fn get_mut(&mut self) -> (r: &Rng)
        ensures
            wyrand_state(*r) == old(self)@,
    {
        &self.rng
    }

    /// A value of `lo..=hi`; an invalid range is an error and draws nothing.
    pub fn u32(&mut self, lo: u32, hi: u32) -> (v: Result<u32, RangeError>)
        ensures
            (v, final(self)@) == u32_outcome(old(self)@, lo, hi),
            v is Err <==> lo > hi,
            v matches Ok(x) ==> lo <= x <= hi,
    {
        draw_u32(&mut self.rng, lo, hi)
    }

    /// One item of `list`, or `None` when it is empty.
    pub fn sample<T: Copy>(&mut self, list: &[T]) -> (v: Option<T>)
        ensures
            (v, final(self)@) == sample_outcome(old(self)@, list@),
            v is None <==> list@.len() == 0,
            v matches Some(x) ==> list@.contains(x),
    {
        draw_sample(&mut self.rng, list)
    }

    /// `n` items of `list` from distinct positions, in the order drawn; all
    /// of `list`, in a drawn order, when it holds fewer than `n`.
    pub fn sample_multiple<T: Copy>(&mut self, list: &[T], n: usize) -> (v: Vec<T>)
        ensures
            (v@, final(self)@) == sample_multiple_outcome(old(self)@, list@, n as nat),
            n <= list@.len() ==> v@.len() == n && drawn_without_replacement(v@, list@),
            n > list@.len() ==> v@.len() == list@.len() && v@.to_multiset() == list@.to_multiset(),
    {
        draw_sample_multiple(&mut self.rng, list, n)
    }

    /// Puts `list` in a random order.
    pub fn shuffle<T>(&mut self, list: &mut Vec<T>)
        ensures
            (final(list)@, final(self)@) == shuffle_outcome(old(self)@, old(list)@),
            final(list)@.len() == old(list)@.len(),
            final(list)@.to_multiset() == old(list)@.to_multiset(),
    {
        draw_shuffle(&mut self.rng, list)
    }
}

/// A secure generator owned by one entity. Only secure generators can
/// derive one.
pub struct SecureRngComponent {
    rng: ChaChaRng,
}

impl View for SecureRngComponent {
    type V = Seq<u8>;

    closed spec fn view(&self) -> Seq<u8> {
        chacha_state(self.rng)
    }
}

impl SecureRngComponent {
    /// Derives an entity generator from the root secure generator.
    pub fn from_global_secure(root: &mut GlobalSecureRng) -> (c: Self)
        ensures
            (c@, final(root)@) == chacha_fork(old(root)@),
    {
        SecureRngComponent { rng: root.fork_source() }
    }

    /// Derives an entity generator from another entity's secure generator.
    pub fn from_secure_component(parent: &mut SecureRngComponent) -> (c: Self)
        ensures
            (c@, final(parent)@) == chacha_fork(old(parent)@),
    {
        parent.fork()
    }

    /// A generator of the same tier derived from this one, which advances.
    pub fn fork(&mut self) -> (c: Self)
        ensures
            (c@, final(self)@) == chacha_fork(old(self)@),
    {
        SecureRngComponent { rng: chacha_fork_child(&mut self.rng) }
    }

    pub fn tier(&self) -> (t: Tier)
        ensures
            t == Tier::Cryptographic,
    {
        Tier::Cryptographic
    }

    /// Resumes a generator from a saved underlying generator.
    pub fn from_source(rng: ChaChaRng) -> (g: Self)
        ensures
            g@ == chacha_state(rng),
    {
        SecureRngComponent { rng }
    }

    /// Gives up the underlying generator, for saving.
    pub fn into_source(self) -> (r: ChaChaRng)
        ensures
            chacha_state(r) == self@,
    {
        self.rng
    }

    /// The underlying generator, for work that the methods here do not cover.
    /// It is handed out under an exclusive borrow, as no other handle may draw
    /// while it is in use; draws made through it are not tracked here.
    pub fn get_mut(&mut self) -> (r: &ChaChaRng)
        ensures
            chacha_state(*r) == old(self)@,
    {
        &self.rng
    }

    /// A value of `lo..=hi`; an invalid range is an error and draws nothing.
    pub fn u32(&mut self, lo: u32, hi: u32) -> (v: Result<u32, RangeError>)
        ensures
            (v, final(self)@) == secure_u32_outcome(old(self)@, lo, hi),
            v is Err <==> lo > hi,
            v matches Ok(x) ==> lo <= x <= hi,
    {
        secure_draw_u32(&mut self.rng, lo, hi)
    }

    /// One item of `list`, or `None` when it is empty.
    pub fn sample<T: Copy>(&mut self, list: &[T]) -> (v: Option<T>)
        ensures
            (v, final(self)@) == secure_sample_outcome(old(self)@, list@),
            v is None <==> list@.len() == 0,
            v matches Some(x) ==> list@.contains(x),
    {
        secure_draw_sample(&mut self.rng, list)
    }

    /// `n` items of `list` from distinct positions, in the order drawn; all
    /// of `list`, in a drawn order, when it holds fewer than `n`.
    pub fn sample_multiple<T: Copy>(&mut self, list: &[T], n: usize) -> (v: Vec<T>)
        ensures
            (v@, final(self)@) == secure_sample_multiple_outcome(old(self)@, list@, n as nat),
            n <= list@.len() ==> v@.len() == n && drawn_without_replacement(v@, list@),
            n > list@.len() ==> v@.len() == list@.len() && v@.to_multiset() == list@.to_multiset(),
    {
        secure_draw_sample_multiple(&mut self.rng, list, n)
    }

    /// Puts `list` in a random order.
    pub fn shuffle<T>(&mut self, list: &mut Vec<T>)
        ensures
            (final(list)@, final(self)@) == secure_shuffle_outcome(old(self)@, old(list)@),
            final(list)@.len() == old(list)@.len(),
            final(list)@.to_multiset() == old(list)@.to_multiset(),
    {
        secure_draw_shuffle(&mut self.rng, list)
    }
}

} // verus!
