//! Bootstrap configuration: the seeds of the root generators, if any.
use vstd::prelude::*;
use crate::global::{GlobalRng, GlobalSecureRng};
use crate::source::{chacha_seeded, seeded_state};

verus! {

/// Seeds for the two root generators; a root without one gets a randomised
/// seed.
pub struct RngPlugin {
    rng: Option<u64>,
    secure: Option<[u8; 40]>,
}

/// The seeds of a configuration: the fast root's, then the secure root's.
pub struct PluginSeeds {
    pub rng: Option<u64>,
    pub secure: Option<Seq<u8>>,
}

impl View for RngPlugin {
    type V = PluginSeeds;

    closed spec fn view(&self) -> PluginSeeds {
        PluginSeeds {
            rng: self.rng,
            secure: match self.secure {
                Some(k) => Some(k@),
                None => None,
            },
        }
    }
}

impl RngPlugin {
    /// No seeds: both roots will be randomised.
    pub fn new() -> (p: Self)
        ensures
            p@.rng is None,
            p@.secure is None,
    {
        RngPlugin { rng: None, secure: None }
    }

    /// Sets the seed of the fast root generator.
    pub fn with_rng_seed(self, seed: u64) -> (p: Self)
        ensures
            p@.rng == Some(seed),
            p@.secure == self@.secure,
    {
        RngPlugin { rng: Some(seed), secure: self.secure }
    }

    /// Sets the seed of the secure root generator.
    pub fn with_secure_seed(self, seed: [u8; 40]) -> (p: Self)
        ensures
            p@.rng == self@.rng,
            p@.secure == Some(seed@),
    {
        RngPlugin { rng: self.rng, secure: Some(seed) }
    }

    /// The seed of the fast root generator, if one was set.
    pub fn rng_seed(&self) -> (s: Option<u64>)
        ensures
            s == self@.rng,
    {
        self.rng
    }

    /// The seed of the secure root generator, if one was set.
    pub fn secure_seed(&self) -> (s: Option<[u8; 40]>)
        ensures
            s is Some <==> self@.secure is Some,
            s matches Some(k) ==> self@.secure == Some(k@),
    {
        self.secure
    }

    /// Builds the root generators: seeded ones where a seed was set, else
    /// randomised ones.
    pub fn roots(&self) -> (r: (GlobalRng, GlobalSecureRng))
        ensures
            self@.rng matches Some(s) ==> r.0@ == seeded_state(s),
            self@.secure matches Some(k) ==> r.1@ == chacha_seeded(k),
    {
        let rng = match self.rng {
            Some(seed) => GlobalRng::with_seed(seed),
            None => GlobalRng::new(),
        };
        let secure = match self.secure {
            Some(seed) => GlobalSecureRng::with_seed(seed),
            None => GlobalSecureRng::new(),
        };
        (rng, secure)
    }
}

impl Default for RngPlugin {
    /// No seeds: both roots will be randomised.
    fn default() -> (p: Self)
        ensures
            p@.rng is None,
            p@.secure is None,
    {
        Self::new()
    }
}

} // verus!
