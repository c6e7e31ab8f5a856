//! Quality tiers of generators and the rule of which may seed which.
use vstd::prelude::*;

verus! {

/// How strong a generator's output is.
#[derive(Clone, Copy, Debug, PartialEq, Eq, Structural)]
pub enum Tier {
    /// Fast, not cryptographically secure.
    Standard,
    /// Cryptographically secure.
    Cryptographic,
}

impl Tier {
    pub open spec fn rank(self) -> nat {
        match self {
            Tier::Standard => 0,
            Tier::Cryptographic => 1,
        }
    }

    /// Whether a generator of this tier may seed one of tier `target`.
    pub fn may_seed(self, target: Tier) -> (r: bool)
        ensures
            r == may_seed(self, target),
    {
        match (self, target) {
            (Tier::Standard, Tier::Cryptographic) => false,
            _ => true,
        }
    }
}

/// A source may seed a target of equal or lower quality, never a better one.
pub open spec fn may_seed(source: Tier, target: Tier) -> bool {
    target.rank() <= source.rank()
}

/// Whether each generator of `chain` was seeded by the one before it.
pub open spec fn seeding_chain(chain: Seq<Tier>) -> bool {
    forall|i: int| 0 <= i < chain.len() - 1 ==> may_seed(#[trigger] chain[i], chain[i + 1])
}

/// Every generator derived, directly or through others, from a generator of
/// tier `t` has a tier no better than `t`.
pub proof fn lemma_descendants_no_better(chain: Seq<Tier>)
    requires
        chain.len() > 0,
        seeding_chain(chain),
    ensures
        forall|i: int| 0 <= i < chain.len() ==> may_seed(chain[0], #[trigger] chain[i]),
    decreases chain.len(),
{
    if chain.len() > 1 {
        let prefix = chain.drop_last();
        assert forall|i: int| 0 <= i < prefix.len() - 1 implies may_seed(
            #[trigger] prefix[i],
            prefix[i + 1],
        ) by {
            assert(may_seed(chain[i], chain[i + 1]));
        }
        lemma_descendants_no_better(prefix);
        assert forall|i: int| 0 <= i < chain.len() implies may_seed(chain[0], #[trigger] chain[i]) by {
            if i < prefix.len() {
                assert(may_seed(prefix[0], prefix[i]));
            } else {
                assert(may_seed(prefix[0], prefix[i - 1]));
                assert(may_seed(chain[i - 1], chain[i]));
            }
        }
    }
}

} // verus!
