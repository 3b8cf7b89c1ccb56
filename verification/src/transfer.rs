//! What the library asks of the asset transfer service, and what it is told
//! of the service's answer.

use crate::address::{lemma_seed_view, pool_seed, Address};
use vstd::prelude::*;

verus! {

/// Under whose identity a transfer is authorized.
#[derive(Clone, Copy, Debug, PartialEq, Eq)]
pub enum Authority {
    /// The holder of this address signs the transfer itself.
    Signer(Address),
    /// The program signs for the pool, whose address it derived with this bump.
    Pool { address: Address, bump: u8 },
}

/// A move of `amount` units from one asset holding to another.
#[derive(Clone, Copy, Debug, PartialEq, Eq)]
pub struct Transfer {
    pub from: Address,
    pub to: Address,
    pub authority: Authority,
    pub amount: u64,
}

/// How the asset transfer service answered a transfer.
#[derive(Clone, Copy, Debug, PartialEq, Eq, Structural)]
pub enum TransferOutcome {
    /// The units were moved.
    Completed,
    /// Nothing was moved: the balance did not suffice or the authority did
    /// not match.
    Rejected,
}

impl Authority {
    /// The seeds with which the program signs: none for a signer that signs
    /// itself, the pool's seed and then the bump for the pool.
    pub open spec fn spec_signer_seeds(self) -> Seq<Seq<u8>> {
        match self {
            Authority::Signer(_) => Seq::empty(),
            Authority::Pool { address, bump } => seq![pool_seed(), seq![bump]],
        }
    }

    /// The seeds that are handed to the runtime with a transfer under this
    /// authority.
    pub fn signer_seeds(&self) -> (seeds: Vec<Vec<u8>>)
        ensures
            seeds.deep_view() == self.spec_signer_seeds(),
    {
        match self {
            Authority::Signer(_) => {
                let seeds: Vec<Vec<u8>> = Vec::new();
                assert(seeds.deep_view() =~= Seq::<Seq<u8>>::empty());
                seeds
            },
            Authority::Pool { address, bump } => {
                let tag = crate::address::pool_seed_bytes();
                let mut last: Vec<u8> = Vec::new();
                last.push(*bump);
                let mut seeds: Vec<Vec<u8>> = Vec::new();
                seeds.push(tag);
                seeds.push(last);
                proof {
                    lemma_seed_view(seeds@[0]);
                    lemma_seed_view(seeds@[1]);
                    assert(seeds@[1]@ =~= seq![*bump]);
                    assert(seeds.deep_view() =~= seq![pool_seed(), seq![*bump]]);
                }
                seeds
            },
        }
    }
}

} // verus!
