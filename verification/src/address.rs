//! Addresses, and the addresses that a program derives for its own records.

use anchor_lang::prelude::Pubkey;
use vstd::prelude::*;
use vstd::std_specs::cmp::PartialEqSpecImpl;

verus! {

/// The 32-byte address of an account, an asset holding or a program.
#[derive(Clone, Copy, Debug)]
pub struct Address {
    pub bytes: [u8; 32],
}

impl View for Address {
    type V = Seq<u8>;

    open spec fn view(&self) -> Seq<u8> {
        self.bytes@
    }
}

impl PartialEq for Address {
    fn eq(&self, other: &Address) -> (equal: bool) {
        let mut i: usize = 0;
        while i < 32
            invariant
                i <= 32,
                forall|k: int| 0 <= k < i ==> self.bytes[k] == other.bytes[k],
            decreases 32 - i,
        {
            if self.bytes[i] != other.bytes[i] {
                return false;
            }
            i += 1;
        }
        assert(self.bytes@ =~= other.bytes@);
        true
    }
}

impl PartialEqSpecImpl for Address {
    open spec fn obeys_eq_spec() -> bool {
        true
    }

    open spec fn eq_spec(&self, other: &Address) -> bool {
        self@ == other@
    }
}

impl Eq for Address {}

/// Two addresses with the same bytes are the same address.
pub proof fn lemma_address_by_bytes(a: Address, b: Address)
    ensures
        a@ == b@ <==> a == b,
{
    if a@ == b@ {
        assert(a.bytes =~= b.bytes);
    }
}

/// The seed of the pool's record: the bytes of `pool`.
pub open spec fn pool_seed() -> Seq<u8> {
    seq![112u8, 111u8, 111u8, 108u8]
}

/// The seed of a depositor's record: the bytes of `user-stake`.
pub open spec fn user_stake_seed() -> Seq<u8> {
    seq![117u8, 115u8, 101u8, 114u8, 45u8, 115u8, 116u8, 97u8, 107u8, 101u8]
}

/// A seed held as bytes is, seen through and through, the sequence of its
/// bytes.
pub proof fn lemma_seed_view(seed: Vec<u8>)
    ensures
        seed.deep_view() == seed@,
{
    assert(seed.deep_view() =~= seed@);
}

/// The pool's seed as bytes.
pub fn pool_seed_bytes() -> (seed: Vec<u8>)
    ensures
        seed@ == pool_seed(),
{
    let mut seed: Vec<u8> = Vec::new();
    seed.push(112u8);
    seed.push(111u8);
    seed.push(111u8);
    seed.push(108u8);
    assert(seed@ =~= pool_seed());
    seed
}

/// The seed of the depositors' records as bytes.
pub fn user_stake_seed_bytes() -> (seed: Vec<u8>)
    ensures
        seed@ == user_stake_seed(),
{
    let mut seed: Vec<u8> = Vec::new();
    seed.push(117u8);
    seed.push(115u8);
    seed.push(101u8);
    seed.push(114u8);
    seed.push(45u8);
    seed.push(115u8);
    seed.push(116u8);
    seed.push(97u8);
    seed.push(107u8);
    seed.push(101u8);
    assert(seed@ =~= user_stake_seed());
    seed
}

/// The address and the bump that the runtime derives from `seeds` for the
/// program `program_id`, or `None` where it derives none.
pub uninterp spec fn program_address(seeds: Seq<Seq<u8>>, program_id: Seq<u8>) -> Option<(Seq<u8>, u8)>;

/// A derived address and its bump as plain values.
pub open spec fn derived_view(found: Option<(Address, u8)>) -> Option<(Seq<u8>, u8)> {
    match found {
        Some((address, bump)) => Some((address@, bump)),
        None => None,
    }
}

/// Calls `Pubkey::try_find_program_address` of the Solana program library.
///
/// Nothing is proved of it. The derivation hashes the seeds, a bump and the
/// program's address, and takes the highest bump whose hash is no point of the
/// curve; it returns `None` where no bump gives one, or where there are too
/// many seeds or one is too long. So the result depends on the seeds and the
/// program's address alone, and the contract only gives it a name:
/// `program_address` of the two.
#[verifier::external_body]
fn try_find_program_address(seeds: &Vec<Vec<u8>>, program_id: &Address) -> (found: Option<
    (Address, u8),
>)
    ensures
        derived_view(found) == program_address(seeds.deep_view(), program_id@),
{
    let parts: Vec<&[u8]> = seeds.iter().map(|seed| seed.as_slice()).collect();
    let program = Pubkey::new_from_array(program_id.bytes);
    Pubkey::try_find_program_address(&parts, &program).map(
        |(key, bump)| (Address { bytes: key.to_bytes() }, bump),
    )
}

impl Address {
    /// The bytes of the address, as a seed.
    pub fn to_seed(&self) -> (seed: Vec<u8>)
        ensures
            seed@ == self@,
    {
        let mut seed: Vec<u8> = Vec::new();
        let mut i: usize = 0;
        while i < 32
            invariant
                i <= 32,
                seed@.len() == i,
                forall|k: int| 0 <= k < i ==> seed@[k] == self.bytes[k],
            decreases 32 - i,
        {
            seed.push(self.bytes[i]);
            i += 1;
        }
        assert(seed@ =~= self@);
        seed
    }
}

/// The address of the pool's record under the program `program_id`, with its
/// bump: the one derived from the pool's seed alone, so that a program has a
/// single pool.
pub fn pool_address(program_id: &Address) -> (found: Option<(Address, u8)>)
    ensures
        derived_view(found) == program_address(seq![pool_seed()], program_id@),
{
    let mut seeds: Vec<Vec<u8>> = Vec::new();
    seeds.push(pool_seed_bytes());
    proof {
        lemma_seed_view(seeds@[0]);
        assert(seeds.deep_view() =~= seq![pool_seed()]);
    }
    try_find_program_address(&seeds, program_id)
}

/// The address of the record of the depositor `user` under the program
/// `program_id`, with its bump: the one derived from the records' seed and the
/// depositor's own address, so that a depositor has a single record.
pub fn user_stake_address(program_id: &Address, user: &Address) -> (found: Option<(Address, u8)>)
    ensures
        derived_view(found) == program_address(seq![user_stake_seed(), user@], program_id@),
{
    let mut seeds: Vec<Vec<u8>> = Vec::new();
    seeds.push(user_stake_seed_bytes());
    seeds.push(user.to_seed());
    proof {
        lemma_seed_view(seeds@[0]);
        lemma_seed_view(seeds@[1]);
        assert(seeds.deep_view() =~= seq![user_stake_seed(), user@]);
    }
    try_find_program_address(&seeds, program_id)
}

/// Whether `address` and `bump` are what a derivation gave.
pub fn is_derived(address: &Address, bump: u8, derived: Option<(Address, u8)>) -> (same: bool)
    ensures
        same == (derived_view(derived) == Some((address@, bump))),
{
    match derived {
        Some((found, found_bump)) => found == *address && found_bump == bump,
        None => false,
    }
}

} // verus!
