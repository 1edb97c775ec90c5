//! Where a split record lives.
//!
//! A record's address is derived from three seeds: a fixed tag, the
//! sender's identity, and the nonce as eight little-endian bytes. The
//! derivation itself, a hash of the seeds that is moved off the ed25519
//! curve by one more seed, the bump, is `anchor_lang`'s and is called here,
//! not redone. The bump that a search finds is kept in the record, so that
//! the address can be derived again without a search.

use vstd::prelude::*;
use vstd::bytes::{lemma_auto_spec_u64_to_from_le_bytes, spec_u64_to_le_bytes, u64_to_le_bytes};
use vstd::slice::slice_to_vec;
use crate::pubkey::{lemma_pubkey_view_injective, Pubkey};
use crate::state::SplitConfig;

verus! {

/// The tag that starts the seeds of every record: the bytes of the ASCII
/// text `split_config`.
pub open spec fn seed_tag() -> Seq<u8> {
    seq![115u8, 112u8, 108u8, 105u8, 116u8, 95u8, 99u8, 111u8, 110u8, 102u8, 105u8, 103u8]
}

/// The seeds of the record that `sender` keeps under `nonce`.
pub open spec fn split_config_seeds(sender: Pubkey, nonce: u64) -> Seq<Seq<u8>> {
    seq![seed_tag(), sender@, spec_u64_to_le_bytes(nonce)]
}

/// What `Pubkey::create_program_address` of `anchor_lang` derives from
/// `seeds` for the program `program_id`: an address, or nothing where the
/// seeds are too many or too long or the hash lies on the curve.
pub uninterp spec fn program_address(seeds: Seq<Seq<u8>>, program_id: Seq<u8>) -> Option<Seq<u8>>;

/// What `Pubkey::try_find_program_address` of `anchor_lang` finds for
/// `seeds` and the program `program_id`: an address with its bump, or
/// nothing.
pub uninterp spec fn program_address_search(seeds: Seq<Seq<u8>>, program_id: Seq<u8>) -> Option<
    (Seq<u8>, u8),
>;

/// The address of the record of `sender` and `nonce` for a given bump.
pub open spec fn split_config_address(program_id: Pubkey, sender: Pubkey, nonce: u64, bump: u8)
    -> Option<Seq<u8>> {
    program_address(split_config_seeds(sender, nonce).push(seq![bump]), program_id@)
}

/// Records are told apart by their seeds: two pairs of sender and nonce
/// with the same seeds are the same pair.
pub proof fn lemma_seeds_injective(sender1: Pubkey, nonce1: u64, sender2: Pubkey, nonce2: u64)
    requires
        split_config_seeds(sender1, nonce1) == split_config_seeds(sender2, nonce2),
    ensures
        sender1 == sender2,
        nonce1 == nonce2,
{
    let seeds1 = split_config_seeds(sender1, nonce1);
    let seeds2 = split_config_seeds(sender2, nonce2);
    assert(seeds1[1] == sender1@);
    assert(seeds2[1] == sender2@);
    assert(seeds1[2] == spec_u64_to_le_bytes(nonce1));
    assert(seeds2[2] == spec_u64_to_le_bytes(nonce2));
    lemma_pubkey_view_injective(sender1, sender2);
    lemma_auto_spec_u64_to_from_le_bytes();
}

/// Builds the seeds of the record that `sender` keeps under `nonce`.
pub fn make_split_config_seeds(sender: &Pubkey, nonce: u64) -> (r: Vec<Vec<u8>>)
    ensures
        r.deep_view() == split_config_seeds(*sender, nonce),
{
    let tag: Vec<u8> = vec![115u8, 112u8, 108u8, 105u8, 116u8, 95u8, 99u8, 111u8, 110u8, 102u8, 105u8, 103u8];
    let key: Vec<u8> = slice_to_vec(sender.bytes.as_slice());
    let number: Vec<u8> = u64_to_le_bytes(nonce);
    let mut seeds: Vec<Vec<u8>> = Vec::new();
    seeds.push(tag);
    seeds.push(key);
    seeds.push(number);
    proof {
        let expected = split_config_seeds(*sender, nonce);
        assert(seeds.deep_view().len() == 3);
        assert(seeds.deep_view()[0] =~= expected[0]);
        assert(seeds.deep_view()[1] =~= expected[1]);
        assert(seeds.deep_view()[2] =~= expected[2]);
        assert(seeds.deep_view() =~= expected);
    }
    seeds
}

/// Searches for the address of the record that `sender` keeps under
/// `nonce`, and for the bump that goes with it. The bump found derives the
/// same address again.
pub fn find_split_config_address(program_id: &Pubkey, sender: &Pubkey, nonce: u64) -> (r: Option<
    (Pubkey, u8),
>)
    ensures
        match r {
            Some((address, bump)) => {
                &&& program_address_search(split_config_seeds(*sender, nonce), program_id@) == Some(
                    (address@, bump),
                )
                &&& split_config_address(*program_id, *sender, nonce, bump) == Some(address@)
            },
            None => program_address_search(split_config_seeds(*sender, nonce), program_id@) is None,
        },
{
    let seeds = make_split_config_seeds(sender, nonce);
    try_find_program_address(&seeds, program_id)
}

/// Derives the address of the record that `sender` keeps under `nonce`
/// from a known bump, without a search.
pub fn create_split_config_address(program_id: &Pubkey, sender: &Pubkey, nonce: u64, bump: u8) -> (r:
    Option<Pubkey>)
    ensures
        match r {
            Some(address) => split_config_address(*program_id, *sender, nonce, bump) == Some(
                address@,
            ),
            None => split_config_address(*program_id, *sender, nonce, bump) is None,
        },
{
    let mut seeds = make_split_config_seeds(sender, nonce);
    let ghost stem = seeds;
    let mut last: Vec<u8> = Vec::new();
    last.push(bump);
    seeds.push(last);
    proof {
        let expected = split_config_seeds(*sender, nonce).push(seq![bump]);
        assert(stem.deep_view().len() == 3);
        assert forall|i: int| 0 <= i < 4 implies seeds.deep_view()[i] =~= expected[i] by {
            if i < 3 {
                assert(seeds.deep_view()[i] == stem.deep_view()[i]);
            }
        }
        assert(seeds.deep_view() =~= expected);
    }
    create_program_address(&seeds, program_id)
}

impl SplitConfig {
    /// The address that this record lives at, derived again from its
    /// sender, its nonce and the bump it keeps.
    pub fn address(&self, program_id: &Pubkey) -> (r: Option<Pubkey>)
        ensures
            match r {
                Some(address) => split_config_address(
                    *program_id,
                    self.sender,
                    self.nonce,
                    self.bump,
                ) == Some(address@),
                None => split_config_address(*program_id, self.sender, self.nonce, self.bump)
                    is None,
            },
    {
        create_split_config_address(program_id, &self.sender, self.nonce, self.bump)
    }
}

/// Calls `Pubkey::create_program_address` of `anchor_lang` on the seeds
/// and the program's identity. Trusted: the address returned is the one
/// named `program_address` for these seeds and this program, and an error
/// of the derivation comes back as `None`.
#[verifier::external_body]
fn create_program_address(seeds: &Vec<Vec<u8>>, program_id: &Pubkey) -> (r: Option<Pubkey>)
    ensures
        match r {
            Some(address) => program_address(seeds.deep_view(), program_id@) == Some(address@),
            None => program_address(seeds.deep_view(), program_id@) is None,
        },
{
    let parts: Vec<&[u8]> = seeds.iter().map(|seed| seed.as_slice()).collect();
    let program = anchor_lang::prelude::Pubkey::new_from_array(program_id.bytes);
    match anchor_lang::prelude::Pubkey::create_program_address(&parts, &program) {
        Ok(address) => Some(Pubkey { bytes: address.to_bytes() }),
        Err(_) => None,
    }
}

/// Calls `Pubkey::try_find_program_address` of `anchor_lang` on the seeds
/// and the program's identity. Trusted: what comes back is what is named
/// `program_address_search` for these seeds and this program, and an
/// address found with a bump is the one that `create_program_address`
/// derives from the same seeds followed by that bump as a seed of one byte.
#[verifier::external_body]
fn try_find_program_address(seeds: &Vec<Vec<u8>>, program_id: &Pubkey) -> (r: Option<(Pubkey, u8)>)
    ensures
        match r {
            Some((address, bump)) => {
                &&& program_address_search(seeds.deep_view(), program_id@) == Some((address@, bump))
                &&& program_address(seeds.deep_view().push(seq![bump]), program_id@) == Some(
                    address@,
                )
            },
            None => program_address_search(seeds.deep_view(), program_id@) is None,
        },
{
    let parts: Vec<&[u8]> = seeds.iter().map(|seed| seed.as_slice()).collect();
    let program = anchor_lang::prelude::Pubkey::new_from_array(program_id.bytes);
    match anchor_lang::prelude::Pubkey::try_find_program_address(&parts, &program) {
        Some((address, bump)) => Some((Pubkey { bytes: address.to_bytes() }, bump)),
        None => None,
    }
}

} // verus!
