//! Program-derived addresses: the seeds this program derives its accounts'
//! addresses from, and the check that an account sits at the derived address.
use vstd::prelude::*;

use crate::pubkey::Pubkey;
use crate::state::Campaign;

verus! {

broadcast use vstd::array::group_array_axioms;

/// The address derived from `seeds` for the program `program_id`, or `None` when
/// the seeds derive no address (too many or too long seeds, or a hash that lies on
/// the curve).
pub uninterp spec fn program_address(seeds: Seq<Seq<u8>>, program_id: Seq<u8>) -> Option<Seq<u8>>;

/// Calls `Pubkey::create_program_address` (solana-program, re-exported by
/// anchor-lang). The contract claims only that its answer is the one named by
/// `program_address` for the same seeds and program id: a hash of them, so the
/// same inputs always give the same answer.
#[verifier::external_body]
fn create_program_address(seeds: &Vec<Vec<u8>>, program_id: &Pubkey) -> (r: Option<Pubkey>)
    ensures
        r is Some <==> program_address(seeds.deep_view(), program_id@) is Some,
        r is Some ==> r->Some_0@ == program_address(seeds.deep_view(), program_id@)->Some_0,
{
    let slices: Vec<&[u8]> = seeds.iter().map(|s| s.as_slice()).collect();
    let id = anchor_lang::prelude::Pubkey::new_from_array(program_id.to_bytes());
    match anchor_lang::prelude::Pubkey::create_program_address(&slices, &id) {
        Ok(k) => Some(Pubkey::new_from_array(k.to_bytes())),
        Err(_) => None,
    }
}

/// The bytes of `"campaign"`.
pub open spec fn campaign_seed() -> Seq<u8> {
    seq![99u8, 97u8, 109u8, 112u8, 97u8, 105u8, 103u8, 110u8]
}

/// The bytes of `"creator"`.
pub open spec fn creator_seed() -> Seq<u8> {
    seq![99u8, 114u8, 101u8, 97u8, 116u8, 111u8, 114u8]
}

/// The eight little-endian bytes of `x`.
pub open spec fn le_bytes(x: u64) -> Seq<u8> {
    Seq::new(8, |i: int| ((x as int / vstd::arithmetic::power::pow(256, i as nat)) % 256) as u8)
}

/// Seeds of a campaign account, with its bump: `"campaign"`, the creator's address,
/// the campaign index in little-endian bytes, and the bump.
pub open spec fn campaign_seeds(creator: Pubkey, index: u64, bump: u8) -> Seq<Seq<u8>> {
    seq![campaign_seed(), creator@, le_bytes(index), seq![bump]]
}

/// Seeds of a creator record, with its bump: `"creator"`, the creator's address and
/// the bump.
pub open spec fn creator_seeds(creator: Pubkey, bump: u8) -> Seq<Seq<u8>> {
    seq![creator_seed(), creator@, seq![bump]]
}

/// The account at `address` is the one the seeds derive for the program.
pub open spec fn derives(seeds: Seq<Seq<u8>>, program_id: Pubkey, address: Pubkey) -> bool {
    program_address(seeds, program_id@) == Some(address@)
}

/// The campaign account at `address` passes its seeds constraint when `creator` is
/// the creator key the instruction derives its address from.
pub open spec fn campaign_derived_at(
    campaign: Campaign,
    creator: Pubkey,
    program_id: Pubkey,
    address: Pubkey,
) -> bool {
    derives(campaign_seeds(creator, campaign.index, campaign.bump), program_id, address)
}

/// The eight little-endian bytes of `x`.
pub fn to_le_bytes(x: u64) -> (r: Vec<u8>)
    ensures
        r@ == le_bytes(x),
{
    let mut out: Vec<u8> = Vec::new();
    let mut v: u64 = x;
    let mut i: usize = 0;
    proof {
        vstd::arithmetic::power::lemma_pow0(256);
    }
    while i < 8
        invariant
            i <= 8,
            out@.len() == i,
            vstd::arithmetic::power::pow(256, i as nat) > 0,
            v as int == x as int / vstd::arithmetic::power::pow(256, i as nat),
            forall|j: int|
                0 <= j < i ==> #[trigger] out@[j] == ((x as int / vstd::arithmetic::power::pow(
                    256,
                    j as nat,
                )) % 256) as u8,
        decreases 8 - i,
    {
        out.push((v % 256) as u8);
        proof {
            let p = vstd::arithmetic::power::pow(256, i as nat);
            vstd::arithmetic::div_mod::lemma_div_denominator(x as int, p, 256);
            vstd::arithmetic::power::lemma_pow_adds(256, i as nat, 1);
            vstd::arithmetic::power::lemma_pow1(256);
        }
        v = v / 256;
        i = i + 1;
    }
    assert(out@ =~= le_bytes(x));
    out
}

/// The bytes of an address, in order.
fn key_bytes(key: &Pubkey) -> (r: Vec<u8>)
    ensures
        r@ == key@,
{
    let mut out: Vec<u8> = Vec::new();
    let mut i: usize = 0;
    while i < 32
        invariant
            i <= 32,
            out@.len() == i,
            forall|j: int| 0 <= j < i ==> #[trigger] out@[j] == key.bytes[j],
        decreases 32 - i,
    {
        out.push(key.bytes[i]);
        i = i + 1;
    }
    assert(out@ =~= key@);
    out
}

/// The seeds of a campaign account, with its bump; also the seeds with which the
/// campaign signs for its own token account.
pub fn campaign_signer_seeds(creator: &Pubkey, index: u64, bump: u8) -> (r: Vec<Vec<u8>>)
    ensures
        r.deep_view() == campaign_seeds(*creator, index, bump),
{
    let mut seeds: Vec<Vec<u8>> = Vec::new();
    seeds.push(vec![99u8, 97u8, 109u8, 112u8, 97u8, 105u8, 103u8, 110u8]);
    seeds.push(key_bytes(creator));
    seeds.push(to_le_bytes(index));
    seeds.push(vec![bump]);
    proof {
        assert(seeds@[0].deep_view() =~= campaign_seed());
        assert(seeds@[1].deep_view() =~= creator@);
        assert(seeds@[2].deep_view() =~= le_bytes(index));
        assert(seeds@[3].deep_view() =~= seq![bump]);
    }
    assert(seeds.deep_view() =~= campaign_seeds(*creator, index, bump));
    seeds
}

/// The seeds of a creator record, with its bump.
pub fn creator_record_seeds(creator: &Pubkey, bump: u8) -> (r: Vec<Vec<u8>>)
    ensures
        r.deep_view() == creator_seeds(*creator, bump),
{
    let mut seeds: Vec<Vec<u8>> = Vec::new();
    seeds.push(vec![99u8, 114u8, 101u8, 97u8, 116u8, 111u8, 114u8]);
    seeds.push(key_bytes(creator));
    seeds.push(vec![bump]);
    proof {
        assert(seeds@[0].deep_view() =~= creator_seed());
        assert(seeds@[1].deep_view() =~= creator@);
        assert(seeds@[2].deep_view() =~= seq![bump]);
    }
    assert(seeds.deep_view() =~= creator_seeds(*creator, bump));
    seeds
}

/// Whether the account at `address` is the one `seeds` derive for the program: the
/// account constraint that rejects a mismatch with `ConstraintSeeds`.
pub fn is_derived_address(seeds: &Vec<Vec<u8>>, program_id: &Pubkey, address: &Pubkey) -> (r: bool)
    ensures
        r == derives(seeds.deep_view(), *program_id, *address),
{
    match create_program_address(seeds, program_id) {
        Some(k) => {
            let same = k == *address;
            proof {
                if !same {
                    if k@ == address@ {
                        assert(k.bytes =~= address.bytes);
                    }
                }
            }
            same
        },
        None => false,
    }
}

/// Whether the campaign account at `address` is the one derived from `creator`, the
/// campaign's index and its stored bump.
pub fn is_campaign_address(
    campaign: &Campaign,
    creator: &Pubkey,
    program_id: &Pubkey,
    address: &Pubkey,
) -> (r: bool)
    ensures
        r == campaign_derived_at(*campaign, *creator, *program_id, *address),
{
    is_derived_address(&campaign_signer_seeds(creator, campaign.index, campaign.bump), program_id, address)
}

} // verus!
