use vstd::prelude::*;
use crate::account_id::{AccountId, copy_bytes};

verus! {

/// What `solana_pubkey::Pubkey::try_find_program_address` returns for a
/// given program identity and seed list: either the 32 bytes of the
/// program-derived address, or nothing when the seeds are too many or too
/// long, or no bump yields a valid address.  The result is a pure function
/// of the two arguments (an iterated SHA-256 digest search), the same in
/// every process; its page-long definition is not restated here.
pub uninterp spec fn derived_address(program_id: Seq<u8>, seeds: Seq<Seq<u8>>) -> Option<Seq<u8>>;

/// Relies on `solana_pubkey::Pubkey::try_find_program_address` (the host
/// chain's program-derived-address search): deterministic in the program
/// identity and the seed bytes alone, returning `None` exactly when no
/// address can be derived for these seeds.
#[verifier::external_body]
fn try_derive_address(program_id: &AccountId, seeds: &Vec<Vec<u8>>) -> (r: Option<AccountId>)
    requires
        program_id.wf(),
    ensures
        r matches Some(a) ==> (a.wf() && derived_address(program_id@, seeds.deep_view())
            == Some(a@)),
        r is None ==> derived_address(program_id@, seeds.deep_view()) is None,
{
    let mut pid_bytes = [0u8; 32];
    pid_bytes.copy_from_slice(program_id.bytes().as_slice());
    let pid = solana_pubkey::Pubkey::new_from_array(pid_bytes);
    let seed_slices: Vec<&[u8]> = seeds.iter().map(|s| s.as_slice()).collect();
    match solana_pubkey::Pubkey::try_find_program_address(&seed_slices, &pid) {
        Some((address, _bump)) => AccountId::from_bytes(address.to_bytes().to_vec()),
        None => None,
    }
}

/// The seed tag that starts every campaign seed list: the bytes of the
/// ASCII text "campaign".
pub open spec fn campaign_tag() -> Seq<u8> {
    seq![99u8, 97u8, 109u8, 112u8, 97u8, 105u8, 103u8, 110u8]
}

fn campaign_tag_vec() -> (v: Vec<u8>)
    ensures
        v@ == campaign_tag(),
{
    let mut v: Vec<u8> = Vec::new();
    v.push(99);
    v.push(97);
    v.push(109);
    v.push(112);
    v.push(97);
    v.push(105);
    v.push(103);
    v.push(110);
    proof {
        assert(v@ =~= campaign_tag());
    }
    v
}

/// The seed list that fixes a campaign's storage address: the tag, the
/// creator's identity, and the title bytes.
pub open spec fn campaign_seeds(creator: Seq<u8>, title: Seq<u8>) -> Seq<Seq<u8>> {
    seq![campaign_tag(), creator, title]
}

/// The storage address of the campaign `creator` owns under `title` — a
/// pure function of the two, so no two campaigns with the same creator and
/// title can ever coexist, and no campaign can be relocated.
pub open spec fn campaign_address(program_id: Seq<u8>, creator: Seq<u8>, title: Seq<u8>) -> Option<
    Seq<u8>,
> {
    derived_address(program_id, campaign_seeds(creator, title))
}

/// Computes the storage address for `(creator, title)` under the given
/// program, or nothing when none can be derived (an over-long title, or no
/// valid bump).
pub fn derive_campaign_address(program_id: &AccountId, creator: &AccountId, title: &Vec<u8>) -> (r:
    Option<AccountId>)
    requires
        program_id.wf(),
    ensures
        r matches Some(a) ==> (a.wf() && campaign_address(program_id@, creator@, title@) == Some(
            a@,
        )),
        r is None ==> campaign_address(program_id@, creator@, title@) is None,
{
    let mut seeds: Vec<Vec<u8>> = Vec::new();
    seeds.push(campaign_tag_vec());
    seeds.push(copy_bytes(creator.bytes()));
    seeds.push(copy_bytes(title));
    proof {
        assert(seeds@[0].deep_view() =~= campaign_tag());
        assert(seeds@[1].deep_view() =~= creator@);
        assert(seeds@[2].deep_view() =~= title@);
        assert(seeds.deep_view() =~= campaign_seeds(creator@, title@));
    }
    try_derive_address(program_id, &seeds)
}

}
