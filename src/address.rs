//! Addresses of the accounts that the program owns or signs for, derived
//! from seeds, and the seeds that sign for them.
use crate::error::GovernanceError;
use vstd::prelude::*;

verus! {

/// The address, with its bump seed, that `seeds` and a bump derive for the
/// program `program_id`; `None` where no bump gives one.
pub uninterp spec fn derived_address(seeds: Seq<Seq<u8>>, program_id: Seq<u8>) -> Option<
    (Seq<u8>, u8),
>;

/// Relies on solana_program's `Pubkey::try_find_program_address`: it
/// searches the bump seeds from 255 down and returns the first address off
/// the curve with its bump, or `None` where there is none (or where the seeds
/// are too many or too long). The result depends on its arguments alone.
#[verifier::external_body]
fn try_find_program_address(seeds: &Vec<Vec<u8>>, program_id: &[u8; 32]) -> (r: Option<
    ([u8; 32], u8),
>)
    ensures
        r is Some <==> derived_address(seeds.deep_view(), program_id@) is Some,
        r matches Some(x) ==> derived_address(seeds.deep_view(), program_id@) == Some(
            (x.0@, x.1),
        ),
{
    let slices: Vec<&[u8]> = seeds.iter().map(|s| s.as_slice()).collect();
    let program = solana_program::pubkey::Pubkey::new_from_array(*program_id);
    solana_program::pubkey::Pubkey::try_find_program_address(&slices, &program).map(
        |(address, bump)| (address.to_bytes(), bump),
    )
}

/// The first seed of each kind of derived account: the bytes of `governance`.
pub open spec fn governance_prefix() -> Seq<u8> {
    seq![103, 111, 118, 101, 114, 110, 97, 110, 99, 101]
}

/// The bytes of `proposal_transaction`.
pub open spec fn proposal_transaction_prefix() -> Seq<u8> {
    seq![112, 114, 111, 112, 111, 115, 97, 108, 95, 116, 114, 97, 110, 115, 97, 99, 116, 105, 111, 110]
}

/// The bytes of `proposal_vote`.
pub open spec fn proposal_vote_prefix() -> Seq<u8> {
    seq![112, 114, 111, 112, 111, 115, 97, 108, 95, 118, 111, 116, 101]
}

/// The bytes of `treasury`.
pub open spec fn treasury_prefix() -> Seq<u8> {
    seq![116, 114, 101, 97, 115, 117, 114, 121]
}

/// Seeds of the governance config of a stake config.
pub open spec fn governance_seeds(stake_config: Seq<u8>) -> Seq<Seq<u8>> {
    seq![governance_prefix(), stake_config]
}

/// Seeds of the instruction list of a proposal.
pub open spec fn proposal_transaction_seeds(proposal: Seq<u8>) -> Seq<Seq<u8>> {
    seq![proposal_transaction_prefix(), proposal]
}

/// Seeds of the vote that a stake record casts on a proposal.
pub open spec fn proposal_vote_seeds(stake: Seq<u8>, proposal: Seq<u8>) -> Seq<Seq<u8>> {
    seq![proposal_vote_prefix(), stake, proposal]
}

/// Seeds of the treasury that belongs to a stake config.
pub open spec fn treasury_seeds(stake_config: Seq<u8>) -> Seq<Seq<u8>> {
    seq![treasury_prefix(), stake_config]
}

fn governance_prefix_bytes() -> (r: Vec<u8>)
    ensures
        r@ == governance_prefix(),
{
    let r = vec![103, 111, 118, 101, 114, 110, 97, 110, 99, 101];
    assert(r@ =~= governance_prefix());
    r
}

fn proposal_transaction_prefix_bytes() -> (r: Vec<u8>)
    ensures
        r@ == proposal_transaction_prefix(),
{
    let r = vec![112, 114, 111, 112, 111, 115, 97, 108, 95, 116, 114, 97, 110, 115, 97, 99, 116, 105, 111, 110];
    assert(r@ =~= proposal_transaction_prefix());
    r
}

fn proposal_vote_prefix_bytes() -> (r: Vec<u8>)
    ensures
        r@ == proposal_vote_prefix(),
{
    let r = vec![112, 114, 111, 112, 111, 115, 97, 108, 95, 118, 111, 116, 101];
    assert(r@ =~= proposal_vote_prefix());
    r
}

fn treasury_prefix_bytes() -> (r: Vec<u8>)
    ensures
        r@ == treasury_prefix(),
{
    let r = vec![116, 114, 101, 97, 115, 117, 114, 121];
    assert(r@ =~= treasury_prefix());
    r
}

/// The bytes of an address, as a seed.
fn key_bytes(key: &[u8; 32]) -> (r: Vec<u8>)
    ensures
        r@ == key@,
{
    let mut r: Vec<u8> = Vec::new();
    let mut i: usize = 0;
    while i < 32
        invariant
            0 <= i <= 32,
            r@ == key@.take(i as int),
        decreases 32 - i,
    {
        r.push(key[i]);
        i = i + 1;
        assert(r@ =~= key@.take(i as int));
    }
    assert(key@.take(32) =~= key@);
    r
}

/// Derives the address and bump of `seeds` for `program_id`; fails with
/// `InvalidSeeds` where no bump gives an address.
fn derive(seeds: &Vec<Vec<u8>>, program_id: &[u8; 32]) -> (r: Result<
    ([u8; 32], u8),
    GovernanceError,
>)
    ensures
        r is Ok <==> derived_address(seeds.deep_view(), program_id@) is Some,
        r matches Ok(x) ==> derived_address(seeds.deep_view(), program_id@) == Some((x.0@, x.1)),
        r matches Err(e) ==> e == GovernanceError::InvalidSeeds,
{
    match try_find_program_address(seeds, program_id) {
        Some(x) => Ok(x),
        None => Err(GovernanceError::InvalidSeeds),
    }
}

/// A byte vector's deep view is its view.
proof fn lemma_bytes_deep_view(v: Vec<u8>)
    ensures
        v.deep_view() == v@,
{
    assert(v.deep_view() =~= v@);
}

/// `seeds` with the bump appended, as the signer seeds of the account.
fn with_bump(seeds: Vec<Vec<u8>>, bump: u8) -> (r: Vec<Vec<u8>>)
    ensures
        r.deep_view() == seeds.deep_view().push(seq![bump]),
{
    let mut r = seeds;
    let b = vec![bump];
    proof {
        lemma_bytes_deep_view(b);
        assert(b@ =~= seq![bump]);
    }
    r.push(b);
    assert(r.deep_view() =~= seeds.deep_view().push(seq![bump]));
    r
}

fn seeds2(a: Vec<u8>, b: Vec<u8>) -> (r: Vec<Vec<u8>>)
    ensures
        r.deep_view() == seq![a@, b@],
{
    let mut r: Vec<Vec<u8>> = Vec::new();
    r.push(a);
    r.push(b);
    proof {
        lemma_bytes_deep_view(a);
        lemma_bytes_deep_view(b);
    }
    assert(r.deep_view() =~= seq![a@, b@]);
    r
}

fn seeds3(a: Vec<u8>, b: Vec<u8>, c: Vec<u8>) -> (r: Vec<Vec<u8>>)
    ensures
        r.deep_view() == seq![a@, b@, c@],
{
    let mut r: Vec<Vec<u8>> = Vec::new();
    r.push(a);
    r.push(b);
    r.push(c);
    proof {
        lemma_bytes_deep_view(a);
        lemma_bytes_deep_view(b);
        lemma_bytes_deep_view(c);
    }
    assert(r.deep_view() =~= seq![a@, b@, c@]);
    r
}

/// Seeds of the governance config of `stake_config`.
pub fn collect_governance_seeds(stake_config: &[u8; 32]) -> (r: Vec<Vec<u8>>)
    ensures
        r.deep_view() == governance_seeds(stake_config@),
{
    seeds2(governance_prefix_bytes(), key_bytes(stake_config))
}

/// Seeds of the instruction list of `proposal`.
pub fn collect_proposal_transaction_seeds(proposal: &[u8; 32]) -> (r: Vec<Vec<u8>>)
    ensures
        r.deep_view() == proposal_transaction_seeds(proposal@),
{
    seeds2(proposal_transaction_prefix_bytes(), key_bytes(proposal))
}

/// Seeds of the vote that `stake` casts on `proposal`.
pub fn collect_proposal_vote_seeds(stake: &[u8; 32], proposal: &[u8; 32]) -> (r: Vec<Vec<u8>>)
    ensures
        r.deep_view() == proposal_vote_seeds(stake@, proposal@),
{
    seeds3(proposal_vote_prefix_bytes(), key_bytes(stake), key_bytes(proposal))
}

/// Seeds of the treasury of `stake_config`.
pub fn collect_treasury_seeds(stake_config: &[u8; 32]) -> (r: Vec<Vec<u8>>)
    ensures
        r.deep_view() == treasury_seeds(stake_config@),
{
    seeds2(treasury_prefix_bytes(), key_bytes(stake_config))
}

/// Seeds, bump included, with which the program signs for the governance
/// config of `stake_config`.
pub fn collect_governance_signer_seeds(stake_config: &[u8; 32], bump: u8) -> (r: Vec<Vec<u8>>)
    ensures
        r.deep_view() == governance_seeds(stake_config@).push(seq![bump]),
{
    with_bump(collect_governance_seeds(stake_config), bump)
}

/// Seeds, bump included, with which the program signs for the instruction
/// list of `proposal`.
pub fn collect_proposal_transaction_signer_seeds(proposal: &[u8; 32], bump: u8) -> (r: Vec<
    Vec<u8>,
>)
    ensures
        r.deep_view() == proposal_transaction_seeds(proposal@).push(seq![bump]),
{
    with_bump(collect_proposal_transaction_seeds(proposal), bump)
}

/// Seeds, bump included, with which the program signs for the vote of
/// `stake` on `proposal`.
pub fn collect_proposal_vote_signer_seeds(stake: &[u8; 32], proposal: &[u8; 32], bump: u8) -> (r:
    Vec<Vec<u8>>)
    ensures
        r.deep_view() == proposal_vote_seeds(stake@, proposal@).push(seq![bump]),
{
    with_bump(collect_proposal_vote_seeds(stake, proposal), bump)
}

/// Seeds, bump included, with which the program signs as the treasury of
/// `stake_config`.
pub fn collect_treasury_signer_seeds(stake_config: &[u8; 32], bump: u8) -> (r: Vec<Vec<u8>>)
    ensures
        r.deep_view() == treasury_seeds(stake_config@).push(seq![bump]),
{
    with_bump(collect_treasury_seeds(stake_config), bump)
}

/// Address and bump of the governance config of `stake_config`.
pub fn get_governance_address_and_bump_seed(stake_config: &[u8; 32], program_id: &[u8; 32]) -> (r:
    Result<([u8; 32], u8), GovernanceError>)
    ensures
        r is Ok <==> derived_address(governance_seeds(stake_config@), program_id@) is Some,
        r matches Ok(x) ==> derived_address(governance_seeds(stake_config@), program_id@) == Some(
            (x.0@, x.1),
        ),
        r matches Err(e) ==> e == GovernanceError::InvalidSeeds,
{
    derive(&collect_governance_seeds(stake_config), program_id)
}

/// Address and bump of the instruction list of `proposal`.
pub fn get_proposal_transaction_address_and_bump_seed(proposal: &[u8; 32], program_id: &[u8; 32]) -> (r:
    Result<([u8; 32], u8), GovernanceError>)
    ensures
        r is Ok <==> derived_address(proposal_transaction_seeds(proposal@), program_id@) is Some,
        r matches Ok(x) ==> derived_address(proposal_transaction_seeds(proposal@), program_id@)
            == Some((x.0@, x.1)),
        r matches Err(e) ==> e == GovernanceError::InvalidSeeds,
{
    derive(&collect_proposal_transaction_seeds(proposal), program_id)
}

/// Address and bump of the vote that `stake` casts on `proposal`.
pub fn get_proposal_vote_address_and_bump_seed(
    stake: &[u8; 32],
    proposal: &[u8; 32],
    program_id: &[u8; 32],
) -> (r: Result<([u8; 32], u8), GovernanceError>)
    ensures
        r is Ok <==> derived_address(proposal_vote_seeds(stake@, proposal@), program_id@) is Some,
        r matches Ok(x) ==> derived_address(proposal_vote_seeds(stake@, proposal@), program_id@)
            == Some((x.0@, x.1)),
        r matches Err(e) ==> e == GovernanceError::InvalidSeeds,
{
    derive(&collect_proposal_vote_seeds(stake, proposal), program_id)
}

/// Address and bump of the treasury of `stake_config`.
pub fn get_treasury_address_and_bump_seed(stake_config: &[u8; 32], program_id: &[u8; 32]) -> (r:
    Result<([u8; 32], u8), GovernanceError>)
    ensures
        r is Ok <==> derived_address(treasury_seeds(stake_config@), program_id@) is Some,
        r matches Ok(x) ==> derived_address(treasury_seeds(stake_config@), program_id@) == Some(
            (x.0@, x.1),
        ),
        r matches Err(e) ==> e == GovernanceError::InvalidSeeds,
{
    derive(&collect_treasury_seeds(stake_config), program_id)
}

} // verus!
