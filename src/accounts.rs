//! What the engine reads of the accounts handed to a request, and the checks
//! that each stored record must pass before it is used.
use crate::error::GovernanceError;
use crate::state::keys_equal;
use vstd::prelude::*;

verus! {

/// An account as a request sees it: its address, its owner, whether it
/// signed, the length of its data, and the first eight bytes of that data
/// (zeros where it is shorter).
#[derive(Clone, Copy, Debug, PartialEq, Eq)]
pub struct AccountView {
    pub key: [u8; 32],
    pub owner: [u8; 32],
    pub is_signer: bool,
    pub data_len: usize,
    pub tag: [u8; 8],
}

/// Sizes and tags of the stored records, and the stake program's address.
#[derive(Clone, Copy, Debug, PartialEq, Eq)]
pub struct RecordLayouts {
    pub stake_program_id: [u8; 32],
    pub stake_len: usize,
    pub stake_tag: [u8; 8],
    pub stake_config_len: usize,
    pub stake_config_tag: [u8; 8],
    pub governance_len: usize,
    pub proposal_len: usize,
    pub proposal_tag: [u8; 8],
    pub proposal_vote_len: usize,
}

/// A stake record of the stake program: its authority and amount, with the
/// address that the stake program derives for a record of its validator
/// under the stake config that the request names.
#[derive(Clone, Copy, Debug, PartialEq, Eq)]
pub struct StakeRecord {
    pub authority: [u8; 32],
    pub amount: u64,
    pub derived_address: [u8; 32],
}

/// The tag of an account whose data has not been written yet.
pub open spec fn uninitialized_tag() -> Seq<u8> {
    seq![0u8, 0, 0, 0, 0, 0, 0, 0]
}

/// Whether two record tags are the same.
pub fn tags_equal(a: &[u8; 8], b: &[u8; 8]) -> (r: bool)
    ensures
        r == (a@ == b@),
{
    let mut i: usize = 0;
    while i < 8
        invariant
            0 <= i <= 8,
            forall|j: int| 0 <= j < i ==> a@[j] == b@[j],
        decreases 8 - i,
    {
        if a[i] != b[i] {
            return false;
        }
        i = i + 1;
    }
    assert(a@ =~= b@);
    true
}

/// Whether the tag is all zeros.
pub fn is_uninitialized_tag(tag: &[u8; 8]) -> (r: bool)
    ensures
        r == (tag@ == uninitialized_tag()),
{
    let zeros: [u8; 8] = [0u8; 8];
    assert(zeros@ =~= uninitialized_tag());
    tags_equal(tag, &zeros)
}

/// Checks of a tagged record: the owner, then the length and the tag.
pub open spec fn spec_check_record(info: AccountView, owner: Seq<u8>, len: int, tag: Seq<u8>) -> Result<
    (),
    GovernanceError,
> {
    if info.owner@ != owner {
        Err(GovernanceError::InvalidAccountOwner)
    } else if info.data_len != len || info.tag@ != tag {
        Err(GovernanceError::UninitializedAccount)
    } else {
        Ok(())
    }
}

/// Checks of a record without a tag: the owner, then the length.
pub open spec fn spec_check_untagged(info: AccountView, owner: Seq<u8>, len: int) -> Result<
    (),
    GovernanceError,
> {
    if info.owner@ != owner {
        Err(GovernanceError::InvalidAccountOwner)
    } else if info.data_len != len {
        Err(GovernanceError::UninitializedAccount)
    } else {
        Ok(())
    }
}

/// Fails unless `info` is owned by `owner` and holds a record of length
/// `len` that starts with `tag`.
pub fn check_record(info: &AccountView, owner: &[u8; 32], len: usize, tag: &[u8; 8]) -> (r:
    Result<(), GovernanceError>)
    ensures
        r == spec_check_record(*info, owner@, len as int, tag@),
{
    if !keys_equal(&info.owner, owner) {
        return Err(GovernanceError::InvalidAccountOwner);
    }
    if !(info.data_len == len && tags_equal(&info.tag, tag)) {
        return Err(GovernanceError::UninitializedAccount);
    }
    Ok(())
}

/// Fails unless `info` is owned by `owner` and holds `len` bytes.
pub fn check_untagged(info: &AccountView, owner: &[u8; 32], len: usize) -> (r: Result<
    (),
    GovernanceError,
>)
    ensures
        r == spec_check_untagged(*info, owner@, len as int),
{
    if !keys_equal(&info.owner, owner) {
        return Err(GovernanceError::InvalidAccountOwner);
    }
    if info.data_len != len {
        return Err(GovernanceError::UninitializedAccount);
    }
    Ok(())
}

/// A stake config of the stake program.
pub fn check_stake_config_exists(info: &AccountView, layouts: &RecordLayouts) -> (r: Result<
    (),
    GovernanceError,
>)
    ensures
        r == spec_check_record(
            *info,
            layouts.stake_program_id@,
            layouts.stake_config_len as int,
            layouts.stake_config_tag@,
        ),
{
    check_record(info, &layouts.stake_program_id, layouts.stake_config_len, &layouts.stake_config_tag)
}

/// A stake record of the stake program.
pub fn check_stake_exists(info: &AccountView, layouts: &RecordLayouts) -> (r: Result<
    (),
    GovernanceError,
>)
    ensures
        r == spec_check_record(
            *info,
            layouts.stake_program_id@,
            layouts.stake_len as int,
            layouts.stake_tag@,
        ),
{
    check_record(info, &layouts.stake_program_id, layouts.stake_len, &layouts.stake_tag)
}

/// A governance config of this program.
pub fn check_governance_exists(program_id: &[u8; 32], info: &AccountView, layouts: &RecordLayouts) -> (r:
    Result<(), GovernanceError>)
    ensures
        r == spec_check_untagged(*info, program_id@, layouts.governance_len as int),
{
    check_untagged(info, program_id, layouts.governance_len)
}

/// A proposal of this program.
pub fn check_proposal_exists(program_id: &[u8; 32], info: &AccountView, layouts: &RecordLayouts) -> (r:
    Result<(), GovernanceError>)
    ensures
        r == spec_check_record(
            *info,
            program_id@,
            layouts.proposal_len as int,
            layouts.proposal_tag@,
        ),
{
    check_record(info, program_id, layouts.proposal_len, &layouts.proposal_tag)
}

/// Checks of an instruction list: the owner, then some data.
pub open spec fn spec_check_proposal_transaction(info: AccountView, program_id: Seq<u8>) -> Result<
    (),
    GovernanceError,
> {
    if info.owner@ != program_id {
        Err(GovernanceError::InvalidAccountOwner)
    } else if info.data_len == 0 {
        Err(GovernanceError::UninitializedAccount)
    } else {
        Ok(())
    }
}

/// An instruction list of this program: its length varies, but it is never
/// empty once written.
pub fn check_proposal_transaction_exists(program_id: &[u8; 32], info: &AccountView) -> (r: Result<
    (),
    GovernanceError,
>)
    ensures
        r == spec_check_proposal_transaction(*info, program_id@),
{
    if !keys_equal(&info.owner, program_id) {
        return Err(GovernanceError::InvalidAccountOwner);
    }
    if info.data_len == 0 {
        return Err(GovernanceError::UninitializedAccount);
    }
    Ok(())
}

/// The stake that a stake record gives its authority, after the checks: the
/// record exists and could be read, `authority` is its authority, and its
/// address is the one derived for it under the stake config.
pub open spec fn spec_get_stake(
    authority: Seq<u8>,
    info: AccountView,
    record: Option<StakeRecord>,
    layouts: RecordLayouts,
) -> Result<u64, GovernanceError> {
    match spec_check_record(
        info,
        layouts.stake_program_id@,
        layouts.stake_len as int,
        layouts.stake_tag@,
    ) {
        Err(e) => Err(e),
        Ok(()) => match record {
            None => Err(GovernanceError::InvalidAccountData),
            Some(s) => if s.authority@ != authority {
                Err(GovernanceError::IncorrectAuthority)
            } else if info.key@ != s.derived_address@ {
                Err(GovernanceError::StakeConfigMismatch)
            } else {
                Ok(s.amount)
            },
        },
    }
}

/// Reads the stake of a stake record for `authority`. `record` is what
/// the account's data held, or `None` where it could not be read as a
/// record.
pub fn get_stake_checked(
    authority: &[u8; 32],
    info: &AccountView,
    record: Option<StakeRecord>,
    layouts: &RecordLayouts,
) -> (r: Result<u64, GovernanceError>)
    ensures
        r == spec_get_stake(authority@, *info, record, *layouts),
{
    check_stake_exists(info, layouts)?;
    let s = match record {
        Some(s) => s,
        None => return Err(GovernanceError::InvalidAccountData),
    };
    if !keys_equal(&s.authority, authority) {
        return Err(GovernanceError::IncorrectAuthority);
    }
    if !keys_equal(&info.key, &s.derived_address) {
        return Err(GovernanceError::StakeConfigMismatch);
    }
    Ok(s.amount)
}

} // verus!
