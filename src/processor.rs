//! The requests of the governance program. Each takes the accounts handed to
//! the request, what their data held where it could be read, and the time;
//! it checks them in a fixed order, fails with the first check that does not
//! hold, and otherwise returns the records to write back.
use crate::accounts::{
    check_governance_exists, check_proposal_exists, check_proposal_transaction_exists,
    check_stake_config_exists, check_stake_exists, get_stake_checked, is_uninitialized_tag,
    spec_check_proposal_transaction, spec_check_record, spec_check_untagged, spec_get_stake,
    uninitialized_tag, AccountView, RecordLayouts, StakeRecord,
};
use crate::address::{
    derived_address, get_governance_address_and_bump_seed,
    get_proposal_transaction_address_and_bump_seed, get_proposal_vote_address_and_bump_seed,
    get_treasury_address_and_bump_seed, governance_seeds, proposal_transaction_seeds,
    proposal_vote_seeds, treasury_seeds,
};
use crate::error::GovernanceError;
use crate::state::{
    cooldown_kept, is_terminal, keys_equal, nonzero, spec_add_stake, spec_expire, spec_nonzero,
    spec_sub_stake, Config, Proposal, ProposalStatus, ProposalVote, ProposalVoteElection,
};
use crate::transaction::{
    executed_in_order, spec_all_executed, spec_dispatch_error,
    spec_mark_executed, spec_packed_len, ProposalAccountMeta, ProposalInstruction,
    ProposalTransaction, PACKED_ACCOUNT_META_LEN,
};
use vstd::prelude::*;

verus! {

/// A new proposal, and the bump seed with which the program signs for the
/// instruction list that it allocates beside it.
#[derive(Clone, Copy, Debug, PartialEq, Eq)]
pub struct ProposalCreation {
    pub proposal: Proposal,
    pub transaction_bump: u8,
    pub transaction_len: u64,
}

/// Accounts: the stake authority (signer), its stake record, the proposal
/// (allocated, not yet written), its instruction list (not yet allocated),
/// and the governance config. `stake` and `governance` are what the stake
/// record's and the governance config's data held, where they could be read;
/// the stake record's derived address is the one under the governance
/// config's stake config.
pub open spec fn spec_create_proposal(
    program_id: Seq<u8>,
    accounts: Seq<AccountView>,
    layouts: RecordLayouts,
    stake: Option<StakeRecord>,
    governance: Option<Config>,
    now: i64,
) -> Result<(Proposal, u8), GovernanceError> {
    if accounts.len() < 5 {
        Err(GovernanceError::NotEnoughAccountKeys)
    } else {
        let authority = accounts[0];
        let stake_info = accounts[1];
        let proposal_info = accounts[2];
        let transaction_info = accounts[3];
        let governance_info = accounts[4];
        if !authority.is_signer {
            Err(GovernanceError::MissingRequiredSignature)
        } else {
            match spec_check_record(
                stake_info,
                layouts.stake_program_id@,
                layouts.stake_len as int,
                layouts.stake_tag@,
            ) {
                Err(e) => Err(e),
                Ok(()) => match stake {
                    None => Err(GovernanceError::InvalidAccountData),
                    Some(s) => if s.authority@ != authority.key@ {
                        Err(GovernanceError::IncorrectAuthority)
                    } else {
                        match spec_check_untagged(
                            governance_info,
                            program_id,
                            layouts.governance_len as int,
                        ) {
                            Err(e) => Err(e),
                            Ok(()) => match governance {
                                None => Err(GovernanceError::InvalidAccountData),
                                Some(config) => if stake_info.key@ != s.derived_address@ {
                                    Err(GovernanceError::StakeConfigMismatch)
                                } else if proposal_info.owner@ != program_id {
                                    Err(GovernanceError::InvalidAccountOwner)
                                } else if proposal_info.data_len != layouts.proposal_len {
                                    Err(GovernanceError::InvalidAccountData)
                                } else if proposal_info.tag@ != uninitialized_tag() {
                                    Err(GovernanceError::AccountAlreadyInitialized)
                                } else {
                                    match derived_address(
                                        proposal_transaction_seeds(proposal_info.key@),
                                        program_id,
                                    ) {
                                        None => Err(GovernanceError::InvalidSeeds),
                                        Some(d) => if transaction_info.key@ != d.0 {
                                            Err(GovernanceError::IncorrectProposalTransactionAddress)
                                        } else if transaction_info.data_len != 0 {
                                            Err(GovernanceError::AccountAlreadyInitialized)
                                        } else {
                                            Ok(
                                                (
                                                    Proposal {
                                                        author: authority.key,
                                                        cooldown_timestamp: None,
                                                        creation_timestamp: now,
                                                        governance_config: config,
                                                        stake_abstained: 0,
                                                        stake_against: 0,
                                                        stake_for: 0,
                                                        status: ProposalStatus::Draft,
                                                        voting_start_timestamp: None,
                                                    },
                                                    d.1,
                                                ),
                                            )
                                        },
                                    }
                                },
                            },
                        }
                    },
                },
            }
        }
    }
}

/// Creates a proposal in draft, authored by the signer, with a copy of the
/// governance config, and an empty instruction list beside it.
pub fn process_create_proposal(
    program_id: &[u8; 32],
    accounts: &Vec<AccountView>,
    layouts: &RecordLayouts,
    stake: Option<StakeRecord>,
    governance: Option<Config>,
    now: i64,
) -> (r: Result<ProposalCreation, GovernanceError>)
    ensures
        r is Ok <==> spec_create_proposal(program_id@, accounts@, *layouts, stake, governance, now) is Ok,
        r matches Ok(c) ==> spec_create_proposal(program_id@, accounts@, *layouts, stake, governance, now)
            == Ok::<(Proposal, u8), GovernanceError>((c.proposal, c.transaction_bump))
            && c.transaction_len == spec_packed_len(Seq::empty()),
        r matches Err(e) ==> spec_create_proposal(program_id@, accounts@, *layouts, stake, governance, now)
            == Err::<(Proposal, u8), GovernanceError>(e),
{
    if accounts.len() < 5 {
        return Err(GovernanceError::NotEnoughAccountKeys);
    }
    let authority = &accounts[0];
    let stake_info = &accounts[1];
    let proposal_info = &accounts[2];
    let transaction_info = &accounts[3];
    let governance_info = &accounts[4];
    if !authority.is_signer {
        return Err(GovernanceError::MissingRequiredSignature);
    }
    check_stake_exists(stake_info, layouts)?;
    let s = match stake {
        Some(s) => s,
        None => return Err(GovernanceError::InvalidAccountData),
    };
    if !keys_equal(&s.authority, &authority.key) {
        return Err(GovernanceError::IncorrectAuthority);
    }
    check_governance_exists(program_id, governance_info, layouts)?;
    let config = match governance {
        Some(c) => c,
        None => return Err(GovernanceError::InvalidAccountData),
    };
    if !keys_equal(&stake_info.key, &s.derived_address) {
        return Err(GovernanceError::StakeConfigMismatch);
    }
    if !keys_equal(&proposal_info.owner, program_id) {
        return Err(GovernanceError::InvalidAccountOwner);
    }
    if proposal_info.data_len != layouts.proposal_len {
        return Err(GovernanceError::InvalidAccountData);
    }
    if !is_uninitialized_tag(&proposal_info.tag) {
        return Err(GovernanceError::AccountAlreadyInitialized);
    }
    let proposal = Proposal::new(&authority.key, now, config);
    let (address, bump) = get_proposal_transaction_address_and_bump_seed(
        &proposal_info.key,
        program_id,
    )?;
    if !keys_equal(&transaction_info.key, &address) {
        return Err(GovernanceError::IncorrectProposalTransactionAddress);
    }
    if transaction_info.data_len != 0 {
        return Err(GovernanceError::AccountAlreadyInitialized);
    }
    let empty = ProposalTransaction::new();
    let transaction_len = match empty.packed_len() {
        Ok(n) => n,
        Err(e) => return Err(e),
    };
    Ok(ProposalCreation { proposal, transaction_bump: bump, transaction_len })
}

/// Checks shared by the requests that the author makes on a proposal:
/// enough accounts, the author's signature, the proposal's record, and the
/// author's identity.
pub open spec fn spec_author_checks(
    program_id: Seq<u8>,
    accounts: Seq<AccountView>,
    n_accounts: int,
    layouts: RecordLayouts,
    proposal: Option<Proposal>,
) -> Result<Proposal, GovernanceError> {
    if accounts.len() < n_accounts {
        Err(GovernanceError::NotEnoughAccountKeys)
    } else if !accounts[0].is_signer {
        Err(GovernanceError::MissingRequiredSignature)
    } else {
        match spec_check_record(
            accounts[1],
            program_id,
            layouts.proposal_len as int,
            layouts.proposal_tag@,
        ) {
            Err(e) => Err(e),
            Ok(()) => match proposal {
                None => Err(GovernanceError::InvalidAccountData),
                Some(p) => if p.author@ != accounts[0].key@ {
                    Err(GovernanceError::IncorrectAuthority)
                } else {
                    Ok(p)
                },
            },
        }
    }
}

fn author_checks(
    program_id: &[u8; 32],
    accounts: &Vec<AccountView>,
    n_accounts: usize,
    layouts: &RecordLayouts,
    proposal: Option<Proposal>,
) -> (r: Result<Proposal, GovernanceError>)
    requires
        n_accounts >= 2,
    ensures
        r == spec_author_checks(program_id@, accounts@, n_accounts as int, *layouts, proposal),
{
    if accounts.len() < n_accounts {
        return Err(GovernanceError::NotEnoughAccountKeys);
    }
    if !accounts[0].is_signer {
        return Err(GovernanceError::MissingRequiredSignature);
    }
    check_proposal_exists(program_id, &accounts[1], layouts)?;
    let p = match proposal {
        Some(p) => p,
        None => return Err(GovernanceError::InvalidAccountData),
    };
    p.check_author(&accounts[0].key)?;
    Ok(p)
}

/// Accounts: the author (signer) and the proposal.
pub open spec fn spec_begin_voting(
    program_id: Seq<u8>,
    accounts: Seq<AccountView>,
    layouts: RecordLayouts,
    proposal: Option<Proposal>,
    now: i64,
) -> Result<Proposal, GovernanceError> {
    match spec_author_checks(program_id, accounts, 2, layouts, proposal) {
        Err(e) => Err(e),
        Ok(p) => if p.status != ProposalStatus::Draft {
            Err(GovernanceError::ProposalIsImmutable)
        } else {
            Ok(
                Proposal {
                    status: ProposalStatus::Voting,
                    voting_start_timestamp: spec_nonzero(now as u64),
                    ..p
                },
            )
        },
    }
}

/// Opens a draft proposal for voting, from now.
pub fn process_begin_voting(
    program_id: &[u8; 32],
    accounts: &Vec<AccountView>,
    layouts: &RecordLayouts,
    proposal: Option<Proposal>,
    now: i64,
) -> (r: Result<Proposal, GovernanceError>)
    ensures
        r == spec_begin_voting(program_id@, accounts@, *layouts, proposal, now),
        r is Ok ==> accounts@[0].key@ == proposal->Some_0.author@,
        r matches Ok(q) ==> cooldown_kept(proposal->Some_0, q),
        proposal matches Some(p) && is_terminal(p.status) ==> r is Err,
{
    let mut p = author_checks(program_id, accounts, 2, layouts, proposal)?;
    if p.status != ProposalStatus::Draft {
        return Err(GovernanceError::ProposalIsImmutable);
    }
    p.status = ProposalStatus::Voting;
    p.voting_start_timestamp = nonzero(now as u64);
    Ok(p)
}

/// Accounts: the author (signer) and the proposal.
pub open spec fn spec_cancel_proposal(
    program_id: Seq<u8>,
    accounts: Seq<AccountView>,
    layouts: RecordLayouts,
    proposal: Option<Proposal>,
) -> Result<Proposal, GovernanceError> {
    match spec_author_checks(program_id, accounts, 2, layouts, proposal) {
        Err(e) => Err(e),
        Ok(p) => if p.status != ProposalStatus::Draft && p.status != ProposalStatus::Voting {
            Err(GovernanceError::ProposalIsImmutable)
        } else {
            Ok(Proposal { status: ProposalStatus::Cancelled, ..p })
        },
    }
}

/// Cancels a proposal in draft or open for voting.
pub fn process_cancel_proposal(
    program_id: &[u8; 32],
    accounts: &Vec<AccountView>,
    layouts: &RecordLayouts,
    proposal: Option<Proposal>,
) -> (r: Result<Proposal, GovernanceError>)
    ensures
        r == spec_cancel_proposal(program_id@, accounts@, *layouts, proposal),
        r is Ok ==> accounts@[0].key@ == proposal->Some_0.author@,
        r matches Ok(q) ==> cooldown_kept(proposal->Some_0, q),
        proposal matches Some(p) && is_terminal(p.status) ==> r is Err,
{
    let mut p = author_checks(program_id, accounts, 2, layouts, proposal)?;
    match p.status {
        ProposalStatus::Draft | ProposalStatus::Voting => {},
        _ => return Err(GovernanceError::ProposalIsImmutable),
    }
    p.status = ProposalStatus::Cancelled;
    Ok(p)
}

/// Accounts: the governance config (not yet allocated), the stake config,
/// the system program.
pub open spec fn spec_initialize_governance(
    program_id: Seq<u8>,
    accounts: Seq<AccountView>,
    layouts: RecordLayouts,
    cooldown_period_seconds: u64,
    proposal_acceptance_threshold: u32,
    proposal_rejection_threshold: u32,
    voting_period_seconds: u64,
) -> Result<Config, GovernanceError> {
    if accounts.len() < 3 {
        Err(GovernanceError::NotEnoughAccountKeys)
    } else {
        let governance_info = accounts[0];
        let stake_config_info = accounts[1];
        match spec_check_record(
            stake_config_info,
            layouts.stake_program_id@,
            layouts.stake_config_len as int,
            layouts.stake_config_tag@,
        ) {
            Err(e) => Err(e),
            Ok(()) => match derived_address(governance_seeds(stake_config_info.key@), program_id) {
                None => Err(GovernanceError::InvalidSeeds),
                Some(d) => if governance_info.key@ != d.0 {
                    Err(GovernanceError::IncorrectGovernanceConfigAddress)
                } else if governance_info.data_len != 0 {
                    Err(GovernanceError::AccountAlreadyInitialized)
                } else {
                    Ok(
                        Config {
                            cooldown_period_seconds,
                            proposal_acceptance_threshold,
                            proposal_rejection_threshold,
                            signer_bump_seed: d.1,
                            stake_config_address: stake_config_info.key,
                            voting_period_seconds,
                        },
                    )
                },
            },
        }
    }
}

/// Creates the governance config of a stake config.
pub fn process_initialize_governance(
    program_id: &[u8; 32],
    accounts: &Vec<AccountView>,
    layouts: &RecordLayouts,
    cooldown_period_seconds: u64,
    proposal_acceptance_threshold: u32,
    proposal_rejection_threshold: u32,
    voting_period_seconds: u64,
) -> (r: Result<Config, GovernanceError>)
    ensures
        r == spec_initialize_governance(
            program_id@,
            accounts@,
            *layouts,
            cooldown_period_seconds,
            proposal_acceptance_threshold,
            proposal_rejection_threshold,
            voting_period_seconds,
        ),
{
    if accounts.len() < 3 {
        return Err(GovernanceError::NotEnoughAccountKeys);
    }
    let governance_info = &accounts[0];
    let stake_config_info = &accounts[1];
    check_stake_config_exists(stake_config_info, layouts)?;
    let (address, bump) = get_governance_address_and_bump_seed(&stake_config_info.key, program_id)?;
    if !keys_equal(&governance_info.key, &address) {
        return Err(GovernanceError::IncorrectGovernanceConfigAddress);
    }
    if governance_info.data_len != 0 {
        return Err(GovernanceError::AccountAlreadyInitialized);
    }
    Ok(
        Config::new(
            cooldown_period_seconds,
            proposal_acceptance_threshold,
            proposal_rejection_threshold,
            bump,
            &stake_config_info.key,
            voting_period_seconds,
        ),
    )
}

/// The proposal after a vote or a switch, and the vote record to write with
/// the bump seed of its address (the bump matters only for a new record).
/// `vote` is `None` where a timer had run out: the proposal then got its final
/// status and no vote was counted.
#[derive(Clone, Copy, Debug, PartialEq, Eq)]
pub struct VoteOutcome {
    pub proposal: Proposal,
    pub vote: Option<(ProposalVote, u8)>,
}

/// Checks shared by a vote and a switch, up to the proposal's timers. On
/// success: the voter's stake, the total delegated stake, and the proposal.
pub open spec fn spec_ballot_checks(
    program_id: Seq<u8>,
    accounts: Seq<AccountView>,
    n_accounts: int,
    layouts: RecordLayouts,
    stake: Option<StakeRecord>,
    total_stake: Option<u64>,
    proposal: Option<Proposal>,
) -> Result<(u64, u64, Proposal), GovernanceError> {
    if accounts.len() < n_accounts {
        Err(GovernanceError::NotEnoughAccountKeys)
    } else if !accounts[0].is_signer {
        Err(GovernanceError::MissingRequiredSignature)
    } else {
        match spec_get_stake(accounts[0].key@, accounts[1], stake, layouts) {
            Err(e) => Err(e),
            Ok(amount) => match spec_check_record(
                accounts[2],
                layouts.stake_program_id@,
                layouts.stake_config_len as int,
                layouts.stake_config_tag@,
            ) {
                Err(e) => Err(e),
                Ok(()) => match total_stake {
                    None => Err(GovernanceError::InvalidAccountData),
                    Some(total) => match spec_check_record(
                        accounts[4],
                        program_id,
                        layouts.proposal_len as int,
                        layouts.proposal_tag@,
                    ) {
                        Err(e) => Err(e),
                        Ok(()) => match proposal {
                            None => Err(GovernanceError::InvalidAccountData),
                            Some(p) => if accounts[2].key@
                                != p.governance_config.stake_config_address@ {
                                Err(GovernanceError::StakeConfigMismatch)
                            } else if p.status != ProposalStatus::Voting {
                                Err(GovernanceError::ProposalNotInVotingStage)
                            } else {
                                Ok((amount, total, p))
                            },
                        },
                    },
                },
            },
        }
    }
}

fn ballot_checks(
    program_id: &[u8; 32],
    accounts: &Vec<AccountView>,
    n_accounts: usize,
    layouts: &RecordLayouts,
    stake: Option<StakeRecord>,
    total_stake: Option<u64>,
    proposal: Option<Proposal>,
) -> (r: Result<(u64, u64, Proposal), GovernanceError>)
    requires
        n_accounts >= 5,
    ensures
        r == spec_ballot_checks(
            program_id@,
            accounts@,
            n_accounts as int,
            *layouts,
            stake,
            total_stake,
            proposal,
        ),
{
    if accounts.len() < n_accounts {
        return Err(GovernanceError::NotEnoughAccountKeys);
    }
    let voter = &accounts[0];
    if !voter.is_signer {
        return Err(GovernanceError::MissingRequiredSignature);
    }
    let amount = get_stake_checked(&voter.key, &accounts[1], stake, layouts)?;
    check_stake_config_exists(&accounts[2], layouts)?;
    let total = match total_stake {
        Some(t) => t,
        None => return Err(GovernanceError::InvalidAccountData),
    };
    check_proposal_exists(program_id, &accounts[4], layouts)?;
    let p = match proposal {
        Some(p) => p,
        None => return Err(GovernanceError::InvalidAccountData),
    };
    p.governance_config.check_stake_config(&accounts[2].key)?;
    if p.status != ProposalStatus::Voting {
        return Err(GovernanceError::ProposalNotInVotingStage);
    }
    Ok((amount, total, p))
}

/// Accounts: the voter (signer), its stake record, the stake config, the
/// vote record (not yet allocated), the proposal, the system program.
/// `stake`, `total_stake` and `proposal` are what the stake record, the stake
/// config and the proposal held, where they could be read; the stake
/// record's derived address is the one under the stake config passed.
pub open spec fn spec_vote(
    program_id: Seq<u8>,
    accounts: Seq<AccountView>,
    layouts: RecordLayouts,
    stake: Option<StakeRecord>,
    total_stake: Option<u64>,
    proposal: Option<Proposal>,
    election: ProposalVoteElection,
    now: i64,
) -> Result<VoteOutcome, GovernanceError> {
    match spec_ballot_checks(program_id, accounts, 6, layouts, stake, total_stake, proposal) {
        Err(e) => Err(e),
        Ok((amount, total, p)) => match spec_expire(p, now as int) {
            Some(q) => Ok(VoteOutcome { proposal: q, vote: None }),
            None => match derived_address(
                proposal_vote_seeds(accounts[1].key@, accounts[4].key@),
                program_id,
            ) {
                None => Err(GovernanceError::InvalidSeeds),
                Some(d) => if accounts[3].key@ != d.0 {
                    Err(GovernanceError::IncorrectProposalVoteAddress)
                } else if accounts[3].data_len != 0 {
                    Err(GovernanceError::AccountAlreadyInitialized)
                } else {
                    match spec_add_stake(p, election, amount, total, now) {
                        None => Err(GovernanceError::ArithmeticOverflow),
                        Some(q) => Ok(
                            VoteOutcome {
                                proposal: q,
                                vote: Some(
                                    (
                                        ProposalVote {
                                            proposal: accounts[4].key,
                                            stake: amount,
                                            stake_authority: accounts[0].key,
                                            election,
                                        },
                                        d.1,
                                    ),
                                ),
                            },
                        ),
                    }
                },
            },
        },
    }
}

/// Casts the voter's stake for `election` on a proposal open for voting, and
/// records the vote; or, where a timer has run out, gives the proposal its
/// final status and records nothing.
pub fn process_vote(
    program_id: &[u8; 32],
    accounts: &Vec<AccountView>,
    layouts: &RecordLayouts,
    stake: Option<StakeRecord>,
    total_stake: Option<u64>,
    proposal: Option<Proposal>,
    election: ProposalVoteElection,
    now: i64,
) -> (r: Result<VoteOutcome, GovernanceError>)
    ensures
        r == spec_vote(program_id@, accounts@, *layouts, stake, total_stake, proposal, election, now),
        r matches Ok(o) ==> cooldown_kept(proposal->Some_0, o.proposal),
        proposal matches Some(p) && is_terminal(p.status) ==> r is Err,
{
    let (amount, total, mut p) = ballot_checks(
        program_id,
        accounts,
        6,
        layouts,
        stake,
        total_stake,
        proposal,
    )?;
    if p.expire_timers(now) {
        return Ok(VoteOutcome { proposal: p, vote: None });
    }
    let (address, bump) = get_proposal_vote_address_and_bump_seed(
        &accounts[1].key,
        &accounts[4].key,
        program_id,
    )?;
    if !keys_equal(&accounts[3].key, &address) {
        return Err(GovernanceError::IncorrectProposalVoteAddress);
    }
    if accounts[3].data_len != 0 {
        return Err(GovernanceError::AccountAlreadyInitialized);
    }
    let vote = ProposalVote::new(&accounts[4].key, amount, &accounts[0].key, election);
    p.add_stake(election, amount, total, now)?;
    Ok(VoteOutcome { proposal: p, vote: Some((vote, bump)) })
}

/// Accounts: the voter (signer), its stake record, the stake config, the
/// vote record, the proposal. `vote` is what the vote record held, where it
/// could be read.
pub open spec fn spec_switch_vote(
    program_id: Seq<u8>,
    accounts: Seq<AccountView>,
    layouts: RecordLayouts,
    stake: Option<StakeRecord>,
    total_stake: Option<u64>,
    proposal: Option<Proposal>,
    vote: Option<ProposalVote>,
    new_election: ProposalVoteElection,
    now: i64,
) -> Result<VoteOutcome, GovernanceError> {
    match spec_ballot_checks(program_id, accounts, 5, layouts, stake, total_stake, proposal) {
        Err(e) => Err(e),
        Ok((amount, total, p)) => match spec_expire(p, now as int) {
            Some(q) => Ok(VoteOutcome { proposal: q, vote: None }),
            None => match derived_address(
                proposal_vote_seeds(accounts[1].key@, accounts[4].key@),
                program_id,
            ) {
                None => Err(GovernanceError::InvalidSeeds),
                Some(d) => if accounts[3].key@ != d.0 {
                    Err(GovernanceError::IncorrectProposalVoteAddress)
                } else {
                    match spec_check_untagged(
                        accounts[3],
                        program_id,
                        layouts.proposal_vote_len as int,
                    ) {
                        Err(e) => Err(e),
                        Ok(()) => match vote {
                            None => Err(GovernanceError::InvalidAccountData),
                            Some(last) => match spec_sub_stake(p, last.election, last.stake) {
                                None => Err(GovernanceError::ArithmeticOverflow),
                                Some(q) => match spec_add_stake(
                                    q,
                                    new_election,
                                    amount,
                                    total,
                                    now,
                                ) {
                                    None => Err(GovernanceError::ArithmeticOverflow),
                                    Some(q2) => Ok(
                                        VoteOutcome {
                                            proposal: q2,
                                            vote: Some(
                                                (
                                                    ProposalVote {
                                                        election: new_election,
                                                        stake: amount,
                                                        ..last
                                                    },
                                                    d.1,
                                                ),
                                            ),
                                        },
                                    ),
                                },
                            },
                        },
                    }
                },
            },
        },
    }
}

/// Moves the voter's vote to `new_election`: the stake recorded with the
/// last vote leaves the tally of the last election, and the voter's stake as
/// it is now joins the tally of the new one. Where a timer has run out, gives
/// the proposal its final status instead.
pub fn process_switch_vote(
    program_id: &[u8; 32],
    accounts: &Vec<AccountView>,
    layouts: &RecordLayouts,
    stake: Option<StakeRecord>,
    total_stake: Option<u64>,
    proposal: Option<Proposal>,
    vote: Option<ProposalVote>,
    new_election: ProposalVoteElection,
    now: i64,
) -> (r: Result<VoteOutcome, GovernanceError>)
    ensures
        r == spec_switch_vote(
            program_id@,
            accounts@,
            *layouts,
            stake,
            total_stake,
            proposal,
            vote,
            new_election,
            now,
        ),
        r matches Ok(o) ==> cooldown_kept(proposal->Some_0, o.proposal),
        proposal matches Some(p) && is_terminal(p.status) ==> r is Err,
{
    let (amount, total, mut p) = ballot_checks(
        program_id,
        accounts,
        5,
        layouts,
        stake,
        total_stake,
        proposal,
    )?;
    if p.expire_timers(now) {
        return Ok(VoteOutcome { proposal: p, vote: None });
    }
    let (address, bump) = get_proposal_vote_address_and_bump_seed(
        &accounts[1].key,
        &accounts[4].key,
        program_id,
    )?;
    if !keys_equal(&accounts[3].key, &address) {
        return Err(GovernanceError::IncorrectProposalVoteAddress);
    }
    crate::accounts::check_untagged(&accounts[3], program_id, layouts.proposal_vote_len)?;
    let last = match vote {
        Some(v) => v,
        None => return Err(GovernanceError::InvalidAccountData),
    };
    let switched = ProposalVote { election: new_election, stake: amount, ..last };
    p.sub_stake(last.election, last.stake)?;
    p.add_stake(new_election, amount, total, now)?;
    Ok(VoteOutcome { proposal: p, vote: Some((switched, bump)) })
}

/// Bytes that a new instruction takes when packed, by the lengths of its
/// account list and its data.
pub open spec fn spec_new_instruction_len(n_accounts: int, data_len: int) -> int {
    32 + 4 + PACKED_ACCOUNT_META_LEN * n_accounts + 4 + data_len + 1
}

/// Checks before the instruction list of a draft is edited. Accounts: the
/// author (signer), the proposal, its instruction list.
pub open spec fn spec_edit_checks(
    program_id: Seq<u8>,
    accounts: Seq<AccountView>,
    layouts: RecordLayouts,
    proposal: Option<Proposal>,
) -> Result<(), GovernanceError> {
    match spec_author_checks(program_id, accounts, 3, layouts, proposal) {
        Err(e) => Err(e),
        Ok(p) => if p.status != ProposalStatus::Draft {
            Err(GovernanceError::ProposalIsImmutable)
        } else {
            match derived_address(proposal_transaction_seeds(accounts[1].key@), program_id) {
                None => Err(GovernanceError::InvalidSeeds),
                Some(d) => if accounts[2].key@ != d.0 {
                    Err(GovernanceError::IncorrectProposalTransactionAddress)
                } else {
                    spec_check_proposal_transaction(accounts[2], program_id)
                },
            }
        },
    }
}

fn edit_checks(
    program_id: &[u8; 32],
    accounts: &Vec<AccountView>,
    layouts: &RecordLayouts,
    proposal: Option<Proposal>,
) -> (r: Result<(), GovernanceError>)
    ensures
        r == spec_edit_checks(program_id@, accounts@, *layouts, proposal),
{
    let p = author_checks(program_id, accounts, 3, layouts, proposal)?;
    if p.status != ProposalStatus::Draft {
        return Err(GovernanceError::ProposalIsImmutable);
    }
    let (address, _bump) = get_proposal_transaction_address_and_bump_seed(
        &accounts[1].key,
        program_id,
    )?;
    if !keys_equal(&accounts[2].key, &address) {
        return Err(GovernanceError::IncorrectProposalTransactionAddress);
    }
    check_proposal_transaction_exists(program_id, &accounts[2])
}

/// Appends a new instruction, not yet executed, to the list of a draft.
/// Returns the new list and its packed length, to which the account is
/// resized. `transaction` is what the list's account held, where it could be
/// read.
pub fn process_push_instruction(
    program_id: &[u8; 32],
    accounts: &Vec<AccountView>,
    layouts: &RecordLayouts,
    proposal: Option<Proposal>,
    transaction: Option<ProposalTransaction>,
    instruction_program_id: [u8; 32],
    instruction_account_metas: Vec<ProposalAccountMeta>,
    instruction_data: Vec<u8>,
) -> (r: Result<(ProposalTransaction, u64), GovernanceError>)
    ensures
        r is Ok <==> spec_edit_checks(program_id@, accounts@, *layouts, proposal) is Ok
            && transaction is Some && spec_packed_len(transaction->Some_0.instructions@)
            + spec_new_instruction_len(
                instruction_account_metas@.len() as int,
                instruction_data@.len() as int,
            )
            <= u64::MAX,
        r matches Ok((t, n)) ==> {
            let before = transaction->Some_0.instructions@;
            let added = t.instructions@.last();
            &&& t.instructions@.len() == before.len() + 1
            &&& t.instructions@.drop_last() == before
            &&& added.program_id == instruction_program_id
            &&& added.accounts@ == instruction_account_metas@
            &&& added.data@ == instruction_data@
            &&& !added.executed
            &&& n == spec_packed_len(t.instructions@)
            &&& (executed_in_order(before) ==> executed_in_order(t.instructions@))
        },
        r matches Err(e) ==> match spec_edit_checks(program_id@, accounts@, *layouts, proposal) {
            Err(first) => e == first,
            Ok(()) => if transaction is None {
                e == GovernanceError::InvalidAccountData
            } else {
                e == GovernanceError::ArithmeticOverflow
            },
        },
        r is Ok ==> accounts@[0].key@ == proposal->Some_0.author@,
        proposal matches Some(p) && is_terminal(p.status) ==> r is Err,
{
    edit_checks(program_id, accounts, layouts, proposal)?;
    let mut t = match transaction {
        Some(t) => t,
        None => return Err(GovernanceError::InvalidAccountData),
    };
    let instruction = ProposalInstruction::new(
        &instruction_program_id,
        instruction_account_metas,
        instruction_data,
    );
    let ghost before = t.instructions@;
    t.push_instruction(instruction);
    proof {
        assert(t.instructions@.drop_last() =~= before);
    }
    let n = t.packed_len()?;
    Ok((t, n))
}

/// Removes instruction `index` from the list of a draft; those after it
/// move down by one. Returns the new list and its packed length.
pub fn process_remove_instruction(
    program_id: &[u8; 32],
    accounts: &Vec<AccountView>,
    layouts: &RecordLayouts,
    proposal: Option<Proposal>,
    transaction: Option<ProposalTransaction>,
    index: u32,
) -> (r: Result<(ProposalTransaction, u64), GovernanceError>)
    ensures
        r is Ok <==> spec_edit_checks(program_id@, accounts@, *layouts, proposal) is Ok
            && transaction is Some && (index as int) < transaction->Some_0.instructions@.len()
            && spec_packed_len(transaction->Some_0.instructions@.remove(index as int))
            <= u64::MAX,
        r matches Ok((t, n)) ==> t.instructions@ == transaction->Some_0.instructions@.remove(
            index as int,
        ) && n == spec_packed_len(t.instructions@) && (executed_in_order(
            transaction->Some_0.instructions@,
        ) ==> executed_in_order(t.instructions@)),
        r matches Err(e) ==> match spec_edit_checks(program_id@, accounts@, *layouts, proposal) {
            Err(first) => e == first,
            Ok(()) => if transaction is None {
                e == GovernanceError::InvalidAccountData
            } else if (index as int) >= transaction->Some_0.instructions@.len() {
                e == GovernanceError::InvalidTransactionIndex
            } else {
                e == GovernanceError::ArithmeticOverflow
            },
        },
        r is Ok ==> accounts@[0].key@ == proposal->Some_0.author@,
        proposal matches Some(p) && is_terminal(p.status) ==> r is Err,
{
    edit_checks(program_id, accounts, layouts, proposal)?;
    let mut t = match transaction {
        Some(t) => t,
        None => return Err(GovernanceError::InvalidAccountData),
    };
    t.remove_instruction(index)?;
    let n = t.packed_len()?;
    Ok((t, n))
}

/// Checks before instruction `index` of an accepted proposal is executed.
/// Accounts: the proposal, its instruction list, then those that the
/// instruction needs. On success: the proposal and the bump seed of the
/// treasury, which signs the instruction.
pub open spec fn spec_dispatch_checks(
    program_id: Seq<u8>,
    accounts: Seq<AccountView>,
    layouts: RecordLayouts,
    proposal: Option<Proposal>,
    transaction: Option<Seq<ProposalInstruction>>,
    index: u32,
) -> Result<(Proposal, u8), GovernanceError> {
    if accounts.len() < 2 {
        Err(GovernanceError::NotEnoughAccountKeys)
    } else {
        match spec_check_record(
            accounts[0],
            program_id,
            layouts.proposal_len as int,
            layouts.proposal_tag@,
        ) {
            Err(e) => Err(e),
            Ok(()) => match proposal {
                None => Err(GovernanceError::InvalidAccountData),
                Some(p) => if p.status != ProposalStatus::Accepted {
                    Err(GovernanceError::ProposalNotAccepted)
                } else {
                    match derived_address(
                        proposal_transaction_seeds(accounts[0].key@),
                        program_id,
                    ) {
                        None => Err(GovernanceError::InvalidSeeds),
                        Some(d) => if accounts[1].key@ != d.0 {
                            Err(GovernanceError::IncorrectProposalTransactionAddress)
                        } else {
                            match spec_check_proposal_transaction(accounts[1], program_id) {
                                Err(e) => Err(e),
                                Ok(()) => match transaction {
                                    None => Err(GovernanceError::InvalidAccountData),
                                    Some(s) => match spec_dispatch_error(s, index as int) {
                                        Some(e) => Err(e),
                                        None => match derived_address(
                                            treasury_seeds(
                                                p.governance_config.stake_config_address@,
                                            ),
                                            program_id,
                                        ) {
                                            None => Err(GovernanceError::InvalidSeeds),
                                            Some(t) => Ok((p, t.1)),
                                        },
                                    },
                                },
                            }
                        },
                    }
                },
            },
        }
    }
}

/// An instruction cleared for execution: the proposal and its list as they
/// stand once it has run, and the treasury's bump seed to sign it with.
#[derive(Clone, Debug, PartialEq, Eq)]
pub struct Dispatch {
    pub proposal: Proposal,
    pub transaction: ProposalTransaction,
    pub treasury_bump: u8,
}

/// Clears instruction `index` of an accepted proposal for execution under
/// the treasury's signature, and marks it executed. Instructions run in
/// order, each at most once; once the last has run, the proposal is
/// processed.
pub fn process_process_instruction(
    program_id: &[u8; 32],
    accounts: &Vec<AccountView>,
    layouts: &RecordLayouts,
    proposal: Option<Proposal>,
    transaction: Option<ProposalTransaction>,
    index: u32,
) -> (r: Result<Dispatch, GovernanceError>)
    ensures
        ({
            let checks = spec_dispatch_checks(
                program_id@,
                accounts@,
                *layouts,
                proposal,
                match transaction {
                    Some(t) => Some(t.instructions@),
                    None => None,
                },
                index,
            );
            &&& r is Ok <==> checks is Ok
            &&& r matches Err(e) ==> checks == Err::<(Proposal, u8), GovernanceError>(e)
            &&& r matches Ok(d) ==> {
                let s = spec_mark_executed(transaction->Some_0.instructions@, index as int);
                &&& checks == Ok::<(Proposal, u8), GovernanceError>(
                    (proposal->Some_0, d.treasury_bump),
                )
                &&& d.transaction.instructions@ == s
                &&& executed_in_order(transaction->Some_0.instructions@) ==> executed_in_order(s)
                &&& d.proposal == if spec_all_executed(s) {
                    Proposal { status: ProposalStatus::Processed, ..proposal->Some_0 }
                } else {
                    proposal->Some_0
                }
            }
        }),
        r matches Ok(d) ==> cooldown_kept(proposal->Some_0, d.proposal),
        proposal matches Some(p) && is_terminal(p.status) ==> r is Err,
{
    if accounts.len() < 2 {
        return Err(GovernanceError::NotEnoughAccountKeys);
    }
    check_proposal_exists(program_id, &accounts[0], layouts)?;
    let mut p = match proposal {
        Some(p) => p,
        None => return Err(GovernanceError::InvalidAccountData),
    };
    if p.status != ProposalStatus::Accepted {
        return Err(GovernanceError::ProposalNotAccepted);
    }
    let (address, _bump) = get_proposal_transaction_address_and_bump_seed(
        &accounts[0].key,
        program_id,
    )?;
    if !keys_equal(&accounts[1].key, &address) {
        return Err(GovernanceError::IncorrectProposalTransactionAddress);
    }
    check_proposal_transaction_exists(program_id, &accounts[1])?;
    let mut t = match transaction {
        Some(t) => t,
        None => return Err(GovernanceError::InvalidAccountData),
    };
    t.check_executable(index)?;
    let (_treasury, treasury_bump) = get_treasury_address_and_bump_seed(
        &p.governance_config.stake_config_address,
        program_id,
    )?;
    t.mark_executed(index);
    if t.all_executed() {
        p.status = ProposalStatus::Processed;
    }
    Ok(Dispatch { proposal: p, transaction: t, treasury_bump })
}

/// Accounts: the governance config, an accepted proposal, and the treasury
/// of the governance config's stake config, which must sign: the request
/// then comes from the instructions of an accepted proposal.
pub open spec fn spec_update_governance(
    program_id: Seq<u8>,
    accounts: Seq<AccountView>,
    layouts: RecordLayouts,
    governance: Option<Config>,
    proposal: Option<Proposal>,
    now: i64,
    cooldown_period_seconds: u64,
    proposal_acceptance_threshold: u32,
    proposal_rejection_threshold: u32,
    voting_period_seconds: u64,
) -> Result<Config, GovernanceError> {
    if accounts.len() < 3 {
        Err(GovernanceError::NotEnoughAccountKeys)
    } else {
        match spec_check_untagged(accounts[0], program_id, layouts.governance_len as int) {
            Err(e) => Err(e),
            Ok(()) => match spec_check_record(
                accounts[1],
                program_id,
                layouts.proposal_len as int,
                layouts.proposal_tag@,
            ) {
                Err(e) => Err(e),
                Ok(()) => match proposal {
                    None => Err(GovernanceError::InvalidAccountData),
                    Some(p) => if !crate::state::spec_cooldown_ended(p, now as int) {
                        Err(GovernanceError::ProposalNotAccepted)
                    } else {
                        match governance {
                            None => Err(GovernanceError::InvalidAccountData),
                            Some(c) => if !accounts[2].is_signer {
                                Err(GovernanceError::MissingRequiredSignature)
                            } else {
                                match derived_address(
                                    treasury_seeds(c.stake_config_address@),
                                    program_id,
                                ) {
                                    None => Err(GovernanceError::InvalidSeeds),
                                    Some(t) => if accounts[2].key@ != t.0 {
                                        Err(GovernanceError::IncorrectAuthority)
                                    } else {
                                        Ok(
                                            Config {
                                                cooldown_period_seconds,
                                                proposal_acceptance_threshold,
                                                proposal_rejection_threshold,
                                                voting_period_seconds,
                                                ..c
                                            },
                                        )
                                    },
                                }
                            },
                        }
                    },
                },
            },
        }
    }
}

/// Replaces the timers and thresholds of the governance config.
pub fn process_update_governance(
    program_id: &[u8; 32],
    accounts: &Vec<AccountView>,
    layouts: &RecordLayouts,
    governance: Option<Config>,
    proposal: Option<Proposal>,
    now: i64,
    cooldown_period_seconds: u64,
    proposal_acceptance_threshold: u32,
    proposal_rejection_threshold: u32,
    voting_period_seconds: u64,
) -> (r: Result<Config, GovernanceError>)
    ensures
        r == spec_update_governance(
            program_id@,
            accounts@,
            *layouts,
            governance,
            proposal,
            now,
            cooldown_period_seconds,
            proposal_acceptance_threshold,
            proposal_rejection_threshold,
            voting_period_seconds,
        ),
{
    if accounts.len() < 3 {
        return Err(GovernanceError::NotEnoughAccountKeys);
    }
    check_governance_exists(program_id, &accounts[0], layouts)?;
    check_proposal_exists(program_id, &accounts[1], layouts)?;
    let p = match proposal {
        Some(p) => p,
        None => return Err(GovernanceError::InvalidAccountData),
    };
    if !p.cooldown_has_ended(now) {
        return Err(GovernanceError::ProposalNotAccepted);
    }
    let mut c = match governance {
        Some(c) => c,
        None => return Err(GovernanceError::InvalidAccountData),
    };
    if !accounts[2].is_signer {
        return Err(GovernanceError::MissingRequiredSignature);
    }
    let (treasury, _bump) = get_treasury_address_and_bump_seed(&c.stake_config_address, program_id)?;
    if !keys_equal(&accounts[2].key, &treasury) {
        return Err(GovernanceError::IncorrectAuthority);
    }
    c.cooldown_period_seconds = cooldown_period_seconds;
    c.proposal_acceptance_threshold = proposal_acceptance_threshold;
    c.proposal_rejection_threshold = proposal_rejection_threshold;
    c.voting_period_seconds = voting_period_seconds;
    Ok(c)
}

} // verus!
