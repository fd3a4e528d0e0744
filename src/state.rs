//! Records kept by the governance engine and the proposal's state machine.
use crate::error::GovernanceError;
use crate::threshold::{calculate_proposal_vote_threshold, ratio_fits, spec_ratio};
use vstd::prelude::*;

verus! {

/// Whether two account addresses are the same.
pub fn keys_equal(a: &[u8; 32], b: &[u8; 32]) -> (r: bool)
    ensures
        r == (a@ == b@),
{
    let mut i: usize = 0;
    while i < 32
        invariant
            0 <= i <= 32,
            forall|j: int| 0 <= j < i ==> a@[j] == b@[j],
        decreases 32 - i,
    {
        if a[i] != b[i] {
            return false;
        }
        i = i + 1;
    }
    assert(a@ =~= b@);
    true
}

/// `Some(x)` unless `x` is zero: timestamps are stored as non-zero values.
pub open spec fn spec_nonzero(x: u64) -> Option<u64> {
    if x == 0 {
        None
    } else {
        Some(x)
    }
}

pub fn nonzero(x: u64) -> (r: Option<u64>)
    ensures
        r == spec_nonzero(x),
{
    if x == 0 {
        None
    } else {
        Some(x)
    }
}

/// Governance parameters: timers in seconds and thresholds scaled by 10^9.
#[derive(Clone, Copy, Debug, PartialEq, Eq)]
pub struct Config {
    pub cooldown_period_seconds: u64,
    pub proposal_acceptance_threshold: u32,
    pub proposal_rejection_threshold: u32,
    pub signer_bump_seed: u8,
    pub stake_config_address: [u8; 32],
    pub voting_period_seconds: u64,
}

impl Config {
    pub fn new(
        cooldown_period_seconds: u64,
        proposal_acceptance_threshold: u32,
        proposal_rejection_threshold: u32,
        signer_bump_seed: u8,
        stake_config_address: &[u8; 32],
        voting_period_seconds: u64,
    ) -> (r: Config)
        ensures
            r == (Config {
                cooldown_period_seconds,
                proposal_acceptance_threshold,
                proposal_rejection_threshold,
                signer_bump_seed,
                stake_config_address: *stake_config_address,
                voting_period_seconds,
            }),
    {
        Config {
            cooldown_period_seconds,
            proposal_acceptance_threshold,
            proposal_rejection_threshold,
            signer_bump_seed,
            stake_config_address: *stake_config_address,
            voting_period_seconds,
        }
    }

    /// Fails with `StakeConfigMismatch` unless `key` is the stake config
    /// that this configuration refers to.
    pub fn check_stake_config(&self, key: &[u8; 32]) -> (r: Result<(), GovernanceError>)
        ensures
            r is Ok <==> key@ == self.stake_config_address@,
            r matches Err(e) ==> e == GovernanceError::StakeConfigMismatch,
    {
        if keys_equal(&self.stake_config_address, key) {
            Ok(())
        } else {
            Err(GovernanceError::StakeConfigMismatch)
        }
    }
}

#[derive(Clone, Copy, Debug, PartialEq, Eq, Structural)]
pub enum ProposalStatus {
    Draft,
    Voting,
    Cancelled,
    Accepted,
    Rejected,
    Processed,
}

/// No request changes a proposal in one of these states.
pub open spec fn is_terminal(s: ProposalStatus) -> bool {
    s == ProposalStatus::Cancelled || s == ProposalStatus::Rejected || s
        == ProposalStatus::Processed
}

#[derive(Clone, Copy, Debug, PartialEq, Eq, Structural)]
pub enum ProposalVoteElection {
    For,
    Against,
    DidNotVote,
}

/// The vote that one stake record has cast on one proposal, with the stake
/// that it counts.
#[derive(Clone, Copy, Debug, PartialEq, Eq)]
pub struct ProposalVote {
    pub proposal: [u8; 32],
    pub stake: u64,
    pub stake_authority: [u8; 32],
    pub election: ProposalVoteElection,
}

impl ProposalVote {
    pub fn new(
        proposal: &[u8; 32],
        stake: u64,
        stake_authority: &[u8; 32],
        election: ProposalVoteElection,
    ) -> (r: ProposalVote)
        ensures
            r == (ProposalVote {
                proposal: *proposal,
                stake,
                stake_authority: *stake_authority,
                election,
            }),
    {
        ProposalVote { proposal: *proposal, stake, stake_authority: *stake_authority, election }
    }
}

/// A proposal: its author, timers, tallies, status, and a copy of the
/// governance parameters taken when it was created.
#[derive(Clone, Copy, Debug, PartialEq, Eq)]
pub struct Proposal {
    pub author: [u8; 32],
    pub cooldown_timestamp: Option<u64>,
    pub creation_timestamp: i64,
    pub governance_config: Config,
    pub stake_abstained: u64,
    pub stake_against: u64,
    pub stake_for: u64,
    pub status: ProposalStatus,
    pub voting_start_timestamp: Option<u64>,
}

/// Sum of the three tallies.
pub open spec fn tally(p: Proposal) -> int {
    p.stake_for + p.stake_against + p.stake_abstained
}

/// The cooldown has run out at time `now`.
pub open spec fn spec_cooldown_ended(p: Proposal, now: int) -> bool {
    match p.cooldown_timestamp {
        Some(t) => now >= t + p.governance_config.cooldown_period_seconds,
        None => false,
    }
}

/// The voting window has run out at time `now`.
pub open spec fn spec_voting_ended(p: Proposal, now: int) -> bool {
    match p.voting_start_timestamp {
        Some(t) => now >= t + p.governance_config.voting_period_seconds,
        None => false,
    }
}

/// A proposal whose timers have run out gets its final status: accepted once
/// a cooldown has elapsed, rejected once the voting window has elapsed with
/// no cooldown ever started. `None` when neither has happened.
pub open spec fn spec_expire(p: Proposal, now: int) -> Option<Proposal> {
    if spec_cooldown_ended(p, now) {
        Some(Proposal { status: ProposalStatus::Accepted, ..p })
    } else if p.cooldown_timestamp is None && spec_voting_ended(p, now) {
        Some(Proposal { status: ProposalStatus::Rejected, ..p })
    } else {
        None
    }
}

/// The proposal after `stake` is counted for `election` at time `now`, with
/// `total_stake` delegated in all; `None` when a sum or a ratio overflows.
pub open spec fn spec_add_stake(
    p: Proposal,
    election: ProposalVoteElection,
    stake: u64,
    total_stake: u64,
    now: i64,
) -> Option<Proposal> {
    match election {
        ProposalVoteElection::For => {
            let n = p.stake_for + stake;
            if n > u64::MAX || !ratio_fits(n, total_stake as int) {
                None
            } else {
                let starts = spec_ratio(n, total_stake as int)
                    >= p.governance_config.proposal_acceptance_threshold
                    && p.cooldown_timestamp is None;
                Some(
                    Proposal {
                        stake_for: n as u64,
                        cooldown_timestamp: if starts {
                            spec_nonzero(now as u64)
                        } else {
                            p.cooldown_timestamp
                        },
                        ..p
                    },
                )
            }
        },
        ProposalVoteElection::Against => {
            let n = p.stake_against + stake;
            if n > u64::MAX || !ratio_fits(n, total_stake as int) {
                None
            } else {
                let rejects = spec_ratio(n, total_stake as int)
                    >= p.governance_config.proposal_rejection_threshold;
                Some(
                    Proposal {
                        stake_against: n as u64,
                        status: if rejects {
                            ProposalStatus::Rejected
                        } else {
                            p.status
                        },
                        ..p
                    },
                )
            }
        },
        ProposalVoteElection::DidNotVote => {
            let n = p.stake_abstained + stake;
            if n > u64::MAX {
                None
            } else {
                Some(Proposal { stake_abstained: n as u64, ..p })
            }
        },
    }
}

/// The proposal after `stake` is taken back from the tally of `election`;
/// `None` when that tally holds less.
pub open spec fn spec_sub_stake(p: Proposal, election: ProposalVoteElection, stake: u64) -> Option<
    Proposal,
> {
    match election {
        ProposalVoteElection::For => if p.stake_for >= stake {
            Some(Proposal { stake_for: (p.stake_for - stake) as u64, ..p })
        } else {
            None
        },
        ProposalVoteElection::Against => if p.stake_against >= stake {
            Some(Proposal { stake_against: (p.stake_against - stake) as u64, ..p })
        } else {
            None
        },
        ProposalVoteElection::DidNotVote => if p.stake_abstained >= stake {
            Some(Proposal { stake_abstained: (p.stake_abstained - stake) as u64, ..p })
        } else {
            None
        },
    }
}

/// A started cooldown stays as it is.
pub open spec fn cooldown_kept(before: Proposal, after: Proposal) -> bool {
    before.cooldown_timestamp is Some ==> after.cooldown_timestamp == before.cooldown_timestamp
}

impl Proposal {
    /// A new proposal in draft, with empty tallies and no timer started.
    pub fn new(author: &[u8; 32], creation_timestamp: i64, governance_config: Config) -> (r:
        Proposal)
        ensures
            r == (Proposal {
                author: *author,
                cooldown_timestamp: None,
                creation_timestamp,
                governance_config,
                stake_abstained: 0,
                stake_against: 0,
                stake_for: 0,
                status: ProposalStatus::Draft,
                voting_start_timestamp: None,
            }),
    {
        Proposal {
            author: *author,
            cooldown_timestamp: None,
            creation_timestamp,
            governance_config,
            stake_abstained: 0,
            stake_against: 0,
            stake_for: 0,
            status: ProposalStatus::Draft,
            voting_start_timestamp: None,
        }
    }

    /// Fails with `IncorrectAuthority` unless `key` is the proposal's author.
    pub fn check_author(&self, key: &[u8; 32]) -> (r: Result<(), GovernanceError>)
        ensures
            r is Ok <==> key@ == self.author@,
            r matches Err(e) ==> e == GovernanceError::IncorrectAuthority,
    {
        if keys_equal(&self.author, key) {
            Ok(())
        } else {
            Err(GovernanceError::IncorrectAuthority)
        }
    }

    pub fn cooldown_has_ended(&self, now: i64) -> (r: bool)
        ensures
            r == spec_cooldown_ended(*self, now as int),
    {
        match self.cooldown_timestamp {
            Some(t) => {
                if now < 0 {
                    false
                } else {
                    let n = now as u64;
                    n >= t && n - t >= self.governance_config.cooldown_period_seconds
                }
            },
            None => false,
        }
    }

    pub fn voting_has_ended(&self, now: i64) -> (r: bool)
        ensures
            r == spec_voting_ended(*self, now as int),
    {
        match self.voting_start_timestamp {
            Some(t) => {
                if now < 0 {
                    false
                } else {
                    let n = now as u64;
                    n >= t && n - t >= self.governance_config.voting_period_seconds
                }
            },
            None => false,
        }
    }

    /// Gives the proposal its final status where a timer has run out, the
    /// cooldown first; returns whether it did so.
    pub fn expire_timers(&mut self, now: i64) -> (r: bool)
        ensures
            r == spec_expire(*old(self), now as int) is Some,
            r ==> *final(self) == spec_expire(*old(self), now as int)->Some_0,
            !r ==> *final(self) == *old(self),
    {
        if self.cooldown_has_ended(now) {
            self.status = ProposalStatus::Accepted;
            return true;
        }
        if self.cooldown_timestamp.is_none() && self.voting_has_ended(now) {
            self.status = ProposalStatus::Rejected;
            return true;
        }
        false
    }

    /// Counts `stake` for `election`. A vote for that brings the ratio of
    /// stake for up to the acceptance threshold starts the cooldown, unless
    /// one has started already; a vote against that brings the ratio of stake
    /// against up to the rejection threshold rejects the proposal. Leaves the
    /// proposal unchanged where a sum or a ratio overflows.
    pub fn add_stake(
        &mut self,
        election: ProposalVoteElection,
        stake: u64,
        total_stake: u64,
        now: i64,
    ) -> (r: Result<(), GovernanceError>)
        ensures
            r is Ok <==> spec_add_stake(*old(self), election, stake, total_stake, now) is Some,
            r is Ok ==> *final(self) == spec_add_stake(
                *old(self),
                election,
                stake,
                total_stake,
                now,
            )->Some_0,
            r matches Err(e) ==> e == GovernanceError::ArithmeticOverflow && *final(self)
                == *old(self),
    {
        match election {
            ProposalVoteElection::For => {
                let n = match self.stake_for.checked_add(stake) {
                    Some(n) => n,
                    None => return Err(GovernanceError::ArithmeticOverflow),
                };
                let ratio = calculate_proposal_vote_threshold(n, total_stake)?;
                self.stake_for = n;
                if ratio >= self.governance_config.proposal_acceptance_threshold
                    && self.cooldown_timestamp.is_none() {
                    self.cooldown_timestamp = nonzero(now as u64);
                }
            },
            ProposalVoteElection::Against => {
                let n = match self.stake_against.checked_add(stake) {
                    Some(n) => n,
                    None => return Err(GovernanceError::ArithmeticOverflow),
                };
                let ratio = calculate_proposal_vote_threshold(n, total_stake)?;
                self.stake_against = n;
                if ratio >= self.governance_config.proposal_rejection_threshold {
                    self.status = ProposalStatus::Rejected;
                }
            },
            ProposalVoteElection::DidNotVote => {
                let n = match self.stake_abstained.checked_add(stake) {
                    Some(n) => n,
                    None => return Err(GovernanceError::ArithmeticOverflow),
                };
                self.stake_abstained = n;
            },
        }
        Ok(())
    }

    /// Takes `stake` back from the tally of `election`; fails with
    /// `ArithmeticOverflow`, and leaves the proposal unchanged, where that
    /// tally holds less.
    pub fn sub_stake(&mut self, election: ProposalVoteElection, stake: u64) -> (r: Result<
        (),
        GovernanceError,
    >)
        ensures
            r is Ok <==> spec_sub_stake(*old(self), election, stake) is Some,
            r is Ok ==> *final(self) == spec_sub_stake(*old(self), election, stake)->Some_0,
            r matches Err(e) ==> e == GovernanceError::ArithmeticOverflow && *final(self)
                == *old(self),
    {
        match election {
            ProposalVoteElection::For => {
                match self.stake_for.checked_sub(stake) {
                    Some(n) => self.stake_for = n,
                    None => return Err(GovernanceError::ArithmeticOverflow),
                }
            },
            ProposalVoteElection::Against => {
                match self.stake_against.checked_sub(stake) {
                    Some(n) => self.stake_against = n,
                    None => return Err(GovernanceError::ArithmeticOverflow),
                }
            },
            ProposalVoteElection::DidNotVote => {
                match self.stake_abstained.checked_sub(stake) {
                    Some(n) => self.stake_abstained = n,
                    None => return Err(GovernanceError::ArithmeticOverflow),
                }
            },
        }
        Ok(())
    }
}

} // verus!
