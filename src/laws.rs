//! Laws that relate the requests to each other over their whole runs.
use crate::accounts::{AccountView, RecordLayouts, StakeRecord};
use crate::processor::{
    spec_begin_voting, spec_cancel_proposal, spec_dispatch_checks, spec_edit_checks,
    spec_switch_vote, spec_vote,
};
use crate::state::{
    cooldown_kept, is_terminal, spec_add_stake, tally, Proposal, ProposalStatus, ProposalVote,
    ProposalVoteElection,
};
use crate::threshold::{ratio_fits, spec_ratio, THRESHOLD_SCALING_FACTOR};
use crate::transaction::{
    executed_up_to, spec_dispatch_error, spec_mark_executed, ProposalInstruction,
};
use vstd::prelude::*;

verus! {

/// A proposal that is cancelled, rejected or processed is final: beginning
/// a vote, cancelling, voting, switching a vote, editing the instruction
/// list and executing an instruction all fail on it, so none of them changes
/// its tallies or its status.
pub proof fn lemma_terminal_is_final(
    program_id: Seq<u8>,
    accounts: Seq<AccountView>,
    layouts: RecordLayouts,
    stake: Option<StakeRecord>,
    total_stake: Option<u64>,
    proposal: Proposal,
    vote: Option<ProposalVote>,
    transaction: Option<Seq<ProposalInstruction>>,
    election: ProposalVoteElection,
    index: u32,
    now: i64,
)
    requires
        is_terminal(proposal.status),
    ensures
        spec_begin_voting(program_id, accounts, layouts, Some(proposal), now) is Err,
        spec_cancel_proposal(program_id, accounts, layouts, Some(proposal)) is Err,
        spec_vote(
            program_id,
            accounts,
            layouts,
            stake,
            total_stake,
            Some(proposal),
            election,
            now,
        ) is Err,
        spec_switch_vote(
            program_id,
            accounts,
            layouts,
            stake,
            total_stake,
            Some(proposal),
            vote,
            election,
            now,
        ) is Err,
        spec_edit_checks(program_id, accounts, layouts, Some(proposal)) is Err,
        spec_dispatch_checks(program_id, accounts, layouts, Some(proposal), transaction, index) is Err,
{
}

/// A started cooldown never changes: no request that returns a proposal
/// clears it or moves it.
pub proof fn lemma_cooldown_monotone(
    program_id: Seq<u8>,
    accounts: Seq<AccountView>,
    layouts: RecordLayouts,
    stake: Option<StakeRecord>,
    total_stake: Option<u64>,
    proposal: Proposal,
    vote: Option<ProposalVote>,
    election: ProposalVoteElection,
    now: i64,
)
    ensures
        spec_begin_voting(program_id, accounts, layouts, Some(proposal), now) matches Ok(q)
            ==> cooldown_kept(proposal, q),
        spec_cancel_proposal(program_id, accounts, layouts, Some(proposal)) matches Ok(q)
            ==> cooldown_kept(proposal, q),
        spec_vote(
            program_id,
            accounts,
            layouts,
            stake,
            total_stake,
            Some(proposal),
            election,
            now,
        ) matches Ok(o) ==> cooldown_kept(proposal, o.proposal),
        spec_switch_vote(
            program_id,
            accounts,
            layouts,
            stake,
            total_stake,
            Some(proposal),
            vote,
            election,
            now,
        ) matches Ok(o) ==> cooldown_kept(proposal, o.proposal),
{
}

/// Only the author edits a proposal: where beginning a vote, cancelling, or
/// editing the instruction list passes its checks, the signer is the
/// proposal's author.
pub proof fn lemma_author_gate(
    program_id: Seq<u8>,
    accounts: Seq<AccountView>,
    layouts: RecordLayouts,
    proposal: Proposal,
    now: i64,
)
    ensures
        spec_begin_voting(program_id, accounts, layouts, Some(proposal), now) is Ok
            ==> accounts[0].is_signer && accounts[0].key@ == proposal.author@,
        spec_cancel_proposal(program_id, accounts, layouts, Some(proposal)) is Ok
            ==> accounts[0].is_signer && accounts[0].key@ == proposal.author@,
        spec_edit_checks(program_id, accounts, layouts, Some(proposal)) is Ok
            ==> accounts[0].is_signer && accounts[0].key@ == proposal.author@,
{
}

/// Sum of the stakes that the vote records of a proposal count.
pub open spec fn votes_total(votes: Seq<ProposalVote>) -> int
    decreases votes.len(),
{
    if votes.len() == 0 {
        0
    } else {
        votes_total(votes.drop_last()) + votes.last().stake
    }
}

proof fn lemma_votes_total_push(votes: Seq<ProposalVote>, v: ProposalVote)
    ensures
        votes_total(votes.push(v)) == votes_total(votes) + v.stake,
{
    assert(votes.push(v).drop_last() =~= votes);
}

proof fn lemma_votes_total_update(votes: Seq<ProposalVote>, i: int, v: ProposalVote)
    requires
        0 <= i < votes.len(),
    ensures
        votes_total(votes.update(i, v)) == votes_total(votes) - votes[i].stake + v.stake,
    decreases votes.len(),
{
    if i == votes.len() - 1 {
        assert(votes.update(i, v).drop_last() =~= votes.drop_last());
    } else {
        lemma_votes_total_update(votes.drop_last(), i, v);
        assert(votes.update(i, v).drop_last() =~= votes.drop_last().update(i, v));
    }
}

/// A vote keeps the records and the tallies in step: where the stakes of
/// the vote records add up to the proposal's three tallies before a vote that
/// succeeds, they add up to them after it, counting the record that the vote
/// writes, if any.
pub proof fn lemma_vote_conserves_tally(
    program_id: Seq<u8>,
    accounts: Seq<AccountView>,
    layouts: RecordLayouts,
    stake: Option<StakeRecord>,
    total_stake: Option<u64>,
    proposal: Proposal,
    election: ProposalVoteElection,
    now: i64,
    votes: Seq<ProposalVote>,
)
    requires
        votes_total(votes) == tally(proposal),
        spec_vote(
            program_id,
            accounts,
            layouts,
            stake,
            total_stake,
            Some(proposal),
            election,
            now,
        ) is Ok,
    ensures
        ({
            let o = spec_vote(
                program_id,
                accounts,
                layouts,
                stake,
                total_stake,
                Some(proposal),
                election,
                now,
            )->Ok_0;
            votes_total(
                match o.vote {
                    Some((v, _)) => votes.push(v),
                    None => votes,
                },
            ) == tally(o.proposal)
        }),
{
    let o = spec_vote(
        program_id,
        accounts,
        layouts,
        stake,
        total_stake,
        Some(proposal),
        election,
        now,
    )->Ok_0;
    if let Some((v, _)) = o.vote {
        lemma_votes_total_push(votes, v);
    }
}

/// A switch keeps the records and the tallies in step: where the stakes of
/// the vote records add up to the proposal's three tallies before a switch
/// of record `i` that succeeds, they add up to them after it, with record `i`
/// replaced by the one that the switch writes, if any.
pub proof fn lemma_switch_conserves_tally(
    program_id: Seq<u8>,
    accounts: Seq<AccountView>,
    layouts: RecordLayouts,
    stake: Option<StakeRecord>,
    total_stake: Option<u64>,
    proposal: Proposal,
    votes: Seq<ProposalVote>,
    i: int,
    new_election: ProposalVoteElection,
    now: i64,
)
    requires
        0 <= i < votes.len(),
        votes_total(votes) == tally(proposal),
        spec_switch_vote(
            program_id,
            accounts,
            layouts,
            stake,
            total_stake,
            Some(proposal),
            Some(votes[i]),
            new_election,
            now,
        ) is Ok,
    ensures
        ({
            let o = spec_switch_vote(
                program_id,
                accounts,
                layouts,
                stake,
                total_stake,
                Some(proposal),
                Some(votes[i]),
                new_election,
                now,
            )->Ok_0;
            votes_total(
                match o.vote {
                    Some((v, _)) => votes.update(i, v),
                    None => votes,
                },
            ) == tally(o.proposal)
        }),
{
    let o = spec_switch_vote(
        program_id,
        accounts,
        layouts,
        stake,
        total_stake,
        Some(proposal),
        Some(votes[i]),
        new_election,
        now,
    )->Ok_0;
    if let Some((v, _)) = o.vote {
        lemma_votes_total_update(votes, i, v);
    }
}

/// The list after executing `indices`, one after another; `None` where one
/// of them could not be executed at its turn.
pub open spec fn dispatch_run(s: Seq<ProposalInstruction>, indices: Seq<u32>) -> Option<
    Seq<ProposalInstruction>,
>
    decreases indices.len(),
{
    if indices.len() == 0 {
        Some(s)
    } else if spec_dispatch_error(s, indices[0] as int) is Some {
        None
    } else {
        dispatch_run(spec_mark_executed(s, indices[0] as int), indices.drop_first())
    }
}

/// Instructions run in order: where exactly the first `k` instructions of a
/// list have run, the indices of any run of executions that all succeed are
/// `k, k + 1, k + 2, ...`; on a fresh list, `0, 1, 2, ...`.
pub proof fn lemma_ordered_dispatch(s: Seq<ProposalInstruction>, k: int, indices: Seq<u32>)
    requires
        executed_up_to(s, k),
        dispatch_run(s, indices) is Some,
    ensures
        forall|j: int| 0 <= j < indices.len() ==> indices[j] == k + j,
    decreases indices.len(),
{
    if indices.len() > 0 {
        let i = indices[0] as int;
        assert(i == k) by {
            if i < k {
                assert(s[i].executed);
            } else if i > k {
                assert(!s[i - 1].executed);
            }
        }
        let s2 = spec_mark_executed(s, i);
        assert(executed_up_to(s2, k + 1));
        lemma_ordered_dispatch(s2, k + 1, indices.drop_first());
        assert forall|j: int| 0 <= j < indices.len() implies indices[j] == k + j by {
            if j > 0 {
                assert(indices[j] == indices.drop_first()[j - 1]);
            }
        }
    }
}

/// The scaled ratio meets a threshold exactly when
/// `stake * 10^9 >= threshold * total_stake`, wherever there is stake and
/// the ratio can be computed.
pub proof fn lemma_threshold_identity(stake: u64, total_stake: u64, threshold: u32)
    requires
        total_stake > 0,
        ratio_fits(stake as int, total_stake as int),
    ensures
        spec_ratio(stake as int, total_stake as int) >= threshold <==> stake
            * THRESHOLD_SCALING_FACTOR >= threshold * total_stake,
{
    let x = stake * THRESHOLD_SCALING_FACTOR;
    let t = total_stake as int;
    let h = threshold as int;
    assert(x / t >= h <==> x >= h * t) by (nonlinear_arith)
        requires
            t > 0,
            x >= 0,
            h >= 0,
    {
        if x / t >= h {
            assert(x >= (x / t) * t);
            assert((x / t) * t >= h * t);
        } else {
            assert(x / t + 1 <= h);
            assert(x < (x / t + 1) * t);
            assert((x / t + 1) * t <= h * t);
        }
    }
}

/// A vote for starts the cooldown exactly when the new stake for, scaled by
/// 10^9, reaches the acceptance threshold times the total delegated stake.
/// (With no delegated stake the ratio is zero; at time zero no timestamp is
/// stored.)
pub proof fn lemma_acceptance_fires_iff(p: Proposal, stake: u64, total_stake: u64, now: i64)
    requires
        total_stake > 0,
        now > 0,
        p.cooldown_timestamp is None,
        spec_add_stake(p, ProposalVoteElection::For, stake, total_stake, now) is Some,
    ensures
        spec_add_stake(
            p,
            ProposalVoteElection::For,
            stake,
            total_stake,
            now,
        )->Some_0.cooldown_timestamp is Some <==> (p.stake_for + stake) * THRESHOLD_SCALING_FACTOR
            >= p.governance_config.proposal_acceptance_threshold * total_stake,
{
    let n = (p.stake_for + stake) as u64;
    lemma_threshold_identity(n, total_stake, p.governance_config.proposal_acceptance_threshold);
}

/// A vote against rejects the proposal exactly when the new stake against,
/// scaled by 10^9, reaches the rejection threshold times the total delegated
/// stake.
pub proof fn lemma_rejection_fires_iff(p: Proposal, stake: u64, total_stake: u64, now: i64)
    requires
        total_stake > 0,
        p.status != ProposalStatus::Rejected,
        spec_add_stake(p, ProposalVoteElection::Against, stake, total_stake, now) is Some,
    ensures
        spec_add_stake(p, ProposalVoteElection::Against, stake, total_stake, now)->Some_0.status
            == ProposalStatus::Rejected <==> (p.stake_against + stake) * THRESHOLD_SCALING_FACTOR
            >= p.governance_config.proposal_rejection_threshold * total_stake,
{
    let n = (p.stake_against + stake) as u64;
    lemma_threshold_identity(n, total_stake, p.governance_config.proposal_rejection_threshold);
}

} // verus!
