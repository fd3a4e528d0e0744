//! Errors surfaced by the governance engine.
use vstd::prelude::*;

verus! {

/// Every failure that a request can end in: the engine's own errors first,
/// then the host's standard ones.
#[derive(Clone, Copy, Debug, PartialEq, Eq, Structural)]
pub enum GovernanceError {
    StakeConfigMismatch,
    IncorrectProposalTransactionAddress,
    IncorrectProposalVoteAddress,
    IncorrectGovernanceConfigAddress,
    ValidatorStakeAccountMismatch,
    ProposalIsImmutable,
    ProposalNotInVotingStage,
    ProposalNotAccepted,
    InvalidTransactionIndex,
    InstructionAlreadyExecuted,
    PreviousInstructionHasNotBeenExecuted,
    MissingRequiredSignature,
    InvalidAccountOwner,
    UninitializedAccount,
    AccountAlreadyInitialized,
    InvalidAccountData,
    ArithmeticOverflow,
    IncorrectAuthority,
    NotEnoughAccountKeys,
    InvalidSeeds,
}

/// The stable numeric code of each of the engine's own errors; `None` for
/// the host's errors, which the host numbers itself.
pub open spec fn spec_custom_code(e: GovernanceError) -> Option<u32> {
    match e {
        GovernanceError::StakeConfigMismatch => Some(0),
        GovernanceError::IncorrectProposalTransactionAddress => Some(1),
        GovernanceError::IncorrectProposalVoteAddress => Some(2),
        GovernanceError::IncorrectGovernanceConfigAddress => Some(3),
        GovernanceError::ValidatorStakeAccountMismatch => Some(4),
        GovernanceError::ProposalIsImmutable => Some(5),
        GovernanceError::ProposalNotInVotingStage => Some(6),
        GovernanceError::ProposalNotAccepted => Some(7),
        GovernanceError::InvalidTransactionIndex => Some(8),
        GovernanceError::InstructionAlreadyExecuted => Some(9),
        GovernanceError::PreviousInstructionHasNotBeenExecuted => Some(10),
        _ => None,
    }
}

impl GovernanceError {
    /// The error's code among the engine's own errors, if it is one of them.
    pub fn custom_code(&self) -> (r: Option<u32>)
        ensures
            r == spec_custom_code(*self),
    {
        match self {
            GovernanceError::StakeConfigMismatch => Some(0),
            GovernanceError::IncorrectProposalTransactionAddress => Some(1),
            GovernanceError::IncorrectProposalVoteAddress => Some(2),
            GovernanceError::IncorrectGovernanceConfigAddress => Some(3),
            GovernanceError::ValidatorStakeAccountMismatch => Some(4),
            GovernanceError::ProposalIsImmutable => Some(5),
            GovernanceError::ProposalNotInVotingStage => Some(6),
            GovernanceError::ProposalNotAccepted => Some(7),
            GovernanceError::InvalidTransactionIndex => Some(8),
            GovernanceError::InstructionAlreadyExecuted => Some(9),
            GovernanceError::PreviousInstructionHasNotBeenExecuted => Some(10),
            _ => None,
        }
    }
}

} // verus!
