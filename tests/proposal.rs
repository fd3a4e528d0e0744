use paladin_governance::accounts::{AccountView, RecordLayouts, StakeRecord};
use paladin_governance::address::{collect_treasury_signer_seeds, get_treasury_address_and_bump_seed};
use paladin_governance::error::GovernanceError;
use paladin_governance::processor::{
    process_create_proposal, process_initialize_governance, process_process_instruction,
    process_push_instruction, process_remove_instruction, process_update_governance,
};
use paladin_governance::state::{Config, Proposal, ProposalStatus};
use paladin_governance::transaction::{ProposalAccountMeta, ProposalInstruction, ProposalTransaction};
use solana_program::pubkey::Pubkey;

const PROGRAM: [u8; 32] = [7; 32];
const STAKE_PROGRAM: [u8; 32] = [9; 32];
const STAKE_CONFIG: [u8; 32] = [11; 32];
const AUTHOR: [u8; 32] = [21; 32];
const PROPOSAL: [u8; 32] = [22; 32];
const STAKE: [u8; 32] = [23; 32];
const GOVERNANCE: [u8; 32] = [24; 32];

fn layouts() -> RecordLayouts {
    RecordLayouts {
        stake_program_id: STAKE_PROGRAM,
        stake_len: 88,
        stake_tag: [1; 8],
        stake_config_len: 64,
        stake_config_tag: [2; 8],
        governance_len: 72,
        proposal_len: 192,
        proposal_tag: [3; 8],
        proposal_vote_len: 80,
    }
}

fn account(key: [u8; 32], owner: [u8; 32], is_signer: bool, data_len: usize, tag: [u8; 8]) -> AccountView {
    AccountView { key, owner, is_signer, data_len, tag }
}

fn pda(seeds: &[&[u8]]) -> (Pubkey, u8) {
    Pubkey::find_program_address(seeds, &Pubkey::new_from_array(PROGRAM))
}

fn config() -> Config {
    Config {
        cooldown_period_seconds: 50,
        proposal_acceptance_threshold: 600_000_000,
        proposal_rejection_threshold: 600_000_000,
        signer_bump_seed: 0,
        stake_config_address: STAKE_CONFIG,
        voting_period_seconds: 100,
    }
}

fn transaction_address() -> [u8; 32] {
    pda(&[b"proposal_transaction", &PROPOSAL]).0.to_bytes()
}

fn create_accounts() -> Vec<AccountView> {
    let l = layouts();
    vec![
        account(AUTHOR, [0; 32], true, 0, [0; 8]),
        account(STAKE, STAKE_PROGRAM, false, l.stake_len, l.stake_tag),
        account(PROPOSAL, PROGRAM, false, l.proposal_len, [0; 8]),
        account(transaction_address(), [0; 32], false, 0, [0; 8]),
        account(GOVERNANCE, PROGRAM, false, l.governance_len, [0; 8]),
    ]
}

fn author_stake() -> Option<StakeRecord> {
    Some(StakeRecord { authority: AUTHOR, amount: 10, derived_address: STAKE })
}

fn create(accounts: &Vec<AccountView>) -> Result<Proposal, GovernanceError> {
    process_create_proposal(&PROGRAM, accounts, &layouts(), author_stake(), Some(config()), 5)
        .map(|c| c.proposal)
}

#[test]
fn fail_validator_not_signer() {
    let mut accounts = create_accounts();
    accounts[0].is_signer = false;
    assert_eq!(create(&accounts), Err(GovernanceError::MissingRequiredSignature));
}

#[test]
fn fail_stake_incorrect_owner() {
    let mut accounts = create_accounts();
    accounts[1].owner = [1; 32];
    assert_eq!(create(&accounts), Err(GovernanceError::InvalidAccountOwner));
}

#[test]
fn fail_stake_not_initialized() {
    let mut accounts = create_accounts();
    accounts[1].tag = [0; 8];
    assert_eq!(create(&accounts), Err(GovernanceError::UninitializedAccount));
}

#[test]
fn fail_stake_incorrect_validator() {
    let accounts = create_accounts();
    let other = Some(StakeRecord { authority: [1; 32], amount: 0, derived_address: STAKE });
    let r = process_create_proposal(&PROGRAM, &accounts, &layouts(), other, Some(config()), 5);
    assert_eq!(r, Err(GovernanceError::IncorrectAuthority));
    let elsewhere = Some(StakeRecord { authority: AUTHOR, amount: 0, derived_address: [1; 32] });
    let r = process_create_proposal(&PROGRAM, &accounts, &layouts(), elsewhere, Some(config()), 5);
    assert_eq!(r, Err(GovernanceError::StakeConfigMismatch));
}

#[test]
fn create_proposal_fail_proposal_incorrect_owner() {
    let mut accounts = create_accounts();
    accounts[2].owner = [1; 32];
    assert_eq!(create(&accounts), Err(GovernanceError::InvalidAccountOwner));
}

#[test]
fn fail_proposal_not_enough_space() {
    let mut accounts = create_accounts();
    accounts[2].data_len = layouts().proposal_len - 1;
    assert_eq!(create(&accounts), Err(GovernanceError::InvalidAccountData));
}

#[test]
fn fail_proposal_already_initialized() {
    let mut accounts = create_accounts();
    accounts[2].tag = layouts().proposal_tag;
    assert_eq!(create(&accounts), Err(GovernanceError::AccountAlreadyInitialized));
    let mut accounts = create_accounts();
    accounts[3].data_len = 4;
    assert_eq!(create(&accounts), Err(GovernanceError::AccountAlreadyInitialized));
}

#[test]
fn create_proposal_success() {
    let c = process_create_proposal(&PROGRAM, &create_accounts(), &layouts(), author_stake(), Some(config()), 5)
        .unwrap();
    assert_eq!(c.proposal, Proposal::new(&AUTHOR, 5, config()));
    assert_eq!(c.proposal.status, ProposalStatus::Draft);
    assert_eq!(c.proposal.creation_timestamp, 5);
    assert_eq!(c.transaction_bump, pda(&[b"proposal_transaction", &PROPOSAL]).1);
    assert_eq!(c.transaction_len, 4);
}

#[test]
fn create_proposal_wrong_transaction_address() {
    let mut accounts = create_accounts();
    accounts[3].key = [1; 32];
    assert_eq!(create(&accounts), Err(GovernanceError::IncorrectProposalTransactionAddress));
}

fn edit_accounts() -> Vec<AccountView> {
    let l = layouts();
    vec![
        account(AUTHOR, [0; 32], true, 0, [0; 8]),
        account(PROPOSAL, PROGRAM, false, l.proposal_len, l.proposal_tag),
        account(transaction_address(), PROGRAM, false, 4, [0; 8]),
    ]
}

fn metas(n: usize) -> Vec<ProposalAccountMeta> {
    (0..n)
        .map(|i| ProposalAccountMeta { pubkey: [i as u8; 32], is_signer: i % 2 == 0, is_writable: true })
        .collect()
}

fn instruction(tag: u8, n_metas: usize, data: usize) -> ProposalInstruction {
    ProposalInstruction::new(&[tag; 32], metas(n_metas), vec![tag; data])
}

fn push(
    accounts: &Vec<AccountView>,
    p: Proposal,
    t: Option<ProposalTransaction>,
    tag: u8,
    n_metas: usize,
    data: usize,
) -> Result<(ProposalTransaction, u64), GovernanceError> {
    process_push_instruction(&PROGRAM, accounts, &layouts(), Some(p), t, [tag; 32], metas(n_metas), vec![tag; data])
}

#[test]
fn push_and_remove_instructions() {
    let p = Proposal::new(&AUTHOR, 0, config());
    let empty = ProposalTransaction::new();
    let (t, n) = push(&edit_accounts(), p, Some(empty), 1, 2, 3).unwrap();
    assert_eq!(t.instructions.len(), 1);
    assert_eq!(t.instructions[0], instruction(1, 2, 3));
    assert!(!t.instructions[0].executed);
    assert_eq!(n, 4 + 32 + 4 + 2 * 34 + 4 + 3 + 1);
    let (t, n) = push(&edit_accounts(), p, Some(t), 2, 0, 0).unwrap();
    assert_eq!(n, 4 + 112 + 41);
    let (t, _) = push(&edit_accounts(), p, Some(t), 3, 1, 1).unwrap();
    let (t, n) = process_remove_instruction(&PROGRAM, &edit_accounts(), &layouts(), Some(p), Some(t), 1).unwrap();
    assert_eq!(t.instructions.len(), 2);
    assert_eq!(t.instructions[0].program_id, [1; 32]);
    assert_eq!(t.instructions[1].program_id, [3; 32]);
    assert_eq!(n, 4 + 112 + 76);
    let r = process_remove_instruction(&PROGRAM, &edit_accounts(), &layouts(), Some(p), Some(t), 2);
    assert_eq!(r, Err(GovernanceError::InvalidTransactionIndex));
}

#[test]
fn edits_only_in_draft_by_author() {
    let mut p = Proposal::new(&AUTHOR, 0, config());
    let mut accounts = edit_accounts();
    accounts[0].key = [2; 32];
    let r = push(&accounts, p, Some(ProposalTransaction::new()), 1, 0, 0);
    assert_eq!(r, Err(GovernanceError::IncorrectAuthority));
    p.status = ProposalStatus::Voting;
    let r = push(&edit_accounts(), p, Some(ProposalTransaction::new()), 1, 0, 0);
    assert_eq!(r, Err(GovernanceError::ProposalIsImmutable));
    let r = process_remove_instruction(&PROGRAM, &edit_accounts(), &layouts(), Some(p), Some(ProposalTransaction::new()), 0);
    assert_eq!(r, Err(GovernanceError::ProposalIsImmutable));
}

#[test]
fn edits_check_the_list_account() {
    let p = Proposal::new(&AUTHOR, 0, config());
    let mut accounts = edit_accounts();
    accounts[2].key = [1; 32];
    let r = push(&accounts, p, Some(ProposalTransaction::new()), 1, 0, 0);
    assert_eq!(r, Err(GovernanceError::IncorrectProposalTransactionAddress));
    let mut accounts = edit_accounts();
    accounts[2].data_len = 0;
    let r = push(&accounts, p, Some(ProposalTransaction::new()), 1, 0, 0);
    assert_eq!(r, Err(GovernanceError::UninitializedAccount));
    let r = push(&edit_accounts(), p, None, 1, 0, 0);
    assert_eq!(r, Err(GovernanceError::InvalidAccountData));
}

fn dispatch_accounts() -> Vec<AccountView> {
    let l = layouts();
    vec![
        account(PROPOSAL, PROGRAM, false, l.proposal_len, l.proposal_tag),
        account(transaction_address(), PROGRAM, false, 200, [0; 8]),
    ]
}

#[test]
fn ordered_dispatch() {
    let mut p = Proposal::new(&AUTHOR, 0, config());
    p.status = ProposalStatus::Accepted;
    let mut t = ProposalTransaction::new();
    for i in 0..3 {
        t.push_instruction(instruction(i, 1, 1));
    }
    let run = |p: Proposal, t: ProposalTransaction, index: u32| {
        process_process_instruction(&PROGRAM, &dispatch_accounts(), &layouts(), Some(p), Some(t), index)
    };
    assert_eq!(run(p, t.clone(), 1), Err(GovernanceError::PreviousInstructionHasNotBeenExecuted));
    let d = run(p, t, 0).unwrap();
    assert!(d.transaction.instructions[0].executed);
    assert_eq!(d.proposal.status, ProposalStatus::Accepted);
    assert_eq!(
        run(d.proposal, d.transaction.clone(), 0),
        Err(GovernanceError::InstructionAlreadyExecuted)
    );
    let d = run(d.proposal, d.transaction, 1).unwrap();
    assert_eq!(d.proposal.status, ProposalStatus::Accepted);
    let d = run(d.proposal, d.transaction, 2).unwrap();
    assert!(d.transaction.instructions.iter().all(|i| i.executed));
    assert_eq!(d.proposal.status, ProposalStatus::Processed);
    let treasury = pda(&[b"treasury", &STAKE_CONFIG]);
    assert_eq!(d.treasury_bump, treasury.1);
    assert_eq!(run(d.proposal, d.transaction, 2), Err(GovernanceError::ProposalNotAccepted));
}

#[test]
fn dispatch_needs_acceptance_and_index() {
    let mut p = Proposal::new(&AUTHOR, 0, config());
    let mut t = ProposalTransaction::new();
    t.push_instruction(instruction(0, 0, 0));
    p.status = ProposalStatus::Voting;
    let r = process_process_instruction(&PROGRAM, &dispatch_accounts(), &layouts(), Some(p), Some(t.clone()), 0);
    assert_eq!(r, Err(GovernanceError::ProposalNotAccepted));
    p.status = ProposalStatus::Accepted;
    let r = process_process_instruction(&PROGRAM, &dispatch_accounts(), &layouts(), Some(p), Some(t.clone()), 1);
    assert_eq!(r, Err(GovernanceError::InvalidTransactionIndex));
    let mut accounts = dispatch_accounts();
    accounts[1].key = [1; 32];
    let r = process_process_instruction(&PROGRAM, &accounts, &layouts(), Some(p), Some(t), 0);
    assert_eq!(r, Err(GovernanceError::IncorrectProposalTransactionAddress));
}

#[test]
fn treasury_address_and_seeds() {
    let (address, bump) = get_treasury_address_and_bump_seed(&STAKE_CONFIG, &PROGRAM).unwrap();
    let expected = pda(&[b"treasury", &STAKE_CONFIG]);
    assert_eq!(address, expected.0.to_bytes());
    assert_eq!(bump, expected.1);
    let seeds = collect_treasury_signer_seeds(&STAKE_CONFIG, bump);
    assert_eq!(seeds, vec![b"treasury".to_vec(), STAKE_CONFIG.to_vec(), vec![bump]]);
}

fn governance_address() -> (Pubkey, u8) {
    pda(&[b"governance", &STAKE_CONFIG])
}

#[test]
fn initialize_governance() {
    let l = layouts();
    let (address, bump) = governance_address();
    let accounts = vec![
        account(address.to_bytes(), [0; 32], false, 0, [0; 8]),
        account(STAKE_CONFIG, STAKE_PROGRAM, false, l.stake_config_len, l.stake_config_tag),
        account([0; 32], [0; 32], false, 0, [0; 8]),
    ];
    let c = process_initialize_governance(&PROGRAM, &accounts, &l, 50, 1, 2, 100).unwrap();
    assert_eq!(c, Config::new(50, 1, 2, bump, &STAKE_CONFIG, 100));
    let mut wrong = accounts.clone();
    wrong[0].key = [1; 32];
    assert_eq!(
        process_initialize_governance(&PROGRAM, &wrong, &l, 50, 1, 2, 100),
        Err(GovernanceError::IncorrectGovernanceConfigAddress)
    );
    let mut taken = accounts.clone();
    taken[0].data_len = l.governance_len;
    assert_eq!(
        process_initialize_governance(&PROGRAM, &taken, &l, 50, 1, 2, 100),
        Err(GovernanceError::AccountAlreadyInitialized)
    );
}

fn update_accounts() -> Vec<AccountView> {
    let l = layouts();
    let treasury = pda(&[b"treasury", &STAKE_CONFIG]).0.to_bytes();
    vec![
        account(governance_address().0.to_bytes(), PROGRAM, false, l.governance_len, [0; 8]),
        account(PROPOSAL, PROGRAM, false, l.proposal_len, l.proposal_tag),
        account(treasury, [0; 32], true, 0, [0; 8]),
    ]
}

fn cooled_proposal() -> Proposal {
    let mut p = Proposal::new(&AUTHOR, 0, config());
    p.status = ProposalStatus::Accepted;
    p.cooldown_timestamp = Some(10);
    p
}

fn update(accounts: &Vec<AccountView>, proposal: Option<Proposal>, now: i64) -> Result<Config, GovernanceError> {
    process_update_governance(&PROGRAM, accounts, &layouts(), Some(config()), proposal, now, 1, 2, 3, 4)
}

#[test]
fn update_governance_success() {
    let c = update(&update_accounts(), Some(cooled_proposal()), 60).unwrap();
    assert_eq!(c.cooldown_period_seconds, 1);
    assert_eq!(c.proposal_acceptance_threshold, 2);
    assert_eq!(c.proposal_rejection_threshold, 3);
    assert_eq!(c.voting_period_seconds, 4);
    assert_eq!(c.stake_config_address, STAKE_CONFIG);
}

#[test]
fn fail_incorrect_vault_account() {
    let mut accounts = update_accounts();
    accounts[2].key = [1; 32];
    assert_eq!(update(&accounts, Some(cooled_proposal()), 60), Err(GovernanceError::IncorrectAuthority));
    let mut accounts = update_accounts();
    accounts[2].is_signer = false;
    assert_eq!(update(&accounts, Some(cooled_proposal()), 60), Err(GovernanceError::MissingRequiredSignature));
}

#[test]
fn fail_governance_incorrect_owner() {
    let mut accounts = update_accounts();
    accounts[0].owner = [1; 32];
    assert_eq!(update(&accounts, Some(cooled_proposal()), 60), Err(GovernanceError::InvalidAccountOwner));
}

#[test]
fn fail_governance_not_initialized() {
    let mut accounts = update_accounts();
    accounts[0].data_len = 0;
    assert_eq!(update(&accounts, Some(cooled_proposal()), 60), Err(GovernanceError::UninitializedAccount));
}

#[test]
fn update_governance_fail_proposal_incorrect_owner() {
    let mut accounts = update_accounts();
    accounts[1].owner = [1; 32];
    assert_eq!(update(&accounts, Some(cooled_proposal()), 60), Err(GovernanceError::InvalidAccountOwner));
}

#[test]
fn fail_proposal_not_initialized() {
    let mut accounts = update_accounts();
    accounts[1].tag = [0; 8];
    assert_eq!(update(&accounts, Some(cooled_proposal()), 60), Err(GovernanceError::UninitializedAccount));
}

#[test]
fn update_governance_before_cooldown_ends() {
    assert_eq!(update(&update_accounts(), Some(cooled_proposal()), 59), Err(GovernanceError::ProposalNotAccepted));
    let mut p = cooled_proposal();
    p.cooldown_timestamp = None;
    assert_eq!(update(&update_accounts(), Some(p), 1000), Err(GovernanceError::ProposalNotAccepted));
}

#[test]
fn packed_len_matches_borsh() {
    let mut t = ProposalTransaction::new();
    t.push_instruction(instruction(1, 3, 5));
    t.push_instruction(instruction(2, 0, 0));
    t.push_instruction(instruction(3, 1, 40));
    let as_tuples: Vec<([u8; 32], Vec<([u8; 32], bool, bool)>, Vec<u8>, bool)> = t
        .instructions
        .iter()
        .map(|i| {
            let metas = i.accounts.iter().map(|m| (m.pubkey, m.is_signer, m.is_writable)).collect();
            (i.program_id, metas, i.data.clone(), i.executed)
        })
        .collect();
    let bytes = borsh::to_vec(&as_tuples).unwrap();
    assert_eq!(t.packed_len(), Ok(bytes.len() as u64));
    assert_eq!(ProposalTransaction::new().packed_len(), Ok(4));
}
