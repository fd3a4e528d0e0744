//! The ordered list of instructions that a proposal bundles, and the rules
//! for executing them one at a time, in order.
use crate::error::GovernanceError;
use vstd::prelude::*;

verus! {

/// An account that a bundled instruction names, with its flags.
#[derive(Clone, Copy, Debug, PartialEq, Eq)]
pub struct ProposalAccountMeta {
    pub pubkey: [u8; 32],
    pub is_signer: bool,
    pub is_writable: bool,
}

/// One bundled instruction, and whether it has been executed.
#[derive(Clone, Debug, PartialEq, Eq)]
pub struct ProposalInstruction {
    pub program_id: [u8; 32],
    pub accounts: Vec<ProposalAccountMeta>,
    pub data: Vec<u8>,
    pub executed: bool,
}

impl ProposalInstruction {
    /// A new instruction, not yet executed.
    pub fn new(program_id: &[u8; 32], accounts: Vec<ProposalAccountMeta>, data: Vec<u8>) -> (r:
        ProposalInstruction)
        ensures
            r.program_id == *program_id,
            r.accounts@ == accounts@,
            r.data@ == data@,
            !r.executed,
    {
        ProposalInstruction { program_id: *program_id, accounts, data, executed: false }
    }
}

/// The instruction list of one proposal.
#[derive(Clone, Debug, PartialEq, Eq)]
pub struct ProposalTransaction {
    pub instructions: Vec<ProposalInstruction>,
}

/// Bytes that one account entry takes when packed: the key and two flags.
pub const PACKED_ACCOUNT_META_LEN: u64 = 34;

/// Bytes that one instruction takes when packed: the program id, the
/// length-prefixed account list, the length-prefixed data, the flag.
pub open spec fn spec_instruction_len(i: ProposalInstruction) -> int {
    32 + 4 + PACKED_ACCOUNT_META_LEN * i.accounts@.len() + 4 + i.data@.len() + 1
}

/// Bytes that the instructions of `s` take when packed, one after another.
pub open spec fn spec_instructions_len(s: Seq<ProposalInstruction>) -> int
    decreases s.len(),
{
    if s.len() == 0 {
        0
    } else {
        spec_instructions_len(s.drop_last()) + spec_instruction_len(s.last())
    }
}

/// Bytes that a whole list takes when packed: a four-byte count, then the
/// instructions.
pub open spec fn spec_packed_len(s: Seq<ProposalInstruction>) -> int {
    4 + spec_instructions_len(s)
}

/// Why instruction `index` of `s` cannot be executed now, if it cannot.
pub open spec fn spec_dispatch_error(s: Seq<ProposalInstruction>, index: int) -> Option<
    GovernanceError,
> {
    if index < 0 || index >= s.len() {
        Some(GovernanceError::InvalidTransactionIndex)
    } else if s[index].executed {
        Some(GovernanceError::InstructionAlreadyExecuted)
    } else if index > 0 && !s[index - 1].executed {
        Some(GovernanceError::PreviousInstructionHasNotBeenExecuted)
    } else {
        None
    }
}

/// `s` with instruction `index` marked as executed.
pub open spec fn spec_mark_executed(s: Seq<ProposalInstruction>, index: int) -> Seq<
    ProposalInstruction,
> {
    s.update(index, ProposalInstruction { executed: true, ..s[index] })
}

/// Exactly the first `k` instructions have been executed.
pub open spec fn executed_up_to(s: Seq<ProposalInstruction>, k: int) -> bool {
    &&& 0 <= k <= s.len()
    &&& forall|i: int| 0 <= i < k ==> #[trigger] s[i].executed
    &&& forall|i: int| k <= i < s.len() ==> !#[trigger] s[i].executed
}

/// Instructions have run in order: none has run unless every one before it
/// has.
pub open spec fn executed_in_order(s: Seq<ProposalInstruction>) -> bool {
    forall|i: int, j: int| 0 <= i < j < s.len() && #[trigger] s[j].executed ==> #[trigger] s[i].executed
}

/// Every instruction has been executed.
pub open spec fn spec_all_executed(s: Seq<ProposalInstruction>) -> bool {
    forall|i: int| 0 <= i < s.len() ==> #[trigger] s[i].executed
}

impl ProposalTransaction {
    /// An empty list.
    pub fn new() -> (r: ProposalTransaction)
        ensures
            r.instructions@.len() == 0,
    {
        ProposalTransaction { instructions: Vec::new() }
    }

    /// Appends `instruction` at the end of the list.
    pub fn push_instruction(&mut self, instruction: ProposalInstruction)
        ensures
            final(self).instructions@ == old(self).instructions@.push(instruction),
    {
        self.instructions.push(instruction);
    }

    /// Removes instruction `index`; those after it move down by one. Fails
    /// with `InvalidTransactionIndex`, and leaves the list unchanged, where
    /// there is no such instruction.
    pub fn remove_instruction(&mut self, index: u32) -> (r: Result<(), GovernanceError>)
        ensures
            r is Ok <==> (index as int) < old(self).instructions@.len(),
            r is Ok ==> final(self).instructions@ == old(self).instructions@.remove(index as int),
            r matches Err(e) ==> e == GovernanceError::InvalidTransactionIndex
                && final(self).instructions@ == old(self).instructions@,
    {
        let i = index as usize;
        if i >= self.instructions.len() {
            return Err(GovernanceError::InvalidTransactionIndex);
        }
        let _removed = self.instructions.remove(i);
        Ok(())
    }

    /// Whether instruction `index` may be executed now: it exists, it has not
    /// been executed, and the one before it has.
    pub fn check_executable(&self, index: u32) -> (r: Result<(), GovernanceError>)
        ensures
            r is Ok <==> spec_dispatch_error(self.instructions@, index as int) is None,
            r matches Err(e) ==> spec_dispatch_error(self.instructions@, index as int) == Some(e),
    {
        let i = index as usize;
        if i >= self.instructions.len() {
            return Err(GovernanceError::InvalidTransactionIndex);
        }
        if self.instructions[i].executed {
            return Err(GovernanceError::InstructionAlreadyExecuted);
        }
        if i > 0 && !self.instructions[i - 1].executed {
            return Err(GovernanceError::PreviousInstructionHasNotBeenExecuted);
        }
        Ok(())
    }

    /// Marks instruction `index` as executed.
    pub fn mark_executed(&mut self, index: u32)
        requires
            (index as int) < old(self).instructions@.len(),
        ensures
            final(self).instructions@ == spec_mark_executed(old(self).instructions@, index as int),
    {
        let i = index as usize;
        let mut instruction = self.instructions.remove(i);
        instruction.executed = true;
        self.instructions.insert(i, instruction);
        proof {
            assert(self.instructions@ =~= spec_mark_executed(old(self).instructions@, index as int));
        }
    }

    /// Whether every instruction has been executed.
    pub fn all_executed(&self) -> (r: bool)
        ensures
            r == spec_all_executed(self.instructions@),
    {
        let mut i: usize = 0;
        while i < self.instructions.len()
            invariant
                0 <= i <= self.instructions@.len(),
                forall|j: int| 0 <= j < i ==> #[trigger] self.instructions@[j].executed,
            decreases self.instructions@.len() - i,
        {
            if !self.instructions[i].executed {
                return false;
            }
            i = i + 1;
        }
        true
    }

    /// The number of bytes that the list takes when packed; fails with
    /// `ArithmeticOverflow` where that number does not fit in a `u64`.
    pub fn packed_len(&self) -> (r: Result<u64, GovernanceError>)
        ensures
            r is Ok <==> spec_packed_len(self.instructions@) <= u64::MAX,
            r matches Ok(n) ==> n as int == spec_packed_len(self.instructions@),
            r matches Err(e) ==> e == GovernanceError::ArithmeticOverflow,
    {
        let mut total: u64 = 4;
        let mut i: usize = 0;
        while i < self.instructions.len()
            invariant
                0 <= i <= self.instructions@.len(),
                total as int == 4 + spec_instructions_len(self.instructions@.take(i as int)),
            decreases self.instructions@.len() - i,
        {
            proof {
                lemma_instructions_len_monotone(self.instructions@, i as int + 1);
                assert(self.instructions@.take(i as int + 1).drop_last() =~= self.instructions@.take(
                    i as int,
                ));
            }
            let ins = &self.instructions[i];
            let metas = ins.accounts.len() as u64;
            let data = ins.data.len() as u64;
            let entry = match metas.checked_mul(PACKED_ACCOUNT_META_LEN) {
                Some(m) => match m.checked_add(data) {
                    Some(md) => match md.checked_add(41) {
                        Some(e) => e,
                        None => return Err(GovernanceError::ArithmeticOverflow),
                    },
                    None => return Err(GovernanceError::ArithmeticOverflow),
                },
                None => return Err(GovernanceError::ArithmeticOverflow),
            };
            total = match total.checked_add(entry) {
                Some(t) => t,
                None => return Err(GovernanceError::ArithmeticOverflow),
            };
            i = i + 1;
        }
        proof {
            assert(self.instructions@.take(i as int) =~= self.instructions@);
        }
        Ok(total)
    }
}

/// The packed length of a prefix never exceeds that of the whole list.
proof fn lemma_instructions_len_monotone(s: Seq<ProposalInstruction>, k: int)
    requires
        0 <= k <= s.len(),
    ensures
        spec_instructions_len(s.take(k)) <= spec_instructions_len(s),
    decreases s.len() - k,
{
    if k < s.len() {
        lemma_instructions_len_monotone(s, k + 1);
        assert(s.take(k + 1).drop_last() =~= s.take(k));
    } else {
        assert(s.take(k) =~= s);
    }
}

} // verus!
