//! The values the contract stores and the errors it reports.

use vstd::prelude::*;

verus! {

/// Default weight threshold: a task requires at least this much cumulative
/// reputation weight to be resolved, unless the administrator sets another.
pub const DEFAULT_WEIGHT_THRESHOLD: u64 = 300;

/// The weight threshold in force: the one stored, or the default.
pub open spec fn threshold_or_default_spec(stored: Option<u64>) -> u64 {
    match stored {
        Some(t) => t,
        None => DEFAULT_WEIGHT_THRESHOLD,
    }
}

/// The weight threshold in force, given the one stored, if any.
pub fn threshold_or_default(stored: Option<u64>) -> (t: u64)
    ensures
        t == threshold_or_default_spec(stored),
{
    match stored {
        Some(t) => t,
        None => DEFAULT_WEIGHT_THRESHOLD,
    }
}

/// An account that signs calls: an administrator or a guardian.
///
/// The host identifies accounts by an opaque address; the contract only ever
/// compares them, so an account is held here by a number that stands for it.
#[derive(Clone, Copy, Debug, PartialEq, Eq, Structural)]
pub struct Address {
    pub id: u64,
}

/// A task that guardians vote on.
#[derive(Clone, Copy, Debug, PartialEq, Eq, Structural)]
pub struct Task {
    pub id: u64,
    pub votes: u32,
    pub is_done: bool,
    /// Cumulative reputation weight accrued from all guardian votes.
    /// Consensus is reached when this meets or exceeds the weight threshold.
    pub total_weight_accrued: u64,
}

impl Task {
    /// A newly registered task: no votes, no weight, unresolved.
    pub fn registered(task_id: u64) -> (t: Task)
        ensures
            t == (Task { id: task_id, votes: 0, is_done: false, total_weight_accrued: 0 }),
    {
        Task { id: task_id, votes: 0, is_done: false, total_weight_accrued: 0 }
    }
}

/// The keys of the contract's instance storage.
#[derive(Clone, Copy, Debug, PartialEq, Eq, Structural)]
pub enum DataKey {
    Guardian(Address),
    Task(u64),
    /// (task_id, guardian)
    Voted(u64, Address),
    Admin,
    /// Maps a guardian address to their u64 reputation score.
    Reputation(Address),
    /// The minimum cumulative weight required to resolve a task.
    WeightThreshold,
}

/// A value held in instance storage.
#[derive(Clone, Copy, Debug, PartialEq, Eq, Structural)]
pub enum StoredValue {
    Flag(bool),
    Score(u64),
    Record(Task),
    Account(Address),
}

/// Why a call was refused.
#[derive(Clone, Copy, Debug, PartialEq, Eq, Structural)]
pub enum ContractError {
    NotAuthorized,
    DuplicateVote,
    /// The guardian has no reputation score assigned.
    NoReputationScore,
    /// A zero-weight vote is not allowed.
    ZeroWeightVote,
    /// Arithmetic overflow when accumulating vote weight.
    WeightOverflow,
}

impl ContractError {
    /// The error's code as the host reports it.
    pub fn code(&self) -> (c: u32)
        ensures
            c == self.spec_code(),
    {
        match self {
            ContractError::NotAuthorized => 1,
            ContractError::DuplicateVote => 2,
            ContractError::NoReputationScore => 3,
            ContractError::ZeroWeightVote => 4,
            ContractError::WeightOverflow => 5,
        }
    }

    pub open spec fn spec_code(&self) -> u32 {
        match self {
            ContractError::NotAuthorized => 1,
            ContractError::DuplicateVote => 2,
            ContractError::NoReputationScore => 3,
            ContractError::ZeroWeightVote => 4,
            ContractError::WeightOverflow => 5,
        }
    }
}

} // verus!
