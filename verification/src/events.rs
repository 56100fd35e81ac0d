//! The events the contract publishes when it changes state.

use vstd::prelude::*;

use crate::types::Address;

verus! {

/// An event published by the contract.
#[derive(Clone, Copy, Debug, PartialEq, Eq, Structural)]
pub enum ContractEvent {
    /// Topic `"wt_vote"`; data `(task_id, guardian, weight)`.
    WeightedVote { task_id: u64, guardian: Address, weight: u64 },
    /// Topic `"resolved"`; data `(task_id, total_weight_accrued)`.
    TaskResolved { task_id: u64, total_weight_accrued: u64 },
}

impl ContractEvent {
    /// The event's topic symbol.
    pub fn topic(&self) -> (t: &'static str)
        ensures
            self is WeightedVote ==> t@ == "wt_vote"@,
            self is TaskResolved ==> t@ == "resolved"@,
    {
        match self {
            ContractEvent::WeightedVote { .. } => "wt_vote",
            ContractEvent::TaskResolved { .. } => "resolved",
        }
    }
}

/// Publishes the event of a weighted vote cast by a guardian.
pub fn emit_weighted_vote(events: &mut Vec<ContractEvent>, task_id: u64, guardian: &Address, weight: u64)
    ensures
        final(events)@ == old(events)@.push(
            ContractEvent::WeightedVote { task_id, guardian: *guardian, weight },
        ),
{
    events.push(ContractEvent::WeightedVote { task_id, guardian: *guardian, weight });
}

/// Publishes the event of a task that reached the weight threshold.
pub fn emit_task_resolved(events: &mut Vec<ContractEvent>, task_id: u64, total_weight_accrued: u64)
    ensures
        final(events)@ == old(events)@.push(
            ContractEvent::TaskResolved { task_id, total_weight_accrued },
        ),
{
    events.push(ContractEvent::TaskResolved { task_id, total_weight_accrued });
}

} // verus!
