//! What a vote decides from the values it reads.

use vstd::prelude::*;

use crate::types::{ContractError, Task};

verus! {

/// The error a vote is refused with, given what it reads: whether the voter
/// is a guardian, whether it already voted on the task, its voting power,
/// and the task. The checks run in this order; `None` when none refuses.
pub open spec fn vote_error(
    is_guardian: bool,
    already_voted: bool,
    power: Option<u64>,
    task: Option<Task>,
) -> Option<ContractError> {
    if !is_guardian {
        Some(ContractError::NotAuthorized)
    } else if already_voted {
        Some(ContractError::DuplicateVote)
    } else if power is None {
        Some(ContractError::NoReputationScore)
    } else if power->0 == 0 {
        Some(ContractError::ZeroWeightVote)
    } else if task is None {
        Some(ContractError::NotAuthorized)
    } else if task->0.total_weight_accrued + power->0 > u64::MAX {
        Some(ContractError::WeightOverflow)
    } else {
        None
    }
}

/// Whether a vote with these inputs gets as far as counting the vote.
pub open spec fn vote_counts(
    is_guardian: bool,
    already_voted: bool,
    power: Option<u64>,
    task: Option<Task>,
) -> bool {
    vote_error(is_guardian, already_voted, power, task) is None
}

/// `task` after a vote of weight `weight` is counted against `threshold`:
/// the weight is added, the vote counted, and the task is done once its
/// accrued weight meets the threshold (a done task stays done).
pub open spec fn tallied(task: Task, weight: u64, threshold: u64) -> Task {
    let total = (task.total_weight_accrued + weight) as u64;
    Task {
        id: task.id,
        votes: (task.votes + 1) as u32,
        is_done: task.is_done || total >= threshold,
        total_weight_accrued: total,
    }
}

/// What a counted vote does: the weight it carries, the task as it is to
/// be stored, and whether the task reached the threshold with it.
#[derive(Clone, Copy, Debug, PartialEq, Eq, Structural)]
pub struct VoteDecision {
    pub weight: u64,
    pub task: Task,
    pub resolved: bool,
}

/// The decision of a counted vote of weight `weight` on `task`.
pub open spec fn counted_vote(task: Task, weight: u64, threshold: u64) -> VoteDecision {
    VoteDecision {
        weight,
        task: tallied(task, weight, threshold),
        resolved: task.total_weight_accrued + weight >= threshold,
    }
}

/// The error a vote is refused with, from what it reads: whether the voter
/// is a registered guardian, whether it already voted on the task, its
/// voting power, and the task. `None` when the vote is to be counted.
pub fn vote_refusal(
    is_guardian: bool,
    already_voted: bool,
    power: Option<u64>,
    task: Option<Task>,
) -> (r: Option<ContractError>)
    ensures
        r == vote_error(is_guardian, already_voted, power, task),
{
    if !is_guardian {
        return Some(ContractError::NotAuthorized);
    }
    if already_voted {
        return Some(ContractError::DuplicateVote);
    }
    let weight = match power {
        Some(w) => w,
        None => return Some(ContractError::NoReputationScore),
    };
    if weight == 0 {
        return Some(ContractError::ZeroWeightVote);
    }
    let t = match task {
        Some(t) => t,
        None => return Some(ContractError::NotAuthorized),
    };
    match t.total_weight_accrued.checked_add(weight) {
        Some(_) => None,
        None => Some(ContractError::WeightOverflow),
    }
}

/// Decides a guardian's vote on a task from what the vote reads: whether
/// the voter is a registered guardian, whether it already voted on the
/// task, its voting power, the task, and the weight threshold.
///
/// The vote count is a `u32` that panics past its maximum, so a vote that
/// would count past it is left out.
pub fn decide_vote(
    is_guardian: bool,
    already_voted: bool,
    power: Option<u64>,
    task: Option<Task>,
    threshold: u64,
) -> (r: Result<VoteDecision, ContractError>)
    requires
        vote_counts(is_guardian, already_voted, power, task) ==> task->0.votes < u32::MAX,
    ensures
        match r {
            Ok(d) => vote_counts(is_guardian, already_voted, power, task) && d == counted_vote(
                task->0,
                power->0,
                threshold,
            ),
            Err(e) => vote_error(is_guardian, already_voted, power, task) == Some(e),
        },
{
    if let Some(e) = vote_refusal(is_guardian, already_voted, power, task) {
        return Err(e);
    }
    let weight = power.unwrap();
    let mut t = task.unwrap();
    t.total_weight_accrued = t.total_weight_accrued + weight;
    t.votes = t.votes + 1;
    let resolved = t.total_weight_accrued >= threshold;
    if resolved {
        t.is_done = true;
    }
    Ok(VoteDecision { weight, task: t, resolved })
}

/// One thing a counted vote does, on the voting guardian and the task voted on.
#[derive(Clone, Copy, Debug, PartialEq, Eq, Structural)]
pub enum VoteStep {
    /// Publish the task's resolution, with its accrued weight.
    PublishResolution { total_weight_accrued: u64 },
    /// Record that the guardian voted on the task.
    RecordVote,
    /// Store the tallied task.
    StoreTask(Task),
    /// Publish the guardian's weighted vote.
    PublishWeightedVote { weight: u64 },
}

/// What a counted vote with decision `d` does, in order: publish the
/// resolution where the task reached the threshold, record the vote, store
/// the tallied task, and publish the weighted vote.
pub open spec fn steps_of_vote(d: VoteDecision) -> Seq<VoteStep> {
    let resolution = if d.resolved {
        seq![VoteStep::PublishResolution { total_weight_accrued: d.task.total_weight_accrued }]
    } else {
        Seq::empty()
    };
    resolution + seq![
        VoteStep::RecordVote,
        VoteStep::StoreTask(d.task),
        VoteStep::PublishWeightedVote { weight: d.weight },
    ]
}

/// The steps a counted vote with decision `decision` takes, in order.
pub fn vote_steps(decision: &VoteDecision) -> (r: Vec<VoteStep>)
    ensures
        r@ == steps_of_vote(*decision),
{
    let mut steps: Vec<VoteStep> = Vec::new();
    if decision.resolved {
        steps.push(
            VoteStep::PublishResolution { total_weight_accrued: decision.task.total_weight_accrued },
        );
    }
    steps.push(VoteStep::RecordVote);
    steps.push(VoteStep::StoreTask(decision.task));
    steps.push(VoteStep::PublishWeightedVote { weight: decision.weight });
    assert(steps@ =~= steps_of_vote(*decision));
    steps
}

} // verus!
