//! Properties of the contract that span several operations, stated over the
//! storage that the operations' contracts describe.

use vstd::prelude::*;

use crate::contract::{
    admin_allows, admin_in, call_admin, call_may_write, fresh_task, guardian_in, ledger_after_call,
    events_of_vote, ledger_after_calls, ledger_after_vote, ledger_well_typed, reputation_in, task_in, threshold_in,
    vote_error_in, vote_in_range, voted_in, Call,
};
use crate::events::ContractEvent;
use crate::types::{Address, ContractError, DataKey, StoredValue, Task, DEFAULT_WEIGHT_THRESHOLD};
use crate::voting::{counted_vote, vote_error, VoteDecision};

verus! {

/// An allowed registration makes the guardian one, and makes no other
/// account a guardian.
pub proof fn law_guardian_registration(
    ledger: Map<DataKey, StoredValue>,
    admin: Address,
    guardian: Address,
    other: Address,
)
    requires
        admin_allows(ledger, admin),
    ensures
        guardian_in(
            ledger_after_call(ledger, Call::AddGuardian { admin, guardian }),
            guardian,
        ),
        other != guardian ==> guardian_in(
            ledger_after_call(ledger, Call::AddGuardian { admin, guardian }),
            other,
        ) == guardian_in(ledger, other),
{
}

/// Reading a guardian's reputation after an allowed write gives back the
/// score written (which is also its voting power), and writing one
/// guardian's score leaves every other guardian's score as it was.
pub proof fn law_reputation_read_after_write(
    ledger: Map<DataKey, StoredValue>,
    admin: Address,
    guardian: Address,
    other: Address,
    score: u64,
)
    requires
        admin_allows(ledger, admin),
    ensures
        reputation_in(
            ledger_after_call(ledger, Call::SetReputation { admin, guardian, score }),
            guardian,
        ) == Some(score),
        other != guardian ==> reputation_in(
            ledger_after_call(ledger, Call::SetReputation { admin, guardian, score }),
            other,
        ) == reputation_in(ledger, other),
{
}

/// Until a threshold is set the weight threshold is the default; after an
/// allowed write it is the value written.
pub proof fn law_weight_threshold(ledger: Map<DataKey, StoredValue>, admin: Address, threshold: u64)
    requires
        admin_allows(ledger, admin),
    ensures
        threshold_in(Map::<DataKey, StoredValue>::empty()) == DEFAULT_WEIGHT_THRESHOLD,
        threshold_in(ledger_after_call(ledger, Call::SetWeightThreshold { admin, threshold }))
            == threshold,
{
}

/// A task registered by an allowed call starts with its id, no votes, no
/// weight, and unresolved.
pub proof fn law_registered_task_is_fresh(
    ledger: Map<DataKey, StoredValue>,
    admin: Address,
    task_id: u64,
)
    requires
        admin_allows(ledger, admin),
    ensures
        task_in(ledger_after_call(ledger, Call::RegisterTask { admin, task_id }), task_id)
            == Some(fresh_task(task_id)),
        fresh_task(task_id).id == task_id,
        fresh_task(task_id).votes == 0,
        fresh_task(task_id).total_weight_accrued == 0,
        !fresh_task(task_id).is_done,
{
}

/// The administrator role: while none is on record, the first guardian
/// registration puts its caller on record and no other call does; once one
/// is on record no call changes it; and an administrative call by any other
/// account changes nothing.
pub proof fn law_admin_role(ledger: Map<DataKey, StoredValue>, call: Call)
    ensures
        admin_in(ledger) is None && call is AddGuardian ==> admin_in(
            ledger_after_call(ledger, call),
        ) == call_admin(call),
        admin_in(ledger) is None && !(call is AddGuardian) ==> admin_in(
            ledger_after_call(ledger, call),
        ) is None,
        admin_in(ledger) is Some ==> admin_in(ledger_after_call(ledger, call)) == admin_in(
            ledger,
        ),
        admin_in(ledger) is Some && call_admin(call) is Some && call_admin(call) != admin_in(
            ledger,
        ) ==> ledger_after_call(ledger, call) == ledger,
{
    lemma_call_frame(ledger, call, DataKey::Admin);
}

/// `call` is let in against `ledger`: a vote always is; an administrative
/// call where its caller may make it.
pub open spec fn call_let_in(ledger: Map<DataKey, StoredValue>, call: Call) -> bool {
    match call_admin(call) {
        Some(a) => admin_allows(ledger, a),
        None => true,
    }
}

/// `call`, made against `ledger`, may write `key`: it is let in and `key` is
/// one of the keys it writes.
pub open spec fn call_writes_at(ledger: Map<DataKey, StoredValue>, call: Call, key: DataKey) -> bool {
    call_let_in(ledger, call) && call_may_write(call, key)
}

/// A call leaves every key it may not write as it was.
proof fn lemma_call_frame(ledger: Map<DataKey, StoredValue>, call: Call, key: DataKey)
    ensures
        !call_writes_at(ledger, call, key) ==> ledger_after_call(ledger, call).get(key) == ledger.get(key),
{
}

/// Calls none of which, made in turn, may write `key` (each is refused or
/// writes other keys) leave what is stored under `key` as it was.
pub proof fn law_unwritten_key_keeps_value(
    ledger: Map<DataKey, StoredValue>,
    calls: Seq<Call>,
    key: DataKey,
)
    requires
        forall|i: int|
            0 <= i < calls.len() ==> !call_writes_at(
                ledger_after_calls(ledger, calls.take(i)),
                #[trigger] calls[i],
                key,
            ),
    ensures
        ledger_after_calls(ledger, calls).get(key) == ledger.get(key),
    decreases calls.len(),
{
    if calls.len() > 0 {
        let init = calls.drop_last();
        assert forall|i: int| 0 <= i < init.len() implies !call_writes_at(
            ledger_after_calls(ledger, init.take(i)),
            #[trigger] init[i],
            key,
        ) by {
            assert(init.take(i) =~= calls.take(i));
            assert(init[i] == calls[i]);
        }
        law_unwritten_key_keeps_value(ledger, init, key);
        let n = calls.len() - 1;
        assert(calls.take(n) =~= init);
        assert(!call_writes_at(ledger_after_calls(ledger, calls.take(n)), calls[n], key));
        lemma_call_frame(ledger_after_calls(ledger, init), calls.last(), key);
    }
}

/// A guardian's reputation is the score last set for it by an allowed call,
/// whatever calls come after, as long as none of them that sets that
/// guardian's score is let in.
pub proof fn law_latest_reputation_wins(
    ledger: Map<DataKey, StoredValue>,
    admin: Address,
    guardian: Address,
    score: u64,
    later: Seq<Call>,
)
    requires
        admin_allows(ledger, admin),
        forall|i: int|
            0 <= i < later.len() ==> !(#[trigger] later[i] matches Call::SetReputation { guardian: g, .. }
                && g == guardian && call_let_in(
                ledger_after_calls(
                    ledger_after_call(ledger, Call::SetReputation { admin, guardian, score }),
                    later.take(i),
                ),
                later[i],
            )),
    ensures
        reputation_in(
            ledger_after_calls(
                ledger_after_call(ledger, Call::SetReputation { admin, guardian, score }),
                later,
            ),
            guardian,
        ) == Some(score),
{
    let start = ledger_after_call(ledger, Call::SetReputation { admin, guardian, score });
    let key = DataKey::Reputation(guardian);
    assert forall|i: int| 0 <= i < later.len() implies !call_writes_at(
        ledger_after_calls(start, later.take(i)),
        #[trigger] later[i],
        key,
    ) by {
        assert(!(later[i] matches Call::SetReputation { guardian: g, .. } && g == guardian
            && call_let_in(ledger_after_calls(start, later.take(i)), later[i])));
    }
    law_unwritten_key_keeps_value(start, later, key);
}

/// The weight threshold is the one last set by an allowed call, whatever
/// calls come after, as long as none of them that sets the threshold is
/// let in.
pub proof fn law_latest_threshold_wins(
    ledger: Map<DataKey, StoredValue>,
    admin: Address,
    threshold: u64,
    later: Seq<Call>,
)
    requires
        admin_allows(ledger, admin),
        forall|i: int|
            0 <= i < later.len() ==> !(#[trigger] later[i] is SetWeightThreshold && call_let_in(
                ledger_after_calls(
                    ledger_after_call(ledger, Call::SetWeightThreshold { admin, threshold }),
                    later.take(i),
                ),
                later[i],
            )),
    ensures
        threshold_in(
            ledger_after_calls(ledger_after_call(ledger, Call::SetWeightThreshold { admin, threshold }), later),
        ) == threshold,
{
    let start = ledger_after_call(ledger, Call::SetWeightThreshold { admin, threshold });
    let key = DataKey::WeightThreshold;
    assert forall|i: int| 0 <= i < later.len() implies !call_writes_at(
        ledger_after_calls(start, later.take(i)),
        #[trigger] later[i],
        key,
    ) by {
        assert(!(later[i] is SetWeightThreshold && call_let_in(ledger_after_calls(start, later.take(i)), later[i])));
    }
    law_unwritten_key_keeps_value(start, later, key);
}

/// A counted vote adds exactly the guardian's reputation to the task's
/// accrued weight and one to its vote count; the task is then resolved
/// exactly when it was already resolved or its accrued weight meets the
/// threshold, so a resolved task stays resolved. Guardians, reputations,
/// the threshold and every other task are left as they were.
pub proof fn law_vote_adds_weight(
    ledger: Map<DataKey, StoredValue>,
    guardian: Address,
    task_id: u64,
    other_task: u64,
    other: Address,
)
    requires
        vote_error_in(ledger, guardian, task_id) is None,
        vote_in_range(ledger, guardian, task_id),
    ensures
        ({
            let before = task_in(ledger, task_id)->0;
            let after_ledger = ledger_after_vote(ledger, guardian, task_id);
            let after = task_in(after_ledger, task_id)->0;
            &&& task_in(after_ledger, task_id) is Some
            &&& after.id == before.id
            &&& after.total_weight_accrued == before.total_weight_accrued + reputation_in(
                ledger,
                guardian,
            )->0
            &&& after.votes == before.votes + 1
            &&& after.is_done == (before.is_done || after.total_weight_accrued >= threshold_in(
                ledger,
            ))
            &&& before.is_done ==> after.is_done
            &&& voted_in(after_ledger, task_id, guardian)
            &&& threshold_in(after_ledger) == threshold_in(ledger)
            &&& guardian_in(after_ledger, other) == guardian_in(ledger, other)
            &&& reputation_in(after_ledger, other) == reputation_in(ledger, other)
            &&& other_task != task_id ==> task_in(after_ledger, other_task) == task_in(
                ledger,
                other_task,
            )
        }),
{
}

/// A guardian that has had a vote counted on a task is refused with
/// `DuplicateVote` when it votes on that task again.
pub proof fn law_second_vote_is_duplicate(
    ledger: Map<DataKey, StoredValue>,
    guardian: Address,
    task_id: u64,
)
    requires
        vote_error_in(ledger, guardian, task_id) is None,
    ensures
        vote_error_in(ledger_after_vote(ledger, guardian, task_id), guardian, task_id) == Some(
            ContractError::DuplicateVote,
        ),
{
}

/// Consensus is by weight, not by order: when two guardians' votes on a task
/// are both counted, the storage afterwards is the same whichever voted first.
pub proof fn law_vote_order_does_not_matter(
    ledger: Map<DataKey, StoredValue>,
    first: Address,
    second: Address,
    task_id: u64,
)
    requires
        vote_error_in(ledger, first, task_id) is None,
        vote_error_in(ledger_after_vote(ledger, first, task_id), second, task_id) is None,
        vote_error_in(ledger, second, task_id) is None,
        vote_error_in(ledger_after_vote(ledger, second, task_id), first, task_id) is None,
    ensures
        ledger_after_vote(ledger_after_vote(ledger, first, task_id), second, task_id)
            == ledger_after_vote(ledger_after_vote(ledger, second, task_id), first, task_id),
{
    let one_two = ledger_after_vote(ledger_after_vote(ledger, first, task_id), second, task_id);
    let two_one = ledger_after_vote(ledger_after_vote(ledger, second, task_id), first, task_id);
    assert(one_two =~= two_one);
}

/// Guardian status is registration: an account is a guardian exactly when
/// its guardian key is stored; no call but that account's registration
/// makes it one, and no call unregisters a guardian.
pub proof fn law_guardian_status(ledger: Map<DataKey, StoredValue>, guardian: Address, call: Call)
    ensures
        guardian_in(ledger, guardian) == ledger.contains_key(DataKey::Guardian(guardian)),
        !ledger.contains_key(DataKey::Guardian(guardian)) && !(call matches Call::AddGuardian {
            guardian: g,
            ..
        } && g == guardian) ==> !ledger_after_call(ledger, call).contains_key(
            DataKey::Guardian(guardian),
        ),
        ledger.contains_key(DataKey::Guardian(guardian)) ==> ledger_after_call(
            ledger,
            call,
        ).contains_key(DataKey::Guardian(guardian)),
{
}

/// Administrative calls by the administrator on record take effect, and
/// write exactly their own key; those by any other account change nothing;
/// while no administrator is on record every account's take effect.
pub proof fn law_administrator_calls(
    ledger: Map<DataKey, StoredValue>,
    admin: Address,
    guardian: Address,
    score: u64,
    threshold: u64,
    task_id: u64,
)
    ensures
        ({
            let let_in = match ledger.get(DataKey::Admin) {
                Some(StoredValue::Account(a)) => a == admin,
                _ => true,
            };
            &&& admin_allows(ledger, admin) == let_in
            &&& ledger_after_call(ledger, Call::SetWeightThreshold { admin, threshold }) == if let_in {
                ledger.insert(DataKey::WeightThreshold, StoredValue::Score(threshold))
            } else {
                ledger
            }
            &&& ledger_after_call(ledger, Call::SetReputation { admin, guardian, score }) == if let_in {
                ledger.insert(DataKey::Reputation(guardian), StoredValue::Score(score))
            } else {
                ledger
            }
            &&& ledger_after_call(ledger, Call::RegisterTask { admin, task_id }) == if let_in {
                ledger.insert(
                    DataKey::Task(task_id),
                    StoredValue::Record(
                        Task { id: task_id, votes: 0, is_done: false, total_weight_accrued: 0 },
                    ),
                )
            } else {
                ledger
            }
            &&& ledger_after_call(ledger, Call::AddGuardian { admin, guardian }) == if !let_in {
                ledger
            } else if ledger.get(DataKey::Admin) matches Some(StoredValue::Account(_)) {
                ledger.insert(DataKey::Guardian(guardian), StoredValue::Flag(true))
            } else {
                ledger.insert(DataKey::Admin, StoredValue::Account(admin)).insert(
                    DataKey::Guardian(guardian),
                    StoredValue::Flag(true),
                )
            }
        }),
{
}

/// Why a vote of `guardian` on `task_id` is refused, in terms of what is
/// stored, checked in order: an account that is not a registered guardian;
/// a guardian that already voted on the task, whatever the task's state;
/// no score; a zero score; no such task; a weight that would overflow. A
/// vote that none of these refuses is counted, whoever else the guardian is
/// (the administrator too).
pub proof fn law_vote_refusals(ledger: Map<DataKey, StoredValue>, guardian: Address, task_id: u64)
    ensures
        ({
            let is_guardian = ledger.contains_key(DataKey::Guardian(guardian));
            let voted = ledger.contains_key(DataKey::Voted(task_id, guardian));
            let score = ledger.get(DataKey::Reputation(guardian));
            let task = ledger.get(DataKey::Task(task_id));
            let e = vote_error_in(ledger, guardian, task_id);
            &&& !is_guardian ==> e == Some(ContractError::NotAuthorized)
            &&& is_guardian && voted ==> e == Some(ContractError::DuplicateVote)
            &&& is_guardian && !voted && !(score matches Some(StoredValue::Score(_))) ==> e == Some(
                ContractError::NoReputationScore,
            )
            &&& is_guardian && !voted && score == Some(StoredValue::Score(0)) ==> e == Some(
                ContractError::ZeroWeightVote,
            )
            &&& is_guardian && !voted && (score matches Some(StoredValue::Score(w)) && w > 0) && !(
            task matches Some(StoredValue::Record(_))) ==> e == Some(ContractError::NotAuthorized)
            &&& is_guardian && !voted && (score matches Some(StoredValue::Score(w)) && w > 0 && (
            task matches Some(StoredValue::Record(k)) && k.total_weight_accrued + w > u64::MAX))
                ==> e == Some(ContractError::WeightOverflow)
            &&& is_guardian && !voted && (score matches Some(StoredValue::Score(w)) && w > 0 && (
            task matches Some(StoredValue::Record(k)) && k.total_weight_accrued + w <= u64::MAX))
                ==> e is None
        }),
{
}

/// How a counted vote tallies, for every task, weight and threshold: the
/// weight is added and the vote counted; the task is done exactly when it
/// was done or its new weight meets the threshold; and the vote reports a
/// resolution exactly when the new weight meets the threshold, whether or
/// not the task was done before.
pub proof fn law_tally(task: Task, weight: u64, threshold: u64)
    requires
        task.total_weight_accrued + weight <= u64::MAX,
        task.votes < u32::MAX,
    ensures
        counted_vote(task, weight, threshold) == (VoteDecision {
            weight,
            task: Task {
                id: task.id,
                votes: (task.votes + 1) as u32,
                is_done: task.is_done || task.total_weight_accrued + weight >= threshold,
                total_weight_accrued: (task.total_weight_accrued + weight) as u64,
            },
            resolved: task.total_weight_accrued + weight >= threshold,
        }),
{
}

/// What a counted vote does, in terms of what is stored: it records the
/// vote and stores the task with the guardian's score added, one more vote,
/// and done exactly when it was done or the new weight meets the threshold
/// in force (the one stored, else the default); it publishes a resolution
/// exactly when the new weight meets that threshold, then the weighted
/// vote. Nothing else is written.
pub proof fn law_counted_vote(
    ledger: Map<DataKey, StoredValue>,
    guardian: Address,
    task_id: u64,
    weight: u64,
    task: Task,
)
    requires
        ledger.contains_key(DataKey::Guardian(guardian)),
        !ledger.contains_key(DataKey::Voted(task_id, guardian)),
        ledger.get(DataKey::Reputation(guardian)) == Some(StoredValue::Score(weight)),
        weight > 0,
        ledger.get(DataKey::Task(task_id)) == Some(StoredValue::Record(task)),
        task.total_weight_accrued + weight <= u64::MAX,
        task.votes < u32::MAX,
    ensures
        ({
            let threshold = match ledger.get(DataKey::WeightThreshold) {
                Some(StoredValue::Score(t)) => t,
                _ => DEFAULT_WEIGHT_THRESHOLD,
            };
            let total = (task.total_weight_accrued + weight) as u64;
            let tallied = Task {
                id: task.id,
                votes: (task.votes + 1) as u32,
                is_done: task.is_done || total >= threshold,
                total_weight_accrued: total,
            };
            &&& vote_error_in(ledger, guardian, task_id) is None
            &&& ledger_after_vote(ledger, guardian, task_id) == ledger.insert(
                DataKey::Voted(task_id, guardian),
                StoredValue::Flag(true),
            ).insert(DataKey::Task(task_id), StoredValue::Record(tallied))
            &&& events_of_vote(ledger, guardian, task_id) == (if total >= threshold {
                seq![ContractEvent::TaskResolved { task_id, total_weight_accrued: total }]
            } else {
                Seq::empty()
            }).push(ContractEvent::WeightedVote { task_id, guardian, weight })
        }),
{
    law_vote_refusals(ledger, guardian, task_id);
}

/// What each read gives, in terms of what is stored: a guardian's score
/// where a score is stored under its reputation key; the task stored under
/// its id; whether a vote is recorded; the threshold stored, else the
/// default; the administrator stored, if any.
pub proof fn law_reads(ledger: Map<DataKey, StoredValue>, guardian: Address, task_id: u64)
    ensures
        reputation_in(ledger, guardian) == (match ledger.get(DataKey::Reputation(guardian)) {
            Some(StoredValue::Score(s)) => Some(s),
            _ => None,
        }),
        task_in(ledger, task_id) == (match ledger.get(DataKey::Task(task_id)) {
            Some(StoredValue::Record(t)) => Some(t),
            _ => None,
        }),
        voted_in(ledger, task_id, guardian) == ledger.contains_key(DataKey::Voted(task_id, guardian)),
        threshold_in(ledger) == (match ledger.get(DataKey::WeightThreshold) {
            Some(StoredValue::Score(t)) => t,
            _ => 300u64,
        }),
        admin_in(ledger) == (match ledger.get(DataKey::Admin) {
            Some(StoredValue::Account(a)) => Some(a),
            _ => None,
        }),
{
}

/// A vote's refusal from the values it reads: not a guardian, then already
/// voted, then no score, then a zero score, then no task, then a weight
/// that would overflow; counted otherwise.
pub proof fn law_vote_error(
    is_guardian: bool,
    already_voted: bool,
    power: Option<u64>,
    task: Option<Task>,
)
    ensures
        vote_error(is_guardian, already_voted, power, task) == (if !is_guardian {
            Some(ContractError::NotAuthorized)
        } else if already_voted {
            Some(ContractError::DuplicateVote)
        } else {
            match power {
                None => Some(ContractError::NoReputationScore),
                Some(w) => if w == 0 {
                    Some(ContractError::ZeroWeightVote)
                } else {
                    match task {
                        None => Some(ContractError::NotAuthorized),
                        Some(k) => if k.total_weight_accrued + w > u64::MAX {
                            Some(ContractError::WeightOverflow)
                        } else {
                            None
                        },
                    }
                },
            }
        }),
{
}

/// Every call keeps the storage well typed: each key holds a value of the
/// kind it stores, and a stored task carries the id it is stored under.
/// A new contract's empty storage is well typed.
pub proof fn law_storage_stays_well_typed(ledger: Map<DataKey, StoredValue>, call: Call)
    requires
        ledger_well_typed(ledger),
    ensures
        ledger_well_typed(Map::<DataKey, StoredValue>::empty()),
        ledger_well_typed(ledger_after_call(ledger, call)),
{
    if let Call::Vote { guardian, task_id } = call {
        if vote_error_in(ledger, guardian, task_id) is None {
            assert(ledger.contains_key(DataKey::Task(task_id)));
        }
    }
}

} // verus!
