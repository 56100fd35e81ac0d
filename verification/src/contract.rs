//! The contract: guardian and reputation management, the weight threshold,
//! and the task lifecycle, over the contract's instance storage.
//!
//! The host checks each caller's signature before the contract runs; what
//! follows is what the contract does with its storage once a call is let in.

use vstd::prelude::*;

use crate::admin::{admin_check, AdminCheck};
use crate::events::{emit_task_resolved, emit_weighted_vote, ContractEvent};
use crate::storage::InstanceStorage;
use crate::types::{
    threshold_or_default, Address, ContractError, DataKey, StoredValue, Task,
    DEFAULT_WEIGHT_THRESHOLD,
};
use crate::voting::{
    counted_vote, decide_vote, steps_of_vote, vote_error, vote_steps, VoteDecision, VoteStep,
};

verus! {

/// The score stored under `key` in `ledger`, if a score is stored there.
pub open spec fn score_in(ledger: Map<DataKey, StoredValue>, key: DataKey) -> Option<u64> {
    match ledger.get(key) {
        Some(StoredValue::Score(s)) => Some(s),
        _ => None,
    }
}

/// Whether `guardian` is registered in `ledger`.
pub open spec fn guardian_in(ledger: Map<DataKey, StoredValue>, guardian: Address) -> bool {
    ledger.contains_key(DataKey::Guardian(guardian))
}

/// The reputation score of `guardian` in `ledger`.
pub open spec fn reputation_in(ledger: Map<DataKey, StoredValue>, guardian: Address) -> Option<u64> {
    score_in(ledger, DataKey::Reputation(guardian))
}

/// The task stored under `task_id` in `ledger`.
pub open spec fn task_in(ledger: Map<DataKey, StoredValue>, task_id: u64) -> Option<Task> {
    match ledger.get(DataKey::Task(task_id)) {
        Some(StoredValue::Record(t)) => Some(t),
        _ => None,
    }
}

/// Whether `guardian` has voted on `task_id` in `ledger`.
pub open spec fn voted_in(ledger: Map<DataKey, StoredValue>, task_id: u64, guardian: Address) -> bool {
    ledger.contains_key(DataKey::Voted(task_id, guardian))
}

/// The weight threshold in `ledger`: the one set, or the default.
pub open spec fn threshold_in(ledger: Map<DataKey, StoredValue>) -> u64 {
    match score_in(ledger, DataKey::WeightThreshold) {
        Some(t) => t,
        None => DEFAULT_WEIGHT_THRESHOLD,
    }
}

/// A freshly registered task.
pub open spec fn fresh_task(task_id: u64) -> Task {
    Task { id: task_id, votes: 0, is_done: false, total_weight_accrued: 0 }
}

/// The error a vote of `guardian` on `task_id` gets against `ledger`, if any.
pub open spec fn vote_error_in(ledger: Map<DataKey, StoredValue>, guardian: Address, task_id: u64) -> Option<ContractError> {
    vote_error(
        guardian_in(ledger, guardian),
        voted_in(ledger, task_id, guardian),
        reputation_in(ledger, guardian),
        task_in(ledger, task_id),
    )
}

/// What a counted vote of `guardian` on `task_id` decides against `ledger`.
pub open spec fn vote_decision_in(ledger: Map<DataKey, StoredValue>, guardian: Address, task_id: u64) -> VoteDecision {
    counted_vote(
        task_in(ledger, task_id)->0,
        reputation_in(ledger, guardian)->0,
        threshold_in(ledger),
    )
}

/// A vote of `guardian` on `task_id` against `ledger` does not count past
/// the largest vote count (a vote count past it panics).
pub open spec fn vote_in_range(ledger: Map<DataKey, StoredValue>, guardian: Address, task_id: u64) -> bool {
    vote_error_in(ledger, guardian, task_id) is None ==> task_in(ledger, task_id)->0.votes < u32::MAX
}

/// `ledger` after a counted vote of `guardian` on `task_id`: the vote is
/// recorded and the tallied task stored.
pub open spec fn ledger_after_vote(ledger: Map<DataKey, StoredValue>, guardian: Address, task_id: u64) -> Map<DataKey, StoredValue> {
    ledger.insert(DataKey::Voted(task_id, guardian), StoredValue::Flag(true)).insert(
        DataKey::Task(task_id),
        StoredValue::Record(vote_decision_in(ledger, guardian, task_id).task),
    )
}

/// The events a counted vote of `guardian` on `task_id` against `ledger`
/// publishes: the resolution, where the task reached the threshold, then
/// the weighted vote.
pub open spec fn events_of_vote(ledger: Map<DataKey, StoredValue>, guardian: Address, task_id: u64) -> Seq<ContractEvent> {
    let d = vote_decision_in(ledger, guardian, task_id);
    let resolution = if d.resolved {
        seq![ContractEvent::TaskResolved { task_id, total_weight_accrued: d.task.total_weight_accrued }]
    } else {
        Seq::empty()
    };
    resolution.push(ContractEvent::WeightedVote { task_id, guardian, weight: d.weight })
}

/// `ledger` after `step` of a vote of `guardian` on `task_id`.
pub open spec fn ledger_after_step(
    ledger: Map<DataKey, StoredValue>,
    guardian: Address,
    task_id: u64,
    step: VoteStep,
) -> Map<DataKey, StoredValue> {
    match step {
        VoteStep::RecordVote => ledger.insert(DataKey::Voted(task_id, guardian), StoredValue::Flag(true)),
        VoteStep::StoreTask(t) => ledger.insert(DataKey::Task(task_id), StoredValue::Record(t)),
        _ => ledger,
    }
}

/// The events `step` of a vote of `guardian` on `task_id` publishes.
pub open spec fn events_of_step(guardian: Address, task_id: u64, step: VoteStep) -> Seq<ContractEvent> {
    match step {
        VoteStep::PublishResolution { total_weight_accrued } => seq![
            ContractEvent::TaskResolved { task_id, total_weight_accrued },
        ],
        VoteStep::PublishWeightedVote { weight } => seq![
            ContractEvent::WeightedVote { task_id, guardian, weight },
        ],
        _ => Seq::empty(),
    }
}

/// `ledger` after `steps` of a vote of `guardian` on `task_id`, in order.
pub open spec fn ledger_after_steps(
    ledger: Map<DataKey, StoredValue>,
    guardian: Address,
    task_id: u64,
    steps: Seq<VoteStep>,
) -> Map<DataKey, StoredValue>
    decreases steps.len(),
{
    if steps.len() == 0 {
        ledger
    } else {
        ledger_after_step(
            ledger_after_steps(ledger, guardian, task_id, steps.drop_last()),
            guardian,
            task_id,
            steps.last(),
        )
    }
}

/// The events `steps` of a vote of `guardian` on `task_id` publish, in order.
pub open spec fn events_of_steps(guardian: Address, task_id: u64, steps: Seq<VoteStep>) -> Seq<ContractEvent>
    decreases steps.len(),
{
    if steps.len() == 0 {
        Seq::empty()
    } else {
        events_of_steps(guardian, task_id, steps.drop_last()) + events_of_step(
            guardian,
            task_id,
            steps.last(),
        )
    }
}

/// Taking the steps of a counted vote, in order, leaves the storage and the
/// published events as the vote's contract says.
pub proof fn lemma_vote_steps(ledger: Map<DataKey, StoredValue>, guardian: Address, task_id: u64)
    ensures
        ledger_after_steps(ledger, guardian, task_id, steps_of_vote(vote_decision_in(ledger, guardian, task_id)))
            == ledger_after_vote(ledger, guardian, task_id),
        events_of_steps(guardian, task_id, steps_of_vote(vote_decision_in(ledger, guardian, task_id)))
            == events_of_vote(ledger, guardian, task_id),
{
    let d = vote_decision_in(ledger, guardian, task_id);
    let head = if d.resolved {
        seq![VoteStep::PublishResolution { total_weight_accrued: d.task.total_weight_accrued }]
    } else {
        Seq::<VoteStep>::empty()
    };
    let s1 = head.push(VoteStep::RecordVote);
    let s2 = s1.push(VoteStep::StoreTask(d.task));
    let s3 = s2.push(VoteStep::PublishWeightedVote { weight: d.weight });
    assert(steps_of_vote(d) =~= s3);
    assert(s3.drop_last() =~= s2);
    assert(s2.drop_last() =~= s1);
    assert(s1.drop_last() =~= head);
    if d.resolved {
        assert(head.drop_last() =~= Seq::<VoteStep>::empty());
        assert(ledger_after_steps(ledger, guardian, task_id, head.drop_last()) == ledger);
        assert(events_of_steps(guardian, task_id, head.drop_last()) =~= Seq::<ContractEvent>::empty());
    }
    let l0 = ledger_after_steps(ledger, guardian, task_id, head);
    let e0 = events_of_steps(guardian, task_id, head);
    assert(l0 == ledger);
    assert(ledger_after_steps(ledger, guardian, task_id, s1) == ledger_after_step(l0, guardian, task_id, VoteStep::RecordVote));
    assert(ledger_after_steps(ledger, guardian, task_id, s2) == ledger_after_step(
        ledger_after_steps(ledger, guardian, task_id, s1), guardian, task_id, VoteStep::StoreTask(d.task)));
    assert(ledger_after_steps(ledger, guardian, task_id, s3) == ledger_after_steps(ledger, guardian, task_id, s2));
    assert(events_of_steps(guardian, task_id, s1) == e0 + Seq::<ContractEvent>::empty());
    assert(events_of_steps(guardian, task_id, s2) == events_of_steps(guardian, task_id, s1) + Seq::<ContractEvent>::empty());
    assert(events_of_steps(guardian, task_id, s3) == events_of_steps(guardian, task_id, s2) + seq![
        ContractEvent::WeightedVote { task_id, guardian, weight: d.weight },
    ]);
    assert(events_of_steps(guardian, task_id, s3) =~= events_of_vote(ledger, guardian, task_id));
}

/// `value` is of the kind stored under `key`: flags for guardians and votes,
/// scores for reputations and the threshold, an account for the admin, and
/// under `Task(id)` a task whose id is `id`.
pub open spec fn value_fits(key: DataKey, value: StoredValue) -> bool {
    match key {
        DataKey::Guardian(_) => value is Flag,
        DataKey::Voted(_, _) => value is Flag,
        DataKey::Reputation(_) => value is Score,
        DataKey::WeightThreshold => value is Score,
        DataKey::Admin => value is Account,
        DataKey::Task(id) => value matches StoredValue::Record(t) && t.id == id,
    }
}

/// Every value in `ledger` is of the kind its key stores.
pub open spec fn ledger_well_typed(ledger: Map<DataKey, StoredValue>) -> bool {
    forall|k: DataKey| #[trigger] ledger.contains_key(k) ==> value_fits(k, ledger[k])
}

/// The administrator on record in `ledger`, if any.
pub open spec fn admin_in(ledger: Map<DataKey, StoredValue>) -> Option<Address> {
    match ledger.get(DataKey::Admin) {
        Some(StoredValue::Account(a)) => Some(a),
        _ => None,
    }
}

/// Whether `admin` may make an administrative call against `ledger`: no
/// administrator is on record yet, or `admin` is the one on record.
pub open spec fn admin_allows(ledger: Map<DataKey, StoredValue>, admin: Address) -> bool {
    admin_in(ledger) is None || admin_in(ledger) == Some(admin)
}

/// `ledger` after an administrative call of `admin` that writes `value`
/// under `key`: refused, it is unchanged; allowed, the value is written and
/// nothing else.
pub open spec fn ledger_after_admin_write(
    ledger: Map<DataKey, StoredValue>,
    admin: Address,
    key: DataKey,
    value: StoredValue,
) -> Map<DataKey, StoredValue> {
    if !admin_allows(ledger, admin) {
        ledger
    } else {
        ledger.insert(key, value)
    }
}

/// `ledger` after `admin` registers `guardian`: refused, it is unchanged;
/// allowed, the guardian is registered, and `admin` is put on record as
/// administrator where none was.
pub open spec fn ledger_after_guardian_added(
    ledger: Map<DataKey, StoredValue>,
    admin: Address,
    guardian: Address,
) -> Map<DataKey, StoredValue> {
    if !admin_allows(ledger, admin) {
        ledger
    } else if admin_in(ledger) is None {
        ledger.insert(DataKey::Admin, StoredValue::Account(admin)).insert(
            DataKey::Guardian(guardian),
            StoredValue::Flag(true),
        )
    } else {
        ledger.insert(DataKey::Guardian(guardian), StoredValue::Flag(true))
    }
}

/// A call that changes the contract's storage.
#[derive(Clone, Copy, Debug, PartialEq, Eq, Structural)]
pub enum Call {
    AddGuardian { admin: Address, guardian: Address },
    SetReputation { admin: Address, guardian: Address, score: u64 },
    SetWeightThreshold { admin: Address, threshold: u64 },
    RegisterTask { admin: Address, task_id: u64 },
    Vote { guardian: Address, task_id: u64 },
}

/// `ledger` after `call`, as the call's method leaves it.
pub open spec fn ledger_after_call(ledger: Map<DataKey, StoredValue>, call: Call) -> Map<DataKey, StoredValue> {
    match call {
        Call::AddGuardian { admin, guardian } => ledger_after_guardian_added(ledger, admin, guardian),
        Call::SetReputation { admin, guardian, score } => ledger_after_admin_write(
            ledger,
            admin,
            DataKey::Reputation(guardian),
            StoredValue::Score(score),
        ),
        Call::SetWeightThreshold { admin, threshold } => ledger_after_admin_write(
            ledger,
            admin,
            DataKey::WeightThreshold,
            StoredValue::Score(threshold),
        ),
        Call::RegisterTask { admin, task_id } => ledger_after_admin_write(
            ledger,
            admin,
            DataKey::Task(task_id),
            StoredValue::Record(fresh_task(task_id)),
        ),
        Call::Vote { guardian, task_id } => if vote_error_in(ledger, guardian, task_id) is None {
            ledger_after_vote(ledger, guardian, task_id)
        } else {
            ledger
        },
    }
}

/// The account that makes `call` as administrator, for an administrative call.
pub open spec fn call_admin(call: Call) -> Option<Address> {
    match call {
        Call::AddGuardian { admin, .. } => Some(admin),
        Call::SetReputation { admin, .. } => Some(admin),
        Call::SetWeightThreshold { admin, .. } => Some(admin),
        Call::RegisterTask { admin, .. } => Some(admin),
        Call::Vote { .. } => None,
    }
}

/// `ledger` after `calls`, made in order.
pub open spec fn ledger_after_calls(ledger: Map<DataKey, StoredValue>, calls: Seq<Call>) -> Map<DataKey, StoredValue>
    decreases calls.len(),
{
    if calls.len() == 0 {
        ledger
    } else {
        ledger_after_call(ledger_after_calls(ledger, calls.drop_last()), calls.last())
    }
}

/// The keys `call` may write: an administrative call its own key (and a
/// guardian's registration the administrator's); a vote the vote's record
/// and the task.
pub open spec fn call_may_write(call: Call, key: DataKey) -> bool {
    match call {
        Call::AddGuardian { guardian, .. } => key == DataKey::Admin || key == DataKey::Guardian(guardian),
        Call::SetReputation { guardian, .. } => key == DataKey::Reputation(guardian),
        Call::SetWeightThreshold { .. } => key == DataKey::WeightThreshold,
        Call::RegisterTask { task_id, .. } => key == DataKey::Task(task_id),
        Call::Vote { guardian, task_id } => key == DataKey::Voted(task_id, guardian) || key == DataKey::Task(task_id),
    }
}

/// The contract: its instance storage and the events it has published.
pub struct VeroContract {
    storage: InstanceStorage,
    events: Vec<ContractEvent>,
}

impl VeroContract {
    /// What the contract's instance storage holds.
    pub closed spec fn ledger(&self) -> Map<DataKey, StoredValue> {
        self.storage@
    }

    /// The events the contract has published, oldest first.
    pub closed spec fn published(&self) -> Seq<ContractEvent> {
        self.events@
    }

    /// A newly deployed contract: nothing stored, nothing published.
    pub fn new() -> (c: VeroContract)
        ensures
            c.ledger() == Map::<DataKey, StoredValue>::empty(),
            c.published() == Seq::<ContractEvent>::empty(),
    {
        VeroContract { storage: InstanceStorage::new(), events: Vec::new() }
    }

    /// The events the contract has published, oldest first.
    pub fn events(&self) -> (r: &Vec<ContractEvent>)
        ensures
            r@ == self.published(),
    {
        &self.events
    }

    fn score_at(&self, key: DataKey) -> (r: Option<u64>)
        ensures
            r == score_in(self.ledger(), key),
    {
        match self.storage.get(&key) {
            Some(StoredValue::Score(s)) => Some(s),
            _ => None,
        }
    }

    /// Whether an administrative call of `admin` is let in: no
    /// administrator is on record, or `admin` is the one on record.
    fn let_admin_in(&self, admin: Address) -> (allowed: bool)
        ensures
            allowed == admin_allows(self.ledger(), admin),
    {
        let recorded_is_caller = match self.storage.get(&DataKey::Admin) {
            Some(StoredValue::Account(a)) => Some(a == admin),
            _ => None,
        };
        match admin_check(recorded_is_caller) {
            AdminCheck::Unclaimed => true,
            AdminCheck::Granted => true,
            AdminCheck::Refused => false,
        }
    }

    /// The administrator on record, if any.
    pub fn get_admin(&self) -> (r: Option<Address>)
        ensures
            r == admin_in(self.ledger()),
    {
        match self.storage.get(&DataKey::Admin) {
            Some(StoredValue::Account(a)) => Some(a),
            _ => None,
        }
    }

    // ─── Guardian management ───────────────────────────────────────

    /// Registers `guardian`. Only callable by admin: where another account
    /// is the administrator the call changes nothing. The first guardian
    /// registration puts its caller on record as administrator.
    pub fn add_guardian(&mut self, admin: Address, guardian: Address)
        ensures
            final(self).ledger() == ledger_after_guardian_added(old(self).ledger(), admin, guardian),
            final(self).published() == old(self).published(),
    {
        if self.let_admin_in(admin) {
            if self.get_admin().is_none() {
                self.storage.set(DataKey::Admin, StoredValue::Account(admin));
            }
            self.storage.set(DataKey::Guardian(guardian), StoredValue::Flag(true));
        }
    }

    /// Whether `guardian` is registered.
    pub fn is_guardian(&self, guardian: Address) -> (r: bool)
        ensures
            r == guardian_in(self.ledger(), guardian),
    {
        self.storage.has(&DataKey::Guardian(guardian))
    }

    // ─── Reputation management ─────────────────────────────────────

    /// Sets the reputation score for a guardian. Only callable by admin:
    /// where another account is the administrator the call changes nothing.
    pub fn set_reputation(&mut self, admin: Address, guardian: Address, score: u64)
        ensures
            final(self).ledger() == ledger_after_admin_write(
                old(self).ledger(),
                admin,
                DataKey::Reputation(guardian),
                StoredValue::Score(score),
            ),
            final(self).published() == old(self).published(),
    {
        if self.let_admin_in(admin) {
            self.storage.set(DataKey::Reputation(guardian), StoredValue::Score(score));
        }
    }

    /// Returns the raw reputation score for a guardian.
    pub fn get_reputation(&self, guardian: Address) -> (r: Option<u64>)
        ensures
            r == reputation_in(self.ledger(), guardian),
    {
        self.score_at(DataKey::Reputation(guardian))
    }

    /// Calculates the voting power (weight) for a given guardian based on
    /// their reputation score: the weight is the score itself.
    pub fn calculate_voting_power(&self, guardian: Address) -> (r: Option<u64>)
        ensures
            r == reputation_in(self.ledger(), guardian),
    {
        self.get_reputation(guardian)
    }

    /// Sets the cumulative weight threshold required to resolve a task.
    /// Only callable by admin: where another account is the administrator
    /// the call changes nothing.
    pub fn set_weight_threshold(&mut self, admin: Address, threshold: u64)
        ensures
            final(self).ledger() == ledger_after_admin_write(
                old(self).ledger(),
                admin,
                DataKey::WeightThreshold,
                StoredValue::Score(threshold),
            ),
            final(self).published() == old(self).published(),
    {
        if self.let_admin_in(admin) {
            self.storage.set(DataKey::WeightThreshold, StoredValue::Score(threshold));
        }
    }

    /// Returns the current weight threshold, falling back to the compiled
    /// default if none has been set.
    pub fn get_weight_threshold(&self) -> (r: u64)
        ensures
            r == threshold_in(self.ledger()),
    {
        threshold_or_default(self.score_at(DataKey::WeightThreshold))
    }

    // ─── Task lifecycle ────────────────────────────────────────────

    /// Registers a task with no votes and no weight. Only callable by admin:
    /// where another account is the administrator the call is refused with
    /// `NotAuthorized` and changes nothing.
    pub fn register_task(&mut self, admin: Address, task_id: u64) -> (r: Result<(), ContractError>)
        ensures
            r is Ok <==> admin_allows(old(self).ledger(), admin),
            r is Err ==> r == Err::<(), ContractError>(ContractError::NotAuthorized),
            final(self).ledger() == ledger_after_admin_write(
                old(self).ledger(),
                admin,
                DataKey::Task(task_id),
                StoredValue::Record(fresh_task(task_id)),
            ),
            final(self).published() == old(self).published(),
    {
        if !self.let_admin_in(admin) {
            return Err(ContractError::NotAuthorized);
        }
        self.storage.set(DataKey::Task(task_id), StoredValue::Record(Task::registered(task_id)));
        Ok(())
    }

    /// Returns the task registered under `task_id`.
    pub fn get_task(&self, task_id: u64) -> (r: Option<Task>)
        ensures
            r == task_in(self.ledger(), task_id),
    {
        match self.storage.get(&DataKey::Task(task_id)) {
            Some(StoredValue::Record(t)) => Some(t),
            _ => None,
        }
    }

    /// Takes `step` of a vote of `guardian` on `task_id`.
    fn take_step(&mut self, guardian: Address, task_id: u64, step: VoteStep)
        ensures
            final(self).ledger() == ledger_after_step(old(self).ledger(), guardian, task_id, step),
            final(self).published() == old(self).published() + events_of_step(guardian, task_id, step),
    {
        let ghost before = self.events@;
        match step {
            VoteStep::PublishResolution { total_weight_accrued } => {
                emit_task_resolved(&mut self.events, task_id, total_weight_accrued);
            },
            VoteStep::RecordVote => {
                self.storage.set(DataKey::Voted(task_id, guardian), StoredValue::Flag(true));
            },
            VoteStep::StoreTask(t) => {
                self.storage.set(DataKey::Task(task_id), StoredValue::Record(t));
            },
            VoteStep::PublishWeightedVote { weight } => {
                emit_weighted_vote(&mut self.events, task_id, &guardian, weight);
            },
        }
        assert(self.events@ =~= before + events_of_step(guardian, task_id, step));
    }

    /// Casts a weighted vote on a task. The guardian's reputation score
    /// determines their voting power. The vote weight is added to the
    /// task's `total_weight_accrued`. Once the cumulative weight meets or
    /// exceeds the threshold, the task is resolved.
    ///
    /// Errors, checked in this order:
    /// * `NotAuthorized`: caller is not a registered guardian.
    /// * `DuplicateVote`: the guardian already voted on the task.
    /// * `NoReputationScore`: guardian has no reputation score assigned.
    /// * `ZeroWeightVote`: guardian's reputation score is zero.
    /// * `NotAuthorized`: task not found.
    /// * `WeightOverflow`: adding the weight would overflow u64.
    ///
    /// A refused vote changes nothing.
    pub fn vote(&mut self, guardian: Address, task_id: u64) -> (r: Result<(), ContractError>)
        requires
            vote_in_range(old(self).ledger(), guardian, task_id),
        ensures
            match r {
                Ok(()) => {
                    &&& vote_error_in(old(self).ledger(), guardian, task_id) is None
                    &&& final(self).ledger() == ledger_after_vote(old(self).ledger(), guardian, task_id)
                    &&& final(self).published() == old(self).published() + events_of_vote(
                        old(self).ledger(),
                        guardian,
                        task_id,
                    )
                },
                Err(e) => {
                    &&& vote_error_in(old(self).ledger(), guardian, task_id) == Some(e)
                    &&& final(self).ledger() == old(self).ledger()
                    &&& final(self).published() == old(self).published()
                },
            },
    {
        let is_guardian = self.is_guardian(guardian);
        let voted_key = DataKey::Voted(task_id, guardian);
        let already_voted = self.storage.has(&voted_key);
        let power = self.calculate_voting_power(guardian);
        let task = self.get_task(task_id);
        let threshold = self.get_weight_threshold();
        let decision = match decide_vote(is_guardian, already_voted, power, task, threshold) {
            Ok(d) => d,
            Err(e) => return Err(e),
        };
        proof {
            lemma_vote_steps(old(self).ledger(), guardian, task_id);
        }
        let steps = vote_steps(&decision);
        let mut i: usize = 0;
        while i < steps.len()
            invariant
                i <= steps.len(),
                steps@ == steps_of_vote(vote_decision_in(old(self).ledger(), guardian, task_id)),
                self.ledger() == ledger_after_steps(old(self).ledger(), guardian, task_id, steps@.take(i as int)),
                self.published() == old(self).published() + events_of_steps(guardian, task_id, steps@.take(i as int)),
            decreases steps.len() - i,
        {
            self.take_step(guardian, task_id, steps[i]);
            proof {
                assert(steps@.take(i + 1).drop_last() =~= steps@.take(i as int));
            }
            i = i + 1;
        }
        proof {
            assert(steps@.take(i as int) =~= steps@);
        }
        Ok(())
    }
}

} // verus!
