use vero_core_contracts::{
    decide_vote, emit_task_resolved, emit_weighted_vote, Address, ContractError, ContractEvent,
    DataKey, InstanceStorage, StoredValue, Task, VeroContract, VoteDecision,
    DEFAULT_WEIGHT_THRESHOLD, vote_refusal, admin_check, AdminCheck, vote_steps, VoteStep,
    threshold_or_default,
};

const ADMIN: Address = Address { id: 1 };

fn guardian(client: &mut VeroContract, id: u64, score: u64) -> Address {
    let g = Address { id };
    client.add_guardian(ADMIN, g);
    client.set_reputation(ADMIN, g, score);
    g
}

fn task(id: u64, votes: u32, is_done: bool, total_weight_accrued: u64) -> Task {
    Task { id, votes, is_done, total_weight_accrued }
}

#[test]
fn new_contract_has_default_threshold_and_nothing_else() {
    let client = VeroContract::new();
    assert_eq!(client.get_weight_threshold(), DEFAULT_WEIGHT_THRESHOLD);
    assert_eq!(client.get_weight_threshold(), 300);
    assert_eq!(client.get_task(0), None);
    assert_eq!(client.get_reputation(Address { id: 0 }), None);
    assert!(!client.is_guardian(Address { id: 0 }));
    assert!(client.events().is_empty());
}

#[test]
fn each_refusal_has_its_error() {
    let mut client = VeroContract::new();
    client.register_task(ADMIN, 5).unwrap();
    let stranger = Address { id: 90 };
    assert_eq!(client.vote(stranger, 5), Err(ContractError::NotAuthorized));

    let unscored = Address { id: 91 };
    client.add_guardian(ADMIN, unscored);
    assert_eq!(client.vote(unscored, 5), Err(ContractError::NoReputationScore));

    let zero = guardian(&mut client, 92, 0);
    assert_eq!(client.vote(zero, 5), Err(ContractError::ZeroWeightVote));

    let g = guardian(&mut client, 93, 10);
    assert_eq!(client.vote(g, 6), Err(ContractError::NotAuthorized));
    assert_eq!(client.vote(g, 5), Ok(()));
    assert_eq!(client.vote(g, 5), Err(ContractError::DuplicateVote));
}

#[test]
fn checks_run_in_order() {
    // A non-guardian with no score voting on a missing task is refused as a non-guardian.
    let mut client = VeroContract::new();
    assert_eq!(client.vote(Address { id: 7 }, 1), Err(ContractError::NotAuthorized));
    // A guardian without a score on a missing task: the missing score is reported first.
    client.add_guardian(ADMIN, Address { id: 7 });
    assert_eq!(client.vote(Address { id: 7 }, 1), Err(ContractError::NoReputationScore));
}

#[test]
fn weight_overflow_is_refused_and_changes_nothing() {
    let mut client = VeroContract::new();
    let big = guardian(&mut client, 10, u64::MAX);
    let small = guardian(&mut client, 11, 1);
    client.register_task(ADMIN, 3).unwrap();
    client.vote(big, 3).unwrap();
    let before = client.get_task(3);
    let events_before = client.events().len();
    assert_eq!(client.vote(small, 3), Err(ContractError::WeightOverflow));
    assert_eq!(client.get_task(3), before);
    assert_eq!(client.events().len(), events_before);
    // The refused guardian was not recorded as having voted: it can still be refused for the same reason.
    assert_eq!(client.vote(small, 3), Err(ContractError::WeightOverflow));
}

#[test]
fn vote_publishes_resolution_then_weighted_vote() {
    let mut client = VeroContract::new();
    client.set_weight_threshold(ADMIN, 100);
    let g1 = guardian(&mut client, 20, 60);
    let g2 = guardian(&mut client, 21, 50);
    client.register_task(ADMIN, 8).unwrap();
    client.vote(g1, 8).unwrap();
    client.vote(g2, 8).unwrap();
    let expected = vec![
        ContractEvent::WeightedVote { task_id: 8, guardian: g1, weight: 60 },
        ContractEvent::TaskResolved { task_id: 8, total_weight_accrued: 110 },
        ContractEvent::WeightedVote { task_id: 8, guardian: g2, weight: 50 },
    ];
    assert_eq!(client.events(), &expected);
    assert_eq!(client.events()[0].topic(), "wt_vote");
    assert_eq!(client.events()[1].topic(), "resolved");
}

#[test]
fn resolved_task_stays_resolved_when_threshold_rises() {
    let mut client = VeroContract::new();
    client.set_weight_threshold(ADMIN, 10);
    let g1 = guardian(&mut client, 30, 10);
    let g2 = guardian(&mut client, 31, 5);
    client.register_task(ADMIN, 2).unwrap();
    client.vote(g1, 2).unwrap();
    assert!(client.get_task(2).unwrap().is_done);
    client.set_weight_threshold(ADMIN, 1000);
    client.vote(g2, 2).unwrap();
    assert_eq!(client.get_task(2), Some(task(2, 2, true, 15)));
    // No resolution event the second time: 15 < 1000.
    assert_eq!(client.events().len(), 3);
}

#[test]
fn vote_order_gives_the_same_task() {
    let mut a = VeroContract::new();
    let mut b = VeroContract::new();
    for c in [&mut a, &mut b] {
        guardian(c, 40, 120);
        guardian(c, 41, 200);
        c.register_task(ADMIN, 9).unwrap();
    }
    a.vote(Address { id: 40 }, 9).unwrap();
    a.vote(Address { id: 41 }, 9).unwrap();
    b.vote(Address { id: 41 }, 9).unwrap();
    b.vote(Address { id: 40 }, 9).unwrap();
    assert_eq!(a.get_task(9), b.get_task(9));
    assert_eq!(a.get_task(9), Some(task(9, 2, true, 320)));
}

#[test]
fn a_vote_touches_only_its_task() {
    let mut client = VeroContract::new();
    let g = guardian(&mut client, 50, 70);
    client.register_task(ADMIN, 1).unwrap();
    client.register_task(ADMIN, 2).unwrap();
    client.vote(g, 1).unwrap();
    assert_eq!(client.get_task(2), Some(task(2, 0, false, 0)));
    assert_eq!(client.get_task(1), Some(task(1, 1, false, 70)));
    // The same guardian may still vote on the other task.
    assert_eq!(client.vote(g, 2), Ok(()));
}

#[test]
fn reputation_writes_are_independent() {
    let mut client = VeroContract::new();
    let g1 = guardian(&mut client, 60, 11);
    let g2 = guardian(&mut client, 61, 22);
    client.set_reputation(ADMIN, g1, 33);
    assert_eq!(client.get_reputation(g1), Some(33));
    assert_eq!(client.get_reputation(g2), Some(22));
    assert_eq!(client.calculate_voting_power(g2), Some(22));
}

#[test]
fn registering_a_task_again_starts_it_afresh() {
    let mut client = VeroContract::new();
    let g = guardian(&mut client, 70, 400);
    client.register_task(ADMIN, 4).unwrap();
    client.vote(g, 4).unwrap();
    assert_eq!(client.register_task(ADMIN, 4), Ok(()));
    assert_eq!(client.get_task(4), Some(task(4, 0, false, 0)));
}

#[test]
fn decide_vote_counts_a_vote() {
    let t = task(12, 4, false, 90);
    assert_eq!(
        decide_vote(true, false, Some(10), Some(t), 100),
        Ok(VoteDecision { weight: 10, task: task(12, 5, true, 100), resolved: true })
    );
    assert_eq!(
        decide_vote(true, false, Some(9), Some(t), 100),
        Ok(VoteDecision { weight: 9, task: task(12, 5, false, 99), resolved: false })
    );
    let done = task(12, 4, true, 90);
    assert_eq!(
        decide_vote(true, false, Some(1), Some(done), 100),
        Ok(VoteDecision { weight: 1, task: task(12, 5, true, 91), resolved: false })
    );
}

#[test]
fn decide_vote_refusals() {
    let t = task(1, 0, false, 0);
    assert_eq!(decide_vote(false, false, Some(1), Some(t), 1), Err(ContractError::NotAuthorized));
    assert_eq!(decide_vote(true, true, Some(1), Some(t), 1), Err(ContractError::DuplicateVote));
    assert_eq!(decide_vote(true, false, None, Some(t), 1), Err(ContractError::NoReputationScore));
    assert_eq!(decide_vote(true, false, Some(0), Some(t), 1), Err(ContractError::ZeroWeightVote));
    assert_eq!(decide_vote(true, false, Some(1), None, 1), Err(ContractError::NotAuthorized));
    let full = task(1, 0, false, u64::MAX);
    assert_eq!(decide_vote(true, false, Some(1), Some(full), 1), Err(ContractError::WeightOverflow));
}

#[test]
fn error_codes() {
    assert_eq!(ContractError::NotAuthorized.code(), 1);
    assert_eq!(ContractError::DuplicateVote.code(), 2);
    assert_eq!(ContractError::NoReputationScore.code(), 3);
    assert_eq!(ContractError::ZeroWeightVote.code(), 4);
    assert_eq!(ContractError::WeightOverflow.code(), 5);
}

#[test]
fn storage_reads_back_writes() {
    let mut s = InstanceStorage::new();
    let k1 = DataKey::Reputation(Address { id: 1 });
    let k2 = DataKey::Voted(3, Address { id: 1 });
    assert!(!s.has(&k1));
    assert_eq!(s.get(&k1), None);
    s.set(k1, StoredValue::Score(5));
    s.set(k2, StoredValue::Flag(true));
    s.set(k1, StoredValue::Score(6));
    assert!(s.has(&k1));
    assert_eq!(s.get(&k1), Some(StoredValue::Score(6)));
    assert_eq!(s.get(&k2), Some(StoredValue::Flag(true)));
    assert_eq!(s.get(&DataKey::Voted(3, Address { id: 2 })), None);
    assert_eq!(s.get(&DataKey::Admin), None);
}

#[test]
fn emitters_append_events() {
    let mut log: Vec<ContractEvent> = Vec::new();
    emit_task_resolved(&mut log, 4, 77);
    emit_weighted_vote(&mut log, 4, &Address { id: 9 }, 12);
    assert_eq!(
        log,
        vec![
            ContractEvent::TaskResolved { task_id: 4, total_weight_accrued: 77 },
            ContractEvent::WeightedVote { task_id: 4, guardian: Address { id: 9 }, weight: 12 },
        ]
    );
}

#[test]
fn vote_refusal_matches_decide_vote() {
    let t = task(1, 0, false, 5);
    assert_eq!(vote_refusal(true, false, Some(3), Some(t)), None);
    assert_eq!(vote_refusal(false, true, None, None), Some(ContractError::NotAuthorized));
    assert_eq!(vote_refusal(true, true, None, None), Some(ContractError::DuplicateVote));
    assert_eq!(vote_refusal(true, false, Some(0), None), Some(ContractError::ZeroWeightVote));
    assert_eq!(vote_refusal(true, false, Some(2), None), Some(ContractError::NotAuthorized));
    let full = task(1, 0, false, u64::MAX - 1);
    assert_eq!(vote_refusal(true, false, Some(1), Some(full)), None);
    assert_eq!(vote_refusal(true, false, Some(2), Some(full)), Some(ContractError::WeightOverflow));
}

#[test]
fn first_guardian_registration_puts_its_caller_on_record() {
    let mut client = VeroContract::new();
    assert_eq!(client.get_admin(), None);
    client.set_weight_threshold(ADMIN, 50);
    client.set_reputation(ADMIN, Address { id: 5 }, 9);
    client.register_task(ADMIN, 1).unwrap();
    assert_eq!(client.get_admin(), None);
    assert_eq!(client.get_weight_threshold(), 50);
    client.add_guardian(ADMIN, Address { id: 5 });
    assert_eq!(client.get_admin(), Some(ADMIN));
    client.add_guardian(Address { id: 6 }, Address { id: 7 });
    assert!(!client.is_guardian(Address { id: 7 }));
    assert_eq!(client.get_admin(), Some(ADMIN));
}

#[test]
fn another_account_cannot_make_admin_calls() {
    let mut client = VeroContract::new();
    let g = guardian(&mut client, 80, 10);
    client.register_task(ADMIN, 1).unwrap();
    let intruder = Address { id: 666 };

    client.set_weight_threshold(intruder, 1);
    assert_eq!(client.get_weight_threshold(), 300);

    client.set_reputation(intruder, g, 9999);
    assert_eq!(client.get_reputation(g), Some(10));
    assert_eq!(client.calculate_voting_power(g), Some(10));

    client.add_guardian(intruder, intruder);
    assert!(!client.is_guardian(intruder));

    assert_eq!(client.register_task(intruder, 2), Err(ContractError::NotAuthorized));
    assert_eq!(client.get_task(2), None);

    assert_eq!(client.get_admin(), Some(ADMIN));
    assert!(client.events().is_empty());
}

#[test]
fn latest_reputation_survives_other_calls() {
    let mut client = VeroContract::new();
    let g = guardian(&mut client, 81, 100);
    let h = guardian(&mut client, 82, 40);
    client.set_reputation(ADMIN, g, 500);
    client.register_task(ADMIN, 3).unwrap();
    client.set_weight_threshold(ADMIN, 1000);
    client.vote(g, 3).unwrap();
    client.vote(h, 3).unwrap();
    client.set_reputation(ADMIN, h, 7);
    client.add_guardian(ADMIN, Address { id: 83 });
    client.set_reputation(Address { id: 84 }, g, 1);
    assert_eq!(client.get_reputation(g), Some(500));
    assert_eq!(client.get_weight_threshold(), 1000);
}

#[test]
fn admin_check_decisions() {
    assert_eq!(admin_check(None), AdminCheck::Unclaimed);
    assert_eq!(admin_check(Some(true)), AdminCheck::Granted);
    assert_eq!(admin_check(Some(false)), AdminCheck::Refused);
    assert_eq!(Task::registered(6), task(6, 0, false, 0));
}

#[test]
fn vote_steps_in_order() {
    let resolved = VoteDecision { weight: 10, task: task(3, 2, true, 310), resolved: true };
    assert_eq!(
        vote_steps(&resolved),
        vec![
            VoteStep::PublishResolution { total_weight_accrued: 310 },
            VoteStep::RecordVote,
            VoteStep::StoreTask(task(3, 2, true, 310)),
            VoteStep::PublishWeightedVote { weight: 10 },
        ]
    );
    let open = VoteDecision { weight: 4, task: task(3, 1, false, 4), resolved: false };
    assert_eq!(
        vote_steps(&open),
        vec![
            VoteStep::RecordVote,
            VoteStep::StoreTask(task(3, 1, false, 4)),
            VoteStep::PublishWeightedVote { weight: 4 },
        ]
    );
}

#[test]
fn threshold_default_applies_only_when_unset() {
    assert_eq!(threshold_or_default(None), 300);
    assert_eq!(threshold_or_default(Some(0)), 0);
    assert_eq!(threshold_or_default(Some(1000)), 1000);
}
