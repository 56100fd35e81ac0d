//! Weighted guardian consensus over tasks.
//!
//! Guardians are registered by an administrator and given a reputation
//! score; the score is a guardian's voting power. A guardian casts at most
//! one vote per task, the vote's weight is added to the task's accrued
//! weight, and a task is resolved once its accrued weight meets the
//! configured threshold.
//!
//! The first guardian registration puts its caller on record as the
//! administrator; once one is on record, administrative calls by any other
//! account change nothing.
//!
//! `admin` holds the administrator check; `voting` the decision a vote
//! makes from the values it reads;
//! `contract` holds the contract itself over its instance storage, and
//! `laws` the properties that span several operations.

pub mod types;
pub mod admin;
pub mod storage;
pub mod events;
pub mod voting;
pub mod contract;
pub mod laws;

pub use types::{threshold_or_default, Address, ContractError, DataKey, StoredValue, Task, DEFAULT_WEIGHT_THRESHOLD};
pub use storage::InstanceStorage;
pub use events::{emit_task_resolved, emit_weighted_vote, ContractEvent};
pub use voting::{decide_vote, vote_refusal, vote_steps, VoteDecision, VoteStep};
pub use admin::{admin_check, AdminCheck};
pub use contract::{Call, VeroContract};
