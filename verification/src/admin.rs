//! The administrator role: once an administrator is on record, only it may
//! make administrative calls.

use vstd::prelude::*;

verus! {

/// What an administrative call may do, given the administrator on record.
#[derive(Clone, Copy, Debug, PartialEq, Eq, Structural)]
pub enum AdminCheck {
    /// No administrator is on record: the call proceeds.
    Unclaimed,
    /// The caller is the administrator on record: the call proceeds.
    Granted,
    /// Another account is the administrator: the call changes nothing.
    Refused,
}

/// Decides an administrative call from the administrator on record:
/// `None` where there is none, else whether it is the caller.
pub fn admin_check(recorded_is_caller: Option<bool>) -> (r: AdminCheck)
    ensures
        r == (match recorded_is_caller {
            None => AdminCheck::Unclaimed,
            Some(true) => AdminCheck::Granted,
            Some(false) => AdminCheck::Refused,
        }),
{
    match recorded_is_caller {
        None => AdminCheck::Unclaimed,
        Some(true) => AdminCheck::Granted,
        Some(false) => AdminCheck::Refused,
    }
}

} // verus!
