//! The first-run shortcut check: what the set-up screen shows after the
//! global shortcut has been checked for conflicts and registered.
use vstd::prelude::*;
use crate::text::{chars_of, string_of};

verus! {

broadcast use vstd::string::group_string_axioms;

/// What the conflict check found.
#[derive(Clone, Debug)]
pub enum ConflictCheck {
    /// Another binding uses the shortcut; the details describe it.
    Conflict(String),
    /// The shortcut is free.
    Free,
    /// The check itself failed.
    Failed,
}

/// What the set-up screen does after the conflict check.
#[derive(Clone, Debug)]
pub enum CheckFollowUp {
    /// Show the conflict and its details.
    ShowConflict(String),
    /// Register the shortcut, then report how that went.
    Register,
    /// Report failure.
    ReportFailure,
}

/// The follow-up of a conflict check.
pub fn after_conflict_check(check: ConflictCheck) -> (r: CheckFollowUp)
    ensures
        match check {
            ConflictCheck::Conflict(d) => r matches CheckFollowUp::ShowConflict(e) && e@ == d@,
            ConflictCheck::Free => r matches CheckFollowUp::Register,
            ConflictCheck::Failed => r matches CheckFollowUp::ReportFailure,
        },
{
    match check {
        ConflictCheck::Conflict(d) => CheckFollowUp::ShowConflict(d),
        ConflictCheck::Free => CheckFollowUp::Register,
        ConflictCheck::Failed => CheckFollowUp::ReportFailure,
    }
}

/// The shortcut status shown while a check or a fix runs.
pub fn checking_status() -> (r: String)
    ensures
        r@ == "checking"@,
{
    string_of(&chars_of("checking"))
}

/// The shortcut status shown for a conflict.
pub fn conflict_status() -> (r: String)
    ensures
        r@ == "conflict"@,
{
    string_of(&chars_of("conflict"))
}

/// The shortcut status after registering or fixing the shortcut (and after
/// a failed check): `ok` on success, `failed` otherwise.
pub fn outcome_status(succeeded: bool) -> (r: String)
    ensures
        r@ == if succeeded {
            "ok"@
        } else {
            "failed"@
        },
{
    string_of(&chars_of(if succeeded { "ok" } else { "failed" }))
}

} // verus!
