//! Guard policy: the precondition gate run before the privileged commands.
//!
//! A verified-role id below [`LOWEST_ID`] is the sentinel for "no role has
//! been configured yet". When a roster of the guild's current role ids is
//! available, the guard additionally checks that the configured role still
//! exists; when no roster is available (read-only flows avoid the extra
//! remote call), that check is skipped.

use vstd::prelude::*;

verus! {

/// Smallest valid snowflake-style role id; anything below it means
/// "no verified role configured".
pub const LOWEST_ID: u64 = 4194304;

/// Outcome of the guard policy check.
#[derive(PartialEq, Eq, Structural, Clone, Copy, Debug)]
pub enum GuardOutcome {
    /// A role is configured and (if a roster was supplied) still exists.
    Pass,
    /// No verified role has been configured; the user must run `/init`.
    NotConfigured,
    /// A role id is configured but no longer exists among the guild's roles.
    RoleMissing,
}

/// True when a verified role has been configured.
pub open spec fn role_configured(role_id: u64) -> bool {
    role_id >= LOWEST_ID
}

/// Guard policy: fail fast when no role is configured, or when the
/// configured role no longer exists among the guild's roles.
///
/// `roster` is the guild's current role ids when the caller had a platform
/// handle to fetch them; `None` skips the existence check.
pub fn check_role_available(role_id: u64, roster: Option<&Vec<u64>>) -> (r: GuardOutcome)
    ensures
        r == GuardOutcome::NotConfigured <==> !role_configured(role_id),
        r == GuardOutcome::RoleMissing <==> (role_configured(role_id) && roster is Some
            && !roster->0@.contains(role_id)),
        r == GuardOutcome::Pass <==> (role_configured(role_id) && (roster is Some
            ==> roster->0@.contains(role_id))),
{
    if role_id < LOWEST_ID {
        return GuardOutcome::NotConfigured;
    }
    match roster {
        None => GuardOutcome::Pass,
        Some(roles) => {
            let mut i: usize = 0;
            while i < roles.len()
                invariant
                    i <= roles.len(),
                    role_id >= LOWEST_ID,
                    roster == Some(roles),
                    forall|j: int| 0 <= j < i ==> roles@[j] != role_id,
                decreases roles.len() - i,
            {
                if roles[i] == role_id {
                    assert(roles@.contains(role_id)) by {
                        assert(roles@[i as int] == role_id);
                    }
                    return GuardOutcome::Pass;
                }
                i += 1;
            }
            GuardOutcome::RoleMissing
        },
    }
}

} // verus!
