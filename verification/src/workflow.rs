//! The verification workflow: one attempt end to end, plus the decisions
//! behind the other commands.
//!
//! Every transition of the attempt's state machine is a function here. The
//! embedding process performs the outside work between transitions — the
//! announcement, the fixed 45-second wait, the profile fetch, the role
//! mutations — and feeds the results back in as plain values; the decisions,
//! the store mutations and the terminal outcome are decided and proved here.

use vstd::prelude::*;

use crate::challenge::{generate_challenge, is_challenge_code};
use crate::guard::{role_configured, GuardOutcome};
use crate::profile::{FetchError, Profile};
use crate::store::{
    claim_pair, claimant_ids, is_verified_claim, without_claimants, without_user, Record, Store,
    VerifiedUser,
};

verus! {

/// Seconds the requester has to change the motto; the whole budget is
/// consumed before proof is checked.
pub const WAIT_SECS: u64 = 45;

/// Terminal outcome of one verification attempt, reported to the user as a
/// single message.
#[derive(Debug, PartialEq)]
pub enum VerifyOutcome {
    /// Guard: no verified role has been configured; use `/init`.
    NotConfigured,
    /// Guard: the configured role no longer exists in the guild.
    RoleMissing,
    /// The username argument was absent.
    MissingUsername,
    /// The requester already holds a `verified == true` record.
    AlreadyVerified,
    /// The pending record could not be persisted; the timer never started.
    StoreAddFailed,
    /// The profile fetch failed in transport; the pending record remains.
    FetchFailed,
    /// Upstream reported the account missing or private; carries its text.
    ProfileUnavailable(String),
    /// The motto was not changed to the challenge code within the window.
    MottoMismatch,
    /// The record could not be marked verified.
    StoreUpdateFailed,
    /// Proof accepted: record verified, role granted.
    Verified,
}

/// First transition: whether an attempt may issue a challenge.
#[derive(Debug, PartialEq)]
pub enum BeginDecision {
    /// Proceed: persist a pending record and announce the challenge.
    Issue,
    /// Stop with this terminal outcome; nothing is mutated.
    Refuse(VerifyOutcome),
}

/// Gate an attempt: the guard outcome, the presence of the username
/// argument, and the `verified == true` existence check, in that order.
pub fn begin_verification(guard: GuardOutcome, has_username: bool, already_verified: bool) -> (r:
    BeginDecision)
    ensures
        r == (if guard == GuardOutcome::NotConfigured {
            BeginDecision::Refuse(VerifyOutcome::NotConfigured)
        } else if guard == GuardOutcome::RoleMissing {
            BeginDecision::Refuse(VerifyOutcome::RoleMissing)
        } else if !has_username {
            BeginDecision::Refuse(VerifyOutcome::MissingUsername)
        } else if already_verified {
            BeginDecision::Refuse(VerifyOutcome::AlreadyVerified)
        } else {
            BeginDecision::Issue
        }),
{
    match guard {
        GuardOutcome::NotConfigured => BeginDecision::Refuse(VerifyOutcome::NotConfigured),
        GuardOutcome::RoleMissing => BeginDecision::Refuse(VerifyOutcome::RoleMissing),
        GuardOutcome::Pass => {
            if !has_username {
                BeginDecision::Refuse(VerifyOutcome::MissingUsername)
            } else if already_verified {
                BeginDecision::Refuse(VerifyOutcome::AlreadyVerified)
            } else {
                BeginDecision::Issue
            }
        },
    }
}

/// Transition out of challenge issuance: a pending record that could not be
/// persisted fails the attempt before the timer ever starts.
pub fn challenge_persisted(inserted: bool) -> (r: Option<VerifyOutcome>)
    ensures
        r == (if inserted {
            Option::<VerifyOutcome>::None
        } else {
            Some(VerifyOutcome::StoreAddFailed)
        }),
{
    if inserted {
        None
    } else {
        Some(VerifyOutcome::StoreAddFailed)
    }
}

/// Final transition of an accepted proof: the terminal outcome once the
/// store reported whether the record was marked verified.
pub fn finish_update(updated: bool) -> (r: VerifyOutcome)
    ensures
        r == (if updated {
            VerifyOutcome::Verified
        } else {
            VerifyOutcome::StoreUpdateFailed
        }),
{
    if updated {
        VerifyOutcome::Verified
    } else {
        VerifyOutcome::StoreUpdateFailed
    }
}

/// Outcome of the proof-comparison transition.
#[derive(Debug, PartialEq)]
pub enum ProofDecision {
    /// Motto matched: run conflict resolution, mark verified, grant.
    Accept,
    /// Stop with this terminal outcome; the pending record is untouched.
    Reject(VerifyOutcome),
}

/// Decide the proof stage from the re-fetched profile: transport failure and
/// upstream errors fail the attempt; otherwise the fetched motto must equal
/// the challenge code exactly, case-sensitively.
pub fn evaluate_proof(fetch: &Result<Profile, FetchError>, challenge: &String) -> (r:
    ProofDecision)
    ensures
        r == (match *fetch {
            Result::Err(FetchError::Transport) => ProofDecision::Reject(
                VerifyOutcome::FetchFailed,
            ),
            Result::Err(FetchError::Upstream(t)) => ProofDecision::Reject(
                VerifyOutcome::ProfileUnavailable(t),
            ),
            Result::Ok(p) => if p.motto@ == challenge@ {
                ProofDecision::Accept
            } else {
                ProofDecision::Reject(VerifyOutcome::MottoMismatch)
            },
        }),
{
    match fetch {
        Err(FetchError::Transport) => ProofDecision::Reject(VerifyOutcome::FetchFailed),
        Err(FetchError::Upstream(t)) => ProofDecision::Reject(
            VerifyOutcome::ProfileUnavailable(t.clone()),
        ),
        Ok(p) => {
            if p.motto == *challenge {
                ProofDecision::Accept
            } else {
                ProofDecision::Reject(VerifyOutcome::MottoMismatch)
            }
        },
    }
}

/// Result of starting an attempt against the store.
#[derive(Debug, PartialEq)]
pub enum StartResult {
    /// A pending record was persisted; announce this challenge code, wait
    /// [`WAIT_SECS`] seconds, then fetch the profile.
    Issued(String),
    /// Refused with a terminal outcome; the store was not touched.
    Refused(VerifyOutcome),
}

/// Start one attempt: gate it, then draw a fresh challenge code and persist
/// the pending claim.
pub fn start_verification(
    store: &mut Store,
    guard: GuardOutcome,
    user_id: &String,
    username: Option<&String>,
) -> (r: StartResult)
    ensures
        r is Refused ==> final(store)@ == old(store)@,
        guard == GuardOutcome::NotConfigured ==> r == StartResult::Refused(
            VerifyOutcome::NotConfigured,
        ),
        guard == GuardOutcome::RoleMissing ==> r == StartResult::Refused(
            VerifyOutcome::RoleMissing,
        ),
        guard == GuardOutcome::Pass && username is None ==> r == StartResult::Refused(
            VerifyOutcome::MissingUsername,
        ),
        guard == GuardOutcome::Pass && username is Some && (exists|k: int|
            0 <= k < old(store)@.len() && is_verified_claim(old(store)@[k], user_id@)) ==> r
            == StartResult::Refused(VerifyOutcome::AlreadyVerified),
        guard == GuardOutcome::Pass && username is Some && !(exists|k: int|
            0 <= k < old(store)@.len() && is_verified_claim(old(store)@[k], user_id@)) ==> {
            &&& r is Issued
            &&& is_challenge_code(r->Issued_0@)
            &&& final(store)@ == old(store)@.push(
                Record { id: user_id@, habbo: username->0@, verified: false },
            )
        },
{
    let has_username = match username {
        Some(_) => true,
        None => false,
    };
    let already = store.is_verified(user_id);
    match begin_verification(guard, has_username, already) {
        BeginDecision::Refuse(outcome) => StartResult::Refused(outcome),
        BeginDecision::Issue => {
            let code = generate_challenge();
            // begin_verification issues only when a username is present.
            let habbo = match username {
                Some(h) => h,
                None => {
                    return StartResult::Refused(VerifyOutcome::MissingUsername);
                },
            };
            store.insert_pending(user_id, habbo);
            StartResult::Issued(code)
        },
    }
}

/// What the proof stage decided: the terminal outcome and the role
/// synchronization to fire.
#[derive(Debug, PartialEq)]
pub struct ProofStepResult {
    /// Terminal outcome reported to the user.
    pub outcome: VerifyOutcome,
    /// Owners of evicted competing claims; revoke their role, best-effort.
    pub revoke: Vec<String>,
    /// Whether the requester earned the verified role.
    pub grant: bool,
}

/// The store the successful claimant leaves behind: competing claims to
/// `habbo` evicted, the first `(user_id, habbo)` record marked verified.
pub open spec fn marked_first(
    old_s: Seq<Record>,
    new_s: Seq<Record>,
    id: Seq<char>,
    habbo: Seq<char>,
) -> bool {
    exists|k: int|
        {
            &&& 0 <= k < old_s.len()
            &&& claim_pair(old_s[k], id, habbo)
            &&& (forall|m: int| 0 <= m < k ==> !claim_pair(old_s[m], id, habbo))
            &&& new_s == old_s.update(k, Record { verified: true, ..old_s[k] })
        }
}

/// Finish an attempt once the profile was re-fetched: compare the motto,
/// and on a match evict competing claims, mark the requester's record
/// verified and request the role mutations. On any failure the store is left
/// exactly as it was.
pub fn process_proof(
    store: &mut Store,
    user_id: &String,
    habbo: &String,
    challenge: &String,
    fetch: &Result<Profile, FetchError>,
) -> (r: ProofStepResult)
    ensures
        match *fetch {
            Result::Err(FetchError::Transport) => {
                &&& final(store)@ == old(store)@
                &&& r.outcome == VerifyOutcome::FetchFailed
                &&& r.revoke@.len() == 0
                &&& !r.grant
            },
            Result::Err(FetchError::Upstream(t)) => {
                &&& final(store)@ == old(store)@
                &&& r.outcome == VerifyOutcome::ProfileUnavailable(t)
                &&& r.revoke@.len() == 0
                &&& !r.grant
            },
            Result::Ok(p) => if p.motto@ != challenge@ {
                &&& final(store)@ == old(store)@
                &&& r.outcome == VerifyOutcome::MottoMismatch
                &&& r.revoke@.len() == 0
                &&& !r.grant
            } else {
                &&& r.revoke.deep_view() == claimant_ids(old(store)@, habbo@, user_id@)
                &&& if exists|k: int|
                    0 <= k < without_claimants(old(store)@, habbo@, user_id@).len() && claim_pair(
                        without_claimants(old(store)@, habbo@, user_id@)[k],
                        user_id@,
                        habbo@,
                    ) {
                    &&& marked_first(
                        without_claimants(old(store)@, habbo@, user_id@),
                        final(store)@,
                        user_id@,
                        habbo@,
                    )
                    &&& r.outcome == VerifyOutcome::Verified
                    &&& r.grant
                } else {
                    &&& final(store)@ == without_claimants(old(store)@, habbo@, user_id@)
                    &&& r.outcome == VerifyOutcome::StoreUpdateFailed
                    &&& !r.grant
                }
            },
        },
{
    match evaluate_proof(fetch, challenge) {
        ProofDecision::Reject(outcome) => ProofStepResult {
            outcome,
            revoke: Vec::new(),
            grant: false,
        },
        ProofDecision::Accept => {
            let revoke = store.other_claimants(habbo, user_id);
            store.delete_claimants(habbo, user_id);
            let updated = store.mark_verified(user_id, habbo);
            ProofStepResult { outcome: finish_update(updated), revoke, grant: updated }
        },
    }
}

/// After conflict resolution for `(user_id, habbo)`, every record still
/// referencing `habbo` belongs to `user_id`: once one claim to an external
/// name succeeds, no competing claim survives.
pub proof fn lemma_exclusive_claim(s: Seq<Record>, habbo: Seq<char>, user_id: Seq<char>)
    ensures
        forall|i: int|
            0 <= i < without_claimants(s, habbo, user_id).len() ==> ((#[trigger] without_claimants(
                s,
                habbo,
                user_id,
            )[i]).habbo == habbo ==> without_claimants(s, habbo, user_id)[i].id == user_id),
{
    let pred = |rec: Record| !crate::store::claims_name(rec, habbo, user_id);
    assert forall|i: int| 0 <= i < s.filter(pred).len() implies !crate::store::claims_name(
        #[trigger] s.filter(pred)[i],
        habbo,
        user_id,
    ) by {
        s.lemma_filter_pred(pred, i);
    }
}

/// After a successful proof for `(user_id, habbo)` — conflict resolution
/// followed by marking the first matching record — the store holds no record
/// of any other user referencing `habbo`: exactly one user owns an external
/// name at a time.
pub proof fn lemma_single_owner_after_proof(
    s: Seq<Record>,
    new_s: Seq<Record>,
    habbo: Seq<char>,
    user_id: Seq<char>,
)
    requires
        marked_first(without_claimants(s, habbo, user_id), new_s, user_id, habbo),
    ensures
        forall|i: int|
            0 <= i < new_s.len() ==> ((#[trigger] new_s[i]).habbo == habbo ==> new_s[i].id
                == user_id),
{
    lemma_exclusive_claim(s, habbo, user_id);
    let cleaned = without_claimants(s, habbo, user_id);
    let k = choose|k: int|
        {
            &&& 0 <= k < cleaned.len()
            &&& claim_pair(cleaned[k], user_id, habbo)
            &&& (forall|m: int| 0 <= m < k ==> !claim_pair(cleaned[m], user_id, habbo))
            &&& new_s == cleaned.update(k, Record { verified: true, ..cleaned[k] })
        };
    assert forall|i: int|
        0 <= i < new_s.len() && (#[trigger] new_s[i]).habbo == habbo implies new_s[i].id
        == user_id by {
        if i != k {
            assert(new_s[i] == cleaned[i]);
        }
    }
}

/// Outcome of `/reset`.
#[derive(Debug, PartialEq)]
pub enum ResetOutcome {
    /// Guard: no verified role configured; nothing was deleted.
    NotConfigured,
    /// Everything the caller owned was deleted; revoke the role best-effort.
    Done,
}

/// `/reset`: delete every record the caller owns and revoke the role,
/// whatever the records' verification state. The function takes no
/// role-mutation result, so the reported outcome cannot depend on whether
/// the best-effort revoke later succeeds.
pub fn reset(store: &mut Store, role_id: u64, user_id: &String) -> (r: ResetOutcome)
    ensures
        !role_configured(role_id) ==> (r == ResetOutcome::NotConfigured && final(store)@ == old(
            store,
        )@),
        role_configured(role_id) ==> (r == ResetOutcome::Done && final(store)@ == without_user(
            old(store)@,
            user_id@,
        )),
{
    if role_id < crate::guard::LOWEST_ID {
        return ResetOutcome::NotConfigured;
    }
    store.delete_user(user_id);
    ResetOutcome::Done
}

/// Outcome of `/check`.
#[derive(Debug, PartialEq)]
pub enum CheckOutcome {
    /// The user argument was absent or invalid.
    MissingUser,
    /// The target is verified as this external name.
    VerifiedAs(String),
    /// The target holds no verified record.
    NotVerified,
}

/// `/check`'s decision from the store lookup: what to report given the
/// target's verified record, if one was found.
pub fn check_outcome(target_present: bool, record: Option<&VerifiedUser>) -> (r: CheckOutcome)
    ensures
        r == (if !target_present {
            CheckOutcome::MissingUser
        } else {
            match record {
                Option::Some(u) => CheckOutcome::VerifiedAs(u.habbo),
                Option::None => CheckOutcome::NotVerified,
            }
        }),
{
    if !target_present {
        return CheckOutcome::MissingUser;
    }
    match record {
        Some(u) => CheckOutcome::VerifiedAs(u.habbo.clone()),
        None => CheckOutcome::NotVerified,
    }
}

/// `/check`: report whether the target user is verified, and as whom.
pub fn check_user(store: &Store, target: Option<&String>) -> (r: CheckOutcome)
    ensures
        target is None ==> r == CheckOutcome::MissingUser,
        target is Some ==> match r {
            CheckOutcome::MissingUser => false,
            CheckOutcome::VerifiedAs(h) => exists|k: int|
                0 <= k < store@.len() && is_verified_claim(#[trigger] store@[k], target->0@)
                    && store@[k].habbo == h@,
            CheckOutcome::NotVerified => forall|k: int|
                0 <= k < store@.len() ==> !is_verified_claim(#[trigger] store@[k], target->0@),
        },
{
    match target {
        None => check_outcome(false, None),
        Some(t) => check_outcome(true, store.find_verified(t)),
    }
}

/// Outcome of `/init`.
#[derive(Debug, PartialEq)]
pub enum InitOutcome {
    /// The role argument was absent.
    MissingRole,
    /// The caller lacks administrator permission.
    NotAllowed,
    /// A verified role is already configured.
    AlreadyInitialized,
    /// The argument was not a role.
    InvalidRole,
    /// Configure this role id and persist the settings.
    RoleSet(u64),
}

/// `/init`: decide whether the bot may be initialized with the offered role.
pub fn init_decide(
    has_option: bool,
    is_admin: bool,
    current_role_id: u64,
    role_arg: Option<u64>,
) -> (r: InitOutcome)
    ensures
        r == (if !has_option {
            InitOutcome::MissingRole
        } else if !is_admin {
            InitOutcome::NotAllowed
        } else if role_configured(current_role_id) {
            InitOutcome::AlreadyInitialized
        } else {
            match role_arg {
                Option::None => InitOutcome::InvalidRole,
                Option::Some(id) => InitOutcome::RoleSet(id),
            }
        }),
{
    if !has_option {
        InitOutcome::MissingRole
    } else if !is_admin {
        InitOutcome::NotAllowed
    } else if current_role_id >= crate::guard::LOWEST_ID {
        InitOutcome::AlreadyInitialized
    } else {
        match role_arg {
            None => InitOutcome::InvalidRole,
            Some(id) => InitOutcome::RoleSet(id),
        }
    }
}

/// The commands the bot serves.
#[derive(Debug, PartialEq, Clone, Copy)]
pub enum Command {
    Init,
    Verify,
    Check,
    Reset,
    Info,
}

/// Which command an inbound interaction name selects.
pub open spec fn spec_route(name: Seq<char>) -> Option<Command> {
    if name == "init"@ {
        Some(Command::Init)
    } else if name == "verify"@ {
        Some(Command::Verify)
    } else if name == "check"@ {
        Some(Command::Check)
    } else if name == "reset"@ {
        Some(Command::Reset)
    } else if name == "info"@ {
        Some(Command::Info)
    } else {
        None
    }
}

/// The platform event handler's decision core: routing inbound interactions
/// to commands. The platform plumbing around it lives with the embedding
/// process.
pub struct Handler;

impl Handler {
    /// Route one inbound command name.
    pub fn route(name: &String) -> (r: Option<Command>)
        ensures
            r == spec_route(name@),
    {
        if *name == "init".to_owned() {
            Some(Command::Init)
        } else if *name == "verify".to_owned() {
            Some(Command::Verify)
        } else if *name == "check".to_owned() {
            Some(Command::Check)
        } else if *name == "reset".to_owned() {
            Some(Command::Reset)
        } else if *name == "info".to_owned() {
            Some(Command::Info)
        } else {
            None
        }
    }
}

} // verus!
