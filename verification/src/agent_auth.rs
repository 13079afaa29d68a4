//! Agent-backed authentication: try the agent's identities in order
//! until the session reports itself authenticated.
//!
//! The composite operation connects to the local agent, lists its
//! identities and drives one userauth attempt per identity. Everything
//! the bridge decides along the way is a function of what it observed of
//! each attempt, captured here as [`AgentAttempt`] values.

use vstd::prelude::*;

use crate::error::Error;

verus! {

/// The observable outcome of trying one agent identity: whether the
/// driven userauth call surfaced success, and whether the session then
/// reported itself authenticated.
#[derive(Clone, Copy, Debug, PartialEq, Eq, Structural)]
pub struct AgentAttempt {
    pub userauth_ok: bool,
    pub authenticated: bool,
}

/// An attempt settles the composite operation only when the userauth
/// call succeeded *and* the session confirms it is authenticated.
pub open spec fn attempt_succeeds(a: AgentAttempt) -> bool {
    a.userauth_ok && a.authenticated
}

/// The bridge-detected failure for an agent that offered no identity.
pub open spec fn is_no_identities_error(e: Error) -> bool {
    e matches Error::Other(m) && m@ == "no identities found in the ssh agent"@
}

/// The bridge-detected failure after every identity was tried in vain.
pub open spec fn is_all_identities_failed_error(e: Error) -> bool {
    e matches Error::Other(m) && m@ == "all identities cannot authenticated"@
}

pub fn no_identities_error() -> (e: Error)
    ensures
        is_no_identities_error(e),
{
    Error::Other("no identities found in the ssh agent".to_owned())
}

pub fn all_identities_failed_error() -> (e: Error)
    ensures
        is_all_identities_failed_error(e),
{
    Error::Other("all identities cannot authenticated".to_owned())
}

/// Everything [`userauth_agent_select`] promises: no identity means the
/// no-identities failure; otherwise the first attempt that both
/// succeeded and authenticated is chosen; if there is none, the
/// all-identities-failed failure — distinguishable from any transport
/// failure — is returned.
pub open spec fn userauth_agent_select_post(
    attempts: Seq<AgentAttempt>,
    r: Result<usize, Error>,
) -> bool {
    if attempts.len() == 0 {
        r matches Err(e) && is_no_identities_error(e)
    } else if exists|i: int| 0 <= i < attempts.len() && attempt_succeeds(#[trigger] attempts[i]) {
        r matches Ok(k) && 0 <= k < attempts.len() && attempt_succeeds(attempts[k as int]) && (
        forall|j: int| 0 <= j < k ==> !attempt_succeeds(#[trigger] attempts[j]))
    } else {
        r matches Err(e) && is_all_identities_failed_error(e)
    }
}

/// Decides the composite agent operation from the recorded per-identity
/// outcomes, in trial order: the index of the first identity for which
/// the session authenticated, or the exact bridge failure otherwise.
pub fn userauth_agent_select(attempts: &Vec<AgentAttempt>) -> (r: Result<usize, Error>)
    ensures
        userauth_agent_select_post(attempts@, r),
{
    let n = attempts.len();
    if n == 0 {
        return Err(no_identities_error());
    }
    let mut i: usize = 0;
    while i < n
        invariant
            n == attempts@.len(),
            i <= n,
            forall|j: int| 0 <= j < i ==> !attempt_succeeds(#[trigger] attempts@[j]),
        decreases n - i,
    {
        let a = attempts[i];
        if a.userauth_ok && a.authenticated {
            assert(attempt_succeeds(attempts@[i as int]));
            return Ok(i);
        }
        i = i + 1;
    }
    Err(all_identities_failed_error())
}

/// Decides the single-identity agent operation, which only ever tries
/// the first identity the agent offers: with no identity it is the
/// no-identities failure, otherwise index 0 is tried.
pub fn userauth_agent_first_identity(identity_count: usize) -> (r: Result<usize, Error>)
    ensures
        identity_count == 0 ==> (r matches Err(e) && is_no_identities_error(e)),
        identity_count > 0 ==> r == Ok::<usize, Error>(0),
{
    if identity_count == 0 {
        Err(no_identities_error())
    } else {
        Ok(0)
    }
}

/// Law: over identities where exactly the last attempt authenticates,
/// the composite operation succeeds, picks that attempt, and the
/// session is authenticated at that point.
pub proof fn lemma_try_next_last_identity_succeeds(
    attempts: Seq<AgentAttempt>,
    r: Result<usize, Error>,
)
    requires
        userauth_agent_select_post(attempts, r),
        attempts.len() > 0,
        attempt_succeeds(attempts[attempts.len() - 1]),
        forall|j: int| 0 <= j < attempts.len() - 1 ==> !attempt_succeeds(#[trigger] attempts[j]),
    ensures
        r matches Ok(k) && k == attempts.len() - 1 && attempts[k as int].authenticated,
{
    assert(attempt_succeeds(attempts[attempts.len() - 1]));
    match r {
        Ok(k) => {
            if (k as int) < attempts.len() - 1 {
                assert(!attempt_succeeds(attempts[k as int]));
            }
        },
        Err(_) => {},
    }
}

/// Law: over identities where no attempt authenticates, the composite
/// operation fails with the bridge's own all-identities-failed error —
/// and the session never reported itself authenticated.
pub proof fn lemma_try_next_no_identity_succeeds(
    attempts: Seq<AgentAttempt>,
    r: Result<usize, Error>,
)
    requires
        userauth_agent_select_post(attempts, r),
        attempts.len() > 0,
        forall|j: int| 0 <= j < attempts.len() ==> !attempt_succeeds(#[trigger] attempts[j]),
    ensures
        r matches Err(e) && is_all_identities_failed_error(e),
{
}

} // verus!
