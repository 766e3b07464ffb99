//! Browser sessions of local accounts: the times a new session is stored
//! with, and the time a revocation is recorded at.
use vstd::prelude::*;

verus! {

#[derive(Debug, Clone, Copy, PartialEq, Eq, Structural)]
pub enum BrowserSessionError {
    Storage,
    InvalidProof,
}

/// The stored authentication and expiry times of a new session: both must
/// fit SQLite's signed integers and the session must expire after it was
/// authenticated.
pub fn session_window(authenticated_at: u64, expires_at: u64) -> (r: Result<(i64, i64), BrowserSessionError>)
    ensures
        authenticated_at <= i64::MAX && expires_at <= i64::MAX && authenticated_at < expires_at ==> r
            == Ok::<(i64, i64), BrowserSessionError>((authenticated_at as i64, expires_at as i64)),
        !(authenticated_at <= i64::MAX && expires_at <= i64::MAX && authenticated_at < expires_at)
            ==> r == Err::<(i64, i64), _>(BrowserSessionError::InvalidProof),
{
    if authenticated_at > 0x7fff_ffff_ffff_ffffu64 || expires_at > 0x7fff_ffff_ffff_ffffu64 {
        return Err(BrowserSessionError::InvalidProof);
    }
    let at = authenticated_at as i64;
    let expiry = expires_at as i64;
    if expiry <= at {
        return Err(BrowserSessionError::InvalidProof);
    }
    Ok((at, expiry))
}

/// The stored time of a revocation.
pub fn revocation_time(now: u64) -> (r: Result<i64, BrowserSessionError>)
    ensures
        now <= i64::MAX ==> r == Ok::<i64, BrowserSessionError>(now as i64),
        now > i64::MAX ==> r == Err::<i64, _>(BrowserSessionError::Storage),
{
    if now > 0x7fff_ffff_ffff_ffffu64 {
        return Err(BrowserSessionError::Storage);
    }
    Ok(now as i64)
}

/// A revocation is recorded no earlier than the session began, so a clock
/// that runs behind never makes a session revoked before it existed.
pub fn recorded_revocation(revoked_at: i64, authenticated_at: i64) -> (r: i64)
    ensures
        r == if revoked_at >= authenticated_at {
            revoked_at
        } else {
            authenticated_at
        },
        r >= authenticated_at,
{
    if revoked_at >= authenticated_at {
        revoked_at
    } else {
        authenticated_at
    }
}

} // verus!
