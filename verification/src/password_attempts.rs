//! Throttling of password attempts. Each account's stored credential counts
//! failed attempts; reaching the policy's maximum blocks further attempts
//! for the lockout period, after which counting starts again.
use vstd::prelude::*;

verus! {

#[derive(Debug)]
pub enum SqlitePasswordCredentialRepositoryError {
    InvalidPasswordHash,
    InvalidTimestamp { field: &'static str, value: i64 },
    TimestampOutsideSqliteRange { field: &'static str, value: u64 },
    InvalidFailedAttemptCount(i64),
    AttemptCounterOverflow,
    LockoutTimestampOverflow,
    CredentialMissing,
    LockPoisoned,
}

/// How many attempts an account gets before it is blocked, and for how
/// many seconds.
#[derive(Debug, Clone, Copy, PartialEq, Eq, Structural)]
pub struct PasswordAttemptPolicy {
    pub maximum_attempts: u32,
    pub lockout_seconds: u64,
}

/// What an attempt at a password may do, and what is stored for it.
#[derive(Debug, Clone, Copy, PartialEq, Eq, Structural)]
pub enum AttemptDecision {
    /// The account is blocked until `retry_at`; nothing is stored.
    Throttled { retry_at: u64 },
    /// The attempt may check the password; the stored counter and block
    /// become these.
    Allowed { failed_attempts: u32, blocked_until: Option<u64> },
}

/// The attempts counted before this one: none after a block, else the
/// stored count.
pub open spec fn previous_attempts(failed_attempts: u32, blocked_until: Option<u64>) -> int {
    if blocked_until is Some {
        0
    } else {
        failed_attempts as int
    }
}

/// The decision for an attempt at `attempted_at` on a credential with the
/// stored counter and block, or `None` when a counter or time overflows.
pub open spec fn attempt_decision(
    failed_attempts: u32,
    blocked_until: Option<u64>,
    attempted_at: u64,
    policy: PasswordAttemptPolicy,
) -> Option<AttemptDecision> {
    if blocked_until matches Some(retry_at) && retry_at > attempted_at {
        Some(AttemptDecision::Throttled { retry_at: blocked_until->Some_0 })
    } else {
        let attempts = previous_attempts(failed_attempts, blocked_until) + 1;
        if attempts > u32::MAX {
            None
        } else if attempts >= policy.maximum_attempts {
            if attempted_at + policy.lockout_seconds > u64::MAX {
                None
            } else {
                Some(
                    AttemptDecision::Allowed {
                        failed_attempts: attempts as u32,
                        blocked_until: Some((attempted_at + policy.lockout_seconds) as u64),
                    },
                )
            }
        } else {
            Some(AttemptDecision::Allowed { failed_attempts: attempts as u32, blocked_until: None })
        }
    }
}

/// A stored time read back: it must not be negative.
pub fn read_timestamp(field: &'static str, value: i64) -> (r: Result<u64, SqlitePasswordCredentialRepositoryError>)
    ensures
        value >= 0 ==> r == Ok::<u64, SqlitePasswordCredentialRepositoryError>(value as u64),
        value < 0 ==> (r matches Err(
            SqlitePasswordCredentialRepositoryError::InvalidTimestamp { field: f, value: v },
        ) && f == field && v == value),
{
    if value >= 0 {
        Ok(value as u64)
    } else {
        Err(SqlitePasswordCredentialRepositoryError::InvalidTimestamp { field, value })
    }
}

/// A time as SQLite stores it.
pub fn write_timestamp(field: &'static str, value: u64) -> (r: Result<i64, SqlitePasswordCredentialRepositoryError>)
    ensures
        value <= i64::MAX ==> r == Ok::<i64, SqlitePasswordCredentialRepositoryError>(value as i64),
        value > i64::MAX ==> (r matches Err(
            SqlitePasswordCredentialRepositoryError::TimestampOutsideSqliteRange { field: f, value: v },
        ) && f == field && v == value),
{
    if value <= 0x7fff_ffff_ffff_ffffu64 {
        Ok(value as i64)
    } else {
        Err(SqlitePasswordCredentialRepositoryError::TimestampOutsideSqliteRange { field, value })
    }
}

/// The stored blocking time as a time, where it is not negative.
pub open spec fn blocked_time(blocked_until: Option<i64>) -> Option<u64> {
    match blocked_until {
        Some(b) => Some(b as u64),
        None => None,
    }
}

/// What the stored counter and block decide for an attempt at
/// `attempted_at`, or the error that reading, advancing or storing them
/// gives: a new block that SQLite cannot hold is refused.
pub open spec fn attempt_result(
    stored_failed_attempts: i64,
    stored_blocked_until: Option<i64>,
    attempted_at: u64,
    policy: PasswordAttemptPolicy,
) -> Result<AttemptDecision, SqlitePasswordCredentialRepositoryError> {
    if !(0 <= stored_failed_attempts <= u32::MAX) {
        Err(SqlitePasswordCredentialRepositoryError::InvalidFailedAttemptCount(stored_failed_attempts))
    } else if stored_blocked_until matches Some(b) && b < 0 {
        Err(
            SqlitePasswordCredentialRepositoryError::InvalidTimestamp {
                field: "blocked_until",
                value: stored_blocked_until->Some_0,
            },
        )
    } else {
        match attempt_decision(
            stored_failed_attempts as u32,
            blocked_time(stored_blocked_until),
            attempted_at,
            policy,
        ) {
            Some(decision) => match decision {
                AttemptDecision::Allowed { blocked_until: Some(until), .. } => if until
                    > i64::MAX {
                    Err(
                        SqlitePasswordCredentialRepositoryError::TimestampOutsideSqliteRange {
                            field: "blocked_until",
                            value: until,
                        },
                    )
                } else {
                    Ok(decision)
                },
                _ => Ok(decision),
            },
            None => if previous_attempts(
                stored_failed_attempts as u32,
                blocked_time(stored_blocked_until),
            ) + 1 > u32::MAX {
                Err(SqlitePasswordCredentialRepositoryError::AttemptCounterOverflow)
            } else {
                Err(SqlitePasswordCredentialRepositoryError::LockoutTimestampOverflow)
            },
        }
    }
}

/// Decides an attempt from the stored counter and block: a block still in
/// force throttles it; otherwise the attempt counts, starting again from
/// zero once a block has passed, and the count reaching the maximum blocks
/// the account for the lockout period from now.
pub fn decide_attempt(
    stored_failed_attempts: i64,
    stored_blocked_until: Option<i64>,
    attempted_at: u64,
    policy: PasswordAttemptPolicy,
) -> (r: Result<AttemptDecision, SqlitePasswordCredentialRepositoryError>)
    ensures
        r == attempt_result(stored_failed_attempts, stored_blocked_until, attempted_at, policy),
{
    if stored_failed_attempts < 0 || stored_failed_attempts > 0xffff_ffffi64 {
        return Err(SqlitePasswordCredentialRepositoryError::InvalidFailedAttemptCount(stored_failed_attempts));
    }
    let failed_attempts = stored_failed_attempts as u32;
    let blocked_until = match stored_blocked_until {
        Some(value) => match read_timestamp("blocked_until", value) {
            Ok(t) => Some(t),
            Err(e) => return Err(e),
        },
        None => None,
    };
    if let Some(retry_at) = blocked_until {
        if retry_at > attempted_at {
            return Ok(AttemptDecision::Throttled { retry_at });
        }
    }
    let previous = if blocked_until.is_some() {
        0
    } else {
        failed_attempts
    };
    if previous == u32::MAX {
        return Err(SqlitePasswordCredentialRepositoryError::AttemptCounterOverflow);
    }
    let attempts = previous + 1;
    let next_blocked_until = if attempts >= policy.maximum_attempts {
        match attempted_at.checked_add(policy.lockout_seconds) {
            Some(until) => match write_timestamp("blocked_until", until) {
                Ok(_) => Some(until),
                Err(e) => return Err(e),
            },
            None => return Err(SqlitePasswordCredentialRepositoryError::LockoutTimestampOverflow),
        }
    } else {
        None
    };
    Ok(AttemptDecision::Allowed { failed_attempts: attempts, blocked_until: next_blocked_until })
}

/// A password credential as it is stored: the hash, when it was set, the
/// failed attempts counted and the time until which it is blocked.
#[derive(Debug, Clone)]
pub struct StoredPasswordCredential {
    pub password_hash: String,
    pub changed_at: i64,
    pub failed_attempts: i64,
    pub blocked_until: Option<i64>,
}

/// What an attempt at a password may do: there is no credential, the
/// account is blocked, or the credential may be checked, with the counter
/// and block now stored for it.
#[derive(Debug, Clone, PartialEq, Eq)]
pub enum PasswordAttempt {
    MissingCredential,
    Throttled { retry_at: u64 },
    Allowed { password_hash: String, changed_at: u64, failed_attempts: u32, blocked_until: Option<u64> },
}

/// Begins an attempt on the stored credential of a user. A user without a
/// credential is `MissingCredential`. A stored hash that does not parse as
/// a password hash (`password_hash_parses`, the answer of the password
/// hashing library) and a negative change time are refused, in that order;
/// then the counter and block decide.
pub fn begin_attempt(
    stored: Option<StoredPasswordCredential>,
    password_hash_parses: bool,
    attempted_at: u64,
    policy: PasswordAttemptPolicy,
) -> (r: Result<PasswordAttempt, SqlitePasswordCredentialRepositoryError>)
    ensures
        stored is None ==> r matches Ok(PasswordAttempt::MissingCredential),
        stored is Some && !password_hash_parses ==> r matches Err(
            SqlitePasswordCredentialRepositoryError::InvalidPasswordHash,
        ),
        stored is Some && password_hash_parses && stored->Some_0.changed_at < 0 ==> (r matches Err(
            SqlitePasswordCredentialRepositoryError::InvalidTimestamp { field, value },
        ) && field == "changed_at" && value == stored->Some_0.changed_at),
        stored is Some && password_hash_parses && stored->Some_0.changed_at >= 0 ==> match attempt_result(
            stored->Some_0.failed_attempts,
            stored->Some_0.blocked_until,
            attempted_at,
            policy,
        ) {
            Err(e) => r == Err::<PasswordAttempt, SqlitePasswordCredentialRepositoryError>(e),
            Ok(AttemptDecision::Throttled { retry_at }) => r == Ok::<
                PasswordAttempt,
                SqlitePasswordCredentialRepositoryError,
            >(PasswordAttempt::Throttled { retry_at }),
            Ok(AttemptDecision::Allowed { failed_attempts, blocked_until }) => r matches Ok(
                PasswordAttempt::Allowed {
                    password_hash: h,
                    changed_at: t,
                    failed_attempts: n,
                    blocked_until: b,
                },
            ) && h@ == stored->Some_0.password_hash@ && t == stored->Some_0.changed_at && n == failed_attempts && b
                == blocked_until,
        },
{
    let credential = match stored {
        Some(credential) => credential,
        None => return Ok(PasswordAttempt::MissingCredential),
    };
    if !password_hash_parses {
        return Err(SqlitePasswordCredentialRepositoryError::InvalidPasswordHash);
    }
    let changed_at = match read_timestamp("changed_at", credential.changed_at) {
        Ok(t) => t,
        Err(e) => return Err(e),
    };
    match decide_attempt(credential.failed_attempts, credential.blocked_until, attempted_at, policy) {
        Err(e) => Err(e),
        Ok(AttemptDecision::Throttled { retry_at }) => Ok(PasswordAttempt::Throttled { retry_at }),
        Ok(AttemptDecision::Allowed { failed_attempts, blocked_until }) => Ok(
            PasswordAttempt::Allowed {
                password_hash: credential.password_hash,
                changed_at,
                failed_attempts,
                blocked_until,
            },
        ),
    }
}

/// The lockout a policy promises: attempts on an unblocked account count up
/// one at a time, the attempt that reaches the maximum blocks the account
/// for the lockout period, an attempt during a block is throttled until it
/// ends and changes nothing, and the first attempt after a block counts as
/// the first again.
pub proof fn lemma_lockout(
    failed_attempts: u32,
    blocked_until: u64,
    attempted_at: u64,
    policy: PasswordAttemptPolicy,
)
    requires
        failed_attempts < u32::MAX,
        attempted_at + policy.lockout_seconds <= u64::MAX,
    ensures
        failed_attempts + 1 < policy.maximum_attempts ==> attempt_decision(
            failed_attempts,
            None,
            attempted_at,
            policy,
        ) == Some(AttemptDecision::Allowed { failed_attempts: (failed_attempts + 1) as u32, blocked_until: None }),
        failed_attempts + 1 >= policy.maximum_attempts ==> attempt_decision(
            failed_attempts,
            None,
            attempted_at,
            policy,
        ) == Some(
            AttemptDecision::Allowed {
                failed_attempts: (failed_attempts + 1) as u32,
                blocked_until: Some((attempted_at + policy.lockout_seconds) as u64),
            },
        ),
        blocked_until > attempted_at ==> attempt_decision(
            failed_attempts,
            Some(blocked_until),
            attempted_at,
            policy,
        ) == Some(AttemptDecision::Throttled { retry_at: blocked_until }),
        blocked_until <= attempted_at && 1 < policy.maximum_attempts ==> attempt_decision(
            failed_attempts,
            Some(blocked_until),
            attempted_at,
            policy,
        ) == Some(AttemptDecision::Allowed { failed_attempts: 1, blocked_until: None }),
{
}

/// The stored counter and block after a decision: a throttled attempt
/// leaves them as they were.
pub open spec fn stored_after(stored: (u32, Option<u64>), decision: Option<AttemptDecision>) -> (
    u32,
    Option<u64>,
) {
    match decision {
        Some(AttemptDecision::Allowed { failed_attempts, blocked_until }) => (
            failed_attempts,
            blocked_until,
        ),
        _ => stored,
    }
}

/// What is stored after attempts at these times on a fresh credential, each
/// attempt decided on what the previous ones stored.
pub open spec fn stored_after_attempts(times: Seq<u64>, policy: PasswordAttemptPolicy) -> (
    u32,
    Option<u64>,
)
    decreases times.len(),
{
    if times.len() == 0 {
        (0, None)
    } else {
        let before = stored_after_attempts(times.drop_last(), policy);
        stored_after(before, attempt_decision(before.0, before.1, times.last(), policy))
    }
}

/// The lockout across attempts: on a fresh credential every attempt up to
/// the policy's maximum is allowed and counted; the attempt that reaches the
/// maximum blocks the account until its time plus the lockout period. An
/// attempt before that end is throttled with that retry time and changes
/// nothing stored; the first attempt from that end on is allowed and counts
/// as the first again.
pub proof fn lemma_lockout_across_attempts(
    times: Seq<u64>,
    later: u64,
    policy: PasswordAttemptPolicy,
)
    requires
        0 < times.len() <= policy.maximum_attempts,
        policy.maximum_attempts < u32::MAX,
        forall|i: int| 0 <= i < times.len() ==> #[trigger] times[i] + policy.lockout_seconds <= u64::MAX,
    ensures
        forall|k: int|
            0 < k <= times.len() ==> #[trigger] attempt_decision(
                stored_after_attempts(times.take(k - 1), policy).0,
                stored_after_attempts(times.take(k - 1), policy).1,
                times[k - 1],
                policy,
            ) is Some,
        times.len() < policy.maximum_attempts ==> stored_after_attempts(times, policy) == (
            times.len() as u32,
            None::<u64>,
        ),
        times.len() == policy.maximum_attempts ==> ({
            let blocked = (times.last() + policy.lockout_seconds) as u64;
            &&& stored_after_attempts(times, policy) == (policy.maximum_attempts, Some(blocked))
            &&& later < blocked ==> attempt_decision(
                policy.maximum_attempts,
                Some(blocked),
                later,
                policy,
            ) == Some(AttemptDecision::Throttled { retry_at: blocked })
            &&& later < blocked ==> stored_after(
                (policy.maximum_attempts, Some(blocked)),
                attempt_decision(policy.maximum_attempts, Some(blocked), later, policy),
            ) == (policy.maximum_attempts, Some(blocked))
            &&& later >= blocked && 1 < policy.maximum_attempts ==> attempt_decision(
                policy.maximum_attempts,
                Some(blocked),
                later,
                policy,
            ) == Some(AttemptDecision::Allowed { failed_attempts: 1, blocked_until: None })
        }),
    decreases times.len(),
{
    let n = times.len();
    let prefix = times.drop_last();
    if n > 1 {
        lemma_lockout_across_attempts(prefix, later, policy);
    }
    assert(prefix.len() == 0 ==> stored_after_attempts(prefix, policy) == (0u32, None::<u64>));
    assert(stored_after_attempts(prefix, policy) == ((n - 1) as u32, None::<u64>));
    assert(times.last() == times[n - 1]);
    assert forall|k: int| 0 < k <= times.len() implies #[trigger] attempt_decision(
        stored_after_attempts(times.take(k - 1), policy).0,
        stored_after_attempts(times.take(k - 1), policy).1,
        times[k - 1],
        policy,
    ) is Some by {
        if k < n {
            assert(times.take(k - 1) =~= prefix.take(k - 1));
            assert(times[k - 1] == prefix[k - 1]);
        } else {
            assert(times.take(k - 1) =~= prefix);
        }
    }
}

} // verus!
