//! How the app operation journal stores an operation: the names of its kind,
//! phase and step states as SQLite text, its counters as SQLite integers,
//! and the checks applied when a stored operation is read back.
use vstd::prelude::*;

use crate::docker_runtime_target::str_equals;
use crate::text::owned;

verus! {

#[derive(Debug, Clone, Copy, PartialEq, Eq, Structural)]
pub enum AppOperationKind {
    Install,
    Update,
    Uninstall,
}

#[derive(Debug, Clone, Copy, PartialEq, Eq, Structural)]
pub enum AppOperationPhase {
    Applying,
    Committed,
    Compensating,
    Compensated,
}

#[derive(Debug, Clone, Copy, PartialEq, Eq, Structural)]
pub enum AppOperationResource {
    AppDatabases,
    OidcClient,
    PlatformSnapshot,
}

#[derive(Debug, Clone, Copy, PartialEq, Eq, Structural)]
pub enum AppOperationResourceState {
    Pending,
    Applying,
    Applied,
    CompensationPending,
    Compensating,
    Compensated,
}

/// Why the journal refused to store or read an operation.
#[derive(Debug)]
pub enum SqliteAppOperationRepositoryError {
    LockPoisoned,
    AlreadyExists,
    InitialRevisionMustBeZero(u64),
    StaleTransition,
    ValueOutsideSqliteRange { field: &'static str, value: u64 },
    NegativeStoredValue { field: &'static str, value: i64 },
    InvalidKind(String),
    InvalidPhase(String),
    InvalidResource(String),
    InvalidResourceState(String),
    InvalidStepPosition { expected: usize, actual: i64 },
    InvalidTargetApp(String),
}

pub open spec fn kind_text(kind: AppOperationKind) -> Seq<char> {
    match kind {
        AppOperationKind::Install => "install"@,
        AppOperationKind::Update => "update"@,
        AppOperationKind::Uninstall => "uninstall"@,
    }
}

pub open spec fn phase_text(phase: AppOperationPhase) -> Seq<char> {
    match phase {
        AppOperationPhase::Applying => "applying"@,
        AppOperationPhase::Committed => "committed"@,
        AppOperationPhase::Compensating => "compensating"@,
        AppOperationPhase::Compensated => "compensated"@,
    }
}

pub open spec fn resource_text(resource: AppOperationResource) -> Seq<char> {
    match resource {
        AppOperationResource::AppDatabases => "app-databases"@,
        AppOperationResource::OidcClient => "oidc-client"@,
        AppOperationResource::PlatformSnapshot => "platform-snapshot"@,
    }
}

pub open spec fn resource_state_text(state: AppOperationResourceState) -> Seq<char> {
    match state {
        AppOperationResourceState::Pending => "pending"@,
        AppOperationResourceState::Applying => "applying"@,
        AppOperationResourceState::Applied => "applied"@,
        AppOperationResourceState::CompensationPending => "compensation-pending"@,
        AppOperationResourceState::Compensating => "compensating"@,
        AppOperationResourceState::Compensated => "compensated"@,
    }
}

/// The kind a stored name reads as.
pub open spec fn kind_of(value: Seq<char>) -> Option<AppOperationKind> {
    if value == "install"@ {
        Some(AppOperationKind::Install)
    } else if value == "update"@ {
        Some(AppOperationKind::Update)
    } else if value == "uninstall"@ {
        Some(AppOperationKind::Uninstall)
    } else {
        None
    }
}

/// The phase a stored name reads as.
pub open spec fn phase_of(value: Seq<char>) -> Option<AppOperationPhase> {
    if value == "applying"@ {
        Some(AppOperationPhase::Applying)
    } else if value == "committed"@ {
        Some(AppOperationPhase::Committed)
    } else if value == "compensating"@ {
        Some(AppOperationPhase::Compensating)
    } else if value == "compensated"@ {
        Some(AppOperationPhase::Compensated)
    } else {
        None
    }
}

/// The resource a stored name reads as.
pub open spec fn resource_of(value: Seq<char>) -> Option<AppOperationResource> {
    if value == "app-databases"@ {
        Some(AppOperationResource::AppDatabases)
    } else if value == "oidc-client"@ {
        Some(AppOperationResource::OidcClient)
    } else if value == "platform-snapshot"@ {
        Some(AppOperationResource::PlatformSnapshot)
    } else {
        None
    }
}

/// The step state a stored name reads as.
pub open spec fn resource_state_of(value: Seq<char>) -> Option<AppOperationResourceState> {
    if value == "pending"@ {
        Some(AppOperationResourceState::Pending)
    } else if value == "applying"@ {
        Some(AppOperationResourceState::Applying)
    } else if value == "applied"@ {
        Some(AppOperationResourceState::Applied)
    } else if value == "compensation-pending"@ {
        Some(AppOperationResourceState::CompensationPending)
    } else if value == "compensating"@ {
        Some(AppOperationResourceState::Compensating)
    } else if value == "compensated"@ {
        Some(AppOperationResourceState::Compensated)
    } else {
        None
    }
}

/// The stored name of an operation kind.
pub fn kind_name(kind: AppOperationKind) -> (r: &'static str)
    ensures
        r@ == kind_text(kind),
{
    match kind {
        AppOperationKind::Install => "install",
        AppOperationKind::Update => "update",
        AppOperationKind::Uninstall => "uninstall",
    }
}

/// Reads a stored operation kind.
pub fn parse_kind(value: &str) -> (r: Result<AppOperationKind, SqliteAppOperationRepositoryError>)
    ensures
        match kind_of(value@) {
            Some(kind) => r matches Ok(k) && k == kind,
            None => r matches Err(SqliteAppOperationRepositoryError::InvalidKind(text)) && text@
                == value@,
        },
{
    if str_equals(value, "install") {
        Ok(AppOperationKind::Install)
    } else if str_equals(value, "update") {
        Ok(AppOperationKind::Update)
    } else if str_equals(value, "uninstall") {
        Ok(AppOperationKind::Uninstall)
    } else {
        Err(SqliteAppOperationRepositoryError::InvalidKind(owned(value)))
    }
}

/// The stored name of an operation phase.
pub fn phase_name(phase: AppOperationPhase) -> (r: &'static str)
    ensures
        r@ == phase_text(phase),
{
    match phase {
        AppOperationPhase::Applying => "applying",
        AppOperationPhase::Committed => "committed",
        AppOperationPhase::Compensating => "compensating",
        AppOperationPhase::Compensated => "compensated",
    }
}

/// Reads a stored operation phase.
pub fn parse_phase(value: &str) -> (r: Result<AppOperationPhase, SqliteAppOperationRepositoryError>)
    ensures
        match phase_of(value@) {
            Some(phase) => r matches Ok(p) && p == phase,
            None => r matches Err(SqliteAppOperationRepositoryError::InvalidPhase(text)) && text@
                == value@,
        },
{
    if str_equals(value, "applying") {
        Ok(AppOperationPhase::Applying)
    } else if str_equals(value, "committed") {
        Ok(AppOperationPhase::Committed)
    } else if str_equals(value, "compensating") {
        Ok(AppOperationPhase::Compensating)
    } else if str_equals(value, "compensated") {
        Ok(AppOperationPhase::Compensated)
    } else {
        Err(SqliteAppOperationRepositoryError::InvalidPhase(owned(value)))
    }
}

/// The stored name of a step's resource.
pub fn resource_name(resource: AppOperationResource) -> (r: &'static str)
    ensures
        r@ == resource_text(resource),
{
    match resource {
        AppOperationResource::AppDatabases => "app-databases",
        AppOperationResource::OidcClient => "oidc-client",
        AppOperationResource::PlatformSnapshot => "platform-snapshot",
    }
}

/// Reads a stored step resource.
pub fn parse_resource(value: &str) -> (r: Result<AppOperationResource, SqliteAppOperationRepositoryError>)
    ensures
        match resource_of(value@) {
            Some(resource) => r matches Ok(x) && x == resource,
            None => r matches Err(SqliteAppOperationRepositoryError::InvalidResource(text)) && text@
                == value@,
        },
{
    if str_equals(value, "app-databases") {
        Ok(AppOperationResource::AppDatabases)
    } else if str_equals(value, "oidc-client") {
        Ok(AppOperationResource::OidcClient)
    } else if str_equals(value, "platform-snapshot") {
        Ok(AppOperationResource::PlatformSnapshot)
    } else {
        Err(SqliteAppOperationRepositoryError::InvalidResource(owned(value)))
    }
}

/// The stored name of a step's state.
pub fn resource_state_name(state: AppOperationResourceState) -> (r: &'static str)
    ensures
        r@ == resource_state_text(state),
{
    match state {
        AppOperationResourceState::Pending => "pending",
        AppOperationResourceState::Applying => "applying",
        AppOperationResourceState::Applied => "applied",
        AppOperationResourceState::CompensationPending => "compensation-pending",
        AppOperationResourceState::Compensating => "compensating",
        AppOperationResourceState::Compensated => "compensated",
    }
}

/// Reads a stored step state.
pub fn parse_resource_state(value: &str) -> (r: Result<
    AppOperationResourceState,
    SqliteAppOperationRepositoryError,
>)
    ensures
        match resource_state_of(value@) {
            Some(state) => r matches Ok(s) && s == state,
            None => r matches Err(SqliteAppOperationRepositoryError::InvalidResourceState(text))
                && text@ == value@,
        },
{
    if str_equals(value, "pending") {
        Ok(AppOperationResourceState::Pending)
    } else if str_equals(value, "applying") {
        Ok(AppOperationResourceState::Applying)
    } else if str_equals(value, "applied") {
        Ok(AppOperationResourceState::Applied)
    } else if str_equals(value, "compensation-pending") {
        Ok(AppOperationResourceState::CompensationPending)
    } else if str_equals(value, "compensating") {
        Ok(AppOperationResourceState::Compensating)
    } else if str_equals(value, "compensated") {
        Ok(AppOperationResourceState::Compensated)
    } else {
        Err(SqliteAppOperationRepositoryError::InvalidResourceState(owned(value)))
    }
}

/// The lengths of the stored names, which tell most of them apart.
proof fn lemma_name_lengths()
    ensures
        "install"@.len() == 7 && "update"@.len() == 6 && "uninstall"@.len() == 9,
        "applying"@.len() == 8 && "committed"@.len() == 9 && "compensating"@.len() == 12
            && "compensated"@.len() == 11,
        "app-databases"@.len() == 13 && "oidc-client"@.len() == 11 && "platform-snapshot"@.len()
            == 17,
        "pending"@.len() == 7 && "applied"@.len() == 7 && "compensation-pending"@.len() == 20,
        "pending"@[0] != "applied"@[0],
{
    reveal_strlit("install");
    reveal_strlit("update");
    reveal_strlit("uninstall");
    reveal_strlit("applying");
    reveal_strlit("committed");
    reveal_strlit("compensating");
    reveal_strlit("compensated");
    reveal_strlit("app-databases");
    reveal_strlit("oidc-client");
    reveal_strlit("platform-snapshot");
    reveal_strlit("pending");
    reveal_strlit("applied");
    reveal_strlit("compensation-pending");
}

/// Every stored name reads back as the value it was written for.
pub proof fn lemma_names_round_trip(
    kind: AppOperationKind,
    phase: AppOperationPhase,
    resource: AppOperationResource,
    state: AppOperationResourceState,
)
    ensures
        kind_of(kind_text(kind)) == Some(kind),
        phase_of(phase_text(phase)) == Some(phase),
        resource_of(resource_text(resource)) == Some(resource),
        resource_state_of(resource_state_text(state)) == Some(state),
{
    lemma_name_lengths();
}

/// Every name that reads as a value is the name written for it.
pub proof fn lemma_read_names_are_written_names(value: Seq<char>)
    ensures
        kind_of(value) matches Some(kind) ==> kind_text(kind) == value,
        phase_of(value) matches Some(phase) ==> phase_text(phase) == value,
        resource_of(value) matches Some(resource) ==> resource_text(resource) == value,
        resource_state_of(value) matches Some(state) ==> resource_state_text(state) == value,
{
}

/// A counter as SQLite stores it: a signed 64-bit integer.
pub fn to_sql_integer(field: &'static str, value: u64) -> (r: Result<i64, SqliteAppOperationRepositoryError>)
    ensures
        value <= i64::MAX ==> (r matches Ok(v) && v == value),
        value > i64::MAX ==> (r matches Err(
            SqliteAppOperationRepositoryError::ValueOutsideSqliteRange { field: f, value: v },
        ) && f == field && v == value),
{
    if value <= 0x7fff_ffff_ffff_ffffu64 {
        Ok(value as i64)
    } else {
        Err(SqliteAppOperationRepositoryError::ValueOutsideSqliteRange { field, value })
    }
}

/// A stored counter read back: it must not be negative.
pub fn from_sql_integer(field: &'static str, value: i64) -> (r: Result<u64, SqliteAppOperationRepositoryError>)
    ensures
        value >= 0 ==> (r matches Ok(v) && v == value),
        value < 0 ==> (r matches Err(
            SqliteAppOperationRepositoryError::NegativeStoredValue { field: f, value: v },
        ) && f == field && v == value),
{
    if value >= 0 {
        Ok(value as u64)
    } else {
        Err(SqliteAppOperationRepositoryError::NegativeStoredValue { field, value })
    }
}

/// A counter written and read back is unchanged.
pub proof fn lemma_sql_integer_round_trip(value: u64)
    requires
        value <= i64::MAX,
    ensures
        (value as i64) >= 0 && (value as i64) as u64 == value,
{
}

/// A new operation starts at revision zero.
pub fn check_initial_revision(revision: u64) -> (r: Result<(), SqliteAppOperationRepositoryError>)
    ensures
        revision == 0 ==> r is Ok,
        revision != 0 ==> (r matches Err(SqliteAppOperationRepositoryError::InitialRevisionMustBeZero(v))
            && v == revision),
{
    if revision != 0 {
        return Err(SqliteAppOperationRepositoryError::InitialRevisionMustBeZero(revision));
    }
    Ok(())
}

/// The stored revisions of a transition: the new one and the one it
/// replaces. A transition is one revision after the stored operation, so
/// revision zero cannot be one.
pub fn transition_revisions(revision: u64) -> (r: Result<(i64, i64), SqliteAppOperationRepositoryError>)
    ensures
        revision == 0 ==> r matches Err(SqliteAppOperationRepositoryError::StaleTransition),
        0 < revision <= i64::MAX ==> (r matches Ok((new, previous)) && new == revision && previous
            == revision - 1),
        revision > i64::MAX ==> (r matches Err(
            SqliteAppOperationRepositoryError::ValueOutsideSqliteRange { field, value },
        ) && field == "revision" && value == revision),
{
    if revision == 0 {
        return Err(SqliteAppOperationRepositoryError::StaleTransition);
    }
    let previous_revision = revision - 1;
    let new_revision = to_sql_integer("revision", revision)?;
    let previous = to_sql_integer("previous revision", previous_revision)?;
    Ok((new_revision, previous))
}

/// Stored steps are numbered from zero without gaps, in order.
pub fn check_step_positions(positions: &[i64]) -> (r: Result<(), SqliteAppOperationRepositoryError>)
    ensures
        (forall|i: int| 0 <= i < positions@.len() ==> positions@[i] == i) ==> r is Ok,
        !(forall|i: int| 0 <= i < positions@.len() ==> positions@[i] == i) ==> (r matches Err(
            SqliteAppOperationRepositoryError::InvalidStepPosition { expected, actual },
        ) && expected < positions@.len() && actual == positions@[expected as int] && actual
            != expected && forall|i: int| 0 <= i < expected ==> positions@[i] == i),
{
    let mut i: usize = 0;
    while i < positions.len()
        invariant
            i <= positions@.len(),
            forall|j: int| 0 <= j < i ==> positions@[j] == j,
        decreases positions@.len() - i,
    {
        if i as u64 > 0x7fff_ffff_ffff_ffffu64 || positions[i] != i as i64 {
            proof {
                assert(positions@[i as int] != i);
            }
            return Err(SqliteAppOperationRepositoryError::InvalidStepPosition {
                expected: i,
                actual: positions[i],
            });
        }
        i = i + 1;
    }
    Ok(())
}

/// Operations still to be finished after a restart: those applying or
/// compensating.
pub fn is_incomplete(phase: AppOperationPhase) -> (r: bool)
    ensures
        r <==> (phase == AppOperationPhase::Applying || phase == AppOperationPhase::Compensating),
{
    match phase {
        AppOperationPhase::Applying | AppOperationPhase::Compensating => true,
        _ => false,
    }
}

} // verus!
