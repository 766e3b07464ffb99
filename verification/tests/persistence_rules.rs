use rumahl_platform::app_database_provider::{
    check_provisioning, check_restore, check_retain, AppDatabaseBinding,
    SqliteAppDatabaseProvider, SqliteAppDatabaseProviderError,
};
use rumahl_platform::app_operation_journal::{
    check_initial_revision, check_step_positions, from_sql_integer, is_incomplete, kind_name,
    parse_kind, parse_phase, parse_resource, parse_resource_state, phase_name, resource_name,
    resource_state_name, to_sql_integer, transition_revisions, AppOperationKind,
    AppOperationPhase, AppOperationResource, AppOperationResourceState,
    SqliteAppOperationRepositoryError,
};
use rumahl_platform::browser_session::{
    recorded_revocation, revocation_time, session_window, BrowserSessionError,
};
use rumahl_platform::runtime_model::AppIdentity;

#[test]
fn stored_names_read_back_as_what_was_written() {
    for kind in [
        AppOperationKind::Install,
        AppOperationKind::Update,
        AppOperationKind::Uninstall,
    ] {
        assert_eq!(parse_kind(kind_name(kind)).unwrap(), kind);
    }
    for phase in [
        AppOperationPhase::Applying,
        AppOperationPhase::Committed,
        AppOperationPhase::Compensating,
        AppOperationPhase::Compensated,
    ] {
        assert_eq!(parse_phase(phase_name(phase)).unwrap(), phase);
    }
    for resource in [
        AppOperationResource::AppDatabases,
        AppOperationResource::OidcClient,
        AppOperationResource::PlatformSnapshot,
    ] {
        assert_eq!(parse_resource(resource_name(resource)).unwrap(), resource);
    }
    for state in [
        AppOperationResourceState::Pending,
        AppOperationResourceState::Applying,
        AppOperationResourceState::Applied,
        AppOperationResourceState::CompensationPending,
        AppOperationResourceState::Compensating,
        AppOperationResourceState::Compensated,
    ] {
        assert_eq!(parse_resource_state(resource_state_name(state)).unwrap(), state);
    }
    assert_eq!(kind_name(AppOperationKind::Uninstall), "uninstall");
    assert_eq!(
        resource_state_name(AppOperationResourceState::CompensationPending),
        "compensation-pending"
    );
    assert!(matches!(
        parse_kind("reinstall"),
        Err(SqliteAppOperationRepositoryError::InvalidKind(value)) if value == "reinstall"
    ));
    assert!(matches!(
        parse_phase("done"),
        Err(SqliteAppOperationRepositoryError::InvalidPhase(_))
    ));
}

#[test]
fn counters_fit_sqlite_integers() {
    assert_eq!(to_sql_integer("revision", 5).unwrap(), 5);
    assert!(matches!(
        to_sql_integer("started_at", u64::MAX),
        Err(SqliteAppOperationRepositoryError::ValueOutsideSqliteRange {
            field: "started_at",
            value: u64::MAX
        })
    ));
    assert_eq!(from_sql_integer("revision", 5).unwrap(), 5);
    assert!(matches!(
        from_sql_integer("revision", -1),
        Err(SqliteAppOperationRepositoryError::NegativeStoredValue {
            field: "revision",
            value: -1
        })
    ));
}

#[test]
fn transitions_follow_the_stored_revision() {
    assert!(check_initial_revision(0).is_ok());
    assert!(matches!(
        check_initial_revision(1),
        Err(SqliteAppOperationRepositoryError::InitialRevisionMustBeZero(1))
    ));
    assert!(matches!(
        transition_revisions(0),
        Err(SqliteAppOperationRepositoryError::StaleTransition)
    ));
    assert_eq!(transition_revisions(3).unwrap(), (3, 2));
    assert!(check_step_positions(&[0, 1, 2]).is_ok());
    assert!(matches!(
        check_step_positions(&[0, 2]),
        Err(SqliteAppOperationRepositoryError::InvalidStepPosition {
            expected: 1,
            actual: 2
        })
    ));
    assert!(is_incomplete(AppOperationPhase::Applying));
    assert!(is_incomplete(AppOperationPhase::Compensating));
    assert!(!is_incomplete(AppOperationPhase::Committed));
}

fn binding(installation: &str, id: &str) -> AppDatabaseBinding {
    AppDatabaseBinding::new(
        AppIdentity::new(
            "com.rumahl.notes".to_owned(),
            installation.to_owned(),
            "com.rumahl".to_owned(),
        ),
        id.to_owned(),
    )
}

#[test]
fn database_bindings_belong_to_one_installation_without_duplicates() {
    assert!(matches!(
        SqliteAppDatabaseProvider::validate_bindings(&[]),
        Ok(None)
    ));
    assert_eq!(
        SqliteAppDatabaseProvider::validate_bindings(&[binding("i-1", "main"), binding("i-1", "cache")])
            .unwrap()
            .unwrap(),
        "i-1"
    );
    assert!(matches!(
        SqliteAppDatabaseProvider::validate_bindings(&[binding("i-1", "main"), binding("i-2", "cache")]),
        Err(SqliteAppDatabaseProviderError::MixedInstallationBindings)
    ));
    assert!(matches!(
        SqliteAppDatabaseProvider::validate_bindings(&[binding("i-1", "main"), binding("i-1", "main")]),
        Err(SqliteAppDatabaseProviderError::DuplicateDatabaseBinding)
    ));
    let provider = SqliteAppDatabaseProvider::with_root("/var/lib/rumahl/apps".to_owned());
    assert_eq!(
        provider.active_database_path(&binding("i-1", "main")),
        "/var/lib/rumahl/apps/active/i-1/main.sqlite3"
    );
}

#[test]
fn databases_move_between_active_and_retained_areas() {
    assert!(check_provisioning(false, false, false).is_ok());
    assert!(matches!(
        check_provisioning(false, true, false),
        Err(SqliteAppDatabaseProviderError::RetainedDataExists)
    ));
    assert!(!check_retain(false, false).unwrap());
    assert!(check_retain(true, false).unwrap());
    assert!(matches!(
        check_retain(true, true),
        Err(SqliteAppDatabaseProviderError::RetainedDataExists)
    ));
    assert!(check_restore(true, false).unwrap());
    assert!(matches!(
        check_restore(true, true),
        Err(SqliteAppDatabaseProviderError::AlreadyProvisioned)
    ));
}

#[test]
fn browser_sessions_expire_after_they_begin() {
    assert_eq!(session_window(100, 200).unwrap(), (100, 200));
    assert_eq!(
        session_window(200, 200).unwrap_err(),
        BrowserSessionError::InvalidProof
    );
    assert_eq!(
        session_window(100, u64::MAX).unwrap_err(),
        BrowserSessionError::InvalidProof
    );
    assert_eq!(revocation_time(5).unwrap(), 5);
    assert_eq!(
        revocation_time(u64::MAX).unwrap_err(),
        BrowserSessionError::Storage
    );
    assert_eq!(recorded_revocation(90, 100), 100);
    assert_eq!(recorded_revocation(150, 100), 150);
}

use rumahl_platform::password_attempts::{
    begin_attempt, decide_attempt, read_timestamp, write_timestamp, AttemptDecision,
    PasswordAttempt, PasswordAttemptPolicy, SqlitePasswordCredentialRepositoryError,
    StoredPasswordCredential,
};

const POLICY: PasswordAttemptPolicy = PasswordAttemptPolicy {
    maximum_attempts: 3,
    lockout_seconds: 300,
};

#[test]
fn password_attempts_lock_out_after_the_maximum_and_reset_after_the_block() {
    assert_eq!(
        decide_attempt(0, None, 1000, POLICY).unwrap(),
        AttemptDecision::Allowed {
            failed_attempts: 1,
            blocked_until: None
        }
    );
    assert_eq!(
        decide_attempt(1, None, 1001, POLICY).unwrap(),
        AttemptDecision::Allowed {
            failed_attempts: 2,
            blocked_until: None
        }
    );
    assert_eq!(
        decide_attempt(2, None, 1002, POLICY).unwrap(),
        AttemptDecision::Allowed {
            failed_attempts: 3,
            blocked_until: Some(1302)
        }
    );
    assert_eq!(
        decide_attempt(3, Some(1302), 1100, POLICY).unwrap(),
        AttemptDecision::Throttled { retry_at: 1302 }
    );
    assert_eq!(
        decide_attempt(3, Some(1302), 1302, POLICY).unwrap(),
        AttemptDecision::Allowed {
            failed_attempts: 1,
            blocked_until: None
        }
    );
}

#[test]
fn password_attempt_records_must_be_sane() {
    assert!(matches!(
        decide_attempt(-1, None, 0, POLICY),
        Err(SqlitePasswordCredentialRepositoryError::InvalidFailedAttemptCount(-1))
    ));
    assert!(matches!(
        decide_attempt(0, Some(-5), 0, POLICY),
        Err(SqlitePasswordCredentialRepositoryError::InvalidTimestamp {
            field: "blocked_until",
            value: -5
        })
    ));
    assert!(matches!(
        decide_attempt(i64::from(u32::MAX), None, 0, POLICY),
        Err(SqlitePasswordCredentialRepositoryError::AttemptCounterOverflow)
    ));
    assert!(matches!(
        decide_attempt(2, None, u64::MAX, POLICY),
        Err(SqlitePasswordCredentialRepositoryError::LockoutTimestampOverflow)
    ));
    assert_eq!(read_timestamp("changed_at", 5).unwrap(), 5);
    assert!(write_timestamp("changed_at", u64::MAX).is_err());
}

fn stored(changed_at: i64, failed_attempts: i64, blocked_until: Option<i64>) -> StoredPasswordCredential {
    StoredPasswordCredential {
        password_hash: "$argon2id$v=19$stored".to_owned(),
        changed_at,
        failed_attempts,
        blocked_until,
    }
}

#[test]
fn password_attempts_need_a_sound_stored_credential() {
    assert_eq!(
        begin_attempt(None, true, 1000, POLICY).unwrap(),
        PasswordAttempt::MissingCredential
    );
    assert!(matches!(
        begin_attempt(Some(stored(10, 0, None)), false, 1000, POLICY),
        Err(SqlitePasswordCredentialRepositoryError::InvalidPasswordHash)
    ));
    assert!(matches!(
        begin_attempt(Some(stored(-10, 0, None)), true, 1000, POLICY),
        Err(SqlitePasswordCredentialRepositoryError::InvalidTimestamp {
            field: "changed_at",
            value: -10
        })
    ));
    assert_eq!(
        begin_attempt(Some(stored(10, 2, None)), true, 1002, POLICY).unwrap(),
        PasswordAttempt::Allowed {
            password_hash: "$argon2id$v=19$stored".to_owned(),
            changed_at: 10,
            failed_attempts: 3,
            blocked_until: Some(1302),
        }
    );
    assert_eq!(
        begin_attempt(Some(stored(10, 3, Some(1302))), true, 1100, POLICY).unwrap(),
        PasswordAttempt::Throttled { retry_at: 1302 }
    );
}

use rumahl_platform::oidc_grants::{
    approval_allowed, code_consumed, code_exchange_allowed, pairwise_subject_choice,
    refresh_rotation_decision, OidcBinding, PairwiseSubjectChoice, RefreshRotationDecision,
    RefreshTokenLookup,
};

fn oidc_binding(client_id: &str, redirect_uri: &str) -> OidcBinding {
    OidcBinding {
        client_id: client_id.to_owned(),
        installation_id: "3f2b8c1e-5a47-4d2e-9b61-0c7e4f1a2d93".to_owned(),
        redirect_uri: redirect_uri.to_owned(),
    }
}

#[test]
fn grants_serve_only_active_clients_under_their_own_binding() {
    let client = oidc_binding("client-1", "https://notes.local/callback");
    assert!(approval_allowed(true, Some(client.clone()), &client));
    assert!(!approval_allowed(false, Some(client.clone()), &client));
    assert!(!approval_allowed(true, None, &client));
    assert!(!approval_allowed(
        true,
        Some(oidc_binding("client-2", "https://notes.local/callback")),
        &client
    ));
    assert!(!approval_allowed(
        true,
        Some(oidc_binding("client-1", "https://evil.example/callback")),
        &client
    ));
    let raw = "a".repeat(43);
    assert!(code_exchange_allowed(raw.len(), true, Some(client.clone()), &client));
    assert!(!code_exchange_allowed(42, true, Some(client.clone()), &client));
    assert!(code_consumed(1));
    assert!(!code_consumed(0));
}

#[test]
fn pairwise_subjects_are_reused_once_stored() {
    assert_eq!(
        pairwise_subject_choice(Some("subject-1".to_owned())),
        PairwiseSubjectChoice::Reuse("subject-1".to_owned())
    );
    assert_eq!(pairwise_subject_choice(None), PairwiseSubjectChoice::GenerateAndStore);
}

#[test]
fn refresh_tokens_rotate_once_and_replay_revokes_the_family() {
    assert_eq!(
        refresh_rotation_decision(43, RefreshTokenLookup::Current, true),
        RefreshRotationDecision::Rotate
    );
    assert_eq!(
        refresh_rotation_decision(43, RefreshTokenLookup::Current, false),
        RefreshRotationDecision::Invalid
    );
    assert_eq!(
        refresh_rotation_decision(43, RefreshTokenLookup::Spent, true),
        RefreshRotationDecision::RevokeFamily
    );
    assert_eq!(
        refresh_rotation_decision(43, RefreshTokenLookup::Unknown, true),
        RefreshRotationDecision::Invalid
    );
    assert_eq!(
        refresh_rotation_decision(12, RefreshTokenLookup::Spent, true),
        RefreshRotationDecision::Invalid
    );
}

#[test]
fn a_block_sqlite_cannot_store_is_refused() {
    let attempted_at = i64::MAX as u64 - 100;
    assert!(matches!(
        decide_attempt(2, None, attempted_at, POLICY),
        Err(SqlitePasswordCredentialRepositoryError::TimestampOutsideSqliteRange {
            field: "blocked_until",
            value
        }) if value == attempted_at + 300
    ));
    assert!(matches!(
        begin_attempt(Some(stored(10, 2, None)), true, attempted_at, POLICY),
        Err(SqlitePasswordCredentialRepositoryError::TimestampOutsideSqliteRange { .. })
    ));
    assert!(matches!(
        decide_attempt(0, None, attempted_at, POLICY),
        Ok(AttemptDecision::Allowed { failed_attempts: 1, blocked_until: None })
    ));
}
