use rumahl_platform::namespace_secret_target::{
    check_directory, check_file, check_read_length, plan_delivery, removal_outcome,
    replay_metadata, temp_name, NamespaceRuntimeSecretTarget, NamespaceRuntimeSecretTargetConfig,
    NamespaceRuntimeSecretTargetConfigError, NamespaceRuntimeSecretTargetError,
    SecretDeliveryPlan,
};
use rumahl_platform::runtime_secret_server::{RuntimeOidcClientSecret, RuntimeSecretTargetOutcome};

fn request(secret: &str) -> RuntimeOidcClientSecret {
    RuntimeOidcClientSecret::new(
        "operation-1".to_owned(),
        "installation-1".to_owned(),
        "com.rumahl.test".to_owned(),
        "com.rumahl".to_owned(),
        "client-1".to_owned(),
        secret.to_owned(),
    )
}

#[test]
fn replay_record_names_operation_client_and_secret_digest() {
    let record = replay_metadata(&request("secret"));
    assert_eq!(
        record,
        "RSM1\noperation-1\ncom.rumahl.test\ncom.rumahl\nclient-1\n\
         2bb80d537b1da3e38bd30361aa855686bde0eacd7162fef6a25fe97bf527a25b\n"
    );
}

#[test]
fn first_delivery_writes_everything_and_replay_writes_nothing() {
    let request = request("secret");
    assert_eq!(
        plan_delivery(&request, &None, &None, &None),
        SecretDeliveryPlan {
            write_secret: true,
            write_client_id: true,
            write_record: true,
            outcome: RuntimeSecretTargetOutcome::Applied
        }
    );
    let record = replay_metadata(&request).into_bytes();
    assert_eq!(
        plan_delivery(
            &request,
            &Some(b"secret".to_vec()),
            &Some(b"client-1".to_vec()),
            &Some(record.clone())
        ),
        SecretDeliveryPlan {
            write_secret: false,
            write_client_id: false,
            write_record: false,
            outcome: RuntimeSecretTargetOutcome::AlreadyApplied
        }
    );
    assert_eq!(
        plan_delivery(&request, &Some(b"secret".to_vec()), &None, &Some(record)),
        SecretDeliveryPlan {
            write_secret: false,
            write_client_id: true,
            write_record: false,
            outcome: RuntimeSecretTargetOutcome::Applied
        }
    );
}

#[test]
fn changed_replay_is_a_conflict() {
    let first = request("secret");
    let changed = request("other-secret");
    let record = replay_metadata(&first).into_bytes();
    assert_eq!(
        plan_delivery(
            &changed,
            &Some(b"secret".to_vec()),
            &Some(b"client-1".to_vec()),
            &Some(record)
        )
        .outcome,
        RuntimeSecretTargetOutcome::Conflict
    );
}

#[test]
fn namespace_paths_and_removal() {
    assert_eq!(
        NamespaceRuntimeSecretTargetConfig::new("apps".to_owned()).unwrap_err(),
        NamespaceRuntimeSecretTargetConfigError::RuntimeRootMustBeAbsolute
    );
    let target = NamespaceRuntimeSecretTarget::new(
        NamespaceRuntimeSecretTargetConfig::new("/run/rumahl/apps/".to_owned()).unwrap(),
    );
    assert_eq!(temp_name("oidc-client-id"), ".oidc-client-id.tmp");
    assert_eq!(
        target.removal_paths("installation-1"),
        vec![
            "/run/rumahl/apps/installation-1/secrets/oidc-client-secret",
            "/run/rumahl/apps/installation-1/secrets/oidc-client-id",
            "/run/rumahl/apps/installation-1/.oidc-client.meta",
            "/run/rumahl/apps/installation-1/secrets/.oidc-client-secret.tmp",
            "/run/rumahl/apps/installation-1/secrets/.oidc-client-id.tmp",
            "/run/rumahl/apps/installation-1/..oidc-client.meta.tmp",
        ]
    );
    assert_eq!(removal_outcome(true), RuntimeSecretTargetOutcome::Applied);
    assert_eq!(
        removal_outcome(false),
        RuntimeSecretTargetOutcome::AlreadyApplied
    );
}

#[test]
fn namespace_files_and_directories_must_be_private() {
    assert!(check_directory(true, 1000, 1000, 0o40755).is_ok());
    assert!(matches!(
        check_directory(true, 1000, 1000, 0o40777),
        Err(NamespaceRuntimeSecretTargetError::WritableByNonOwner(0o777))
    ));
    assert!(matches!(
        check_file(false, 1000, 1000, 0o644),
        Err(NamespaceRuntimeSecretTargetError::InvalidFile)
    ));
    assert!(matches!(
        check_file(true, 1, 1000, 0o644),
        Err(NamespaceRuntimeSecretTargetError::FileOwnerMismatch {
            expected: 1000,
            actual: 1
        })
    ));
    assert!(matches!(
        check_read_length(129, 128),
        Err(NamespaceRuntimeSecretTargetError::FileTooLarge)
    ));
    assert!(check_read_length(128, 128).is_ok());
}
