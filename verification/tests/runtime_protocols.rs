use rumahl_platform::frame::FrameError;
use rumahl_platform::runtime_model::{
    AppIdentity, AppRuntimeInstallationState, RuntimeDescriptor, RuntimeEntrypoint,
    RuntimeEntrypointTarget, RuntimeInstallationSpec, RuntimeKind,
};
use rumahl_platform::runtime_provider::{
    accept_activate, accept_deactivate, accept_remove, control_reply, decode_response,
    encode_request, encode_response, encode_spec, installation_request, parse_request,
    spec_request, ParsedRequest, UnixAppRuntimeProvider, OP_DEACTIVATE,
    RuntimeControlResponse, RuntimeControlTargetOutcome, UnixAppRuntimeProviderConfig,
    UnixAppRuntimeProviderConfigError, UnixAppRuntimeProviderError,
    UnixRuntimeControlServerConfig, UnixRuntimeControlServerConfigError,
    UnixRuntimeControlServerError, OP_ACTIVATE, OP_PREPARE, OP_REMOVE, OP_STATE,
};
use rumahl_platform::runtime_secret_server::{
    encode_status, parse_request as parse_secret_request, secret_reply, ParsedSecretRequest,
    RuntimeSecretTargetOutcome, UnixRuntimeSecretServerConfig,
    UnixRuntimeSecretServerConfigError, UnixRuntimeSecretServerError,
};
use rumahl_platform::runtime_secrets::{
    decode_ack, UnixRuntimeSecretDelivery, UnixRuntimeSecretDeliveryConfig,
    UnixRuntimeSecretDeliveryError, STATUS_CONFLICT, STATUS_OK, STATUS_REJECTED,
};

fn spec() -> RuntimeInstallationSpec {
    let mut runtime = RuntimeDescriptor::container();
    runtime.add_entrypoint(RuntimeEntrypoint::container_artifact(
        "service".to_owned(),
        "runtime/server.oci".to_owned(),
    ));
    runtime.add_entrypoint(RuntimeEntrypoint::endpoint(
        "http".to_owned(),
        "web".to_owned(),
    ));
    RuntimeInstallationSpec::new(
        AppIdentity::new(
            "com.rumahl.test".to_owned(),
            "3f2b8c1e-5a47-4d2e-9b61-0c7e4f1a2d93".to_owned(),
            "com.rumahl".to_owned(),
        ),
        "1.2.3".to_owned(),
        runtime,
    )
}

#[test]
fn runtime_provider_permits_only_owner_or_owner_group_socket_access() {
    let owner_only =
        UnixRuntimeControlServerConfig::new("/run/rumahl/control.sock".to_owned(), 1000).unwrap();
    assert_eq!(owner_only.socket_mode(), 0o600);
    let shared = owner_only.with_socket_mode(0o660).unwrap();
    assert_eq!(shared.socket_mode(), 0o660);
    assert_eq!(
        UnixRuntimeControlServerConfig::new("/run/rumahl/control.sock".to_owned(), 1000)
            .unwrap()
            .with_socket_mode(0o666)
            .unwrap_err(),
        UnixRuntimeControlServerConfigError::InvalidSocketMode
    );
}

#[test]
fn runtime_secret_server_permits_only_owner_or_owner_group_socket_access() {
    let owner_only =
        UnixRuntimeSecretServerConfig::new("/run/rumahl/secrets.sock".to_owned(), 1000).unwrap();
    assert_eq!(owner_only.socket_mode(), 0o600);
    let shared = owner_only.with_socket_mode(0o660).unwrap();
    assert_eq!(shared.socket_mode(), 0o660);
    assert_eq!(
        UnixRuntimeSecretServerConfig::new("/run/rumahl/secrets.sock".to_owned(), 1000)
            .unwrap()
            .with_socket_mode(0o666)
            .unwrap_err(),
        UnixRuntimeSecretServerConfigError::InvalidSocketMode
    );
}

#[test]
fn socket_configurations_require_absolute_paths_and_timeouts() {
    assert_eq!(
        UnixAppRuntimeProviderConfig::new("control.sock".to_owned(), 0).unwrap_err(),
        UnixAppRuntimeProviderConfigError::SocketPathMustBeAbsolute
    );
    assert_eq!(
        UnixAppRuntimeProviderConfig::with_timeout("/run/control.sock".to_owned(), 0, 0)
            .unwrap_err(),
        UnixAppRuntimeProviderConfigError::ZeroTimeout
    );
    let config = UnixAppRuntimeProviderConfig::new("/run/control.sock".to_owned(), 7).unwrap();
    assert_eq!(config.timeout(), 5_000_000_000);
    assert_eq!(config.expected_peer_uid(), 7);
    assert_eq!(
        UnixRuntimeControlServerConfig::with_timeout("/run/control.sock".to_owned(), 7, 0)
            .unwrap_err(),
        UnixRuntimeControlServerConfigError::ZeroTimeout
    );
    assert!(UnixRuntimeSecretDeliveryConfig::new("relative.sock".to_owned(), 7).is_err());
}

#[test]
fn control_request_carries_the_complete_specification() {
    let spec = spec();
    let fields = encode_spec(&spec).unwrap();
    let bytes = encode_request(OP_PREPARE, &fields).unwrap();
    match parse_request(&bytes).unwrap() {
        ParsedRequest::Prepare(parsed) => {
            assert_eq!(parsed.identity().app_id(), "com.rumahl.test");
            assert_eq!(parsed.identity().installation_id(), "3f2b8c1e-5a47-4d2e-9b61-0c7e4f1a2d93");
            assert_eq!(parsed.identity().publisher_id(), "com.rumahl");
            assert_eq!(parsed.version(), "1.2.3");
            assert_eq!(parsed.runtime().kind(), RuntimeKind::Container);
            let entrypoints = parsed.runtime().entrypoints();
            assert_eq!(entrypoints.len(), 2);
            assert_eq!(entrypoints[0].id(), "service");
            assert!(matches!(
                entrypoints[0].target(),
                RuntimeEntrypointTarget::ContainerArtifact(path) if path == "runtime/server.oci"
            ));
            assert!(matches!(
                entrypoints[1].target(),
                RuntimeEntrypointTarget::Endpoint(endpoint) if endpoint == "web"
            ));
        }
        other => panic!("unexpected {other:?}"),
    }
}

#[test]
fn installation_requests_round_trip_and_truncated_frames_are_reported() {
    let bytes = encode_request(OP_STATE, &[b"3f2b8c1e-5a47-4d2e-9b61-0c7e4f1a2d93".to_vec()]).unwrap();
    match parse_request(&bytes).unwrap() {
        ParsedRequest::State(id) => assert_eq!(id, "3f2b8c1e-5a47-4d2e-9b61-0c7e4f1a2d93"),
        other => panic!("unexpected {other:?}"),
    }
    let removal = encode_request(OP_REMOVE, &[b"a41c9e07-2b35-4f88-8d10-6e5b7c3f9a24".to_vec()]).unwrap();
    assert_eq!(parse_request(&removal).unwrap().operation(), OP_REMOVE);
    assert_eq!(
        parse_request(&bytes[..bytes.len() - 1]).unwrap_err(),
        FrameError::Truncated
    );
    let mut wrong_magic = bytes.clone();
    wrong_magic[0] ^= 0xff;
    assert_eq!(parse_request(&wrong_magic).unwrap_err(), FrameError::Invalid);
}

#[test]
fn responses_round_trip_and_conflicts_fail_closed() {
    let bytes = encode_response(RuntimeControlTargetOutcome::Accepted {
        state: AppRuntimeInstallationState::Active,
        changed: true,
    });
    assert_eq!(bytes.len(), 7);
    assert_eq!(
        decode_response(&bytes).unwrap(),
        RuntimeControlResponse {
            state: AppRuntimeInstallationState::Active,
            changed: true
        }
    );
    assert!(matches!(
        decode_response(&encode_response(RuntimeControlTargetOutcome::Conflict)),
        Err(UnixAppRuntimeProviderError::ConflictingReplay)
    ));
    assert!(matches!(
        decode_response(&encode_response(RuntimeControlTargetOutcome::Rejected)),
        Err(UnixAppRuntimeProviderError::Rejected)
    ));
}

#[test]
fn server_replaces_inconsistent_target_outcomes_with_rejection() {
    let (outcome, result) = control_reply(
        OP_ACTIVATE,
        Some(RuntimeControlTargetOutcome::Accepted {
            state: AppRuntimeInstallationState::Prepared,
            changed: false,
        }),
    );
    assert_eq!(outcome, RuntimeControlTargetOutcome::Rejected);
    assert!(matches!(
        result,
        Err(UnixRuntimeControlServerError::InvalidTargetOutcome)
    ));
    let (outcome, result) = control_reply(OP_PREPARE, None);
    assert_eq!(outcome, RuntimeControlTargetOutcome::Rejected);
    assert!(matches!(result, Err(UnixRuntimeControlServerError::Target)));
    let accepted = RuntimeControlTargetOutcome::Accepted {
        state: AppRuntimeInstallationState::Absent,
        changed: true,
    };
    assert_eq!(control_reply(OP_REMOVE, Some(accepted)).0, accepted);
}

#[test]
fn client_checks_the_state_each_operation_promises() {
    let active = RuntimeControlResponse {
        state: AppRuntimeInstallationState::Active,
        changed: false,
    };
    let prepared = RuntimeControlResponse {
        state: AppRuntimeInstallationState::Prepared,
        changed: true,
    };
    assert!(accept_activate(active).is_ok());
    assert!(matches!(
        accept_activate(prepared),
        Err(UnixAppRuntimeProviderError::InvalidResponse)
    ));
    assert!(matches!(
        accept_deactivate(active),
        Err(UnixAppRuntimeProviderError::InvalidResponse)
    ));
    assert!(accept_deactivate(prepared).is_ok());
    assert!(accept_remove(RuntimeControlResponse {
        state: AppRuntimeInstallationState::Absent,
        changed: true
    })
    .unwrap());
}

#[test]
fn secret_delivery_frame_reaches_the_server_intact() {
    let delivery = UnixRuntimeSecretDelivery::new(
        UnixRuntimeSecretDeliveryConfig::new("/run/rumahl/secrets.sock".to_owned(), 0).unwrap(),
    );
    let bytes = delivery
        .deliver_oidc_client_secret_request(
            "0d6e2f4a-8c13-4b57-a9e2-5f1c3d7b8e60",
            "3f2b8c1e-5a47-4d2e-9b61-0c7e4f1a2d93",
            "com.rumahl.test",
            "com.rumahl",
            "client-1",
            "secret-value",
        )
        .unwrap();
    match parse_secret_request(&bytes).unwrap() {
        ParsedSecretRequest::Deliver(request) => {
            assert_eq!(request.operation_id(), "0d6e2f4a-8c13-4b57-a9e2-5f1c3d7b8e60");
            assert_eq!(request.installation_id(), "3f2b8c1e-5a47-4d2e-9b61-0c7e4f1a2d93");
            assert_eq!(request.app_id(), "com.rumahl.test");
            assert_eq!(request.publisher_id(), "com.rumahl");
            assert_eq!(request.client_id(), "client-1");
            assert_eq!(request.client_secret(), "secret-value");
        }
        other => panic!("unexpected {other:?}"),
    }
    let removal = delivery
        .remove_for_installation_request("9b7a5c3e-1d2f-4e6a-8b0c-2d4f6a8c0e1b", "3f2b8c1e-5a47-4d2e-9b61-0c7e4f1a2d93")
        .unwrap();
    match parse_secret_request(&removal).unwrap() {
        ParsedSecretRequest::Remove(request) => {
            assert_eq!(request.operation_id(), "9b7a5c3e-1d2f-4e6a-8b0c-2d4f6a8c0e1b");
            assert_eq!(request.installation_id(), "3f2b8c1e-5a47-4d2e-9b61-0c7e4f1a2d93");
        }
        other => panic!("unexpected {other:?}"),
    }
}

#[test]
fn secret_statuses_map_conflicts_and_failures_to_closed_client_errors() {
    let (status, result) = secret_reply(Some(RuntimeSecretTargetOutcome::AlreadyApplied));
    assert_eq!(status, STATUS_OK);
    assert!(result.is_ok());
    assert!(decode_ack(&encode_status(status)).is_ok());
    let (status, _) = secret_reply(Some(RuntimeSecretTargetOutcome::Conflict));
    assert_eq!(status, STATUS_CONFLICT);
    assert!(matches!(
        decode_ack(&encode_status(status)),
        Err(UnixRuntimeSecretDeliveryError::ConflictingReplay)
    ));
    let (status, result) = secret_reply(None);
    assert_eq!(status, STATUS_REJECTED);
    assert!(matches!(result, Err(UnixRuntimeSecretServerError::Target)));
    assert!(matches!(
        decode_ack(&[0, 0, 0, 0, 0]),
        Err(UnixRuntimeSecretDeliveryError::InvalidResponse)
    ));
}

#[test]
fn refuses_a_peer_other_than_the_expected_supervisor() {
    let provider = UnixAppRuntimeProvider::new(
        UnixAppRuntimeProviderConfig::new("/run/rumahl/control.sock".to_owned(), 1000).unwrap(),
    );
    assert!(provider.check_peer_uid(1000).is_ok());
    assert!(matches!(
        provider.check_peer_uid(1001),
        Err(UnixAppRuntimeProviderError::UnexpectedPeerUid { expected: 1000, actual: 1001 })
    ));
}

#[test]
fn builds_requests_that_the_server_parses_back() {
    let request = spec_request(OP_PREPARE, &spec()).unwrap();
    let fields = encode_spec(&spec()).unwrap();
    assert_eq!(request, encode_request(OP_PREPARE, &fields).unwrap());
    match parse_request(&request).unwrap() {
        ParsedRequest::Prepare(parsed) => {
            assert_eq!(parsed.identity().installation_id(), "3f2b8c1e-5a47-4d2e-9b61-0c7e4f1a2d93");
            assert_eq!(parsed.version(), "1.2.3");
        }
        _ => panic!("expected a prepare request"),
    }

    let request = installation_request(OP_DEACTIVATE, "3f2b8c1e-5a47-4d2e-9b61-0c7e4f1a2d93").unwrap();
    assert_eq!(&request[..4], b"RRP1");
    assert_eq!(request[4], OP_DEACTIVATE);
    match parse_request(&request).unwrap() {
        ParsedRequest::Deactivate(id) => assert_eq!(id, "3f2b8c1e-5a47-4d2e-9b61-0c7e4f1a2d93"),
        _ => panic!("expected a deactivate request"),
    }
}

#[test]
fn rejects_malformed_domain_values_without_calling_target() {
    let mut request = b"RSH1".to_vec();
    request.push(2);
    request.push(2);
    for field in [&b"not-an-operation-id"[..], &b"not-an-installation-id"[..]] {
        request.extend_from_slice(&(field.len() as u32).to_be_bytes());
        request.extend_from_slice(field);
    }
    assert_eq!(parse_secret_request(&request).err(), Some(FrameError::Invalid));
    let (status, result) = secret_reply(None);
    assert_eq!(status, STATUS_REJECTED);
    assert!(result.is_err());
}

#[test]
fn control_server_refuses_ids_out_of_their_forms() {
    for id in [&b"../escape"[..], b"installation-1", b"3F2B8C1E-5A47-4D2E-9B61-0C7E4F1A2D93"] {
        let bytes = encode_request(OP_REMOVE, &[id.to_vec()]).unwrap();
        assert_eq!(parse_request(&bytes).err(), Some(FrameError::Invalid));
    }
    let mut fields = encode_spec(&spec()).unwrap();
    fields[1] = b"notes".to_vec();
    let bytes = encode_request(OP_PREPARE, &fields).unwrap();
    assert_eq!(parse_request(&bytes).err(), Some(FrameError::Invalid));

    let mut fields = encode_spec(&spec()).unwrap();
    fields[3] = b"1.02.3".to_vec();
    let bytes = encode_request(OP_PREPARE, &fields).unwrap();
    assert_eq!(parse_request(&bytes).err(), Some(FrameError::Invalid));

    let mut fields = encode_spec(&spec()).unwrap();
    fields[7] = b"../server.oci".to_vec();
    let bytes = encode_request(OP_PREPARE, &fields).unwrap();
    assert_eq!(parse_request(&bytes).err(), Some(FrameError::Invalid));

    let mut fields = encode_spec(&spec()).unwrap();
    fields[8] = fields[5].clone();
    let bytes = encode_request(OP_PREPARE, &fields).unwrap();
    assert_eq!(parse_request(&bytes).err(), Some(FrameError::Invalid));
}

#[test]
fn servers_serve_only_their_expected_peer() {
    let control = UnixRuntimeControlServerConfig::new("/run/control.sock".to_owned(), 1000).unwrap();
    assert!(control.check_peer_uid(1000).is_ok());
    assert!(matches!(
        control.check_peer_uid(0),
        Err(UnixRuntimeControlServerError::UnexpectedPeerUid { expected: 1000, actual: 0 })
    ));
    let secrets = UnixRuntimeSecretServerConfig::new("/run/secrets.sock".to_owned(), 1000).unwrap();
    assert!(secrets.check_peer_uid(1000).is_ok());
    assert!(matches!(
        secrets.check_peer_uid(1001),
        Err(UnixRuntimeSecretServerError::UnexpectedPeerUid { expected: 1000, actual: 1001 })
    ));
}
