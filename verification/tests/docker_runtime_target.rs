use std::convert::Infallible;

use rumahl_platform::docker_runtime_target::command_output;

use rumahl_platform::docker_control::{
    check_namespace, check_runtime_root, container_name, DockerAction, DockerConversation,
    DockerEvent, DockerRuntimeTarget,
};
use rumahl_platform::docker_runtime_target::{
    select_container, spec_fingerprint_and_artifact, state_from_status, valid_name,
    DockerImageReference, DockerImageReferenceError, DockerRuntimeTargetConfig,
    DockerRuntimeTargetConfigError, DockerRuntimeTargetError,
};
use rumahl_platform::runtime_model::{
    AppIdentity, AppRuntimeInstallationState, RuntimeDescriptor, RuntimeEntrypoint,
    RuntimeInstallationSpec,
};
use rumahl_platform::runtime_provider::RuntimeControlTargetOutcome;

const INSTALLATION: &str = "0b6f3b7e-4c1a-4d3e-9a52-7f0e1c2d3b4a";

fn container_spec(version: &str, artifact: &str) -> RuntimeInstallationSpec {
    let mut runtime = RuntimeDescriptor::container();
    runtime.add_entrypoint(RuntimeEntrypoint::container_artifact(
        "service".to_owned(),
        artifact.to_owned(),
    ));
    RuntimeInstallationSpec::new(
        AppIdentity::new(
            "com.rumahl.test".to_owned(),
            INSTALLATION.to_owned(),
            "com.rumahl".to_owned(),
        ),
        version.to_owned(),
        runtime,
    )
}

fn config() -> DockerRuntimeTargetConfig {
    DockerRuntimeTargetConfig::new(
        "/usr/bin/docker".to_owned(),
        "/run/rumahl/apps".to_owned(),
        "rumahl-apps".to_owned(),
        "system".to_owned(),
    )
    .unwrap()
}

fn target() -> DockerRuntimeTarget<()> {
    DockerRuntimeTarget::new(config(), ())
}

fn run_of(action: DockerAction<Infallible>) -> (&'static str, Vec<String>) {
    match action {
        DockerAction::Run {
            operation,
            arguments,
        } => (operation, arguments),
        other => panic!("expected a Docker command, got {other:?}"),
    }
}

fn finish_of(
    action: DockerAction<Infallible>,
) -> Result<RuntimeControlTargetOutcome, DockerRuntimeTargetError<Infallible>> {
    match action {
        DockerAction::Finish(result) => result,
        other => panic!("expected the end of the conversation, got {other:?}"),
    }
}

fn output(
    target: &DockerRuntimeTarget<()>,
    conversation: &mut DockerConversation,
    text: &str,
) -> DockerAction<Infallible> {
    let event = DockerEvent::Output(Ok(text.to_owned()));
    assert!(DockerRuntimeTarget::<()>::takes_event(conversation, &event));
    target.advance(conversation, event)
}

fn digest(c: char) -> String {
    c.to_string().repeat(64)
}

#[test]
fn accepts_only_immutable_sha256_image_references() {
    let digest = "a".repeat(64);
    assert!(DockerImageReference::parse(format!("registry.local/app@sha256:{digest}")).is_ok());
    assert!(DockerImageReference::parse(format!("sha256:{digest}")).is_ok());
    assert_eq!(
        DockerImageReference::parse("registry.local/app:latest".to_owned()).unwrap_err(),
        DockerImageReferenceError::Mutable
    );
    assert_eq!(
        DockerImageReference::parse(format!("registry.local/app@sha256:{}", "A".repeat(64)))
            .unwrap_err(),
        DockerImageReferenceError::InvalidDigest
    );
}

#[test]
fn validates_trusted_docker_configuration() {
    assert_eq!(
        DockerRuntimeTargetConfig::new(
            "docker".to_owned(),
            "/run/rumahl/apps".to_owned(),
            "rumahl-apps".to_owned(),
            "system".to_owned()
        )
        .unwrap_err(),
        DockerRuntimeTargetConfigError::ExecutableMustBeAbsolute
    );
    assert_eq!(
        DockerRuntimeTargetConfig::new(
            "/usr/bin/docker".to_owned(),
            "relative".to_owned(),
            "rumahl-apps".to_owned(),
            "system".to_owned()
        )
        .unwrap_err(),
        DockerRuntimeTargetConfigError::RuntimeRootMustBeAbsolute
    );
    assert_eq!(
        DockerRuntimeTargetConfig::new(
            "/usr/bin/docker".to_owned(),
            "/run/rumahl/apps".to_owned(),
            "host,other".to_owned(),
            "system".to_owned()
        )
        .unwrap_err(),
        DockerRuntimeTargetConfigError::InvalidNetwork
    );
}

#[test]
fn fingerprints_complete_runtime_specification() {
    let original = container_spec("1.0.0", "runtime/server.oci");
    let changed_version = container_spec("1.0.1", "runtime/server.oci");
    let changed_artifact = container_spec("1.0.0", "runtime/other.oci");

    let original_fingerprint = spec_fingerprint_and_artifact::<Infallible>(&original)
        .unwrap()
        .0;
    assert_eq!(
        original_fingerprint,
        spec_fingerprint_and_artifact::<Infallible>(&original)
            .unwrap()
            .0
    );
    assert_ne!(
        original_fingerprint,
        spec_fingerprint_and_artifact::<Infallible>(&changed_version)
            .unwrap()
            .0
    );
    assert_ne!(
        original_fingerprint,
        spec_fingerprint_and_artifact::<Infallible>(&changed_artifact)
            .unwrap()
            .0
    );
}

#[test]
fn fingerprint_is_lowercase_sha256_hex_and_names_the_artifact() {
    let (fingerprint, artifact) =
        spec_fingerprint_and_artifact::<Infallible>(&container_spec("1.0.0", "runtime/server.oci"))
            .unwrap();
    assert_eq!(fingerprint.len(), 64);
    assert!(fingerprint
        .bytes()
        .all(|b| b.is_ascii_digit() || (b'a'..=b'f').contains(&b)));
    assert_eq!(artifact, "runtime/server.oci");
}

#[test]
fn rejects_web_runtimes_and_specs_without_one_artifact() {
    let mut web = RuntimeDescriptor::web();
    web.add_entrypoint(RuntimeEntrypoint::web_asset(
        "ui".to_owned(),
        "index.html".to_owned(),
    ));
    let web_spec = RuntimeInstallationSpec::new(
        AppIdentity::new("a".to_owned(), INSTALLATION.to_owned(), "p".to_owned()),
        "1.0.0".to_owned(),
        web,
    );
    assert!(matches!(
        spec_fingerprint_and_artifact::<Infallible>(&web_spec),
        Err(DockerRuntimeTargetError::InvalidRuntimeSpec)
    ));
    let empty = RuntimeInstallationSpec::new(
        AppIdentity::new("a".to_owned(), INSTALLATION.to_owned(), "p".to_owned()),
        "1.0.0".to_owned(),
        RuntimeDescriptor::container(),
    );
    assert!(matches!(
        spec_fingerprint_and_artifact::<Infallible>(&empty),
        Err(DockerRuntimeTargetError::InvalidRuntimeSpec)
    ));
}

#[test]
fn rejects_stop_timeouts_outside_one_to_sixty_seconds_and_zero_command_timeouts() {
    let with = |command: u64, stop: u8| {
        DockerRuntimeTargetConfig::with_timeouts(
            "/usr/bin/docker".to_owned(),
            "/run/rumahl/apps".to_owned(),
            "rumahl-apps".to_owned(),
            "system".to_owned(),
            command,
            stop,
        )
    };
    assert_eq!(
        with(0, 10).unwrap_err(),
        DockerRuntimeTargetConfigError::ZeroCommandTimeout
    );
    assert_eq!(
        with(1000, 0).unwrap_err(),
        DockerRuntimeTargetConfigError::InvalidStopTimeout
    );
    assert_eq!(
        with(1000, 61).unwrap_err(),
        DockerRuntimeTargetConfigError::InvalidStopTimeout
    );
    assert_eq!(with(1, 10).unwrap().command_timeout(), 1);
    let config = with(1000, 60).unwrap();
    assert_eq!(config.stop_timeout_seconds(), 60);
    assert_eq!(config.command_timeout(), 1000);
    assert_eq!(
        DockerRuntimeTargetConfig::with_timeouts(
            "/usr/bin/docker".to_owned(),
            "/run/rumahl,apps".to_owned(),
            "rumahl-apps".to_owned(),
            "system".to_owned(),
            1000,
            10,
        )
        .unwrap_err(),
        DockerRuntimeTargetConfigError::RuntimeRootCannotContainComma
    );
}

#[test]
fn default_timeouts_are_fifteen_and_ten_seconds() {
    let config = config();
    assert_eq!(config.command_timeout(), 15_000_000_000);
    assert_eq!(config.stop_timeout_seconds(), 10);
    assert_eq!(config.network(), "rumahl-apps");
    assert_eq!(config.supervisor_instance(), "system");
}

#[test]
fn names_are_short_and_drawn_from_a_small_alphabet() {
    assert!(valid_name("rumahl-apps_1.0", 128));
    assert!(!valid_name("", 128));
    assert!(!valid_name("a b", 128));
    assert!(!valid_name(&"a".repeat(65), 64));
}

#[test]
fn container_lookup_accepts_only_the_expected_name() {
    let name = container_name(INSTALLATION);
    assert_eq!(name, format!("rumahl-app-{INSTALLATION}"));
    assert!(matches!(select_container::<Infallible>("\n", &name), Ok(None)));
    assert_eq!(
        select_container::<Infallible>(&format!("{name}\r\n"), &name)
            .unwrap()
            .unwrap(),
        name
    );
    assert!(matches!(
        select_container::<Infallible>("other\n", &name),
        Err(DockerRuntimeTargetError::InvalidOutput(_))
    ));
    assert!(matches!(
        select_container::<Infallible>(&format!("{name}\n{name}\n"), &name),
        Err(DockerRuntimeTargetError::InvalidOutput(_))
    ));
}

#[test]
fn container_status_maps_to_runtime_state() {
    assert_eq!(
        state_from_status::<Infallible>("running").unwrap(),
        AppRuntimeInstallationState::Active
    );
    assert_eq!(
        state_from_status::<Infallible>("restarting").unwrap(),
        AppRuntimeInstallationState::Active
    );
    assert_eq!(
        state_from_status::<Infallible>("exited").unwrap(),
        AppRuntimeInstallationState::Prepared
    );
    assert!(state_from_status::<Infallible>("dead").is_err());
}

#[test]
fn prepares_a_new_hardened_container() {
    let target = target();
    let spec = container_spec("1.0.0", "runtime/server.oci");
    let (fingerprint, _) = spec_fingerprint_and_artifact::<Infallible>(&spec).unwrap();
    let (mut conversation, action) = target.prepare::<Infallible>(&spec);
    let (operation, arguments) = run_of(action);
    assert_eq!(operation, "container lookup");
    assert_eq!(
        arguments,
        vec![
            "container".to_owned(),
            "ls".to_owned(),
            "--all".to_owned(),
            "--filter".to_owned(),
            format!("name=^/rumahl-app-{INSTALLATION}$"),
            "--format".to_owned(),
            "{{.Names}}".to_owned(),
        ]
    );

    match output(&target, &mut conversation, "") {
        DockerAction::ResolveImage { artifact } => assert_eq!(artifact, "runtime/server.oci"),
        other => panic!("unexpected {other:?}"),
    }
    let image = DockerImageReference::parse(format!("sha256:{}", digest('a'))).unwrap();
    let event = DockerEvent::Image(Ok(image));
    assert!(DockerRuntimeTarget::<()>::takes_event(&conversation, &event));
    let (operation, arguments) = run_of(target.advance(&mut conversation, event));
    assert_eq!(operation, "image inspection");
    assert_eq!(
        arguments,
        vec![
            "image".to_owned(),
            "inspect".to_owned(),
            "--format".to_owned(),
            "{{.Id}}".to_owned(),
            format!("sha256:{}", digest('a')),
        ]
    );
    let image_id = format!("sha256:{}", digest('b'));
    match output(&target, &mut conversation, &image_id) {
        DockerAction::EnsureNamespace { path } => {
            assert_eq!(path, format!("/run/rumahl/apps/{INSTALLATION}"))
        }
        other => panic!("unexpected {other:?}"),
    }
    let (operation, arguments) =
        run_of(target.advance(&mut conversation, DockerEvent::Namespace(Ok(true))));
    assert_eq!(operation, "container create");
    let expected: Vec<String> = [
        "container",
        "create",
        "--name",
        &format!("rumahl-app-{INSTALLATION}"),
        "--label",
        "com.rumahl.managed=true",
        "--label",
        &format!("com.rumahl.installation={INSTALLATION}"),
        "--label",
        "com.rumahl.supervisor=system",
        "--label",
        &format!("com.rumahl.runtime-spec={fingerprint}"),
        "--label",
        &format!("com.rumahl.image-id={image_id}"),
        "--read-only",
        "--network",
        "rumahl-apps",
        "--cap-drop",
        "ALL",
        "--security-opt",
        "no-new-privileges=true",
        "--pids-limit",
        "128",
        "--memory",
        "256m",
        "--stop-timeout",
        "10",
        "--tmpfs",
        "/tmp:rw,noexec,nosuid,nodev,size=32m,mode=1777",
        "--user",
        "65534:65534",
        "--mount",
        &format!(
            "type=bind,src=/run/rumahl/apps/{INSTALLATION}/secrets,dst=/run/rumahl/secrets,readonly,bind-propagation=rprivate"
        ),
        &format!("sha256:{}", digest('a')),
    ]
    .iter()
    .map(|s| s.to_string())
    .collect();
    assert_eq!(arguments, expected);
    assert_eq!(
        finish_of(output(&target, &mut conversation, "")).unwrap(),
        RuntimeControlTargetOutcome::Accepted {
            state: AppRuntimeInstallationState::Prepared,
            changed: true
        }
    );
}

#[test]
fn abandons_a_namespace_it_created_when_creation_fails() {
    let target = target();
    let spec = container_spec("1.0.0", "runtime/server.oci");
    let (mut conversation, _) = target.prepare::<Infallible>(&spec);
    output(&target, &mut conversation, "");
    let image = DockerImageReference::parse(format!("sha256:{}", digest('a'))).unwrap();
    target.advance(&mut conversation, DockerEvent::<Infallible>::Image(Ok(image)));
    output(&target, &mut conversation, &format!("sha256:{}", digest('b')));
    target.advance(&mut conversation, DockerEvent::<Infallible>::Namespace(Ok(true)));
    let failure: DockerRuntimeTargetError<Infallible> = DockerRuntimeTargetError::CommandFailed {
        operation: "container create",
        status: Some(1),
    };
    match target.advance(&mut conversation, DockerEvent::Output(Err(failure))) {
        DockerAction::Abandon { path, error } => {
            assert_eq!(path, format!("/run/rumahl/apps/{INSTALLATION}"));
            assert!(matches!(
                error,
                DockerRuntimeTargetError::CommandFailed {
                    status: Some(1),
                    ..
                }
            ));
        }
        other => panic!("unexpected {other:?}"),
    }
}

#[test]
fn rejects_image_ids_that_are_not_immutable() {
    let target = target();
    let spec = container_spec("1.0.0", "runtime/server.oci");
    let (mut conversation, _) = target.prepare::<Infallible>(&spec);
    output(&target, &mut conversation, "");
    let image = DockerImageReference::parse(format!("sha256:{}", digest('a'))).unwrap();
    target.advance(&mut conversation, DockerEvent::<Infallible>::Image(Ok(image)));
    assert!(matches!(
        finish_of(output(&target, &mut conversation, "latest")),
        Err(DockerRuntimeTargetError::InvalidOutput("image inspection"))
    ));
}

/// Answers the matching lookup of an existing container whose labels are
/// those given.
fn match_existing(
    target: &DockerRuntimeTarget<()>,
    conversation: &mut DockerConversation,
    labels: [&str; 5],
) -> DockerAction<Infallible> {
    let name = format!("rumahl-app-{INSTALLATION}");
    let (operation, arguments) = run_of(output(target, conversation, &format!("{name}\n")));
    assert_eq!(operation, "container image inspection");
    assert_eq!(arguments[3], "{{.Image}}");
    let mut action = output(target, conversation, "sha256:image");
    for label in labels {
        let (operation, arguments) = run_of(action);
        assert_eq!(operation, "container label inspection");
        assert_eq!(arguments[4], name);
        action = output(target, conversation, label);
        if matches!(action, DockerAction::Finish(_)) {
            return action;
        }
    }
    action
}

/// Answers the state reading of an owned container with `status`.
fn read_state(
    target: &DockerRuntimeTarget<()>,
    conversation: &mut DockerConversation,
    status: &str,
) -> DockerAction<Infallible> {
    let name = format!("rumahl-app-{INSTALLATION}");
    let mut action = output(target, conversation, &format!("{name}\n"));
    for label in ["true", INSTALLATION, "system"] {
        let (operation, _) = run_of(action);
        assert_eq!(operation, "container label inspection");
        action = output(target, conversation, label);
    }
    let (operation, arguments) = run_of(action);
    assert_eq!(operation, "container state");
    assert_eq!(arguments[3], "{{.State.Status}}");
    output(target, conversation, status)
}

#[test]
fn replayed_preparation_keeps_the_matching_container() {
    let target = target();
    let spec = container_spec("1.0.0", "runtime/server.oci");
    let (fingerprint, _) = spec_fingerprint_and_artifact::<Infallible>(&spec).unwrap();
    let (mut conversation, _) = target.prepare::<Infallible>(&spec);
    let action = match_existing(
        &target,
        &mut conversation,
        ["true", INSTALLATION, "system", &fingerprint, "sha256:image"],
    );
    let (operation, _) = run_of(action);
    assert_eq!(operation, "container lookup");
    assert_eq!(
        finish_of(read_state(&target, &mut conversation, "exited")).unwrap(),
        RuntimeControlTargetOutcome::Accepted {
            state: AppRuntimeInstallationState::Prepared,
            changed: false
        }
    );
}

#[test]
fn rejects_conflicting_specification_for_same_installation() {
    let target = target();
    let spec = container_spec("1.0.0", "runtime/server.oci");
    let (mut conversation, _) = target.prepare::<Infallible>(&spec);
    let action = match_existing(
        &target,
        &mut conversation,
        ["true", INSTALLATION, "system", "another-fingerprint", "sha256:image"],
    );
    assert_eq!(
        finish_of(action).unwrap(),
        RuntimeControlTargetOutcome::Conflict
    );
}

#[test]
fn activates_a_prepared_container_and_confirms_it_runs() {
    let target = target();
    let spec = container_spec("1.0.0", "runtime/server.oci");
    let (fingerprint, _) = spec_fingerprint_and_artifact::<Infallible>(&spec).unwrap();
    let (mut conversation, _) = target.activate::<Infallible>(&spec);
    match_existing(
        &target,
        &mut conversation,
        ["true", INSTALLATION, "system", &fingerprint, "sha256:image"],
    );
    let (operation, arguments) = run_of(read_state(&target, &mut conversation, "created"));
    assert_eq!(operation, "container start");
    assert_eq!(
        arguments,
        vec![
            "container".to_owned(),
            "start".to_owned(),
            format!("rumahl-app-{INSTALLATION}")
        ]
    );
    output(&target, &mut conversation, "");
    assert_eq!(
        finish_of(read_state(&target, &mut conversation, "running")).unwrap(),
        RuntimeControlTargetOutcome::Accepted {
            state: AppRuntimeInstallationState::Active,
            changed: true
        }
    );
}

#[test]
fn activation_without_a_container_is_rejected() {
    let target = target();
    let spec = container_spec("1.0.0", "runtime/server.oci");
    let (mut conversation, _) = target.activate::<Infallible>(&spec);
    assert_eq!(
        finish_of(output(&target, &mut conversation, "")).unwrap(),
        RuntimeControlTargetOutcome::Rejected
    );
}

#[test]
fn deactivates_with_the_configured_stop_timeout() {
    let target = target();
    let (mut conversation, _) = target.deactivate::<Infallible>(INSTALLATION.to_owned());
    let (operation, arguments) = run_of(read_state(&target, &mut conversation, "running"));
    assert_eq!(operation, "container stop");
    assert_eq!(
        arguments,
        vec![
            "container".to_owned(),
            "stop".to_owned(),
            "--time".to_owned(),
            "10".to_owned(),
            format!("rumahl-app-{INSTALLATION}")
        ]
    );
    output(&target, &mut conversation, "");
    assert_eq!(
        finish_of(read_state(&target, &mut conversation, "exited")).unwrap(),
        RuntimeControlTargetOutcome::Accepted {
            state: AppRuntimeInstallationState::Prepared,
            changed: true
        }
    );
}

#[test]
fn removes_prepared_containers_and_their_namespace_but_refuses_active_ones() {
    let target = target();
    let (mut conversation, _) = target.remove::<Infallible>(INSTALLATION.to_owned());
    let (operation, _) = run_of(read_state(&target, &mut conversation, "exited"));
    assert_eq!(operation, "container remove");
    match output(&target, &mut conversation, "") {
        DockerAction::RemoveNamespace { path } => {
            assert_eq!(path, format!("/run/rumahl/apps/{INSTALLATION}"))
        }
        other => panic!("unexpected {other:?}"),
    }
    assert_eq!(
        finish_of(output(&target, &mut conversation, "")).unwrap(),
        RuntimeControlTargetOutcome::Accepted {
            state: AppRuntimeInstallationState::Absent,
            changed: true
        }
    );

    let (mut conversation, _) = target.remove::<Infallible>(INSTALLATION.to_owned());
    assert_eq!(
        finish_of(read_state(&target, &mut conversation, "running")).unwrap(),
        RuntimeControlTargetOutcome::Rejected
    );
}

#[test]
fn reports_state_of_absent_and_foreign_containers() {
    let target = target();
    let (mut conversation, _) = target.installation_state::<Infallible>(INSTALLATION.to_owned());
    assert_eq!(
        finish_of(output(&target, &mut conversation, "")).unwrap(),
        RuntimeControlTargetOutcome::Accepted {
            state: AppRuntimeInstallationState::Absent,
            changed: false
        }
    );
    let (mut conversation, _) = target.installation_state::<Infallible>(INSTALLATION.to_owned());
    output(
        &target,
        &mut conversation,
        &format!("rumahl-app-{INSTALLATION}\n"),
    );
    assert!(matches!(
        finish_of(output(&target, &mut conversation, "false")),
        Err(DockerRuntimeTargetError::InvalidOutput("container ownership"))
    ));
}

#[test]
fn probes_the_runtime_root_daemon_and_network() {
    let target = target();
    let (mut conversation, action) = target.probe::<Infallible>();
    assert!(matches!(action, DockerAction::ValidateRuntimeRoot));
    let (operation, _) = run_of(output(&target, &mut conversation, ""));
    assert_eq!(operation, "daemon probe");
    let (operation, arguments) = run_of(output(&target, &mut conversation, "27.0"));
    assert_eq!(operation, "network probe");
    assert_eq!(arguments.last().unwrap(), "rumahl-apps");
    assert!(matches!(
        output(&target, &mut conversation, "id"),
        DockerAction::Probed
    ));
}

#[test]
fn failed_commands_end_the_conversation_with_their_error() {
    let target = target();
    let (mut conversation, _) = target.installation_state::<Infallible>(INSTALLATION.to_owned());
    let result = finish_of(target.advance(
        &mut conversation,
        DockerEvent::Output(Err(DockerRuntimeTargetError::TimedOut("container lookup"))),
    ));
    assert!(matches!(
        result,
        Err(DockerRuntimeTargetError::TimedOut("container lookup"))
    ));
}

#[test]
fn checks_runtime_root_and_namespace_ownership_and_permissions() {
    assert!(check_runtime_root::<Infallible>(true, 1000, 1000, 0o40755).is_ok());
    assert!(matches!(
        check_runtime_root::<Infallible>(false, 1000, 1000, 0o755),
        Err(DockerRuntimeTargetError::RuntimeRootIsNotDirectory)
    ));
    assert!(matches!(
        check_runtime_root::<Infallible>(true, 0, 1000, 0o755),
        Err(DockerRuntimeTargetError::RuntimeRootOwnerMismatch {
            expected: 1000,
            actual: 0
        })
    ));
    assert!(matches!(
        check_runtime_root::<Infallible>(true, 1000, 1000, 0o40775),
        Err(DockerRuntimeTargetError::RuntimeRootPermissions(0o775))
    ));
    assert!(check_namespace::<Infallible>(true, true, 1000, 1000, 0o770).is_ok());
    assert!(matches!(
        check_namespace::<Infallible>(false, true, 1000, 1000, 0o770),
        Err(DockerRuntimeTargetError::NamespacePermissions(0o770))
    ));
}

#[test]
fn command_output_reports_failures_and_trims_the_output() {
    assert!(matches!(
        command_output::<Infallible>("inspect", false, Some(3), false, b"ignored".to_vec()),
        Err(DockerRuntimeTargetError::CommandFailed { operation: "inspect", status: Some(3) })
    ));
    assert!(matches!(
        command_output::<Infallible>("inspect", true, Some(0), true, b"partial".to_vec()),
        Err(DockerRuntimeTargetError::OutputTooLarge("inspect"))
    ));
    assert!(matches!(
        command_output::<Infallible>("inspect", true, Some(0), false, vec![0xff, 0xfe]),
        Err(DockerRuntimeTargetError::InvalidOutput("inspect"))
    ));
    assert_eq!(
        command_output::<Infallible>("lookup", true, Some(0), false, "  abc123\n\u{a0}".as_bytes().to_vec())
            .ok()
            .unwrap(),
        "abc123"
    );
}
