//! The Docker runtime target as a conversation with the Docker CLI.
//!
//! Each operation of the target (probe, prepare, activate, report the state,
//! deactivate, remove) is a conversation: the target names an action, the
//! caller performs it (runs the Docker CLI, resolves an image, sets up the
//! installation's namespace directory) and hands back what came of it, and
//! the target decides the next action, until it finishes with an outcome.
use vstd::prelude::*;

use crate::bytes::SLASH;
use crate::docker_runtime_target::{
    artifact_path, container_status_state, image_reference_error, is_container_spec,
    select_container, selected_container, spec_fingerprint, spec_fingerprint_and_artifact,
    state_from_status, str_equals, DockerImageReference, DockerRuntimeTargetConfig,
    DockerRuntimeTargetConfigView, DockerRuntimeTargetError,
};
use crate::runtime_model::{AppRuntimeInstallationState, RuntimeInstallationSpec};
use crate::runtime_provider::{
    outcome_valid_for, RuntimeControlTargetOutcome, OP_ACTIVATE, OP_DEACTIVATE, OP_PREPARE,
    OP_REMOVE, OP_STATE,
};
use crate::text::{concat, decimal, decimal_u8, owned, utf8_of};

verus! {

// ---------------------------------------------------------------------------
// Command lines
// ---------------------------------------------------------------------------

/// The texts of a list of strings.
pub open spec fn texts(v: Seq<String>) -> Seq<Seq<char>> {
    v.map_values(|s: String| s@)
}

/// The name of the container that runs an installation.
pub open spec fn container_name_text(installation_id: Seq<char>) -> Seq<char> {
    "rumahl-app-"@ + installation_id
}

pub open spec fn managed_label() -> Seq<char> {
    "com.rumahl.managed"@
}

pub open spec fn installation_label() -> Seq<char> {
    "com.rumahl.installation"@
}

pub open spec fn instance_label() -> Seq<char> {
    "com.rumahl.supervisor"@
}

pub open spec fn spec_label() -> Seq<char> {
    "com.rumahl.runtime-spec"@
}

pub open spec fn image_label() -> Seq<char> {
    "com.rumahl.image-id"@
}

/// `docker container ls` restricted to the installation's container name.
pub open spec fn lookup_command(installation_id: Seq<char>) -> Seq<Seq<char>> {
    seq![
        "container"@,
        "ls"@,
        "--all"@,
        "--filter"@,
        "name=^/"@ + container_name_text(installation_id) + "$"@,
        "--format"@,
        "{{.Names}}"@,
    ]
}

/// `docker container inspect` of one container with a Go template.
pub open spec fn inspect_command(format: Seq<char>, name: Seq<char>) -> Seq<Seq<char>> {
    seq!["container"@, "inspect"@, "--format"@, format, name]
}

/// The Go template that prints one label of a container.
pub open spec fn label_format_text(label: Seq<char>) -> Seq<char> {
    "{{index .Config.Labels \""@ + label + "\"}}"@
}

/// Whether a path ends with a separator.
pub open spec fn ends_with_separator(path: Seq<char>) -> bool {
    utf8_of(path).len() > 0 && utf8_of(path).last() == SLASH
}

/// A path extended by one relative component, as `Path::join` does it.
pub open spec fn path_join(base: Seq<char>, part: Seq<char>) -> Seq<char> {
    if ends_with_separator(base) {
        base + part
    } else {
        base + "/"@ + part
    }
}

/// The installation's namespace directory under the runtime root.
pub open spec fn namespace_path(
    config: DockerRuntimeTargetConfigView,
    installation_id: Seq<char>,
) -> Seq<char> {
    path_join(config.runtime_root, installation_id)
}

/// The read-only bind mount of the namespace's secret directory.
pub open spec fn secret_mount(namespace: Seq<char>) -> Seq<char> {
    "type=bind,src="@ + path_join(namespace, "secrets"@)
        + ",dst=/run/rumahl/secrets,readonly,bind-propagation=rprivate"@
}

/// `docker container create` of an installation's hardened container: the
/// ownership, specification and image labels, a read-only root filesystem,
/// the configured network, no capabilities, no privilege escalation, limits
/// on processes and memory, a private `/tmp`, the unprivileged `nobody`
/// user and the secret directory mounted read-only.
pub open spec fn create_command(
    config: DockerRuntimeTargetConfigView,
    installation_id: Seq<char>,
    fingerprint: Seq<char>,
    image: Seq<char>,
    image_id: Seq<char>,
) -> Seq<Seq<char>> {
    seq![
        "container"@,
        "create"@,
        "--name"@,
        container_name_text(installation_id),
        "--label"@,
        managed_label() + "=true"@,
        "--label"@,
        installation_label() + "="@ + installation_id,
        "--label"@,
        instance_label() + "="@ + config.supervisor_instance,
        "--label"@,
        spec_label() + "="@ + fingerprint,
        "--label"@,
        image_label() + "="@ + image_id,
        "--read-only"@,
        "--network"@,
        config.network,
        "--cap-drop"@,
        "ALL"@,
        "--security-opt"@,
        "no-new-privileges=true"@,
        "--pids-limit"@,
        "128"@,
        "--memory"@,
        "256m"@,
        "--stop-timeout"@,
        decimal(config.stop_timeout_seconds as nat),
        "--tmpfs"@,
        "/tmp:rw,noexec,nosuid,nodev,size=32m,mode=1777"@,
        "--user"@,
        "65534:65534"@,
        "--mount"@,
        secret_mount(namespace_path(config, installation_id)),
        image,
    ]
}

/// The container name of an installation.
pub fn container_name(installation_id: &str) -> (r: String)
    ensures
        r@ == container_name_text(installation_id@),
{
    concat("rumahl-app-", installation_id)
}

/// The arguments that look the installation's container up.
pub fn lookup_arguments(installation_id: &str) -> (r: Vec<String>)
    ensures
        texts(r@) == lookup_command(installation_id@),
{
    let name = container_name(installation_id);
    let filter_start = concat("name=^/", name.as_str());
    let filter = concat(filter_start.as_str(), "$");
    let r = vec![
        owned("container"),
        owned("ls"),
        owned("--all"),
        owned("--filter"),
        filter,
        owned("--format"),
        owned("{{.Names}}"),
    ];
    assert(texts(r@) =~= lookup_command(installation_id@));
    r
}

/// The arguments that inspect one container with a Go template.
pub fn inspect_arguments(format: String, name: String) -> (r: Vec<String>)
    ensures
        texts(r@) == inspect_command(format@, name@),
{
    let r = vec![owned("container"), owned("inspect"), owned("--format"), format, name];
    assert(texts(r@) =~= inspect_command(format@, name@));
    r
}

/// The arguments that print one label of the installation's container.
pub fn label_arguments(label: &str, installation_id: &str) -> (r: Vec<String>)
    ensures
        texts(r@) == inspect_command(
            label_format_text(label@),
            container_name_text(installation_id@),
        ),
{
    let start = concat("{{index .Config.Labels \"", label);
    let format = concat(start.as_str(), "\"}}");
    inspect_arguments(format, container_name(installation_id))
}

/// `base` extended by the relative component `part`.
pub fn join_path(base: &str, part: &str) -> (r: String)
    ensures
        r@ == path_join(base@, part@),
{
    let bytes = base.as_bytes();
    proof {
        vstd::utf8::encode_utf8_decode_utf8(base@);
    }
    if bytes.len() > 0 && bytes[bytes.len() - 1] == SLASH {
        concat(base, part)
    } else {
        let with_separator = concat(base, "/");
        let r = concat(with_separator.as_str(), part);
        assert(r@ =~= base@ + "/"@ + part@);
        r
    }
}

/// `label=value`.
fn label_assignment(label: &str, value: &str) -> (r: String)
    ensures
        r@ == label@ + "="@ + value@,
{
    let start = concat(label, "=");
    concat(start.as_str(), value)
}

/// The arguments that create the installation's container.
pub fn create_arguments(
    config: &DockerRuntimeTargetConfig,
    installation_id: &str,
    fingerprint: &str,
    image: &str,
    image_id: &str,
) -> (r: Vec<String>)
    ensures
        texts(r@) == create_command(
            config@,
            installation_id@,
            fingerprint@,
            image@,
            image_id@,
        ),
{
    let namespace = join_path(config.runtime_root(), installation_id);
    let secrets = join_path(namespace.as_str(), "secrets");
    let mount_start = concat("type=bind,src=", secrets.as_str());
    let mount = concat(
        mount_start.as_str(),
        ",dst=/run/rumahl/secrets,readonly,bind-propagation=rprivate",
    );
    let r = vec![
        owned("container"),
        owned("create"),
        owned("--name"),
        container_name(installation_id),
        owned("--label"),
        concat("com.rumahl.managed", "=true"),
        owned("--label"),
        label_assignment("com.rumahl.installation", installation_id),
        owned("--label"),
        label_assignment("com.rumahl.supervisor", config.supervisor_instance()),
        owned("--label"),
        label_assignment("com.rumahl.runtime-spec", fingerprint),
        owned("--label"),
        label_assignment("com.rumahl.image-id", image_id),
        owned("--read-only"),
        owned("--network"),
        owned(config.network()),
        owned("--cap-drop"),
        owned("ALL"),
        owned("--security-opt"),
        owned("no-new-privileges=true"),
        owned("--pids-limit"),
        owned("128"),
        owned("--memory"),
        owned("256m"),
        owned("--stop-timeout"),
        decimal_u8(config.stop_timeout_seconds()),
        owned("--tmpfs"),
        owned("/tmp:rw,noexec,nosuid,nodev,size=32m,mode=1777"),
        owned("--user"),
        owned("65534:65534"),
        owned("--mount"),
        mount,
        owned(image),
    ];
    assert(texts(r@) =~= create_command(config@, installation_id@, fingerprint@, image@, image_id@));
    r
}

// ---------------------------------------------------------------------------
// Conversations
// ---------------------------------------------------------------------------

/// The operation a conversation carries out.
#[derive(Debug, Clone, Copy, PartialEq, Eq, Structural)]
pub enum DockerOperation {
    Probe,
    Prepare,
    Activate,
    Report,
    Deactivate,
    Remove,
}

/// What a conversation waits for.
#[derive(Debug, Clone, Copy, PartialEq, Eq, Structural)]
pub enum DockerPhase {
    /// The runtime root check of a probe.
    RootCheck,
    DaemonProbe,
    NetworkProbe,
    /// The lookup that starts comparing an existing container with a
    /// specification.
    MatchLookup,
    MatchImage,
    MatchManaged,
    MatchInstallation,
    MatchInstance,
    MatchSpecLabel,
    MatchImageLabel,
    /// The lookup that starts reading the container's state.
    StateLookup,
    StateManaged,
    StateInstallation,
    StateInstance,
    StateStatus,
    ImageResolution,
    ImageInspection,
    NamespaceSetup,
    ContainerCreate,
    ContainerStart,
    ContainerStop,
    ContainerRemove,
    NamespaceRemoval,
    Finished,
}

/// Where one operation of the Docker target stands.
#[derive(Debug)]
pub struct DockerConversation {
    pub operation: DockerOperation,
    pub phase: DockerPhase,
    /// Whether the container state is being read again after a start or stop.
    pub restarted: bool,
    pub installation_id: String,
    pub fingerprint: String,
    pub artifact: String,
    pub configured_image: String,
    pub image: String,
    pub image_id: String,
    pub namespace_created: bool,
    pub changed: bool,
}

pub struct DockerConversationView {
    pub operation: DockerOperation,
    pub phase: DockerPhase,
    pub restarted: bool,
    pub installation_id: Seq<char>,
    pub fingerprint: Seq<char>,
    pub artifact: Seq<char>,
    pub configured_image: Seq<char>,
    pub image: Seq<char>,
    pub image_id: Seq<char>,
    pub namespace_created: bool,
    pub changed: bool,
}

impl View for DockerConversation {
    type V = DockerConversationView;

    open spec fn view(&self) -> DockerConversationView {
        DockerConversationView {
            operation: self.operation,
            phase: self.phase,
            restarted: self.restarted,
            installation_id: self.installation_id@,
            fingerprint: self.fingerprint@,
            artifact: self.artifact@,
            configured_image: self.configured_image@,
            image: self.image@,
            image_id: self.image_id@,
            namespace_created: self.namespace_created,
            changed: self.changed,
        }
    }
}

/// What the target asks its caller to do next.
#[derive(Debug)]
pub enum DockerAction<E> {
    /// Check that the runtime root is a private directory of this user;
    /// answer with `Output`.
    ValidateRuntimeRoot,
    /// Run the Docker CLI with these arguments; answer with `Output`, the
    /// trimmed standard output or the failure.
    Run { operation: &'static str, arguments: Vec<String> },
    /// Resolve the container artifact to an image; answer with `Image`.
    ResolveImage { artifact: String },
    /// Create or check the private namespace directory and its secret
    /// directory; answer with `Namespace`, whether it was created.
    EnsureNamespace { path: String },
    /// Remove the namespace directory and its secret directory if they are
    /// empty and exist; answer with `Output`.
    RemoveNamespace { path: String },
    /// Remove the namespace directory created by this operation, ignoring
    /// failures, and fail with `error`.
    Abandon { path: String, error: DockerRuntimeTargetError<E> },
    /// The Docker daemon and the network answered the probe.
    Probed,
    /// The operation is over.
    Finish(Result<RuntimeControlTargetOutcome, DockerRuntimeTargetError<E>>),
}

pub enum DockerActionView<E> {
    ValidateRuntimeRoot,
    Run { operation: Seq<char>, arguments: Seq<Seq<char>> },
    ResolveImage { artifact: Seq<char> },
    EnsureNamespace { path: Seq<char> },
    RemoveNamespace { path: Seq<char> },
    Abandon { path: Seq<char>, error: DockerRuntimeTargetError<E> },
    Probed,
    Finish(Result<RuntimeControlTargetOutcome, DockerRuntimeTargetError<E>>),
}

impl<E> View for DockerAction<E> {
    type V = DockerActionView<E>;

    open spec fn view(&self) -> DockerActionView<E> {
        match self {
            DockerAction::ValidateRuntimeRoot => DockerActionView::ValidateRuntimeRoot,
            DockerAction::Run { operation, arguments } => DockerActionView::Run {
                operation: operation@,
                arguments: texts(arguments@),
            },
            DockerAction::ResolveImage { artifact } => DockerActionView::ResolveImage {
                artifact: artifact@,
            },
            DockerAction::EnsureNamespace { path } => DockerActionView::EnsureNamespace {
                path: path@,
            },
            DockerAction::RemoveNamespace { path } => DockerActionView::RemoveNamespace {
                path: path@,
            },
            DockerAction::Abandon { path, error } => DockerActionView::Abandon {
                path: path@,
                error: *error,
            },
            DockerAction::Probed => DockerActionView::Probed,
            DockerAction::Finish(result) => DockerActionView::Finish(*result),
        }
    }
}

/// What came of an action.
#[derive(Debug)]
pub enum DockerEvent<E> {
    Output(Result<String, DockerRuntimeTargetError<E>>),
    Image(Result<DockerImageReference, E>),
    Namespace(Result<bool, DockerRuntimeTargetError<E>>),
}

pub enum DockerEventView<E> {
    Output(Result<Seq<char>, DockerRuntimeTargetError<E>>),
    Image(Result<Seq<char>, E>),
    Namespace(Result<bool, DockerRuntimeTargetError<E>>),
}

impl<E> View for DockerEvent<E> {
    type V = DockerEventView<E>;

    open spec fn view(&self) -> DockerEventView<E> {
        match self {
            DockerEvent::Output(Ok(output)) => DockerEventView::Output(Ok(output@)),
            DockerEvent::Output(Err(e)) => DockerEventView::Output(Err(*e)),
            DockerEvent::Image(Ok(image)) => DockerEventView::Image(Ok(image.text())),
            DockerEvent::Image(Err(e)) => DockerEventView::Image(Err(*e)),
            DockerEvent::Namespace(result) => DockerEventView::Namespace(*result),
        }
    }
}

/// Whether a conversation in `phase` takes `event`: an image after an image
/// resolution, a namespace after a namespace setup, command output
/// otherwise, and nothing once finished.
pub open spec fn takes<E>(phase: DockerPhase, event: DockerEventView<E>) -> bool {
    &&& phase != DockerPhase::Finished
    &&& (phase == DockerPhase::ImageResolution <==> event is Image)
    &&& (phase == DockerPhase::NamespaceSetup <==> event is Namespace)
}

pub open spec fn run<E>(operation: Seq<char>, arguments: Seq<Seq<char>>) -> DockerActionView<E> {
    DockerActionView::Run { operation, arguments }
}

pub open spec fn moved<E>(
    c: DockerConversationView,
    phase: DockerPhase,
    action: DockerActionView<E>,
) -> (DockerConversationView, DockerActionView<E>) {
    (DockerConversationView { phase, ..c }, action)
}

pub open spec fn finished<E>(
    c: DockerConversationView,
    result: Result<RuntimeControlTargetOutcome, DockerRuntimeTargetError<E>>,
) -> (DockerConversationView, DockerActionView<E>) {
    moved(c, DockerPhase::Finished, DockerActionView::Finish(result))
}

pub open spec fn accepted<E>(
    state: AppRuntimeInstallationState,
    changed: bool,
) -> Result<RuntimeControlTargetOutcome, DockerRuntimeTargetError<E>> {
    Ok(RuntimeControlTargetOutcome::Accepted { state, changed })
}

/// The inspection of one label of the installation's container.
pub open spec fn label_run<E>(label: Seq<char>, c: DockerConversationView) -> DockerActionView<E> {
    run(
        "container label inspection"@,
        inspect_command(label_format_text(label), container_name_text(c.installation_id)),
    )
}

/// Starts reading the container's state with a lookup.
pub open spec fn state_lookup<E>(c: DockerConversationView) -> (
    DockerConversationView,
    DockerActionView<E>,
) {
    moved(
        c,
        DockerPhase::StateLookup,
        run("container lookup"@, lookup_command(c.installation_id)),
    )
}

/// What an operation does once it knows the container's state.
pub open spec fn state_known<E>(
    config: DockerRuntimeTargetConfigView,
    c: DockerConversationView,
    state: AppRuntimeInstallationState,
) -> (DockerConversationView, DockerActionView<E>) {
    let name = container_name_text(c.installation_id);
    match c.operation {
        DockerOperation::Activate => if !c.restarted {
            if state == AppRuntimeInstallationState::Active {
                finished(c, accepted(AppRuntimeInstallationState::Active, false))
            } else {
                moved(
                    c,
                    DockerPhase::ContainerStart,
                    run("container start"@, seq!["container"@, "start"@, name]),
                )
            }
        } else if state != AppRuntimeInstallationState::Active {
            finished(c, Ok(RuntimeControlTargetOutcome::Rejected))
        } else {
            finished(c, accepted(AppRuntimeInstallationState::Active, true))
        },
        DockerOperation::Deactivate => if !c.restarted {
            if state != AppRuntimeInstallationState::Active {
                finished(c, accepted(state, false))
            } else {
                moved(
                    c,
                    DockerPhase::ContainerStop,
                    run(
                        "container stop"@,
                        seq![
                            "container"@,
                            "stop"@,
                            "--time"@,
                            decimal(config.stop_timeout_seconds as nat),
                            name,
                        ],
                    ),
                )
            }
        } else if state == AppRuntimeInstallationState::Active {
            finished(c, Ok(RuntimeControlTargetOutcome::Rejected))
        } else {
            finished(c, accepted(AppRuntimeInstallationState::Prepared, true))
        },
        DockerOperation::Remove => if state == AppRuntimeInstallationState::Absent {
            moved(
                DockerConversationView { changed: false, ..c },
                DockerPhase::NamespaceRemoval,
                DockerActionView::RemoveNamespace { path: namespace_path(config, c.installation_id) },
            )
        } else if state == AppRuntimeInstallationState::Active {
            finished(c, Ok(RuntimeControlTargetOutcome::Rejected))
        } else {
            moved(
                c,
                DockerPhase::ContainerRemove,
                run("container remove"@, seq!["container"@, "rm"@, name]),
            )
        },
        _ => finished(c, accepted(state, false)),
    }
}

/// What a conversation does with the successful output of its last action.
pub open spec fn output_step<E>(
    config: DockerRuntimeTargetConfigView,
    c: DockerConversationView,
    output: Seq<char>,
) -> (DockerConversationView, DockerActionView<E>) {
    let name = container_name_text(c.installation_id);
    let conflict = finished(c, Ok(RuntimeControlTargetOutcome::Conflict));
    let foreign = finished(c, Err(DockerRuntimeTargetError::InvalidOutput("container ownership")));
    match c.phase {
        DockerPhase::RootCheck => moved(
            c,
            DockerPhase::DaemonProbe,
            run("daemon probe"@, seq!["version"@, "--format"@, "{{.Server.Version}}"@]),
        ),
        DockerPhase::DaemonProbe => moved(
            c,
            DockerPhase::NetworkProbe,
            run("network probe"@, seq!["network"@, "inspect"@, "--format"@, "{{.Id}}"@, config.network]),
        ),
        DockerPhase::NetworkProbe => moved(c, DockerPhase::Finished, DockerActionView::Probed),
        DockerPhase::MatchLookup => match selected_container(utf8_of(output), utf8_of(name)) {
            Err(_) => finished(c, Err(DockerRuntimeTargetError::InvalidOutput("container lookup"))),
            Ok(None) => if c.operation == DockerOperation::Prepare {
                moved(c, DockerPhase::ImageResolution, DockerActionView::ResolveImage { artifact: c.artifact })
            } else {
                finished(c, Ok(RuntimeControlTargetOutcome::Rejected))
            },
            Ok(Some(_)) => moved(
                c,
                DockerPhase::MatchImage,
                run("container image inspection"@, inspect_command("{{.Image}}"@, name)),
            ),
        },
        DockerPhase::MatchImage => moved(
            DockerConversationView { configured_image: output, ..c },
            DockerPhase::MatchManaged,
            label_run(managed_label(), c),
        ),
        DockerPhase::MatchManaged => if output == "true"@ {
            moved(c, DockerPhase::MatchInstallation, label_run(installation_label(), c))
        } else {
            conflict
        },
        DockerPhase::MatchInstallation => if output == c.installation_id {
            moved(c, DockerPhase::MatchInstance, label_run(instance_label(), c))
        } else {
            conflict
        },
        DockerPhase::MatchInstance => if output == config.supervisor_instance {
            moved(c, DockerPhase::MatchSpecLabel, label_run(spec_label(), c))
        } else {
            conflict
        },
        DockerPhase::MatchSpecLabel => if output == c.fingerprint {
            moved(c, DockerPhase::MatchImageLabel, label_run(image_label(), c))
        } else {
            conflict
        },
        DockerPhase::MatchImageLabel => if output == c.configured_image {
            state_lookup(c)
        } else {
            conflict
        },
        DockerPhase::StateLookup => match selected_container(utf8_of(output), utf8_of(name)) {
            Err(_) => finished(c, Err(DockerRuntimeTargetError::InvalidOutput("container lookup"))),
            Ok(None) => state_known(config, c, AppRuntimeInstallationState::Absent),
            Ok(Some(_)) => moved(c, DockerPhase::StateManaged, label_run(managed_label(), c)),
        },
        DockerPhase::StateManaged => if output == "true"@ {
            moved(c, DockerPhase::StateInstallation, label_run(installation_label(), c))
        } else {
            foreign
        },
        DockerPhase::StateInstallation => if output == c.installation_id {
            moved(c, DockerPhase::StateInstance, label_run(instance_label(), c))
        } else {
            foreign
        },
        DockerPhase::StateInstance => if output == config.supervisor_instance {
            moved(
                c,
                DockerPhase::StateStatus,
                run("container state"@, inspect_command("{{.State.Status}}"@, name)),
            )
        } else {
            foreign
        },
        DockerPhase::StateStatus => match container_status_state(output) {
            None => finished(c, Err(DockerRuntimeTargetError::InvalidOutput("container state"))),
            Some(state) => state_known(config, c, state),
        },
        DockerPhase::ImageInspection => if image_reference_error(utf8_of(output)) is None {
            moved(
                DockerConversationView { image_id: output, ..c },
                DockerPhase::NamespaceSetup,
                DockerActionView::EnsureNamespace { path: namespace_path(config, c.installation_id) },
            )
        } else {
            finished(c, Err(DockerRuntimeTargetError::InvalidOutput("image inspection")))
        },
        DockerPhase::ContainerCreate => finished(c, accepted(AppRuntimeInstallationState::Prepared, true)),
        DockerPhase::ContainerStart => state_lookup(DockerConversationView { restarted: true, ..c }),
        DockerPhase::ContainerStop => state_lookup(DockerConversationView { restarted: true, ..c }),
        DockerPhase::ContainerRemove => moved(
            DockerConversationView { changed: true, ..c },
            DockerPhase::NamespaceRemoval,
            DockerActionView::RemoveNamespace { path: namespace_path(config, c.installation_id) },
        ),
        DockerPhase::NamespaceRemoval => finished(c, accepted(AppRuntimeInstallationState::Absent, c.changed)),
        _ => moved(c, c.phase, DockerActionView::Probed),
    }
}

/// One step of a conversation: from where it stands and what came of its
/// last action to where it stands next and its next action. A failure ends
/// the conversation with that failure; a failed container creation first
/// abandons a namespace that this operation created.
pub open spec fn docker_step<E>(
    config: DockerRuntimeTargetConfigView,
    c: DockerConversationView,
    event: DockerEventView<E>,
) -> (DockerConversationView, DockerActionView<E>) {
    match event {
        DockerEventView::Output(Err(e)) => if c.phase == DockerPhase::ContainerCreate
            && c.namespace_created {
            moved(
                c,
                DockerPhase::Finished,
                DockerActionView::Abandon { path: namespace_path(config, c.installation_id), error: e },
            )
        } else {
            finished(c, Err(e))
        },
        DockerEventView::Output(Ok(output)) => output_step(config, c, output),
        DockerEventView::Image(Err(e)) => finished(c, Err(DockerRuntimeTargetError::ImageResolution(e))),
        DockerEventView::Image(Ok(image)) => moved(
            DockerConversationView { image, ..c },
            DockerPhase::ImageInspection,
            run("image inspection"@, seq!["image"@, "inspect"@, "--format"@, "{{.Id}}"@, image]),
        ),
        DockerEventView::Namespace(Err(e)) => finished(c, Err(e)),
        DockerEventView::Namespace(Ok(created)) => moved(
            DockerConversationView { namespace_created: created, ..c },
            DockerPhase::ContainerCreate,
            run(
                "container create"@,
                create_command(config, c.installation_id, c.fingerprint, c.image, c.image_id),
            ),
        ),
    }
}

// ---------------------------------------------------------------------------
// The target
// ---------------------------------------------------------------------------

/// Runs container apps through the Docker CLI. The image resolver turns a
/// package's container artifact into an immutable image; the caller invokes
/// it when a conversation asks for `ResolveImage`.
#[derive(Debug)]
pub struct DockerRuntimeTarget<R> {
    config: DockerRuntimeTargetConfig,
    image_resolver: R,
}

/// A conversation as it opens.
pub open spec fn opened(
    operation: DockerOperation,
    phase: DockerPhase,
    installation_id: Seq<char>,
    fingerprint: Seq<char>,
    artifact: Seq<char>,
) -> DockerConversationView {
    DockerConversationView {
        operation,
        phase,
        restarted: false,
        installation_id,
        fingerprint,
        artifact,
        configured_image: Seq::empty(),
        image: Seq::empty(),
        image_id: Seq::empty(),
        namespace_created: false,
        changed: false,
    }
}

fn open_conversation(
    operation: DockerOperation,
    phase: DockerPhase,
    installation_id: String,
    fingerprint: String,
    artifact: String,
) -> (r: DockerConversation)
    ensures
        r@ == opened(operation, phase, installation_id@, fingerprint@, artifact@),
{
    DockerConversation {
        operation,
        phase,
        restarted: false,
        installation_id,
        fingerprint,
        artifact,
        configured_image: String::new(),
        image: String::new(),
        image_id: String::new(),
        namespace_created: false,
        changed: false,
    }
}

/// Accepts the image ID that `docker image inspect` printed only if it is an
/// immutable image reference.
pub fn validate_image_id<E>(value: &str) -> (r: Result<(), DockerRuntimeTargetError<E>>)
    ensures
        image_reference_error(utf8_of(value@)) is None ==> r is Ok,
        image_reference_error(utf8_of(value@)) is Some ==> (r matches Err(
            DockerRuntimeTargetError::InvalidOutput(operation),
        ) && operation == "image inspection"),
{
    match DockerImageReference::parse(owned(value)) {
        Ok(_) => Ok(()),
        Err(_) => Err(DockerRuntimeTargetError::InvalidOutput("image inspection")),
    }
}

impl<R> DockerRuntimeTarget<R> {
    pub closed spec fn spec_config(&self) -> DockerRuntimeTargetConfig {
        self.config
    }

    pub closed spec fn spec_image_resolver(&self) -> R {
        self.image_resolver
    }

    pub fn new(config: DockerRuntimeTargetConfig, image_resolver: R) -> (r: Self)
        ensures
            r.spec_config() == config,
            r.spec_image_resolver() == image_resolver,
    {
        DockerRuntimeTarget { config, image_resolver }
    }

    pub fn config(&self) -> (r: &DockerRuntimeTargetConfig)
        ensures
            *r == self.spec_config(),
    {
        &self.config
    }

    pub fn image_resolver(&self) -> (r: &R)
        ensures
            *r == self.spec_image_resolver(),
    {
        &self.image_resolver
    }

    /// Opens the probe: the runtime root check, then the daemon and the
    /// network.
    pub fn probe<E>(&self) -> (r: (DockerConversation, DockerAction<E>))
        ensures
            r.0@ == opened(DockerOperation::Probe, DockerPhase::RootCheck, Seq::empty(), Seq::empty(), Seq::empty()),
            r.1@ == DockerActionView::<E>::ValidateRuntimeRoot,
    {
        (
            open_conversation(DockerOperation::Probe, DockerPhase::RootCheck, String::new(), String::new(), String::new()),
            DockerAction::ValidateRuntimeRoot,
        )
    }

    /// Opens a conversation that compares the installation's container with
    /// a container specification: a lookup of the container.
    fn open_matching<E>(&self, operation: DockerOperation, spec: &RuntimeInstallationSpec) -> (r: (
        DockerConversation,
        DockerAction<E>,
    ))
        ensures
            is_container_spec(*spec) ==> r.0@ == opened(
                operation,
                DockerPhase::MatchLookup,
                spec.spec_identity().spec_installation_id(),
                r.0.fingerprint@,
                artifact_path(spec.spec_runtime().spec_entrypoints()),
            ) && utf8_of(r.0.fingerprint@) == spec_fingerprint(*spec) && r.1@ == run::<E>(
                "container lookup"@,
                lookup_command(spec.spec_identity().spec_installation_id()),
            ),
            !is_container_spec(*spec) ==> r.0@ == opened(
                operation,
                DockerPhase::Finished,
                spec.spec_identity().spec_installation_id(),
                Seq::empty(),
                Seq::empty(),
            ) && r.1@ == DockerActionView::<E>::Finish(
                Err(DockerRuntimeTargetError::InvalidRuntimeSpec),
            ),
    {
        let installation_id = owned(spec.identity().installation_id());
        match spec_fingerprint_and_artifact::<E>(spec) {
            Ok((fingerprint, artifact)) => {
                let arguments = lookup_arguments(installation_id.as_str());
                (
                    open_conversation(operation, DockerPhase::MatchLookup, installation_id, fingerprint, artifact),
                    DockerAction::Run { operation: "container lookup", arguments },
                )
            },
            Err(_) => (
                open_conversation(operation, DockerPhase::Finished, installation_id, String::new(), String::new()),
                DockerAction::Finish(Err(DockerRuntimeTargetError::InvalidRuntimeSpec)),
            ),
        }
    }

    /// Opens a conversation that starts by reading the container's state.
    fn open_state<E>(&self, operation: DockerOperation, installation_id: String) -> (r: (
        DockerConversation,
        DockerAction<E>,
    ))
        ensures
            r.0@ == opened(operation, DockerPhase::StateLookup, installation_id@, Seq::empty(), Seq::empty()),
            r.1@ == run::<E>("container lookup"@, lookup_command(installation_id@)),
    {
        let arguments = lookup_arguments(installation_id.as_str());
        (
            open_conversation(operation, DockerPhase::StateLookup, installation_id, String::new(), String::new()),
            DockerAction::Run { operation: "container lookup", arguments },
        )
    }

    /// Opens the preparation of a container specification: an existing
    /// container is kept if it matches the specification, otherwise the
    /// image is resolved and the container created.
    pub fn prepare<E>(&self, spec: &RuntimeInstallationSpec) -> (r: (DockerConversation, DockerAction<E>))
        ensures
            is_container_spec(*spec) ==> r.0@ == opened(
                DockerOperation::Prepare,
                DockerPhase::MatchLookup,
                spec.spec_identity().spec_installation_id(),
                r.0.fingerprint@,
                artifact_path(spec.spec_runtime().spec_entrypoints()),
            ) && utf8_of(r.0.fingerprint@) == spec_fingerprint(*spec) && r.1@ == run::<E>(
                "container lookup"@,
                lookup_command(spec.spec_identity().spec_installation_id()),
            ),
            !is_container_spec(*spec) ==> r.0@.phase == DockerPhase::Finished && r.1@
                == DockerActionView::<E>::Finish(Err(DockerRuntimeTargetError::InvalidRuntimeSpec)),
    {
        self.open_matching(DockerOperation::Prepare, spec)
    }

    /// Opens the activation of a prepared container that matches the
    /// specification.
    pub fn activate<E>(&self, spec: &RuntimeInstallationSpec) -> (r: (DockerConversation, DockerAction<E>))
        ensures
            is_container_spec(*spec) ==> r.0@ == opened(
                DockerOperation::Activate,
                DockerPhase::MatchLookup,
                spec.spec_identity().spec_installation_id(),
                r.0.fingerprint@,
                artifact_path(spec.spec_runtime().spec_entrypoints()),
            ) && utf8_of(r.0.fingerprint@) == spec_fingerprint(*spec) && r.1@ == run::<E>(
                "container lookup"@,
                lookup_command(spec.spec_identity().spec_installation_id()),
            ),
            !is_container_spec(*spec) ==> r.0@.phase == DockerPhase::Finished && r.1@
                == DockerActionView::<E>::Finish(Err(DockerRuntimeTargetError::InvalidRuntimeSpec)),
    {
        self.open_matching(DockerOperation::Activate, spec)
    }

    /// Opens the report of the installation's state.
    pub fn installation_state<E>(&self, installation_id: String) -> (r: (DockerConversation, DockerAction<E>))
        ensures
            r.0@ == opened(DockerOperation::Report, DockerPhase::StateLookup, installation_id@, Seq::empty(), Seq::empty()),
            r.1@ == run::<E>("container lookup"@, lookup_command(installation_id@)),
    {
        self.open_state(DockerOperation::Report, installation_id)
    }

    /// Opens the deactivation of the installation's container.
    pub fn deactivate<E>(&self, installation_id: String) -> (r: (DockerConversation, DockerAction<E>))
        ensures
            r.0@ == opened(DockerOperation::Deactivate, DockerPhase::StateLookup, installation_id@, Seq::empty(), Seq::empty()),
            r.1@ == run::<E>("container lookup"@, lookup_command(installation_id@)),
    {
        self.open_state(DockerOperation::Deactivate, installation_id)
    }

    /// Opens the removal of the installation's container and namespace.
    pub fn remove<E>(&self, installation_id: String) -> (r: (DockerConversation, DockerAction<E>))
        ensures
            r.0@ == opened(DockerOperation::Remove, DockerPhase::StateLookup, installation_id@, Seq::empty(), Seq::empty()),
            r.1@ == run::<E>("container lookup"@, lookup_command(installation_id@)),
    {
        self.open_state(DockerOperation::Remove, installation_id)
    }

    /// Whether `conversation` takes `event` next.
    pub fn takes_event<E>(conversation: &DockerConversation, event: &DockerEvent<E>) -> (r: bool)
        ensures
            r == takes(conversation.phase, event@),
    {
        let is_image = match event {
            DockerEvent::Image(_) => true,
            _ => false,
        };
        let is_namespace = match event {
            DockerEvent::Namespace(_) => true,
            _ => false,
        };
        conversation.phase != DockerPhase::Finished && (conversation.phase
            == DockerPhase::ImageResolution) == is_image && (conversation.phase
            == DockerPhase::NamespaceSetup) == is_namespace
    }

    /// One step of a conversation.
    pub fn advance<E>(&self, conversation: &mut DockerConversation, event: DockerEvent<E>) -> (r:
        DockerAction<E>)
        requires
            takes(old(conversation).phase, event@),
        ensures
            (final(conversation)@, r@) == docker_step(self.spec_config()@, old(conversation)@, event@),
    {
        match event {
            DockerEvent::Output(Err(e)) => {
                if conversation.phase == DockerPhase::ContainerCreate && conversation.namespace_created {
                    let path = join_path(self.config.runtime_root(), conversation.installation_id.as_str());
                    conversation.phase = DockerPhase::Finished;
                    DockerAction::Abandon { path, error: e }
                } else {
                    conversation.phase = DockerPhase::Finished;
                    DockerAction::Finish(Err(e))
                }
            },
            DockerEvent::Output(Ok(output)) => self.after_output(conversation, output),
            DockerEvent::Image(Err(e)) => {
                conversation.phase = DockerPhase::Finished;
                DockerAction::Finish(Err(DockerRuntimeTargetError::ImageResolution(e)))
            },
            DockerEvent::Image(Ok(image)) => {
                let text = owned(image.as_str());
                let arguments = vec![
                    owned("image"),
                    owned("inspect"),
                    owned("--format"),
                    owned("{{.Id}}"),
                    owned(image.as_str()),
                ];
                conversation.image = text;
                conversation.phase = DockerPhase::ImageInspection;
                assert(texts(arguments@) =~= seq!["image"@, "inspect"@, "--format"@, "{{.Id}}"@, image.text()]);
                DockerAction::Run { operation: "image inspection", arguments }
            },
            DockerEvent::Namespace(Err(e)) => {
                conversation.phase = DockerPhase::Finished;
                DockerAction::Finish(Err(e))
            },
            DockerEvent::Namespace(Ok(created)) => {
                let arguments = create_arguments(
                    &self.config,
                    conversation.installation_id.as_str(),
                    conversation.fingerprint.as_str(),
                    conversation.image.as_str(),
                    conversation.image_id.as_str(),
                );
                conversation.namespace_created = created;
                conversation.phase = DockerPhase::ContainerCreate;
                DockerAction::Run { operation: "container create", arguments }
            },
        }
    }

    fn label_run<E>(conversation: &DockerConversation, label: &str) -> (r: DockerAction<E>)
        ensures
            r@ == label_run::<E>(label@, conversation@),
    {
        DockerAction::Run {
            operation: "container label inspection",
            arguments: label_arguments(label, conversation.installation_id.as_str()),
        }
    }

    fn state_lookup<E>(conversation: &mut DockerConversation) -> (r: DockerAction<E>)
        ensures
            (final(conversation)@, r@) == state_lookup::<E>(old(conversation)@),
    {
        let arguments = lookup_arguments(conversation.installation_id.as_str());
        conversation.phase = DockerPhase::StateLookup;
        DockerAction::Run { operation: "container lookup", arguments }
    }

    fn finish<E>(
        conversation: &mut DockerConversation,
        result: Result<RuntimeControlTargetOutcome, DockerRuntimeTargetError<E>>,
    ) -> (r: DockerAction<E>)
        ensures
            (final(conversation)@, r@) == finished(old(conversation)@, result),
    {
        conversation.phase = DockerPhase::Finished;
        DockerAction::Finish(result)
    }

    fn after_state<E>(&self, conversation: &mut DockerConversation, state: AppRuntimeInstallationState) -> (r:
        DockerAction<E>)
        ensures
            (final(conversation)@, r@) == state_known::<E>(self.spec_config()@, old(conversation)@, state),
    {
        let name = container_name(conversation.installation_id.as_str());
        match conversation.operation {
            DockerOperation::Activate => {
                if !conversation.restarted {
                    if state == AppRuntimeInstallationState::Active {
                        Self::finish(conversation, Ok(RuntimeControlTargetOutcome::Accepted {
                            state: AppRuntimeInstallationState::Active,
                            changed: false,
                        }))
                    } else {
                        let arguments = vec![owned("container"), owned("start"), name];
                        conversation.phase = DockerPhase::ContainerStart;
                        assert(texts(arguments@) =~= seq!["container"@, "start"@, container_name_text(conversation.installation_id@)]);
                        DockerAction::Run { operation: "container start", arguments }
                    }
                } else if state != AppRuntimeInstallationState::Active {
                    Self::finish(conversation, Ok(RuntimeControlTargetOutcome::Rejected))
                } else {
                    Self::finish(conversation, Ok(RuntimeControlTargetOutcome::Accepted {
                        state: AppRuntimeInstallationState::Active,
                        changed: true,
                    }))
                }
            },
            DockerOperation::Deactivate => {
                if !conversation.restarted {
                    if state != AppRuntimeInstallationState::Active {
                        Self::finish(conversation, Ok(RuntimeControlTargetOutcome::Accepted { state, changed: false }))
                    } else {
                        let arguments = vec![
                            owned("container"),
                            owned("stop"),
                            owned("--time"),
                            decimal_u8(self.config.stop_timeout_seconds()),
                            name,
                        ];
                        conversation.phase = DockerPhase::ContainerStop;
                        assert(texts(arguments@) =~= seq![
                            "container"@,
                            "stop"@,
                            "--time"@,
                            decimal(self.spec_config()@.stop_timeout_seconds as nat),
                            container_name_text(conversation.installation_id@),
                        ]);
                        DockerAction::Run { operation: "container stop", arguments }
                    }
                } else if state == AppRuntimeInstallationState::Active {
                    Self::finish(conversation, Ok(RuntimeControlTargetOutcome::Rejected))
                } else {
                    Self::finish(conversation, Ok(RuntimeControlTargetOutcome::Accepted {
                        state: AppRuntimeInstallationState::Prepared,
                        changed: true,
                    }))
                }
            },
            DockerOperation::Remove => {
                if state == AppRuntimeInstallationState::Absent {
                    let path = join_path(self.config.runtime_root(), conversation.installation_id.as_str());
                    conversation.changed = false;
                    conversation.phase = DockerPhase::NamespaceRemoval;
                    DockerAction::RemoveNamespace { path }
                } else if state == AppRuntimeInstallationState::Active {
                    Self::finish(conversation, Ok(RuntimeControlTargetOutcome::Rejected))
                } else {
                    let arguments = vec![owned("container"), owned("rm"), name];
                    conversation.phase = DockerPhase::ContainerRemove;
                    assert(texts(arguments@) =~= seq!["container"@, "rm"@, container_name_text(conversation.installation_id@)]);
                    DockerAction::Run { operation: "container remove", arguments }
                }
            },
            _ => Self::finish(conversation, Ok(RuntimeControlTargetOutcome::Accepted { state, changed: false })),
        }
    }

    fn after_output<E>(&self, conversation: &mut DockerConversation, output: String) -> (r: DockerAction<E>)
        ensures
            (final(conversation)@, r@) == output_step::<E>(self.spec_config()@, old(conversation)@, output@),
    {
        let name = container_name(conversation.installation_id.as_str());
        match conversation.phase {
            DockerPhase::RootCheck => {
                let arguments = vec![owned("version"), owned("--format"), owned("{{.Server.Version}}")];
                conversation.phase = DockerPhase::DaemonProbe;
                assert(texts(arguments@) =~= seq!["version"@, "--format"@, "{{.Server.Version}}"@]);
                DockerAction::Run { operation: "daemon probe", arguments }
            },
            DockerPhase::DaemonProbe => {
                let arguments = vec![
                    owned("network"),
                    owned("inspect"),
                    owned("--format"),
                    owned("{{.Id}}"),
                    owned(self.config.network()),
                ];
                conversation.phase = DockerPhase::NetworkProbe;
                assert(texts(arguments@) =~= seq!["network"@, "inspect"@, "--format"@, "{{.Id}}"@, self.spec_config()@.network]);
                DockerAction::Run { operation: "network probe", arguments }
            },
            DockerPhase::NetworkProbe => {
                conversation.phase = DockerPhase::Finished;
                DockerAction::Probed
            },
            DockerPhase::MatchLookup => {
                match select_container::<E>(output.as_str(), name.as_str()) {
                    Err(_) => Self::finish(conversation, Err(DockerRuntimeTargetError::InvalidOutput("container lookup"))),
                    Ok(None) => {
                        if conversation.operation == DockerOperation::Prepare {
                            let artifact = owned(conversation.artifact.as_str());
                            conversation.phase = DockerPhase::ImageResolution;
                            DockerAction::ResolveImage { artifact }
                        } else {
                            Self::finish(conversation, Ok(RuntimeControlTargetOutcome::Rejected))
                        }
                    },
                    Ok(Some(_)) => {
                        let arguments = inspect_arguments(owned("{{.Image}}"), name);
                        conversation.phase = DockerPhase::MatchImage;
                        DockerAction::Run { operation: "container image inspection", arguments }
                    },
                }
            },
            DockerPhase::MatchImage => {
                let action = Self::label_run(conversation, "com.rumahl.managed");
                conversation.configured_image = output;
                conversation.phase = DockerPhase::MatchManaged;
                action
            },
            DockerPhase::MatchManaged => {
                if str_equals(output.as_str(), "true") {
                    let action = Self::label_run(conversation, "com.rumahl.installation");
                    conversation.phase = DockerPhase::MatchInstallation;
                    action
                } else {
                    Self::finish(conversation, Ok(RuntimeControlTargetOutcome::Conflict))
                }
            },
            DockerPhase::MatchInstallation => {
                if str_equals(output.as_str(), conversation.installation_id.as_str()) {
                    let action = Self::label_run(conversation, "com.rumahl.supervisor");
                    conversation.phase = DockerPhase::MatchInstance;
                    action
                } else {
                    Self::finish(conversation, Ok(RuntimeControlTargetOutcome::Conflict))
                }
            },
            DockerPhase::MatchInstance => {
                if str_equals(output.as_str(), self.config.supervisor_instance()) {
                    let action = Self::label_run(conversation, "com.rumahl.runtime-spec");
                    conversation.phase = DockerPhase::MatchSpecLabel;
                    action
                } else {
                    Self::finish(conversation, Ok(RuntimeControlTargetOutcome::Conflict))
                }
            },
            DockerPhase::MatchSpecLabel => {
                if str_equals(output.as_str(), conversation.fingerprint.as_str()) {
                    let action = Self::label_run(conversation, "com.rumahl.image-id");
                    conversation.phase = DockerPhase::MatchImageLabel;
                    action
                } else {
                    Self::finish(conversation, Ok(RuntimeControlTargetOutcome::Conflict))
                }
            },
            DockerPhase::MatchImageLabel => {
                if str_equals(output.as_str(), conversation.configured_image.as_str()) {
                    Self::state_lookup(conversation)
                } else {
                    Self::finish(conversation, Ok(RuntimeControlTargetOutcome::Conflict))
                }
            },
            DockerPhase::StateLookup => {
                match select_container::<E>(output.as_str(), name.as_str()) {
                    Err(_) => Self::finish(conversation, Err(DockerRuntimeTargetError::InvalidOutput("container lookup"))),
                    Ok(None) => self.after_state(conversation, AppRuntimeInstallationState::Absent),
                    Ok(Some(_)) => {
                        let action = Self::label_run(conversation, "com.rumahl.managed");
                        conversation.phase = DockerPhase::StateManaged;
                        action
                    },
                }
            },
            DockerPhase::StateManaged => {
                if str_equals(output.as_str(), "true") {
                    let action = Self::label_run(conversation, "com.rumahl.installation");
                    conversation.phase = DockerPhase::StateInstallation;
                    action
                } else {
                    Self::finish(conversation, Err(DockerRuntimeTargetError::InvalidOutput("container ownership")))
                }
            },
            DockerPhase::StateInstallation => {
                if str_equals(output.as_str(), conversation.installation_id.as_str()) {
                    let action = Self::label_run(conversation, "com.rumahl.supervisor");
                    conversation.phase = DockerPhase::StateInstance;
                    action
                } else {
                    Self::finish(conversation, Err(DockerRuntimeTargetError::InvalidOutput("container ownership")))
                }
            },
            DockerPhase::StateInstance => {
                if str_equals(output.as_str(), self.config.supervisor_instance()) {
                    let arguments = inspect_arguments(owned("{{.State.Status}}"), name);
                    conversation.phase = DockerPhase::StateStatus;
                    DockerAction::Run { operation: "container state", arguments }
                } else {
                    Self::finish(conversation, Err(DockerRuntimeTargetError::InvalidOutput("container ownership")))
                }
            },
            DockerPhase::StateStatus => {
                match state_from_status::<E>(output.as_str()) {
                    Err(_) => Self::finish(conversation, Err(DockerRuntimeTargetError::InvalidOutput("container state"))),
                    Ok(state) => self.after_state(conversation, state),
                }
            },
            DockerPhase::ImageInspection => {
                match validate_image_id::<E>(output.as_str()) {
                    Ok(()) => {
                        let path = join_path(self.config.runtime_root(), conversation.installation_id.as_str());
                        conversation.image_id = output;
                        conversation.phase = DockerPhase::NamespaceSetup;
                        DockerAction::EnsureNamespace { path }
                    },
                    Err(_) => Self::finish(conversation, Err(DockerRuntimeTargetError::InvalidOutput("image inspection"))),
                }
            },
            DockerPhase::ContainerCreate => Self::finish(conversation, Ok(RuntimeControlTargetOutcome::Accepted {
                state: AppRuntimeInstallationState::Prepared,
                changed: true,
            })),
            DockerPhase::ContainerStart => {
                conversation.restarted = true;
                Self::state_lookup(conversation)
            },
            DockerPhase::ContainerStop => {
                conversation.restarted = true;
                Self::state_lookup(conversation)
            },
            DockerPhase::ContainerRemove => {
                let path = join_path(self.config.runtime_root(), conversation.installation_id.as_str());
                conversation.changed = true;
                conversation.phase = DockerPhase::NamespaceRemoval;
                DockerAction::RemoveNamespace { path }
            },
            DockerPhase::NamespaceRemoval => {
                let changed = conversation.changed;
                Self::finish(conversation, Ok(RuntimeControlTargetOutcome::Accepted {
                    state: AppRuntimeInstallationState::Absent,
                    changed,
                }))
            },
            _ => DockerAction::Probed,
        }
    }
}

// ---------------------------------------------------------------------------
// Directory checks
// ---------------------------------------------------------------------------

/// Checks what `symlink_metadata` reports of the runtime root: a directory
/// that is not a symbolic link, owned by the supervisor's user, writable by
/// nobody else.
pub fn check_runtime_root<E>(is_directory: bool, uid: u32, expected_uid: u32, mode: u32) -> (r:
    Result<(), DockerRuntimeTargetError<E>>)
    ensures
        !is_directory ==> r matches Err(DockerRuntimeTargetError::RuntimeRootIsNotDirectory),
        is_directory && uid != expected_uid ==> (r matches Err(
            DockerRuntimeTargetError::RuntimeRootOwnerMismatch { expected, actual },
        ) && expected == expected_uid && actual == uid),
        is_directory && uid == expected_uid && (mode & 0o777) & 0o022 != 0 ==> (r matches Err(
            DockerRuntimeTargetError::RuntimeRootPermissions(m),
        ) && m == mode & 0o777),
        is_directory && uid == expected_uid && (mode & 0o777) & 0o022 == 0 ==> r is Ok,
{
    if !is_directory {
        return Err(DockerRuntimeTargetError::RuntimeRootIsNotDirectory);
    }
    if uid != expected_uid {
        return Err(DockerRuntimeTargetError::RuntimeRootOwnerMismatch { expected: expected_uid, actual: uid });
    }
    let permissions = mode & 0o777;
    if permissions & 0o022 != 0 {
        return Err(DockerRuntimeTargetError::RuntimeRootPermissions(permissions));
    }
    Ok(())
}

/// Checks what `symlink_metadata` reports of the installation's namespace
/// directory: a directory that is not a symbolic link, owned by the
/// supervisor's user and, unless it was just created, writable by nobody
/// else.
pub fn check_namespace<E>(created: bool, is_directory: bool, uid: u32, expected_uid: u32, mode: u32) -> (r:
    Result<(), DockerRuntimeTargetError<E>>)
    ensures
        !is_directory ==> r matches Err(DockerRuntimeTargetError::NamespaceIsNotDirectory),
        is_directory && uid != expected_uid ==> (r matches Err(
            DockerRuntimeTargetError::NamespaceOwnerMismatch { expected, actual },
        ) && expected == expected_uid && actual == uid),
        is_directory && uid == expected_uid && !created && (mode & 0o777) & 0o022 != 0 ==> (r matches Err(
            DockerRuntimeTargetError::NamespacePermissions(m),
        ) && m == mode & 0o777),
        is_directory && uid == expected_uid && (created || (mode & 0o777) & 0o022 == 0) ==> r is Ok,
{
    if !is_directory {
        return Err(DockerRuntimeTargetError::NamespaceIsNotDirectory);
    }
    if uid != expected_uid {
        return Err(DockerRuntimeTargetError::NamespaceOwnerMismatch { expected: expected_uid, actual: uid });
    }
    let permissions = mode & 0o777;
    if !created && permissions & 0o022 != 0 {
        return Err(DockerRuntimeTargetError::NamespacePermissions(permissions));
    }
    Ok(())
}

/// Checks an existing secret directory of a namespace: a directory that is
/// not a symbolic link, owned by the supervisor's user, writable by nobody
/// else.
pub fn check_secret_directory<E>(is_directory: bool, uid: u32, expected_uid: u32, mode: u32) -> (r:
    Result<(), DockerRuntimeTargetError<E>>)
    ensures
        is_directory && uid == expected_uid && mode & 0o022 == 0 ==> r is Ok,
        !(is_directory && uid == expected_uid && mode & 0o022 == 0) ==> r matches Err(
            DockerRuntimeTargetError::NamespaceIsNotDirectory,
        ),
{
    if !is_directory || uid != expected_uid || mode & 0o022 != 0 {
        return Err(DockerRuntimeTargetError::NamespaceIsNotDirectory);
    }
    Ok(())
}

/// The secret directory of a namespace.
pub fn secret_directory(namespace: &str) -> (r: String)
    ensures
        r@ == path_join(namespace@, "secrets"@),
{
    join_path(namespace, "secrets")
}

// ---------------------------------------------------------------------------
// Laws
// ---------------------------------------------------------------------------

/// The control protocol's code of an operation.
pub open spec fn operation_code(operation: DockerOperation) -> u8 {
    match operation {
        DockerOperation::Prepare => OP_PREPARE,
        DockerOperation::Activate => OP_ACTIVATE,
        DockerOperation::Report => OP_STATE,
        DockerOperation::Deactivate => OP_DEACTIVATE,
        DockerOperation::Remove => OP_REMOVE,
        DockerOperation::Probe => 0,
    }
}

pub open spec fn is_matching_phase(phase: DockerPhase) -> bool {
    ||| phase == DockerPhase::MatchLookup
    ||| phase == DockerPhase::MatchImage
    ||| phase == DockerPhase::MatchManaged
    ||| phase == DockerPhase::MatchInstallation
    ||| phase == DockerPhase::MatchInstance
    ||| phase == DockerPhase::MatchSpecLabel
    ||| phase == DockerPhase::MatchImageLabel
}

pub open spec fn is_state_phase(phase: DockerPhase) -> bool {
    ||| phase == DockerPhase::StateLookup
    ||| phase == DockerPhase::StateManaged
    ||| phase == DockerPhase::StateInstallation
    ||| phase == DockerPhase::StateInstance
    ||| phase == DockerPhase::StateStatus
}

/// The phases each operation passes through.
pub open spec fn consistent(c: DockerConversationView) -> bool {
    let p = c.phase;
    ||| p == DockerPhase::Finished
    ||| match c.operation {
        DockerOperation::Probe => p == DockerPhase::RootCheck || p == DockerPhase::DaemonProbe || p
            == DockerPhase::NetworkProbe,
        DockerOperation::Prepare => is_matching_phase(p) || is_state_phase(p) || p
            == DockerPhase::ImageResolution || p == DockerPhase::ImageInspection || p
            == DockerPhase::NamespaceSetup || p == DockerPhase::ContainerCreate,
        DockerOperation::Activate => is_matching_phase(p) || is_state_phase(p) || p
            == DockerPhase::ContainerStart,
        DockerOperation::Report => is_state_phase(p),
        DockerOperation::Deactivate => is_state_phase(p) || p == DockerPhase::ContainerStop,
        DockerOperation::Remove => is_state_phase(p) || p == DockerPhase::ContainerRemove || p
            == DockerPhase::NamespaceRemoval,
    }
}

/// Every conversation the target opens stays within the phases of its
/// operation, and every outcome it finishes with is one that the control
/// server accepts for the operation: a preparation ends prepared or active,
/// an activation active, a state report unchanged, a deactivation inactive
/// and a removal absent. The one exception is a preparation that found its
/// matching container gone when it read the state, which reports it absent
/// and unchanged.
pub proof fn lemma_docker_step_keeps_promises<E>(
    config: DockerRuntimeTargetConfigView,
    c: DockerConversationView,
    event: DockerEventView<E>,
)
    requires
        consistent(c),
        takes(c.phase, event),
    ensures
        consistent(docker_step(config, c, event).0),
        docker_step(config, c, event).1 matches DockerActionView::Finish(Ok(outcome)) ==> (
        outcome_valid_for(operation_code(c.operation), outcome) || (c.operation
            == DockerOperation::Prepare && outcome == RuntimeControlTargetOutcome::Accepted {
            state: AppRuntimeInstallationState::Absent,
            changed: false,
        })),
{
}

/// Deactivation reports the container's own state. When the status read
/// before any stop shows a "created" or "exited" container, the deactivation
/// ends accepted, prepared and unchanged; a "running", "paused" or
/// "restarting" one is stopped first; and an unchanged acceptance never
/// claims any other state or comes from any other status. A container that
/// the lookup does not find is reported absent and unchanged.
pub proof fn lemma_deactivation_reports_the_container_state<E>(
    config: DockerRuntimeTargetConfigView,
    c: DockerConversationView,
    output: Seq<char>,
)
    requires
        c.operation == DockerOperation::Deactivate,
        !c.restarted,
    ensures
        c.phase == DockerPhase::StateStatus && (output == "created"@ || output == "exited"@)
            ==> docker_step::<E>(config, c, DockerEventView::Output(Ok(output))).1
            == DockerActionView::<E>::Finish(
            Ok(
                RuntimeControlTargetOutcome::Accepted {
                    state: AppRuntimeInstallationState::Prepared,
                    changed: false,
                },
            ),
        ),
        c.phase == DockerPhase::StateStatus && (output == "running"@ || output == "paused"@ || output
            == "restarting"@) ==> docker_step::<E>(config, c, DockerEventView::Output(Ok(output))).0.phase
            == DockerPhase::ContainerStop,
        c.phase == DockerPhase::StateStatus ==> (docker_step::<E>(
            config,
            c,
            DockerEventView::Output(Ok(output)),
        ).1 matches DockerActionView::Finish(Ok(RuntimeControlTargetOutcome::Accepted { state, changed }))
            ==> state == AppRuntimeInstallationState::Prepared && !changed && (output == "created"@
            || output == "exited"@)),
        c.phase == DockerPhase::StateLookup && selected_container(
            utf8_of(output),
            utf8_of(container_name_text(c.installation_id)),
        ) == Ok::<Option<Seq<u8>>, ()>(None) ==> docker_step::<E>(
            config,
            c,
            DockerEventView::Output(Ok(output)),
        ).1 == DockerActionView::<E>::Finish(
            Ok(
                RuntimeControlTargetOutcome::Accepted {
                    state: AppRuntimeInstallationState::Absent,
                    changed: false,
                },
            ),
        ),
{
    crate::docker_runtime_target::lemma_container_statuses(output);
}

/// An activation claims an active container only on a status that Docker
/// reports for a running container. When the conversation reads the state
/// after the start and the container is "created" or "exited", or gone, the
/// activation is rejected; an accepted activation is always active, changed
/// exactly when it started the container, and follows a "running", "paused"
/// or "restarting" status.
pub proof fn lemma_activation_confirms_a_running_container<E>(
    config: DockerRuntimeTargetConfigView,
    c: DockerConversationView,
    output: Seq<char>,
)
    requires
        c.operation == DockerOperation::Activate,
        c.phase == DockerPhase::StateStatus || c.phase == DockerPhase::StateLookup,
    ensures
        docker_step::<E>(config, c, DockerEventView::Output(Ok(output))).1 matches DockerActionView::Finish(
            Ok(RuntimeControlTargetOutcome::Accepted { state, changed }),
        ) ==> state == AppRuntimeInstallationState::Active && changed == c.restarted && c.phase
            == DockerPhase::StateStatus && (output == "running"@ || output == "paused"@ || output
            == "restarting"@),
        c.restarted && c.phase == DockerPhase::StateStatus && (output == "created"@ || output
            == "exited"@) ==> docker_step::<E>(config, c, DockerEventView::Output(Ok(output))).1
            == DockerActionView::<E>::Finish(Ok(RuntimeControlTargetOutcome::Rejected)),
        c.restarted && c.phase == DockerPhase::StateLookup && selected_container(
            utf8_of(output),
            utf8_of(container_name_text(c.installation_id)),
        ) == Ok::<Option<Seq<u8>>, ()>(None) ==> docker_step::<E>(
            config,
            c,
            DockerEventView::Output(Ok(output)),
        ).1 == DockerActionView::<E>::Finish(Ok(RuntimeControlTargetOutcome::Rejected)),
{
    crate::docker_runtime_target::lemma_container_statuses(output);
}

/// A deactivation confirms its stop: after the stop, a "created" or
/// "exited" container makes the deactivation accepted, prepared and
/// changed, while a "running", "paused" or "restarting" one rejects it.
pub proof fn lemma_deactivation_confirms_the_stop<E>(
    config: DockerRuntimeTargetConfigView,
    c: DockerConversationView,
    output: Seq<char>,
)
    requires
        c.operation == DockerOperation::Deactivate,
        c.restarted,
        c.phase == DockerPhase::StateStatus,
    ensures
        (output == "created"@ || output == "exited"@) ==> docker_step::<E>(
            config,
            c,
            DockerEventView::Output(Ok(output)),
        ).1 == DockerActionView::<E>::Finish(
            Ok(
                RuntimeControlTargetOutcome::Accepted {
                    state: AppRuntimeInstallationState::Prepared,
                    changed: true,
                },
            ),
        ),
        (output == "running"@ || output == "paused"@ || output == "restarting"@) ==> docker_step::<E>(
            config,
            c,
            DockerEventView::Output(Ok(output)),
        ).1 == DockerActionView::<E>::Finish(Ok(RuntimeControlTargetOutcome::Rejected)),
{
    crate::docker_runtime_target::lemma_container_statuses(output);
}

/// A state report gives Docker's status as the installation's state,
/// unchanged: "running", "paused" and "restarting" are active, "created"
/// and "exited" prepared, and any other status is invalid output.
pub proof fn lemma_state_report_follows_the_status<E>(
    config: DockerRuntimeTargetConfigView,
    c: DockerConversationView,
    output: Seq<char>,
)
    requires
        c.operation == DockerOperation::Report,
        c.phase == DockerPhase::StateStatus,
    ensures
        (output == "running"@ || output == "paused"@ || output == "restarting"@) ==> docker_step::<E>(
            config,
            c,
            DockerEventView::Output(Ok(output)),
        ).1 == DockerActionView::<E>::Finish(
            Ok(
                RuntimeControlTargetOutcome::Accepted {
                    state: AppRuntimeInstallationState::Active,
                    changed: false,
                },
            ),
        ),
        (output == "created"@ || output == "exited"@) ==> docker_step::<E>(
            config,
            c,
            DockerEventView::Output(Ok(output)),
        ).1 == DockerActionView::<E>::Finish(
            Ok(
                RuntimeControlTargetOutcome::Accepted {
                    state: AppRuntimeInstallationState::Prepared,
                    changed: false,
                },
            ),
        ),
        !(output == "running"@ || output == "paused"@ || output == "restarting"@ || output
            == "created"@ || output == "exited"@) ==> docker_step::<E>(
            config,
            c,
            DockerEventView::Output(Ok(output)),
        ).1 == DockerActionView::<E>::Finish(
            Err(DockerRuntimeTargetError::InvalidOutput("container state")),
        ),
{
    crate::docker_runtime_target::lemma_container_statuses(output);
}

/// The conversations the target opens are consistent.
pub proof fn lemma_opened_conversations_are_consistent(
    operation: DockerOperation,
    installation_id: Seq<char>,
    fingerprint: Seq<char>,
    artifact: Seq<char>,
)
    ensures
        consistent(opened(DockerOperation::Probe, DockerPhase::RootCheck, installation_id, fingerprint, artifact)),
        operation == DockerOperation::Prepare || operation == DockerOperation::Activate ==> consistent(
            opened(operation, DockerPhase::MatchLookup, installation_id, fingerprint, artifact),
        ),
        operation != DockerOperation::Probe ==> consistent(
            opened(operation, DockerPhase::StateLookup, installation_id, fingerprint, artifact),
        ),
        consistent(opened(operation, DockerPhase::Finished, installation_id, fingerprint, artifact)),
{
}

} // verus!
