//! The installation description that the platform hands to the runtime
//! supervisor, and the states an installation's runtime can be in.
//!
//! A specification is modelled by its wire fields: the installation ID, app
//! ID, publisher ID, version and runtime kind, then for each entrypoint its
//! ID, target kind and target value, each as UTF-8 bytes. UTF-8 encoding is
//! injective, so the fields determine the specification.
use vstd::prelude::*;

use crate::text::utf8_of;

verus! {

#[derive(Debug, Clone, Copy, PartialEq, Eq, Structural)]
pub enum AppRuntimeInstallationState {
    Absent,
    Prepared,
    Active,
}

#[derive(Debug, Clone, Copy, PartialEq, Eq, Structural)]
pub enum RuntimeKind {
    Web,
    Container,
    Native,
}

#[derive(Debug, Clone)]
pub enum RuntimeEntrypointTarget {
    WebAsset(String),
    ContainerArtifact(String),
    Endpoint(String),
}

#[derive(Debug, Clone)]
pub struct RuntimeEntrypoint {
    id: String,
    target: RuntimeEntrypointTarget,
}

#[derive(Debug, Clone)]
pub struct RuntimeDescriptor {
    kind: RuntimeKind,
    entrypoints: Vec<RuntimeEntrypoint>,
}

/// The identity of one installation of an app.
#[derive(Debug, Clone)]
pub struct AppIdentity {
    app_id: String,
    installation_id: String,
    publisher_id: String,
}

#[derive(Debug, Clone)]
pub struct RuntimeInstallationSpec {
    identity: AppIdentity,
    version: String,
    runtime: RuntimeDescriptor,
}

/// `web`, `container` or `native`.
pub open spec fn runtime_kind_bytes(kind: RuntimeKind) -> Seq<u8> {
    match kind {
        RuntimeKind::Web => seq![119u8, 101u8, 98u8],
        RuntimeKind::Container => seq![99u8, 111u8, 110u8, 116u8, 97u8, 105u8, 110u8, 101u8, 114u8],
        RuntimeKind::Native => seq![110u8, 97u8, 116u8, 105u8, 118u8, 101u8],
    }
}

/// `web-asset`.
pub open spec fn web_asset_bytes() -> Seq<u8> {
    seq![119u8, 101u8, 98u8, 45u8, 97u8, 115u8, 115u8, 101u8, 116u8]
}

/// `container-artifact`.
pub open spec fn container_artifact_bytes() -> Seq<u8> {
    seq![
        99u8, 111u8, 110u8, 116u8, 97u8, 105u8, 110u8, 101u8, 114u8, 45u8, 97u8, 114u8, 116u8,
        105u8, 102u8, 97u8, 99u8, 116u8,
    ]
}

/// `endpoint`.
pub open spec fn endpoint_bytes() -> Seq<u8> {
    seq![101u8, 110u8, 100u8, 112u8, 111u8, 105u8, 110u8, 116u8]
}

/// The target kind and target value of an entrypoint.
pub open spec fn target_fields(t: RuntimeEntrypointTarget) -> Seq<Seq<u8>> {
    match t {
        RuntimeEntrypointTarget::WebAsset(p) => seq![web_asset_bytes(), utf8_of(p@)],
        RuntimeEntrypointTarget::ContainerArtifact(p) => seq![container_artifact_bytes(), utf8_of(p@)],
        RuntimeEntrypointTarget::Endpoint(e) => seq![endpoint_bytes(), utf8_of(e@)],
    }
}

/// The three wire fields of an entrypoint.
pub open spec fn entrypoint_fields(e: RuntimeEntrypoint) -> Seq<Seq<u8>> {
    seq![utf8_of(e.spec_id())] + target_fields(e.spec_target())
}

/// The wire fields of a list of entrypoints, in order.
pub open spec fn entrypoints_fields(es: Seq<RuntimeEntrypoint>) -> Seq<Seq<u8>>
    decreases es.len(),
{
    if es.len() == 0 {
        Seq::empty()
    } else {
        entrypoints_fields(es.drop_last()) + entrypoint_fields(es.last())
    }
}

pub proof fn lemma_entrypoints_fields_len(es: Seq<RuntimeEntrypoint>)
    ensures
        entrypoints_fields(es).len() == 3 * es.len(),
    decreases es.len(),
{
    if es.len() > 0 {
        lemma_entrypoints_fields_len(es.drop_last());
    }
}

/// The wire fields of a runtime installation specification.
pub open spec fn spec_fields(s: RuntimeInstallationSpec) -> Seq<Seq<u8>> {
    seq![
        utf8_of(s.spec_identity().spec_installation_id()),
        utf8_of(s.spec_identity().spec_app_id()),
        utf8_of(s.spec_identity().spec_publisher_id()),
        utf8_of(s.spec_version()),
        runtime_kind_bytes(s.spec_runtime().spec_kind()),
    ] + entrypoints_fields(s.spec_runtime().spec_entrypoints())
}

impl RuntimeEntrypoint {
    pub closed spec fn spec_id(&self) -> Seq<char> {
        self.id@
    }

    pub closed spec fn spec_target(&self) -> RuntimeEntrypointTarget {
        self.target
    }

    pub fn web_asset(id: String, path: String) -> (r: Self)
        ensures
            r.spec_id() == id@,
            r.spec_target() == RuntimeEntrypointTarget::WebAsset(path),
    {
        RuntimeEntrypoint { id, target: RuntimeEntrypointTarget::WebAsset(path) }
    }

    pub fn container_artifact(id: String, path: String) -> (r: Self)
        ensures
            r.spec_id() == id@,
            r.spec_target() == RuntimeEntrypointTarget::ContainerArtifact(path),
    {
        RuntimeEntrypoint { id, target: RuntimeEntrypointTarget::ContainerArtifact(path) }
    }

    pub fn endpoint(id: String, endpoint: String) -> (r: Self)
        ensures
            r.spec_id() == id@,
            r.spec_target() == RuntimeEntrypointTarget::Endpoint(endpoint),
    {
        RuntimeEntrypoint { id, target: RuntimeEntrypointTarget::Endpoint(endpoint) }
    }

    pub fn id(&self) -> (r: &str)
        ensures
            r@ == self.spec_id(),
    {
        self.id.as_str()
    }

    pub fn target(&self) -> (r: &RuntimeEntrypointTarget)
        ensures
            *r == self.spec_target(),
    {
        &self.target
    }
}

impl RuntimeDescriptor {
    pub closed spec fn spec_kind(&self) -> RuntimeKind {
        self.kind
    }

    pub closed spec fn spec_entrypoints(&self) -> Seq<RuntimeEntrypoint> {
        self.entrypoints@
    }

    pub fn new(kind: RuntimeKind) -> (r: Self)
        ensures
            r.spec_kind() == kind,
            r.spec_entrypoints().len() == 0,
    {
        RuntimeDescriptor { kind, entrypoints: Vec::new() }
    }

    pub fn web() -> (r: Self)
        ensures
            r.spec_kind() == RuntimeKind::Web,
            r.spec_entrypoints().len() == 0,
    {
        Self::new(RuntimeKind::Web)
    }

    pub fn container() -> (r: Self)
        ensures
            r.spec_kind() == RuntimeKind::Container,
            r.spec_entrypoints().len() == 0,
    {
        Self::new(RuntimeKind::Container)
    }

    /// Appends an entrypoint.
    pub fn add_entrypoint(&mut self, entrypoint: RuntimeEntrypoint)
        ensures
            final(self).spec_kind() == old(self).spec_kind(),
            final(self).spec_entrypoints() == old(self).spec_entrypoints().push(entrypoint),
    {
        self.entrypoints.push(entrypoint);
    }

    pub fn kind(&self) -> (r: RuntimeKind)
        ensures
            r == self.spec_kind(),
    {
        self.kind
    }

    pub fn entrypoints(&self) -> (r: &[RuntimeEntrypoint])
        ensures
            r@ == self.spec_entrypoints(),
    {
        self.entrypoints.as_slice()
    }
}

impl AppIdentity {
    pub closed spec fn spec_app_id(&self) -> Seq<char> {
        self.app_id@
    }

    pub closed spec fn spec_installation_id(&self) -> Seq<char> {
        self.installation_id@
    }

    pub closed spec fn spec_publisher_id(&self) -> Seq<char> {
        self.publisher_id@
    }

    pub fn new(app_id: String, installation_id: String, publisher_id: String) -> (r: Self)
        ensures
            r.spec_app_id() == app_id@,
            r.spec_installation_id() == installation_id@,
            r.spec_publisher_id() == publisher_id@,
    {
        AppIdentity { app_id, installation_id, publisher_id }
    }

    pub fn app_id(&self) -> (r: &str)
        ensures
            r@ == self.spec_app_id(),
    {
        self.app_id.as_str()
    }

    pub fn installation_id(&self) -> (r: &str)
        ensures
            r@ == self.spec_installation_id(),
    {
        self.installation_id.as_str()
    }

    pub fn publisher_id(&self) -> (r: &str)
        ensures
            r@ == self.spec_publisher_id(),
    {
        self.publisher_id.as_str()
    }
}

impl RuntimeInstallationSpec {
    pub closed spec fn spec_identity(&self) -> AppIdentity {
        self.identity
    }

    pub closed spec fn spec_version(&self) -> Seq<char> {
        self.version@
    }

    pub closed spec fn spec_runtime(&self) -> RuntimeDescriptor {
        self.runtime
    }

    pub fn new(identity: AppIdentity, version: String, runtime: RuntimeDescriptor) -> (r: Self)
        ensures
            r.spec_identity() == identity,
            r.spec_version() == version@,
            r.spec_runtime() == runtime,
    {
        RuntimeInstallationSpec { identity, version, runtime }
    }

    pub fn identity(&self) -> (r: &AppIdentity)
        ensures
            *r == self.spec_identity(),
    {
        &self.identity
    }

    pub fn version(&self) -> (r: &str)
        ensures
            r@ == self.spec_version(),
    {
        self.version.as_str()
    }

    pub fn runtime(&self) -> (r: &RuntimeDescriptor)
        ensures
            *r == self.spec_runtime(),
    {
        &self.runtime
    }
}

} // verus!
