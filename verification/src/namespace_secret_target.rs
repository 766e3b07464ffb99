//! Delivery of OIDC client material into an installation's namespace
//! directory: the client ID and secret as read-only files in its secret
//! directory, and a replay record of the operation beside it.
use vstd::prelude::*;

use crate::digest::{sha256, sha256_digest};
use crate::docker_control::{join_path, path_join};
use crate::docker_runtime_target::{is_absolute_path, path_is_absolute};
use crate::runtime_secret_server::{RuntimeOidcClientSecret, RuntimeSecretTargetOutcome};
use crate::text::{bytes_equal, concat, hex, hex_bytes, utf8_of};
use vstd::utf8::decode_utf8;

verus! {

/// The largest client ID or secret file read, in bytes.
pub const MAX_SECRET_FILE: usize = 128;

/// The largest replay record read, in bytes.
pub const MAX_METADATA_FILE: usize = 2048;

/// Permissions of the published client ID and secret files.
pub const SECRET_FILE_MODE: u32 = 0o444;

/// Permissions of the published replay record.
pub const METADATA_FILE_MODE: u32 = 0o600;

#[derive(Debug, Clone)]
pub struct NamespaceRuntimeSecretTargetConfig {
    runtime_root: String,
}

#[derive(Debug, Clone, Copy, PartialEq, Eq, Structural)]
pub enum NamespaceRuntimeSecretTargetConfigError {
    RuntimeRootMustBeAbsolute,
}

#[derive(Debug, Clone)]
pub struct NamespaceRuntimeSecretTarget {
    config: NamespaceRuntimeSecretTargetConfig,
}

#[derive(Debug)]
pub enum NamespaceRuntimeSecretTargetError {
    Inspect(std::io::Error),
    InvalidDirectory,
    OwnerMismatch { expected: u32, actual: u32 },
    WritableByNonOwner(u32),
    Open(std::io::Error),
    InvalidFile,
    FileOwnerMismatch { expected: u32, actual: u32 },
    FileWritableByNonOwner(u32),
    Read(std::io::Error),
    FileTooLarge,
    Write(std::io::Error),
    Rename(std::io::Error),
    Remove(std::io::Error),
}

impl NamespaceRuntimeSecretTargetConfig {
    pub closed spec fn spec_runtime_root(&self) -> Seq<char> {
        self.runtime_root@
    }

    /// Accepts an absolute runtime root.
    pub fn new(runtime_root: String) -> (r: Result<Self, NamespaceRuntimeSecretTargetConfigError>)
        ensures
            is_absolute_path(utf8_of(runtime_root@)) ==> (r matches Ok(config)
                && config.spec_runtime_root() == runtime_root@),
            !is_absolute_path(utf8_of(runtime_root@)) ==> r == Err::<Self, _>(
                NamespaceRuntimeSecretTargetConfigError::RuntimeRootMustBeAbsolute,
            ),
    {
        if !path_is_absolute(runtime_root.as_str()) {
            return Err(NamespaceRuntimeSecretTargetConfigError::RuntimeRootMustBeAbsolute);
        }
        Ok(NamespaceRuntimeSecretTargetConfig { runtime_root })
    }

    pub fn runtime_root(&self) -> (r: &str)
        ensures
            r@ == self.spec_runtime_root(),
    {
        self.runtime_root.as_str()
    }
}

/// The name of the temporary file a file is written to before it is
/// renamed into place.
pub open spec fn temp_name_text(name: Seq<char>) -> Seq<char> {
    "."@ + name + ".tmp"@
}

/// `.{name}.tmp`.
pub fn temp_name(name: &str) -> (r: String)
    ensures
        r@ == temp_name_text(name@),
{
    let start = concat(".", name);
    concat(start.as_str(), ".tmp")
}

/// The installation's namespace directory.
pub open spec fn namespace_root(runtime_root: Seq<char>, installation_id: Seq<char>) -> Seq<char> {
    path_join(runtime_root, installation_id)
}

/// The secret directory of a namespace.
pub open spec fn secret_root(runtime_root: Seq<char>, installation_id: Seq<char>) -> Seq<char> {
    path_join(namespace_root(runtime_root, installation_id), "secrets"@)
}

/// The files a removal deletes, in order: the secret, the client ID and the
/// replay record, then their temporary files.
pub open spec fn removal_paths_text(runtime_root: Seq<char>, installation_id: Seq<char>) -> Seq<
    Seq<char>,
> {
    let namespace = namespace_root(runtime_root, installation_id);
    let secrets = secret_root(runtime_root, installation_id);
    seq![
        path_join(secrets, "oidc-client-secret"@),
        path_join(secrets, "oidc-client-id"@),
        path_join(namespace, ".oidc-client.meta"@),
        path_join(secrets, temp_name_text("oidc-client-secret"@)),
        path_join(secrets, temp_name_text("oidc-client-id"@)),
        path_join(namespace, temp_name_text(".oidc-client.meta"@)),
    ]
}

/// Lower-case hex of the SHA-256 digest of the encoded client secret.
pub open spec fn secret_digest_text(client_secret: Seq<char>) -> Seq<char> {
    decode_utf8(hex_bytes(sha256(utf8_of(client_secret))))
}

/// The replay record of a delivery: format tag, operation, app, publisher,
/// client ID and secret digest, one per line.
pub open spec fn replay_record(
    operation_id: Seq<char>,
    app_id: Seq<char>,
    publisher_id: Seq<char>,
    client_id: Seq<char>,
    client_secret: Seq<char>,
) -> Seq<char> {
    "RSM1\n"@ + operation_id + "\n"@ + app_id + "\n"@ + publisher_id + "\n"@ + client_id + "\n"@
        + secret_digest_text(client_secret) + "\n"@
}

/// The replay record of a request.
pub open spec fn request_record(request: RuntimeOidcClientSecret) -> Seq<char> {
    replay_record(
        request.spec_operation_id(),
        request.spec_app_id(),
        request.spec_publisher_id(),
        request.spec_client_id(),
        request.spec_client_secret(),
    )
}

/// What a delivery does after reading the files already in place.
#[derive(Debug, Clone, Copy, PartialEq, Eq, Structural)]
pub struct SecretDeliveryPlan {
    pub write_secret: bool,
    pub write_client_id: bool,
    pub write_record: bool,
    pub outcome: RuntimeSecretTargetOutcome,
}

/// Whether files already in place belong to a different delivery: a secret
/// other than the requested one, another client ID, or another replay
/// record.
pub open spec fn delivery_conflicts(
    request: RuntimeOidcClientSecret,
    secret: Option<Seq<u8>>,
    client_id: Option<Seq<u8>>,
    record: Option<Seq<u8>>,
) -> bool {
    ||| secret matches Some(s) && s != utf8_of(request.spec_client_secret())
    ||| client_id matches Some(c) && c != utf8_of(request.spec_client_id())
    ||| record matches Some(m) && m != utf8_of(request_record(request))
}

/// The plan of a delivery: a conflict writes nothing; otherwise each missing
/// file is written, and the delivery was already applied exactly when all
/// three were in place.
pub open spec fn delivery_plan(
    request: RuntimeOidcClientSecret,
    secret: Option<Seq<u8>>,
    client_id: Option<Seq<u8>>,
    record: Option<Seq<u8>>,
) -> SecretDeliveryPlan {
    if delivery_conflicts(request, secret, client_id, record) {
        SecretDeliveryPlan {
            write_secret: false,
            write_client_id: false,
            write_record: false,
            outcome: RuntimeSecretTargetOutcome::Conflict,
        }
    } else {
        SecretDeliveryPlan {
            write_secret: secret is None,
            write_client_id: client_id is None,
            write_record: record is None,
            outcome: if secret is Some && client_id is Some && record is Some {
                RuntimeSecretTargetOutcome::AlreadyApplied
            } else {
                RuntimeSecretTargetOutcome::Applied
            },
        }
    }
}

pub open spec fn file_view(file: Option<Vec<u8>>) -> Option<Seq<u8>> {
    match file {
        Some(bytes) => Some(bytes@),
        None => None,
    }
}

/// Whether an optional file holds exactly `expected`, if it exists.
fn differs(file: &Option<Vec<u8>>, expected: &[u8]) -> (r: bool)
    ensures
        r == (file_view(*file) matches Some(bytes) && bytes != expected@),
{
    match file {
        Some(bytes) => !bytes_equal(bytes.as_slice(), expected),
        None => false,
    }
}

impl NamespaceRuntimeSecretTarget {
    pub closed spec fn spec_config(&self) -> NamespaceRuntimeSecretTargetConfig {
        self.config
    }

    pub fn new(config: NamespaceRuntimeSecretTargetConfig) -> (r: Self)
        ensures
            r.spec_config() == config,
    {
        NamespaceRuntimeSecretTarget { config }
    }

    pub fn config(&self) -> (r: &NamespaceRuntimeSecretTargetConfig)
        ensures
            *r == self.spec_config(),
    {
        &self.config
    }

    /// The installation's namespace directory.
    pub fn installation_root(&self, installation_id: &str) -> (r: String)
        ensures
            r@ == namespace_root(self.spec_config().spec_runtime_root(), installation_id@),
    {
        join_path(self.config.runtime_root(), installation_id)
    }

    /// The secret directory of the installation's namespace.
    pub fn secret_root(&self, installation_id: &str) -> (r: String)
        ensures
            r@ == secret_root(self.spec_config().spec_runtime_root(), installation_id@),
    {
        let namespace = self.installation_root(installation_id);
        join_path(namespace.as_str(), "secrets")
    }

    /// The files a removal deletes.
    pub fn removal_paths(&self, installation_id: &str) -> (r: Vec<String>)
        ensures
            crate::docker_control::texts(r@) == removal_paths_text(
                self.spec_config().spec_runtime_root(),
                installation_id@,
            ),
    {
        let namespace = self.installation_root(installation_id);
        let secrets = self.secret_root(installation_id);
        let secret_temp = temp_name("oidc-client-secret");
        let client_temp = temp_name("oidc-client-id");
        let record_temp = temp_name(".oidc-client.meta");
        let r = vec![
            join_path(secrets.as_str(), "oidc-client-secret"),
            join_path(secrets.as_str(), "oidc-client-id"),
            join_path(namespace.as_str(), ".oidc-client.meta"),
            join_path(secrets.as_str(), secret_temp.as_str()),
            join_path(secrets.as_str(), client_temp.as_str()),
            join_path(namespace.as_str(), record_temp.as_str()),
        ];
        assert(crate::docker_control::texts(r@) =~= removal_paths_text(
            self.spec_config().spec_runtime_root(),
            installation_id@,
        ));
        r
    }
}

/// The replay record of a delivery request.
pub fn replay_metadata(request: &RuntimeOidcClientSecret) -> (r: String)
    ensures
        r@ == request_record(*request),
{
    let digest = sha256_digest(request.client_secret().as_bytes());
    let digest_hex = hex(digest.as_slice());
    proof {
        vstd::utf8::encode_utf8_decode_utf8(digest_hex@);
    }
    let mut record = concat("RSM1\n", request.operation_id());
    record = concat(record.as_str(), "\n");
    record = concat(record.as_str(), request.app_id());
    record = concat(record.as_str(), "\n");
    record = concat(record.as_str(), request.publisher_id());
    record = concat(record.as_str(), "\n");
    record = concat(record.as_str(), request.client_id());
    record = concat(record.as_str(), "\n");
    record = concat(record.as_str(), digest_hex.as_str());
    record = concat(record.as_str(), "\n");
    record
}

/// Decides a delivery from the files already in place: the client secret,
/// the client ID and the replay record, each absent or with its bytes.
pub fn plan_delivery(
    request: &RuntimeOidcClientSecret,
    secret: &Option<Vec<u8>>,
    client_id: &Option<Vec<u8>>,
    record: &Option<Vec<u8>>,
) -> (r: SecretDeliveryPlan)
    ensures
        r == delivery_plan(*request, file_view(*secret), file_view(*client_id), file_view(*record)),
{
    let expected_record = replay_metadata(request);
    if differs(secret, request.client_secret().as_bytes()) || differs(
        client_id,
        request.client_id().as_bytes(),
    ) || differs(record, expected_record.as_str().as_bytes()) {
        return SecretDeliveryPlan {
            write_secret: false,
            write_client_id: false,
            write_record: false,
            outcome: RuntimeSecretTargetOutcome::Conflict,
        };
    }
    let complete = secret.is_some() && client_id.is_some() && record.is_some();
    SecretDeliveryPlan {
        write_secret: secret.is_none(),
        write_client_id: client_id.is_none(),
        write_record: record.is_none(),
        outcome: if complete {
            RuntimeSecretTargetOutcome::AlreadyApplied
        } else {
            RuntimeSecretTargetOutcome::Applied
        },
    }
}

/// The outcome of a removal: applied when it deleted a file.
pub fn removal_outcome(removed: bool) -> (r: RuntimeSecretTargetOutcome)
    ensures
        removed ==> r == RuntimeSecretTargetOutcome::Applied,
        !removed ==> r == RuntimeSecretTargetOutcome::AlreadyApplied,
{
    if removed {
        RuntimeSecretTargetOutcome::Applied
    } else {
        RuntimeSecretTargetOutcome::AlreadyApplied
    }
}

/// Checks what `symlink_metadata` reports of a namespace directory: a
/// directory that is not a symbolic link, owned by the supervisor's user,
/// writable by nobody else.
pub fn check_directory(is_directory: bool, uid: u32, expected_uid: u32, mode: u32) -> (r: Result<
    (),
    NamespaceRuntimeSecretTargetError,
>)
    ensures
        !is_directory ==> r matches Err(NamespaceRuntimeSecretTargetError::InvalidDirectory),
        is_directory && uid != expected_uid ==> (r matches Err(
            NamespaceRuntimeSecretTargetError::OwnerMismatch { expected, actual },
        ) && expected == expected_uid && actual == uid),
        is_directory && uid == expected_uid && (mode & 0o777) & 0o022 != 0 ==> (r matches Err(
            NamespaceRuntimeSecretTargetError::WritableByNonOwner(m),
        ) && m == mode & 0o777),
        is_directory && uid == expected_uid && (mode & 0o777) & 0o022 == 0 ==> r is Ok,
{
    if !is_directory {
        return Err(NamespaceRuntimeSecretTargetError::InvalidDirectory);
    }
    if uid != expected_uid {
        return Err(NamespaceRuntimeSecretTargetError::OwnerMismatch { expected: expected_uid, actual: uid });
    }
    let permissions = mode & 0o777;
    if permissions & 0o022 != 0 {
        return Err(NamespaceRuntimeSecretTargetError::WritableByNonOwner(permissions));
    }
    Ok(())
}

/// Checks what an opened file reports: a regular file owned by the
/// supervisor's user, writable by nobody else.
pub fn check_file(is_file: bool, uid: u32, expected_uid: u32, mode: u32) -> (r: Result<
    (),
    NamespaceRuntimeSecretTargetError,
>)
    ensures
        !is_file ==> r matches Err(NamespaceRuntimeSecretTargetError::InvalidFile),
        is_file && uid != expected_uid ==> (r matches Err(
            NamespaceRuntimeSecretTargetError::FileOwnerMismatch { expected, actual },
        ) && expected == expected_uid && actual == uid),
        is_file && uid == expected_uid && (mode & 0o777) & 0o022 != 0 ==> (r matches Err(
            NamespaceRuntimeSecretTargetError::FileWritableByNonOwner(m),
        ) && m == mode & 0o777),
        is_file && uid == expected_uid && (mode & 0o777) & 0o022 == 0 ==> r is Ok,
{
    if !is_file {
        return Err(NamespaceRuntimeSecretTargetError::InvalidFile);
    }
    if uid != expected_uid {
        return Err(NamespaceRuntimeSecretTargetError::FileOwnerMismatch { expected: expected_uid, actual: uid });
    }
    let permissions = mode & 0o777;
    if permissions & 0o022 != 0 {
        return Err(NamespaceRuntimeSecretTargetError::FileWritableByNonOwner(permissions));
    }
    Ok(())
}

/// Accepts what was read from a file (at most one byte more than the limit)
/// if it is within the limit.
pub fn check_read_length(length: usize, maximum: usize) -> (r: Result<(), NamespaceRuntimeSecretTargetError>)
    ensures
        length > maximum ==> r matches Err(NamespaceRuntimeSecretTargetError::FileTooLarge),
        length <= maximum ==> r is Ok,
{
    if length > maximum {
        return Err(NamespaceRuntimeSecretTargetError::FileTooLarge);
    }
    Ok(())
}

/// A delivery replayed with the files it wrote finds them in place: the
/// replay is reported as already applied and writes nothing; a delivery of
/// different material into the same place is a conflict.
pub proof fn lemma_delivery_replay(request: RuntimeOidcClientSecret, other: RuntimeOidcClientSecret)
    ensures
        delivery_plan(
            request,
            Some(utf8_of(request.spec_client_secret())),
            Some(utf8_of(request.spec_client_id())),
            Some(utf8_of(request_record(request))),
        ) == (SecretDeliveryPlan {
            write_secret: false,
            write_client_id: false,
            write_record: false,
            outcome: RuntimeSecretTargetOutcome::AlreadyApplied,
        }),
        utf8_of(request_record(other)) != utf8_of(request_record(request)) ==> delivery_plan(
            other,
            Some(utf8_of(request.spec_client_secret())),
            Some(utf8_of(request.spec_client_id())),
            Some(utf8_of(request_record(request))),
        ).outcome == RuntimeSecretTargetOutcome::Conflict,
{
}

/// A first delivery into an empty secret directory writes all three files
/// and is applied.
pub proof fn lemma_first_delivery(request: RuntimeOidcClientSecret)
    ensures
        delivery_plan(request, None, None, None) == (SecretDeliveryPlan {
            write_secret: true,
            write_client_id: true,
            write_record: true,
            outcome: RuntimeSecretTargetOutcome::Applied,
        }),
{
}

/// The three files of a secret directory (secret, client ID, replay
/// record) after a plan is carried out for a request: each file the plan
/// writes holds the request's value, the others stay as they were.
pub open spec fn files_after(
    request: RuntimeOidcClientSecret,
    plan: SecretDeliveryPlan,
    files: (Option<Seq<u8>>, Option<Seq<u8>>, Option<Seq<u8>>),
) -> (Option<Seq<u8>>, Option<Seq<u8>>, Option<Seq<u8>>) {
    (
        if plan.write_secret {
            Some(utf8_of(request.spec_client_secret()))
        } else {
            files.0
        },
        if plan.write_client_id {
            Some(utf8_of(request.spec_client_id()))
        } else {
            files.1
        },
        if plan.write_record {
            Some(utf8_of(request_record(request)))
        } else {
            files.2
        },
    )
}

/// Two deliveries for one installation: the first, into an empty secret
/// directory, is applied. A second with the same operation, app, publisher,
/// client ID and secret is already applied; a second with another secret
/// conflicts. Either way the second writes nothing, so the files keep the
/// first delivery's values.
pub proof fn lemma_second_delivery(first: RuntimeOidcClientSecret, second: RuntimeOidcClientSecret)
    ensures
        ({
            let empty = (None::<Seq<u8>>, None::<Seq<u8>>, None::<Seq<u8>>);
            let plan1 = delivery_plan(first, empty.0, empty.1, empty.2);
            let files1 = files_after(first, plan1, empty);
            let plan2 = delivery_plan(second, files1.0, files1.1, files1.2);
            &&& plan1.outcome == RuntimeSecretTargetOutcome::Applied
            &&& files1 == (
                Some(utf8_of(first.spec_client_secret())),
                Some(utf8_of(first.spec_client_id())),
                Some(utf8_of(request_record(first))),
            )
            &&& (second.spec_operation_id() == first.spec_operation_id() && second.spec_app_id()
                == first.spec_app_id() && second.spec_publisher_id() == first.spec_publisher_id()
                && second.spec_client_id() == first.spec_client_id() && second.spec_client_secret()
                == first.spec_client_secret()) ==> plan2.outcome
                == RuntimeSecretTargetOutcome::AlreadyApplied && files_after(second, plan2, files1)
                == files1
            &&& utf8_of(second.spec_client_secret()) != utf8_of(first.spec_client_secret())
                ==> plan2.outcome == RuntimeSecretTargetOutcome::Conflict && files_after(
                second,
                plan2,
                files1,
            ) == files1
        }),
{
}

} // verus!
