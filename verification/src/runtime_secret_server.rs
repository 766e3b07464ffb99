//! The supervisor side of the runtime secret protocol: reading deliveries and
//! removals, and answering with the target's outcome.
use vstd::prelude::*;
use vstd::utf8::valid_utf8;

use crate::docker_runtime_target::path_is_absolute;
use crate::frame::{
    decode_fields, encode_fields, encoded_length, fields_within, frame, lemma_decode_encode_fields,
    read_fields, FrameError, HEADER_LENGTH,
};
use crate::runtime_provider::{
    is_allowed_socket_mode, socket_config_error, views, OWNER_GROUP_SOCKET_MODE,
    OWNER_ONLY_SOCKET_MODE,
};
use crate::runtime_secrets::{
    delivery_fields, removal_fields, secret_magic, secret_magic_bytes, OP_DELIVER_OIDC,
    OP_REMOVE_INSTALLATION, STATUS_CONFLICT, STATUS_OK, STATUS_REJECTED,
};
use crate::text::{field_to_string, utf8_of};
use crate::domain_ids::{check_reverse_dns, check_token, check_uuid, is_reverse_dns, is_token, is_uuid_text};

verus! {

pub const DEFAULT_TIMEOUT_NANOS: u64 = 5_000_000_000;
pub const MAX_FIELD_LENGTH: usize = 1024;
pub const MAX_REQUEST_LENGTH: usize = 4096;
pub const DELIVER_FIELD_COUNT: u8 = 6;
pub const REMOVE_FIELD_COUNT: u8 = 2;

#[derive(Debug, Clone)]
pub struct UnixRuntimeSecretServerConfig {
    socket_path: String,
    expected_peer_uid: u32,
    timeout_nanos: u64,
    socket_mode: u32,
}

#[derive(Debug, Clone, Copy, PartialEq, Eq, Structural)]
pub enum UnixRuntimeSecretServerConfigError {
    SocketPathMustBeAbsolute,
    ZeroTimeout,
    InvalidSocketMode,
}

/// What a secret target reports. Targets apply a delivery only to the named
/// installation's namespace, answer an identical replay with
/// `AlreadyApplied` and a replay with different material with `Conflict`.
#[derive(Debug, Clone, Copy, PartialEq, Eq, Structural)]
pub enum RuntimeSecretTargetOutcome {
    Applied,
    AlreadyApplied,
    Conflict,
    Rejected,
}

/// OIDC client credentials for one installation, delivered by one app
/// operation.
#[derive(Debug)]
pub struct RuntimeOidcClientSecret {
    operation_id: String,
    installation_id: String,
    app_id: String,
    publisher_id: String,
    client_id: String,
    client_secret: String,
}

/// A request to remove an installation's runtime secret material.
#[derive(Debug, Clone)]
pub struct RuntimeSecretRemoval {
    operation_id: String,
    installation_id: String,
}

#[derive(Debug)]
pub enum UnixRuntimeSecretServerError {
    Bind(std::io::Error),
    SetSocketPermissions(std::io::Error),
    Accept(std::io::Error),
    ConfigureConnection(std::io::Error),
    PeerCredentials(std::io::Error),
    UnexpectedPeerUid { expected: u32, actual: u32 },
    Read(std::io::Error),
    InvalidRequest,
    Target,
    Write(std::io::Error),
}

/// A secret request the server has read and validated.
#[derive(Debug)]
pub enum ParsedSecretRequest {
    Deliver(RuntimeOidcClientSecret),
    Remove(RuntimeSecretRemoval),
}

impl UnixRuntimeSecretServerConfig {
    pub closed spec fn spec_socket_path(&self) -> Seq<char> {
        self.socket_path@
    }

    pub closed spec fn spec_expected_peer_uid(&self) -> u32 {
        self.expected_peer_uid
    }

    pub closed spec fn spec_timeout_nanos(&self) -> u64 {
        self.timeout_nanos
    }

    pub closed spec fn spec_socket_mode(&self) -> u32 {
        self.socket_mode
    }

    /// An owner-only configuration with the default five-second timeout.
    pub fn new(socket_path: String, expected_peer_uid: u32) -> (r: Result<
        Self,
        UnixRuntimeSecretServerConfigError,
    >)
        ensures
            match socket_config_error(utf8_of(socket_path@), DEFAULT_TIMEOUT_NANOS) {
                None => r matches Ok(c) && c.spec_socket_path() == socket_path@
                    && c.spec_expected_peer_uid() == expected_peer_uid && c.spec_timeout_nanos()
                    == DEFAULT_TIMEOUT_NANOS && c.spec_socket_mode() == OWNER_ONLY_SOCKET_MODE,
                Some(k) => r == Err::<Self, UnixRuntimeSecretServerConfigError>(
                    if k == 0 {
                        UnixRuntimeSecretServerConfigError::SocketPathMustBeAbsolute
                    } else {
                        UnixRuntimeSecretServerConfigError::ZeroTimeout
                    },
                ),
            },
    {
        Self::with_timeout(socket_path, expected_peer_uid, DEFAULT_TIMEOUT_NANOS)
    }

    /// Requires an absolute socket path and a non-zero timeout; the socket
    /// starts owner-only.
    pub fn with_timeout(socket_path: String, expected_peer_uid: u32, timeout_nanos: u64) -> (r:
        Result<Self, UnixRuntimeSecretServerConfigError>)
        ensures
            match socket_config_error(utf8_of(socket_path@), timeout_nanos) {
                None => r matches Ok(c) && c.spec_socket_path() == socket_path@
                    && c.spec_expected_peer_uid() == expected_peer_uid && c.spec_timeout_nanos()
                    == timeout_nanos && c.spec_socket_mode() == OWNER_ONLY_SOCKET_MODE,
                Some(k) => r == Err::<Self, UnixRuntimeSecretServerConfigError>(
                    if k == 0 {
                        UnixRuntimeSecretServerConfigError::SocketPathMustBeAbsolute
                    } else {
                        UnixRuntimeSecretServerConfigError::ZeroTimeout
                    },
                ),
            },
    {
        if !path_is_absolute(socket_path.as_str()) {
            return Err(UnixRuntimeSecretServerConfigError::SocketPathMustBeAbsolute);
        }
        if timeout_nanos == 0 {
            return Err(UnixRuntimeSecretServerConfigError::ZeroTimeout);
        }
        Ok(Self { socket_path, expected_peer_uid, timeout_nanos, socket_mode: OWNER_ONLY_SOCKET_MODE })
    }

    pub fn socket_path(&self) -> (r: &str)
        ensures
            r@ == self.spec_socket_path(),
    {
        self.socket_path.as_str()
    }

    pub fn expected_peer_uid(&self) -> (r: u32)
        ensures
            r == self.spec_expected_peer_uid(),
    {
        self.expected_peer_uid
    }

    /// A connection is served only when its peer is the expected user.
    pub fn check_peer_uid(&self, actual: u32) -> (r: Result<(), UnixRuntimeSecretServerError>)
        ensures
            actual == self.spec_expected_peer_uid() ==> r is Ok,
            actual != self.spec_expected_peer_uid() ==> r == Err::<(), UnixRuntimeSecretServerError>(
                UnixRuntimeSecretServerError::UnexpectedPeerUid { expected: self.spec_expected_peer_uid(), actual },
            ),
    {
        let expected = self.expected_peer_uid();
        if actual != expected {
            return Err(UnixRuntimeSecretServerError::UnexpectedPeerUid { expected, actual });
        }
        Ok(())
    }

    /// The connection timeout in nanoseconds.
    pub fn timeout(&self) -> (r: u64)
        ensures
            r == self.spec_timeout_nanos(),
    {
        self.timeout_nanos
    }

    /// Allows owner-only `0600` or owner-and-group `0660`, nothing else.
    pub fn with_socket_mode(self, socket_mode: u32) -> (r: Result<
        Self,
        UnixRuntimeSecretServerConfigError,
    >)
        ensures
            is_allowed_socket_mode(socket_mode) ==> (r matches Ok(c) && c.spec_socket_mode()
                == socket_mode && c.spec_socket_path() == self.spec_socket_path()
                && c.spec_expected_peer_uid() == self.spec_expected_peer_uid()
                && c.spec_timeout_nanos() == self.spec_timeout_nanos()),
            !is_allowed_socket_mode(socket_mode) ==> r == Err::<
                Self,
                UnixRuntimeSecretServerConfigError,
            >(UnixRuntimeSecretServerConfigError::InvalidSocketMode),
    {
        if !(socket_mode == OWNER_ONLY_SOCKET_MODE || socket_mode == OWNER_GROUP_SOCKET_MODE) {
            return Err(UnixRuntimeSecretServerConfigError::InvalidSocketMode);
        }
        let mut next = self;
        next.socket_mode = socket_mode;
        Ok(next)
    }

    pub fn socket_mode(&self) -> (r: u32)
        ensures
            r == self.spec_socket_mode(),
    {
        self.socket_mode
    }
}

impl RuntimeOidcClientSecret {
    pub closed spec fn spec_fields(&self) -> Seq<Seq<u8>> {
        delivery_fields(
            self.operation_id@,
            self.installation_id@,
            self.app_id@,
            self.publisher_id@,
            self.client_id@,
            self.client_secret@,
        )
    }

    pub closed spec fn spec_operation_id(&self) -> Seq<char> {
        self.operation_id@
    }

    pub closed spec fn spec_installation_id(&self) -> Seq<char> {
        self.installation_id@
    }

    pub closed spec fn spec_app_id(&self) -> Seq<char> {
        self.app_id@
    }

    pub closed spec fn spec_publisher_id(&self) -> Seq<char> {
        self.publisher_id@
    }

    pub closed spec fn spec_client_id(&self) -> Seq<char> {
        self.client_id@
    }

    pub closed spec fn spec_client_secret(&self) -> Seq<char> {
        self.client_secret@
    }

    pub proof fn lemma_fields(&self)
        ensures
            self.spec_fields() == delivery_fields(
                self.spec_operation_id(),
                self.spec_installation_id(),
                self.spec_app_id(),
                self.spec_publisher_id(),
                self.spec_client_id(),
                self.spec_client_secret(),
            ),
    {
    }

    pub fn new(
        operation_id: String,
        installation_id: String,
        app_id: String,
        publisher_id: String,
        client_id: String,
        client_secret: String,
    ) -> (r: Self)
        ensures
            r.spec_operation_id() == operation_id@,
            r.spec_installation_id() == installation_id@,
            r.spec_app_id() == app_id@,
            r.spec_publisher_id() == publisher_id@,
            r.spec_client_id() == client_id@,
            r.spec_client_secret() == client_secret@,
    {
        Self { operation_id, installation_id, app_id, publisher_id, client_id, client_secret }
    }

    pub fn operation_id(&self) -> (r: &str)
        ensures
            r@ == self.spec_operation_id(),
    {
        self.operation_id.as_str()
    }

    pub fn installation_id(&self) -> (r: &str)
        ensures
            r@ == self.spec_installation_id(),
    {
        self.installation_id.as_str()
    }

    pub fn app_id(&self) -> (r: &str)
        ensures
            r@ == self.spec_app_id(),
    {
        self.app_id.as_str()
    }

    pub fn publisher_id(&self) -> (r: &str)
        ensures
            r@ == self.spec_publisher_id(),
    {
        self.publisher_id.as_str()
    }

    pub fn client_id(&self) -> (r: &str)
        ensures
            r@ == self.spec_client_id(),
    {
        self.client_id.as_str()
    }

    /// The encoded client secret.
    pub fn client_secret(&self) -> (r: &str)
        ensures
            r@ == self.spec_client_secret(),
    {
        self.client_secret.as_str()
    }
}

impl RuntimeSecretRemoval {
    pub closed spec fn spec_operation_id(&self) -> Seq<char> {
        self.operation_id@
    }

    pub closed spec fn spec_installation_id(&self) -> Seq<char> {
        self.installation_id@
    }

    pub fn new(operation_id: String, installation_id: String) -> (r: Self)
        ensures
            r.spec_operation_id() == operation_id@,
            r.spec_installation_id() == installation_id@,
    {
        Self { operation_id, installation_id }
    }

    pub fn operation_id(&self) -> (r: &str)
        ensures
            r@ == self.spec_operation_id(),
    {
        self.operation_id.as_str()
    }

    pub fn installation_id(&self) -> (r: &str)
        ensures
            r@ == self.spec_installation_id(),
    {
        self.installation_id.as_str()
    }
}

/// How the server reads a complete secret request: a delivery has exactly
/// six fields and a removal two; fields are 1 to 1024 bytes and the frame at
/// most 4 KiB.
pub open spec fn decode_secret_frame(b: Seq<u8>) -> Result<(u8, Seq<Seq<u8>>), FrameError> {
    if b.len() < HEADER_LENGTH {
        Err(FrameError::Truncated)
    } else if b.take(4) != secret_magic() {
        Err(FrameError::Invalid)
    } else if !((b[4] == OP_DELIVER_OIDC && b[5] == DELIVER_FIELD_COUNT) || (b[4]
        == OP_REMOVE_INSTALLATION && b[5] == REMOVE_FIELD_COUNT)) {
        Err(FrameError::Invalid)
    } else {
        match decode_fields(
            b,
            HEADER_LENGTH as int,
            b[5] as nat,
            MAX_FIELD_LENGTH as int,
            MAX_REQUEST_LENGTH as int,
        ) {
            Ok(fields) => Ok((b[4], fields)),
            Err(e) => Err(e),
        }
    }
}

/// The wire fields of a parsed secret request.
pub open spec fn secret_request_fields(request: ParsedSecretRequest) -> Seq<Seq<u8>> {
    match request {
        ParsedSecretRequest::Deliver(d) => d.spec_fields(),
        ParsedSecretRequest::Remove(r) => removal_fields(
            r.spec_operation_id(),
            r.spec_installation_id(),
        ),
    }
}

pub open spec fn secret_request_operation(request: ParsedSecretRequest) -> u8 {
    match request {
        ParsedSecretRequest::Deliver(_) => OP_DELIVER_OIDC,
        ParsedSecretRequest::Remove(_) => OP_REMOVE_INSTALLATION,
    }
}

pub open spec fn all_utf8(f: Seq<Seq<u8>>) -> bool {
    forall|i: int| 0 <= i < f.len() ==> valid_utf8(#[trigger] f[i])
}

fn text_field(fields: &[Vec<u8>], i: usize) -> (r: Option<String>)
    requires
        i < fields@.len(),
    ensures
        r is Some <==> valid_utf8(fields@[i as int]@),
        r matches Some(s) ==> utf8_of(s@) == fields@[i as int]@,
{
    field_to_string(fields[i].as_slice())
}

/// The domain values of a secret request: operation and installation IDs in
/// their UUID form, app and publisher IDs as reverse-DNS names, and the
/// client ID and secret as visible ASCII.
pub open spec fn secret_values_valid(operation: u8, f: Seq<Seq<u8>>) -> bool {
    &&& f.len() >= 2
    &&& is_uuid_text(f[0])
    &&& is_uuid_text(f[1])
    &&& (operation == OP_DELIVER_OIDC ==> {
        &&& f.len() == 6
        &&& is_reverse_dns(f[2])
        &&& is_reverse_dns(f[3])
        &&& is_token(f[4])
        &&& is_token(f[5])
    })
}

/// Checks the domain values of a secret request's fields.
pub fn check_secret_values(operation: u8, fields: &[Vec<u8>]) -> (r: bool)
    requires
        operation == OP_DELIVER_OIDC ==> fields@.len() == DELIVER_FIELD_COUNT,
        operation != OP_DELIVER_OIDC ==> fields@.len() == REMOVE_FIELD_COUNT,
    ensures
        r == secret_values_valid(operation, views(fields@)),
{
    let ghost f = views(fields@);
    assert(forall|i: int| 0 <= i < fields@.len() ==> f[i] == fields@[i]@);
    if !check_uuid(fields[0].as_slice()) || !check_uuid(fields[1].as_slice()) {
        return false;
    }
    if operation == OP_DELIVER_OIDC {
        check_reverse_dns(fields[2].as_slice()) && check_reverse_dns(fields[3].as_slice())
            && check_token(fields[4].as_slice()) && check_token(fields[5].as_slice())
    } else {
        true
    }
}

/// Reads a complete secret request. A frame that ends early is `Truncated`;
/// a malformed frame, a field that is not UTF-8 or a value out of its
/// domain form is `Invalid`.
pub fn parse_request(b: &[u8]) -> (r: Result<ParsedSecretRequest, FrameError>)
    ensures
        match decode_secret_frame(b@) {
            Err(e) => r == Err::<ParsedSecretRequest, FrameError>(e),
            Ok((op, f)) => if all_utf8(f) && secret_values_valid(op, f) {
                r matches Ok(p) && secret_request_operation(p) == op && secret_request_fields(p)
                    == f
            } else {
                r == Err::<ParsedSecretRequest, FrameError>(FrameError::Invalid)
            },
        },
{
    if b.len() < HEADER_LENGTH {
        return Err(FrameError::Truncated);
    }
    let magic = secret_magic_bytes();
    let has_magic = b[0] == magic[0] && b[1] == magic[1] && b[2] == magic[2] && b[3] == magic[3];
    if !has_magic {
        assert(b@.take(4) != secret_magic()) by {
            if b@.take(4) == secret_magic() {
                assert(b@.take(4)[0] == b@[0] && b@.take(4)[1] == b@[1] && b@.take(4)[2] == b@[2]
                    && b@.take(4)[3] == b@[3]);
            }
        }
        return Err(FrameError::Invalid);
    }
    assert(b@.take(4) =~= secret_magic());
    let operation = b[4];
    let count = b[5];
    if !((operation == OP_DELIVER_OIDC && count == DELIVER_FIELD_COUNT) || (operation
        == OP_REMOVE_INSTALLATION && count == REMOVE_FIELD_COUNT)) {
        return Err(FrameError::Invalid);
    }
    let fields = match read_fields(b, HEADER_LENGTH, count, MAX_FIELD_LENGTH, MAX_REQUEST_LENGTH) {
        Ok(fields) => fields,
        Err(e) => return Err(e),
    };
    let ghost f = views(fields@);
    proof {
        lemma_secret_fields_len(b@, HEADER_LENGTH as int, count as nat);
    }
    assert(forall|i: int| 0 <= i < fields@.len() ==> f[i] == fields@[i]@);
    assert(decode_secret_frame(b@) == Ok::<(u8, Seq<Seq<u8>>), FrameError>((operation, f)));
    if !check_secret_values(operation, fields.as_slice()) {
        return Err(FrameError::Invalid);
    }
    let mut texts: Vec<String> = Vec::new();
    let mut i: usize = 0;
    while i < fields.len()
        invariant
            decode_secret_frame(b@) == Ok::<(u8, Seq<Seq<u8>>), FrameError>((operation, f)),
            f == views(fields@),
            forall|j: int| 0 <= j < fields@.len() ==> f[j] == fields@[j]@,
            i <= fields@.len(),
            texts@.len() == i,
            forall|j: int| 0 <= j < i ==> utf8_of(#[trigger] texts@[j]@) == f[j],
        decreases fields@.len() - i,
    {
        match text_field(fields.as_slice(), i) {
            Some(text) => texts.push(text),
            None => {
                assert(!valid_utf8(f[i as int]));
                return Err(FrameError::Invalid);
            },
        }
        i = i + 1;
    }
    assert(all_utf8(f)) by {
        assert forall|j: int| 0 <= j < f.len() implies valid_utf8(#[trigger] f[j]) by {
            vstd::utf8::encode_utf8_valid_utf8(texts@[j]@);
        }
    }
    let ghost t = texts@;
    assert(forall|j: int| 0 <= j < t.len() ==> utf8_of(#[trigger] t[j]@) == f[j]);
    if operation == OP_DELIVER_OIDC {
        let client_secret = texts.pop().unwrap();
        assert(texts@ =~= t.take(5));
        let client_id = texts.pop().unwrap();
        assert(texts@ =~= t.take(4));
        let publisher_id = texts.pop().unwrap();
        assert(texts@ =~= t.take(3));
        let app_id = texts.pop().unwrap();
        assert(texts@ =~= t.take(2));
        let installation_id = texts.pop().unwrap();
        assert(texts@ =~= t.take(1));
        let operation_id = texts.pop().unwrap();
        let delivery = RuntimeOidcClientSecret::new(
            operation_id,
            installation_id,
            app_id,
            publisher_id,
            client_id,
            client_secret,
        );
        proof {
            delivery.lemma_fields();
            assert(delivery.spec_fields() =~= f);
        }
        Ok(ParsedSecretRequest::Deliver(delivery))
    } else {
        let installation_id = texts.pop().unwrap();
        assert(texts@ =~= t.take(1));
        let operation_id = texts.pop().unwrap();
        let removal = RuntimeSecretRemoval::new(operation_id, installation_id);
        assert(removal_fields(removal.spec_operation_id(), removal.spec_installation_id()) =~= f);
        Ok(ParsedSecretRequest::Remove(removal))
    }
}

pub proof fn lemma_secret_fields_len(b: Seq<u8>, pos: int, remaining: nat)
    ensures
        decode_fields(b, pos, remaining, MAX_FIELD_LENGTH as int, MAX_REQUEST_LENGTH as int) matches Ok(
            f,
        ) ==> f.len() == remaining,
    decreases remaining,
{
    if remaining > 0 && pos + 4 <= b.len() {
        let len = crate::frame::be32_value(b.subrange(pos, pos + 4));
        lemma_secret_fields_len(b, pos + 4 + len, (remaining - 1) as nat);
    }
}

/// Law: a delivery or removal framed by the client is read back by the
/// server as the same operation and fields, provided every field is 1 to
/// 1024 bytes and the frame fits in 4 KiB.
pub proof fn lemma_secret_frame_roundtrip(operation: u8, fields: Seq<Seq<u8>>)
    requires
        (operation == OP_DELIVER_OIDC && fields.len() == 6) || (operation == OP_REMOVE_INSTALLATION
            && fields.len() == 2),
        fields_within(fields, MAX_FIELD_LENGTH as int),
        HEADER_LENGTH + encoded_length(fields) <= MAX_REQUEST_LENGTH,
    ensures
        decode_secret_frame(frame(secret_magic(), operation, fields)) == Ok::<
            (u8, Seq<Seq<u8>>),
            FrameError,
        >((operation, fields)),
{
    let header = secret_magic() + seq![operation, fields.len() as u8];
    let b = frame(secret_magic(), operation, fields);
    assert(b =~= header + encode_fields(fields));
    lemma_decode_encode_fields(header, fields, MAX_FIELD_LENGTH as int, MAX_REQUEST_LENGTH as int);
    assert(b.take(4) =~= secret_magic());
    assert(b[4] == operation);
    assert(b[5] == fields.len() as u8);
}

/// Every delivery's fields are UTF-8, so the server can read them all.
pub proof fn lemma_delivery_fields_utf8(
    operation_id: Seq<char>,
    installation_id: Seq<char>,
    app_id: Seq<char>,
    publisher_id: Seq<char>,
    client_id: Seq<char>,
    client_secret: Seq<char>,
)
    ensures
        all_utf8(
            delivery_fields(
                operation_id,
                installation_id,
                app_id,
                publisher_id,
                client_id,
                client_secret,
            ),
        ),
{
    vstd::utf8::encode_utf8_valid_utf8(operation_id);
    vstd::utf8::encode_utf8_valid_utf8(installation_id);
    vstd::utf8::encode_utf8_valid_utf8(app_id);
    vstd::utf8::encode_utf8_valid_utf8(publisher_id);
    vstd::utf8::encode_utf8_valid_utf8(client_id);
    vstd::utf8::encode_utf8_valid_utf8(client_secret);
}

/// The status byte the server answers with (`None` when the target failed)
/// and what `serve_once` reports: applied and already-applied are success,
/// a conflict and a rejection are passed on, a target failure is rejected.
pub fn secret_reply(outcome: Option<RuntimeSecretTargetOutcome>) -> (r: (
    u8,
    Result<(), UnixRuntimeSecretServerError>,
))
    ensures
        match outcome {
            Some(RuntimeSecretTargetOutcome::Applied) => r.0 == STATUS_OK && r.1 is Ok,
            Some(RuntimeSecretTargetOutcome::AlreadyApplied) => r.0 == STATUS_OK && r.1 is Ok,
            Some(RuntimeSecretTargetOutcome::Conflict) => r.0 == STATUS_CONFLICT && r.1 is Ok,
            Some(RuntimeSecretTargetOutcome::Rejected) => r.0 == STATUS_REJECTED && r.1 is Ok,
            None => r.0 == STATUS_REJECTED && (r.1 matches Err(UnixRuntimeSecretServerError::Target)),
        },
{
    match outcome {
        Some(RuntimeSecretTargetOutcome::Applied) => (STATUS_OK, Ok(())),
        Some(RuntimeSecretTargetOutcome::AlreadyApplied) => (STATUS_OK, Ok(())),
        Some(RuntimeSecretTargetOutcome::Conflict) => (STATUS_CONFLICT, Ok(())),
        Some(RuntimeSecretTargetOutcome::Rejected) => (STATUS_REJECTED, Ok(())),
        None => (STATUS_REJECTED, Err(UnixRuntimeSecretServerError::Target)),
    }
}

/// The five bytes the server writes for a status.
pub open spec fn status_bytes(status: u8) -> Seq<u8> {
    secret_magic() + seq![status]
}

pub fn encode_status(status: u8) -> (r: Vec<u8>)
    ensures
        r@ == status_bytes(status),
{
    let mut r = secret_magic_bytes();
    r.push(status);
    assert(r@ =~= status_bytes(status));
    r
}

/// Law: whatever the target reports, the client reads the server's answer
/// as the status that `secret_reply` chose.
pub proof fn lemma_status_roundtrip(status: u8)
    requires
        status == STATUS_OK || status == STATUS_CONFLICT || status == STATUS_REJECTED,
    ensures
        crate::runtime_secrets::read_ack(status_bytes(status)) == Some(status),
{
    assert(status_bytes(status).take(4) =~= secret_magic());
}

} // verus!
