//! The runtime control protocol between the platform (client) and the
//! privileged runtime supervisor (server): request framing, the fields of an
//! installation specification, responses, and what each side accepts.
use vstd::prelude::*;
use vstd::utf8::valid_utf8;

use crate::docker_runtime_target::{is_absolute_path, path_is_absolute};
use crate::frame::{
    decode_fields, encode_fields, encoded_length, fields_within, frame, lemma_decode_encode_fields,
    lemma_encode_fields_push, lemma_encoded_length, push_be32, read_fields, FrameError,
    HEADER_LENGTH,
};
use crate::runtime_model::{
    container_artifact_bytes, endpoint_bytes, entrypoint_fields, entrypoints_fields,
    lemma_entrypoints_fields_len, runtime_kind_bytes, spec_fields, web_asset_bytes, AppIdentity,
    AppRuntimeInstallationState, RuntimeDescriptor, RuntimeEntrypoint, RuntimeEntrypointTarget,
    RuntimeInstallationSpec, RuntimeKind,
};
use crate::text::utf8_of;
use crate::domain_ids::{
    check_package_path, check_reverse_dns, check_simple_id, check_uuid, check_version,
    is_package_path, is_reverse_dns, is_simple_id, is_uuid_text, is_version,
};

verus! {

pub const OP_PREPARE: u8 = 1;
pub const OP_ACTIVATE: u8 = 2;
pub const OP_STATE: u8 = 3;
pub const OP_DEACTIVATE: u8 = 4;
pub const OP_REMOVE: u8 = 5;
pub const STATUS_OK: u8 = 0;
pub const STATUS_CONFLICT: u8 = 1;
pub const STATUS_REJECTED: u8 = 2;
pub const STATE_ABSENT: u8 = 0;
pub const STATE_PREPARED: u8 = 1;
pub const STATE_ACTIVE: u8 = 2;
pub const RESPONSE_LENGTH: usize = 7;
pub const BASE_SPEC_FIELD_COUNT: usize = 5;
pub const ENTRYPOINT_FIELD_COUNT: usize = 3;
pub const ID_FIELD_COUNT: u8 = 1;
pub const MAX_ENTRYPOINTS: usize = 64;
pub const MAX_FIELD_LENGTH: usize = 1024;
pub const MAX_REQUEST_LENGTH: usize = 65536;
pub const OWNER_ONLY_SOCKET_MODE: u32 = 384;
pub const OWNER_GROUP_SOCKET_MODE: u32 = 432;
pub const DEFAULT_TIMEOUT_NANOS: u64 = 5_000_000_000;

/// `RRP1`.
pub open spec fn control_magic() -> Seq<u8> {
    seq![82u8, 82u8, 80u8, 49u8]
}

fn control_magic_bytes() -> (r: Vec<u8>)
    ensures
        r@ == control_magic(),
{
    let r = vec![82u8, 82u8, 80u8, 49u8];
    assert(r@ =~= control_magic());
    r
}

/// The byte contents of a list of byte vectors.
pub open spec fn views(fields: Seq<Vec<u8>>) -> Seq<Seq<u8>> {
    fields.map_values(|f: Vec<u8>| f@)
}

// ---------------------------------------------------------------------------
// Configuration
// ---------------------------------------------------------------------------

#[derive(Debug, Clone)]
pub struct UnixAppRuntimeProviderConfig {
    socket_path: String,
    expected_peer_uid: u32,
    timeout_nanos: u64,
}

#[derive(Debug, Clone, Copy, PartialEq, Eq, Structural)]
pub enum UnixAppRuntimeProviderConfigError {
    SocketPathMustBeAbsolute,
    ZeroTimeout,
}

#[derive(Debug, Clone)]
pub struct UnixAppRuntimeProvider {
    config: UnixAppRuntimeProviderConfig,
}

#[derive(Debug, Clone)]
pub struct UnixRuntimeControlServerConfig {
    socket_path: String,
    expected_peer_uid: u32,
    timeout_nanos: u64,
    socket_mode: u32,
}

#[derive(Debug, Clone, Copy, PartialEq, Eq, Structural)]
pub enum UnixRuntimeControlServerConfigError {
    SocketPathMustBeAbsolute,
    ZeroTimeout,
    InvalidSocketMode,
}

/// Rejects a relative socket path, then a zero timeout.
pub open spec fn socket_config_error(socket_path: Seq<u8>, timeout_nanos: u64) -> Option<int> {
    if !is_absolute_path(socket_path) {
        Some(0)
    } else if timeout_nanos == 0 {
        Some(1)
    } else {
        None
    }
}

/// Socket modes the servers accept: owner-only `0600` or owner-and-group `0660`.
pub open spec fn is_allowed_socket_mode(mode: u32) -> bool {
    mode == OWNER_ONLY_SOCKET_MODE || mode == OWNER_GROUP_SOCKET_MODE
}

impl UnixAppRuntimeProviderConfig {
    pub closed spec fn spec_socket_path(&self) -> Seq<char> {
        self.socket_path@
    }

    pub closed spec fn spec_expected_peer_uid(&self) -> u32 {
        self.expected_peer_uid
    }

    pub closed spec fn spec_timeout_nanos(&self) -> u64 {
        self.timeout_nanos
    }

    /// A configuration with the default five-second timeout.
    pub fn new(socket_path: String, expected_peer_uid: u32) -> (r: Result<
        Self,
        UnixAppRuntimeProviderConfigError,
    >)
        ensures
            match socket_config_error(utf8_of(socket_path@), DEFAULT_TIMEOUT_NANOS) {
                None => r matches Ok(c) && c.spec_socket_path() == socket_path@
                    && c.spec_expected_peer_uid() == expected_peer_uid && c.spec_timeout_nanos()
                    == DEFAULT_TIMEOUT_NANOS,
                Some(k) => r == Err::<Self, UnixAppRuntimeProviderConfigError>(
                    if k == 0 {
                        UnixAppRuntimeProviderConfigError::SocketPathMustBeAbsolute
                    } else {
                        UnixAppRuntimeProviderConfigError::ZeroTimeout
                    },
                ),
            },
    {
        Self::with_timeout(socket_path, expected_peer_uid, DEFAULT_TIMEOUT_NANOS)
    }

    /// Requires an absolute socket path and a non-zero timeout in nanoseconds.
    pub fn with_timeout(socket_path: String, expected_peer_uid: u32, timeout_nanos: u64) -> (r:
        Result<Self, UnixAppRuntimeProviderConfigError>)
        ensures
            match socket_config_error(utf8_of(socket_path@), timeout_nanos) {
                None => r matches Ok(c) && c.spec_socket_path() == socket_path@
                    && c.spec_expected_peer_uid() == expected_peer_uid && c.spec_timeout_nanos()
                    == timeout_nanos,
                Some(k) => r == Err::<Self, UnixAppRuntimeProviderConfigError>(
                    if k == 0 {
                        UnixAppRuntimeProviderConfigError::SocketPathMustBeAbsolute
                    } else {
                        UnixAppRuntimeProviderConfigError::ZeroTimeout
                    },
                ),
            },
    {
        if !path_is_absolute(socket_path.as_str()) {
            return Err(UnixAppRuntimeProviderConfigError::SocketPathMustBeAbsolute);
        }
        if timeout_nanos == 0 {
            return Err(UnixAppRuntimeProviderConfigError::ZeroTimeout);
        }
        Ok(Self { socket_path, expected_peer_uid, timeout_nanos })
    }

    pub fn socket_path(&self) -> (r: &str)
        ensures
            r@ == self.spec_socket_path(),
    {
        self.socket_path.as_str()
    }

    pub fn expected_peer_uid(&self) -> (r: u32)
        ensures
            r == self.spec_expected_peer_uid(),
    {
        self.expected_peer_uid
    }

    /// The connection timeout in nanoseconds.
    pub fn timeout(&self) -> (r: u64)
        ensures
            r == self.spec_timeout_nanos(),
    {
        self.timeout_nanos
    }
}

impl UnixAppRuntimeProvider {
    pub closed spec fn spec_config(&self) -> UnixAppRuntimeProviderConfig {
        self.config
    }

    pub fn new(config: UnixAppRuntimeProviderConfig) -> (r: Self)
        ensures
            r.spec_config() == config,
    {
        Self { config }
    }

    pub fn config(&self) -> (r: &UnixAppRuntimeProviderConfig)
        ensures
            *r == self.spec_config(),
    {
        &self.config
    }

    /// Nothing is sent to a server whose peer is not the expected supervisor.
    pub fn check_peer_uid(&self, actual: u32) -> (r: Result<(), UnixAppRuntimeProviderError>)
        ensures
            actual == self.spec_config().spec_expected_peer_uid() ==> r is Ok,
            actual != self.spec_config().spec_expected_peer_uid() ==> r == Err::<
                (),
                UnixAppRuntimeProviderError,
            >(
                UnixAppRuntimeProviderError::UnexpectedPeerUid {
                    expected: self.spec_config().spec_expected_peer_uid(),
                    actual,
                },
            ),
    {
        let expected = self.config.expected_peer_uid();
        if actual != expected {
            return Err(UnixAppRuntimeProviderError::UnexpectedPeerUid { expected, actual });
        }
        Ok(())
    }
}

/// The request of a prepare or activate call: the specification's fields in
/// a control frame.
pub fn spec_request(operation: u8, spec: &RuntimeInstallationSpec) -> (r: Result<
    Vec<u8>,
    UnixAppRuntimeProviderError,
>)
    ensures
        (spec.spec_runtime().spec_entrypoints().len() <= MAX_ENTRYPOINTS
            && control_request_encodable(spec_fields(*spec))) ==> (r matches Ok(bytes) && bytes@
            == frame(control_magic(), operation, spec_fields(*spec))),
        !(spec.spec_runtime().spec_entrypoints().len() <= MAX_ENTRYPOINTS
            && control_request_encodable(spec_fields(*spec))) ==> (r matches Err(
            UnixAppRuntimeProviderError::InvalidRequest,
        )),
{
    match encode_spec(spec) {
        Ok(fields) => encode_request(operation, fields.as_slice()),
        Err(e) => Err(e),
    }
}

/// The request of a call that names one installation.
pub fn installation_request(operation: u8, installation_id: &str) -> (r: Result<
    Vec<u8>,
    UnixAppRuntimeProviderError,
>)
    ensures
        control_request_encodable(seq![utf8_of(installation_id@)]) ==> (r matches Ok(bytes)
            && bytes@ == frame(control_magic(), operation, seq![utf8_of(installation_id@)])),
        !control_request_encodable(seq![utf8_of(installation_id@)]) ==> (r matches Err(
            UnixAppRuntimeProviderError::InvalidRequest,
        )),
{
    let mut fields: Vec<Vec<u8>> = Vec::new();
    fields.push(crate::text::str_to_vec(installation_id));
    assert(views(fields@) =~= seq![utf8_of(installation_id@)]);
    encode_request(operation, fields.as_slice())
}

impl UnixRuntimeControlServerConfig {
    pub closed spec fn spec_socket_path(&self) -> Seq<char> {
        self.socket_path@
    }

    pub closed spec fn spec_expected_peer_uid(&self) -> u32 {
        self.expected_peer_uid
    }

    pub closed spec fn spec_timeout_nanos(&self) -> u64 {
        self.timeout_nanos
    }

    pub closed spec fn spec_socket_mode(&self) -> u32 {
        self.socket_mode
    }

    /// An owner-only configuration with the default five-second timeout.
    pub fn new(socket_path: String, expected_peer_uid: u32) -> (r: Result<
        Self,
        UnixRuntimeControlServerConfigError,
    >)
        ensures
            match socket_config_error(utf8_of(socket_path@), DEFAULT_TIMEOUT_NANOS) {
                None => r matches Ok(c) && c.spec_socket_path() == socket_path@
                    && c.spec_expected_peer_uid() == expected_peer_uid && c.spec_timeout_nanos()
                    == DEFAULT_TIMEOUT_NANOS && c.spec_socket_mode() == OWNER_ONLY_SOCKET_MODE,
                Some(k) => r == Err::<Self, UnixRuntimeControlServerConfigError>(
                    if k == 0 {
                        UnixRuntimeControlServerConfigError::SocketPathMustBeAbsolute
                    } else {
                        UnixRuntimeControlServerConfigError::ZeroTimeout
                    },
                ),
            },
    {
        Self::with_timeout(socket_path, expected_peer_uid, DEFAULT_TIMEOUT_NANOS)
    }

    /// Requires an absolute socket path and a non-zero timeout; the socket
    /// starts owner-only.
    pub fn with_timeout(socket_path: String, expected_peer_uid: u32, timeout_nanos: u64) -> (r:
        Result<Self, UnixRuntimeControlServerConfigError>)
        ensures
            match socket_config_error(utf8_of(socket_path@), timeout_nanos) {
                None => r matches Ok(c) && c.spec_socket_path() == socket_path@
                    && c.spec_expected_peer_uid() == expected_peer_uid && c.spec_timeout_nanos()
                    == timeout_nanos && c.spec_socket_mode() == OWNER_ONLY_SOCKET_MODE,
                Some(k) => r == Err::<Self, UnixRuntimeControlServerConfigError>(
                    if k == 0 {
                        UnixRuntimeControlServerConfigError::SocketPathMustBeAbsolute
                    } else {
                        UnixRuntimeControlServerConfigError::ZeroTimeout
                    },
                ),
            },
    {
        if !path_is_absolute(socket_path.as_str()) {
            return Err(UnixRuntimeControlServerConfigError::SocketPathMustBeAbsolute);
        }
        if timeout_nanos == 0 {
            return Err(UnixRuntimeControlServerConfigError::ZeroTimeout);
        }
        Ok(Self { socket_path, expected_peer_uid, timeout_nanos, socket_mode: OWNER_ONLY_SOCKET_MODE })
    }

    pub fn socket_path(&self) -> (r: &str)
        ensures
            r@ == self.spec_socket_path(),
    {
        self.socket_path.as_str()
    }

    pub fn expected_peer_uid(&self) -> (r: u32)
        ensures
            r == self.spec_expected_peer_uid(),
    {
        self.expected_peer_uid
    }

    /// A connection is served only when its peer is the expected user.
    pub fn check_peer_uid(&self, actual: u32) -> (r: Result<(), UnixRuntimeControlServerError>)
        ensures
            actual == self.spec_expected_peer_uid() ==> r is Ok,
            actual != self.spec_expected_peer_uid() ==> r == Err::<(), UnixRuntimeControlServerError>(
                UnixRuntimeControlServerError::UnexpectedPeerUid { expected: self.spec_expected_peer_uid(), actual },
            ),
    {
        let expected = self.expected_peer_uid();
        if actual != expected {
            return Err(UnixRuntimeControlServerError::UnexpectedPeerUid { expected, actual });
        }
        Ok(())
    }

    /// The connection timeout in nanoseconds.
    pub fn timeout(&self) -> (r: u64)
        ensures
            r == self.spec_timeout_nanos(),
    {
        self.timeout_nanos
    }

    /// Lets a service manager grant one trusted group access (`0660`); peer
    /// credentials still authenticate the exact platform UID. Any mode other
    /// than `0600` and `0660` is refused.
    pub fn with_socket_mode(self, socket_mode: u32) -> (r: Result<
        Self,
        UnixRuntimeControlServerConfigError,
    >)
        ensures
            is_allowed_socket_mode(socket_mode) ==> (r matches Ok(c) && c.spec_socket_mode()
                == socket_mode && c.spec_socket_path() == self.spec_socket_path()
                && c.spec_expected_peer_uid() == self.spec_expected_peer_uid()
                && c.spec_timeout_nanos() == self.spec_timeout_nanos()),
            !is_allowed_socket_mode(socket_mode) ==> r == Err::<
                Self,
                UnixRuntimeControlServerConfigError,
            >(UnixRuntimeControlServerConfigError::InvalidSocketMode),
    {
        if !(socket_mode == OWNER_ONLY_SOCKET_MODE || socket_mode == OWNER_GROUP_SOCKET_MODE) {
            return Err(UnixRuntimeControlServerConfigError::InvalidSocketMode);
        }
        let mut next = self;
        next.socket_mode = socket_mode;
        Ok(next)
    }

    pub fn socket_mode(&self) -> (r: u32)
        ensures
            r == self.spec_socket_mode(),
    {
        self.socket_mode
    }
}

} // verus!

verus! {

// ---------------------------------------------------------------------------
// Errors and outcomes
// ---------------------------------------------------------------------------

#[derive(Debug)]
pub enum UnixAppRuntimeProviderError {
    Connect(std::io::Error),
    ConfigureConnection(std::io::Error),
    PeerCredentials(std::io::Error),
    UnexpectedPeerUid { expected: u32, actual: u32 },
    InvalidRequest,
    Write(std::io::Error),
    Read(std::io::Error),
    InvalidResponse,
    ConflictingReplay,
    Rejected,
}

#[derive(Debug)]
pub enum UnixRuntimeControlServerError {
    Bind(std::io::Error),
    SetSocketPermissions(std::io::Error),
    Accept(std::io::Error),
    ConfigureConnection(std::io::Error),
    PeerCredentials(std::io::Error),
    UnexpectedPeerUid { expected: u32, actual: u32 },
    Read(std::io::Error),
    InvalidRequest,
    Target,
    InvalidTargetOutcome,
    Write(std::io::Error),
}

/// What a supervisor target reports for one operation. Targets compare the
/// complete specification on replays and report `Conflict` when an
/// installation ID is reused for a different specification.
#[derive(Debug, Clone, Copy, PartialEq, Eq, Structural)]
pub enum RuntimeControlTargetOutcome {
    Accepted { state: AppRuntimeInstallationState, changed: bool },
    Conflict,
    Rejected,
}

/// A successful response as the client reads it.
#[derive(Debug, Clone, Copy, PartialEq, Eq, Structural)]
pub struct RuntimeControlResponse {
    pub state: AppRuntimeInstallationState,
    pub changed: bool,
}

// ---------------------------------------------------------------------------
// Request encoding (client)
// ---------------------------------------------------------------------------

/// A request can be sent when it has at most 255 fields, every field is 1 to
/// 1024 bytes, and the whole frame is at most 64 KiB.
pub open spec fn control_request_encodable(fields: Seq<Seq<u8>>) -> bool {
    &&& fields.len() <= 255
    &&& fields_within(fields, MAX_FIELD_LENGTH as int)
    &&& HEADER_LENGTH + encoded_length(fields) <= MAX_REQUEST_LENGTH
}

pub proof fn lemma_encoded_length_take(fields: Seq<Seq<u8>>, i: int)
    requires
        0 <= i <= fields.len(),
    ensures
        encoded_length(fields.take(i)) <= encoded_length(fields),
    decreases fields.len(),
{
    lemma_encoded_length(fields);
    lemma_encoded_length(fields.take(i));
    if i > 0 {
        lemma_encoded_length_take(fields.drop_first(), i - 1);
        assert(fields.take(i).drop_first() =~= fields.drop_first().take(i - 1));
        assert(fields.take(i)[0] == fields[0]);
    } else {
        assert(fields.take(i) =~= Seq::<Seq<u8>>::empty());
    }
}

/// Frames a control request.
pub fn encode_request(operation: u8, fields: &[Vec<u8>]) -> (r: Result<
    Vec<u8>,
    UnixAppRuntimeProviderError,
>)
    ensures
        control_request_encodable(views(fields@)) ==> (r matches Ok(bytes) && bytes@ == frame(
            control_magic(),
            operation,
            views(fields@),
        )),
        !control_request_encodable(views(fields@)) ==> (r matches Err(
            UnixAppRuntimeProviderError::InvalidRequest,
        )),
{
    let ghost all = views(fields@);
    if fields.len() > 255 {
        return Err(UnixAppRuntimeProviderError::InvalidRequest);
    }
    let field_count = fields.len() as u8;
    let mut request = control_magic_bytes();
    request.push(operation);
    request.push(field_count);
    let mut i: usize = 0;
    proof {
        assert(all.take(0) =~= Seq::<Seq<u8>>::empty());
        assert(request@ =~= control_magic() + seq![operation, field_count] + encode_fields(
            all.take(0),
        ));
    }
    while i < fields.len()
        invariant
            all == views(fields@),
            all.len() == fields@.len(),
            fields@.len() <= 255,
            field_count == fields@.len() as u8,
            i <= fields@.len(),
            request@ == control_magic() + seq![operation, field_count] + encode_fields(
                all.take(i as int),
            ),
            request@.len() <= MAX_REQUEST_LENGTH,
            fields_within(all.take(i as int), MAX_FIELD_LENGTH as int),
        decreases fields@.len() - i,
    {
        let field = &fields[i];
        assert(all[i as int] == field@);
        if field.len() == 0 || field.len() > MAX_FIELD_LENGTH {
            assert(!fields_within(all, MAX_FIELD_LENGTH as int)) by {
                assert(!(0 < all[i as int].len() <= MAX_FIELD_LENGTH));
            }
            return Err(UnixAppRuntimeProviderError::InvalidRequest);
        }
        push_be32(&mut request, field.len() as u32);
        request.extend_from_slice(field.as_slice());
        proof {
            assert(all.take(i as int).push(field@) =~= all.take(i + 1));
            lemma_encode_fields_push(all.take(i as int), field@);
            assert(request@ =~= control_magic() + seq![operation, field_count] + encode_fields(
                all.take(i + 1),
            ));
            assert(fields_within(all.take(i + 1), MAX_FIELD_LENGTH as int)) by {
                assert forall|j: int| 0 <= j < all.take(i + 1).len() implies 0 < (
                #[trigger] all.take(i + 1)[j]).len() <= MAX_FIELD_LENGTH by {
                    if j < i {
                        assert(all.take(i + 1)[j] == all.take(i as int)[j]);
                    }
                }
            }
        }
        if request.len() > MAX_REQUEST_LENGTH {
            proof {
                lemma_encoded_length(all.take(i + 1));
                lemma_encoded_length_take(all, i + 1);
            }
            return Err(UnixAppRuntimeProviderError::InvalidRequest);
        }
        i = i + 1;
    }
    proof {
        assert(all.take(fields@.len() as int) =~= all);
        lemma_encoded_length(all);
    }
    Ok(request)
}

// ---------------------------------------------------------------------------
// Request decoding (server)
// ---------------------------------------------------------------------------

/// The field counts each operation allows: a specification (five base
/// fields plus three per entrypoint, at most 64 entrypoints) or a single
/// installation ID.
pub open spec fn control_header_ok(operation: u8, count: u8) -> bool {
    if operation == OP_PREPARE || operation == OP_ACTIVATE {
        count >= BASE_SPEC_FIELD_COUNT && (count - BASE_SPEC_FIELD_COUNT) % (
        ENTRYPOINT_FIELD_COUNT as int) == 0 && (count - BASE_SPEC_FIELD_COUNT) / (
        ENTRYPOINT_FIELD_COUNT as int) <= MAX_ENTRYPOINTS
    } else if operation == OP_STATE || operation == OP_DEACTIVATE || operation == OP_REMOVE {
        count == ID_FIELD_COUNT
    } else {
        false
    }
}

/// How the server reads a complete request: the header must be present, carry
/// the magic and an allowed field count, and the fields must follow exactly.
pub open spec fn decode_control_frame(b: Seq<u8>) -> Result<(u8, Seq<Seq<u8>>), FrameError> {
    if b.len() < HEADER_LENGTH {
        Err(FrameError::Truncated)
    } else if b.take(4) != control_magic() {
        Err(FrameError::Invalid)
    } else if !control_header_ok(b[4], b[5]) {
        Err(FrameError::Invalid)
    } else {
        match decode_fields(
            b,
            HEADER_LENGTH as int,
            b[5] as nat,
            MAX_FIELD_LENGTH as int,
            MAX_REQUEST_LENGTH as int,
        ) {
            Ok(fields) => Ok((b[4], fields)),
            Err(e) => Err(e),
        }
    }
}

fn header_ok(operation: u8, count: u8) -> (r: bool)
    ensures
        r == control_header_ok(operation, count),
{
    if operation == OP_PREPARE || operation == OP_ACTIVATE {
        let c = count as usize;
        c >= BASE_SPEC_FIELD_COUNT && (c - BASE_SPEC_FIELD_COUNT) % ENTRYPOINT_FIELD_COUNT == 0 && (c
            - BASE_SPEC_FIELD_COUNT) / ENTRYPOINT_FIELD_COUNT <= MAX_ENTRYPOINTS
    } else if operation == OP_STATE || operation == OP_DEACTIVATE || operation == OP_REMOVE {
        count == ID_FIELD_COUNT
    } else {
        false
    }
}

/// Whether the first four bytes are the protocol magic.
fn has_magic(b: &[u8], magic: &[u8]) -> (r: bool)
    requires
        b@.len() >= 4,
        magic@.len() == 4,
    ensures
        r == (b@.take(4) == magic@),
{
    let r = b[0] == magic[0] && b[1] == magic[1] && b[2] == magic[2] && b[3] == magic[3];
    if r {
        assert(b@.take(4) =~= magic@);
    } else {
        assert(b@.take(4) != magic@) by {
            if b@.take(4) == magic@ {
                assert(b@.take(4)[0] == b@[0]);
                assert(b@.take(4)[1] == b@[1]);
                assert(b@.take(4)[2] == b@[2]);
                assert(b@.take(4)[3] == b@[3]);
            }
        }
    }
    r
}

/// Reads the operation and fields of a complete request.
pub fn decode_request(b: &[u8]) -> (r: Result<(u8, Vec<Vec<u8>>), FrameError>)
    ensures
        match r {
            Ok((op, fields)) => decode_control_frame(b@) == Ok::<
                (u8, Seq<Seq<u8>>),
                FrameError,
            >((op, views(fields@))),
            Err(e) => decode_control_frame(b@) == Err::<(u8, Seq<Seq<u8>>), FrameError>(e),
        },
{
    if b.len() < HEADER_LENGTH {
        return Err(FrameError::Truncated);
    }
    let magic = control_magic_bytes();
    if !has_magic(b, magic.as_slice()) {
        return Err(FrameError::Invalid);
    }
    let operation = b[4];
    let count = b[5];
    if !header_ok(operation, count) {
        return Err(FrameError::Invalid);
    }
    match read_fields(b, HEADER_LENGTH, count, MAX_FIELD_LENGTH, MAX_REQUEST_LENGTH) {
        Ok(fields) => Ok((operation, fields)),
        Err(e) => Err(e),
    }
}

/// Law: the server reads back exactly the operation and fields that the
/// client framed, for every operation and field list the protocol allows.
pub proof fn lemma_control_frame_roundtrip(operation: u8, fields: Seq<Seq<u8>>)
    requires
        control_request_encodable(fields),
        control_header_ok(operation, fields.len() as u8),
    ensures
        decode_control_frame(frame(control_magic(), operation, fields)) == Ok::<
            (u8, Seq<Seq<u8>>),
            FrameError,
        >((operation, fields)),
{
    let header = control_magic() + seq![operation, fields.len() as u8];
    let b = frame(control_magic(), operation, fields);
    assert(b =~= header + encode_fields(fields));
    lemma_decode_encode_fields(header, fields, MAX_FIELD_LENGTH as int, MAX_REQUEST_LENGTH as int);
    assert(b.take(4) =~= control_magic());
    assert(b[4] == operation);
    assert(b[5] == fields.len() as u8);
    assert(fields.len() as u8 as nat == fields.len());
}

} // verus!

verus! {

// ---------------------------------------------------------------------------
// Installation specifications on the wire
// ---------------------------------------------------------------------------

/// `web`, `container` or `native`.
pub fn runtime_kind_name(kind: RuntimeKind) -> (r: Vec<u8>)
    ensures
        r@ == runtime_kind_bytes(kind),
{
    let r = match kind {
        RuntimeKind::Web => vec![119u8, 101u8, 98u8],
        RuntimeKind::Container => vec![99u8, 111u8, 110u8, 116u8, 97u8, 105u8, 110u8, 101u8, 114u8],
        RuntimeKind::Native => vec![110u8, 97u8, 116u8, 105u8, 118u8, 101u8],
    };
    assert(r@ =~= runtime_kind_bytes(kind));
    r
}

fn web_asset_name() -> (r: Vec<u8>)
    ensures
        r@ == web_asset_bytes(),
{
    let r = vec![119u8, 101u8, 98u8, 45u8, 97u8, 115u8, 115u8, 101u8, 116u8];
    assert(r@ =~= web_asset_bytes());
    r
}

fn container_artifact_name() -> (r: Vec<u8>)
    ensures
        r@ == container_artifact_bytes(),
{
    let r = vec![
        99u8, 111u8, 110u8, 116u8, 97u8, 105u8, 110u8, 101u8, 114u8, 45u8, 97u8, 114u8, 116u8,
        105u8, 102u8, 97u8, 99u8, 116u8,
    ];
    assert(r@ =~= container_artifact_bytes());
    r
}

fn endpoint_name() -> (r: Vec<u8>)
    ensures
        r@ == endpoint_bytes(),
{
    let r = vec![101u8, 110u8, 100u8, 112u8, 111u8, 105u8, 110u8, 116u8];
    assert(r@ =~= endpoint_bytes());
    r
}

pub open spec fn is_runtime_kind_name(b: Seq<u8>) -> bool {
    b == runtime_kind_bytes(RuntimeKind::Web) || b == runtime_kind_bytes(RuntimeKind::Container) || b
        == runtime_kind_bytes(RuntimeKind::Native)
}

pub open spec fn is_target_kind_name(b: Seq<u8>) -> bool {
    b == web_asset_bytes() || b == container_artifact_bytes() || b == endpoint_bytes()
}

/// Reads a runtime kind name.
pub fn parse_runtime_kind(value: &[u8]) -> (r: Result<RuntimeKind, UnixRuntimeControlServerError>)
    ensures
        is_runtime_kind_name(value@) ==> (r matches Ok(kind) && runtime_kind_bytes(kind) == value@),
        !is_runtime_kind_name(value@) ==> (r matches Err(
            UnixRuntimeControlServerError::InvalidRequest,
        )),
{
    let web = runtime_kind_name(RuntimeKind::Web);
    let container = runtime_kind_name(RuntimeKind::Container);
    let native = runtime_kind_name(RuntimeKind::Native);
    if crate::text::bytes_equal(value, web.as_slice()) {
        Ok(RuntimeKind::Web)
    } else if crate::text::bytes_equal(value, container.as_slice()) {
        Ok(RuntimeKind::Container)
    } else if crate::text::bytes_equal(value, native.as_slice()) {
        Ok(RuntimeKind::Native)
    } else {
        Err(UnixRuntimeControlServerError::InvalidRequest)
    }
}

/// The wire fields of a specification; refused when it names more than 64
/// entrypoints.
pub fn encode_spec(spec: &RuntimeInstallationSpec) -> (r: Result<
    Vec<Vec<u8>>,
    UnixAppRuntimeProviderError,
>)
    ensures
        spec.spec_runtime().spec_entrypoints().len() <= MAX_ENTRYPOINTS ==> (r matches Ok(fields)
            && views(fields@) == spec_fields(*spec)),
        spec.spec_runtime().spec_entrypoints().len() > MAX_ENTRYPOINTS ==> (r matches Err(
            UnixAppRuntimeProviderError::InvalidRequest,
        )),
{
    if spec.runtime().entrypoints().len() > MAX_ENTRYPOINTS {
        return Err(UnixAppRuntimeProviderError::InvalidRequest);
    }
    Ok(spec_wire_fields(spec))
}

/// The wire fields of a specification, whatever its size.
pub fn spec_wire_fields(spec: &RuntimeInstallationSpec) -> (r: Vec<Vec<u8>>)
    ensures
        views(r@) == spec_fields(*spec),
{
    let runtime = spec.runtime();
    let entrypoints = runtime.entrypoints();
    let identity = spec.identity();
    let mut fields: Vec<Vec<u8>> = Vec::new();
    fields.push(crate::text::str_to_vec(identity.installation_id()));
    fields.push(crate::text::str_to_vec(identity.app_id()));
    fields.push(crate::text::str_to_vec(identity.publisher_id()));
    fields.push(crate::text::str_to_vec(spec.version()));
    fields.push(runtime_kind_name(runtime.kind()));
    let ghost base = seq![
        utf8_of(spec.spec_identity().spec_installation_id()),
        utf8_of(spec.spec_identity().spec_app_id()),
        utf8_of(spec.spec_identity().spec_publisher_id()),
        utf8_of(spec.spec_version()),
        runtime_kind_bytes(spec.spec_runtime().spec_kind()),
    ];
    assert(views(fields@) =~= base + entrypoints_fields(entrypoints@.take(0)));
    let mut i: usize = 0;
    while i < entrypoints.len()
        invariant
            i <= entrypoints@.len(),
            views(fields@) == base + entrypoints_fields(entrypoints@.take(i as int)),
        decreases entrypoints@.len() - i,
    {
        let entrypoint = &entrypoints[i];
        let ghost before = views(fields@);
        fields.push(crate::text::str_to_vec(entrypoint.id()));
        match entrypoint.target() {
            RuntimeEntrypointTarget::WebAsset(path) => {
                fields.push(web_asset_name());
                fields.push(crate::text::str_to_vec(path.as_str()));
            },
            RuntimeEntrypointTarget::ContainerArtifact(path) => {
                fields.push(container_artifact_name());
                fields.push(crate::text::str_to_vec(path.as_str()));
            },
            RuntimeEntrypointTarget::Endpoint(endpoint) => {
                fields.push(endpoint_name());
                fields.push(crate::text::str_to_vec(endpoint.as_str()));
            },
        }
        proof {
            assert(entrypoints@.take(i + 1).drop_last() =~= entrypoints@.take(i as int));
            assert(entrypoints@.take(i + 1).last() == *entrypoint);
            assert(views(fields@) =~= before + entrypoint_fields(*entrypoint));
        }
        i = i + 1;
    }
    assert(entrypoints@.take(entrypoints@.len() as int) =~= entrypoints@);
    fields
}

/// The fields of a specification the server can read: five base fields and
/// three per entrypoint, all UTF-8, with a known runtime kind and known
/// entrypoint target kinds.
pub open spec fn spec_fields_parseable(f: Seq<Seq<u8>>) -> bool {
    &&& f.len() >= BASE_SPEC_FIELD_COUNT
    &&& (f.len() - BASE_SPEC_FIELD_COUNT) % (ENTRYPOINT_FIELD_COUNT as int) == 0
    &&& forall|i: int| 0 <= i < f.len() ==> valid_utf8(#[trigger] f[i])
    &&& is_runtime_kind_name(f[4])
    &&& forall|k: int|
        0 <= k < (f.len() - BASE_SPEC_FIELD_COUNT) / (ENTRYPOINT_FIELD_COUNT as int)
            ==> is_target_kind_name(#[trigger] f[BASE_SPEC_FIELD_COUNT + 3 * k + 1])
}

/// The ID field of the `k`-th entrypoint.
pub open spec fn entrypoint_id_field(f: Seq<Seq<u8>>, k: int) -> Seq<u8> {
    f[BASE_SPEC_FIELD_COUNT + 3 * k]
}

/// The `k`-th entrypoint names a short ID and, by its target kind, a short
/// endpoint ID or a package path.
pub open spec fn entrypoint_values_valid(f: Seq<Seq<u8>>, k: int) -> bool {
    &&& is_simple_id(entrypoint_id_field(f, k))
    &&& if f[BASE_SPEC_FIELD_COUNT + 3 * k + 1] == endpoint_bytes() {
        is_simple_id(f[BASE_SPEC_FIELD_COUNT + 3 * k + 2])
    } else {
        is_package_path(f[BASE_SPEC_FIELD_COUNT + 3 * k + 2])
    }
}

/// The domain values of a specification's fields: the installation ID, app
/// and publisher IDs and version in their forms, every entrypoint's values in
/// theirs, and no entrypoint ID twice.
pub open spec fn spec_values_valid(f: Seq<Seq<u8>>) -> bool {
    let n = (f.len() - BASE_SPEC_FIELD_COUNT) / (ENTRYPOINT_FIELD_COUNT as int);
    &&& is_uuid_text(f[0])
    &&& is_reverse_dns(f[1])
    &&& is_reverse_dns(f[2])
    &&& is_version(f[3])
    &&& forall|k: int| 0 <= k < n ==> #[trigger] entrypoint_values_valid(f, k)
    &&& forall|j: int, k: int|
        0 <= j < k < n ==> #[trigger] entrypoint_id_field(f, j) != #[trigger] entrypoint_id_field(
            f,
            k,
        )
}

/// Checks the domain values of a specification's fields.
pub fn check_spec_values(fields: &[Vec<u8>]) -> (r: bool)
    requires
        fields@.len() >= BASE_SPEC_FIELD_COUNT,
        (fields@.len() - BASE_SPEC_FIELD_COUNT) % (ENTRYPOINT_FIELD_COUNT as int) == 0,
    ensures
        r == spec_values_valid(views(fields@)),
{
    let ghost f = views(fields@);
    assert(forall|i: int| 0 <= i < fields@.len() ==> f[i] == fields@[i]@);
    if !check_uuid(fields[0].as_slice()) || !check_reverse_dns(fields[1].as_slice())
        || !check_reverse_dns(fields[2].as_slice()) || !check_version(fields[3].as_slice()) {
        return false;
    }
    let n = fields.len();
    let count = (n - BASE_SPEC_FIELD_COUNT) / ENTRYPOINT_FIELD_COUNT;
    let endpoint = endpoint_name();
    let mut k: usize = 0;
    while k < count
        invariant
            f == views(fields@),
            forall|i: int| 0 <= i < fields@.len() ==> f[i] == fields@[i]@,
            n == fields@.len(),
            count == (n - BASE_SPEC_FIELD_COUNT) / (ENTRYPOINT_FIELD_COUNT as int),
            n == BASE_SPEC_FIELD_COUNT + 3 * count,
            endpoint@ == endpoint_bytes(),
            k <= count,
            forall|j: int| 0 <= j < k ==> #[trigger] entrypoint_values_valid(f, j),
        decreases count - k,
    {
        let base = BASE_SPEC_FIELD_COUNT + 3 * k;
        if !check_simple_id(fields[base].as_slice()) {
            assert(!entrypoint_values_valid(f, k as int));
            return false;
        }
        let ok = if crate::text::bytes_equal(fields[base + 1].as_slice(), endpoint.as_slice()) {
            check_simple_id(fields[base + 2].as_slice())
        } else {
            check_package_path(fields[base + 2].as_slice())
        };
        if !ok {
            assert(!entrypoint_values_valid(f, k as int));
            return false;
        }
        assert(entrypoint_values_valid(f, k as int));
        k = k + 1;
    }
    let mut j: usize = 0;
    while j < count
        invariant
            f == views(fields@),
            forall|i: int| 0 <= i < fields@.len() ==> f[i] == fields@[i]@,
            n == fields@.len(),
            count == (n - BASE_SPEC_FIELD_COUNT) / (ENTRYPOINT_FIELD_COUNT as int),
            n == BASE_SPEC_FIELD_COUNT + 3 * count,
            j <= count,
            forall|a: int, b: int|
                0 <= a < j && a < b < count ==> #[trigger] entrypoint_id_field(f, a)
                    != #[trigger] entrypoint_id_field(f, b),
        decreases count - j,
    {
        let mut k2: usize = j + 1;
        while k2 < count
            invariant
                f == views(fields@),
                forall|i: int| 0 <= i < fields@.len() ==> f[i] == fields@[i]@,
                n == fields@.len(),
                n == BASE_SPEC_FIELD_COUNT + 3 * count,
                j < count,
                j + 1 <= k2 <= count,
                forall|b: int|
                    j < b < k2 ==> entrypoint_id_field(f, j as int) != #[trigger] entrypoint_id_field(
                        f,
                        b,
                    ),
            decreases count - k2,
        {
            if crate::text::bytes_equal(
                fields[BASE_SPEC_FIELD_COUNT + 3 * j].as_slice(),
                fields[BASE_SPEC_FIELD_COUNT + 3 * k2].as_slice(),
            ) {
                assert(entrypoint_id_field(f, j as int) == entrypoint_id_field(f, k2 as int));
                return false;
            }
            k2 = k2 + 1;
        }
        j = j + 1;
    }
    true
}

fn utf8_field(fields: &[Vec<u8>], i: usize) -> (r: Result<String, UnixRuntimeControlServerError>)
    requires
        i < fields@.len(),
    ensures
        valid_utf8(fields@[i as int]@) ==> (r matches Ok(s) && utf8_of(s@) == fields@[i as int]@),
        !valid_utf8(fields@[i as int]@) ==> (r matches Err(
            UnixRuntimeControlServerError::InvalidRequest,
        )),
{
    match crate::text::field_to_string(fields[i].as_slice()) {
        Some(s) => Ok(s),
        None => Err(UnixRuntimeControlServerError::InvalidRequest),
    }
}

/// Reads a specification from its wire fields; what it reads has exactly
/// those fields.
pub fn parse_spec(fields: &[Vec<u8>]) -> (r: Result<
    RuntimeInstallationSpec,
    UnixRuntimeControlServerError,
>)
    requires
        fields@.len() >= BASE_SPEC_FIELD_COUNT,
        (fields@.len() - BASE_SPEC_FIELD_COUNT) % (ENTRYPOINT_FIELD_COUNT as int) == 0,
    ensures
        (spec_fields_parseable(views(fields@)) && spec_values_valid(views(fields@))) ==> (r matches Ok(
            spec,
        ) && spec_fields(spec) == views(fields@)),
        !(spec_fields_parseable(views(fields@)) && spec_values_valid(views(fields@))) ==> (r matches Err(
            UnixRuntimeControlServerError::InvalidRequest,
        )),
{
    if !check_spec_values(fields) {
        return Err(UnixRuntimeControlServerError::InvalidRequest);
    }
    let ghost f = views(fields@);
    let n = fields.len();
    assert(forall|i: int| 0 <= i < fields@.len() ==> f[i] == fields@[i]@);
    let mut texts: Vec<String> = Vec::new();
    let mut i: usize = 0;
    while i < 5
        invariant
            f == views(fields@),
            n == fields@.len(),
            n >= 5,
            forall|j: int| 0 <= j < fields@.len() ==> f[j] == fields@[j]@,
            i <= 5,
            texts@.len() == i,
            forall|j: int| 0 <= j < i ==> utf8_of(#[trigger] texts@[j]@) == f[j],
            forall|j: int| 0 <= j < i ==> valid_utf8(#[trigger] f[j]),
        decreases 5 - i,
    {
        match utf8_field(fields, i) {
            Ok(text) => texts.push(text),
            Err(e) => {
                assert(!valid_utf8(f[i as int]));
                return Err(e);
            },
        }
        i = i + 1;
    }
    let kind = match parse_runtime_kind(fields[4].as_slice()) {
        Ok(kind) => kind,
        Err(e) => return Err(e),
    };
    let ghost t = texts@;
    assert(utf8_of(t[0]@) == f[0] && utf8_of(t[1]@) == f[1] && utf8_of(t[2]@) == f[2] && utf8_of(
        t[3]@,
    ) == f[3]);
    let _kind_text = texts.pop().unwrap();
    assert(texts@ =~= t.take(4));
    let version = texts.pop().unwrap();
    assert(texts@ =~= t.take(3));
    let publisher_id = texts.pop().unwrap();
    assert(texts@ =~= t.take(2));
    let app_id = texts.pop().unwrap();
    assert(texts@ =~= t.take(1));
    let installation_id = texts.pop().unwrap();
    let mut runtime = RuntimeDescriptor::new(kind);
    let count = (n - BASE_SPEC_FIELD_COUNT) / ENTRYPOINT_FIELD_COUNT;
    let mut k: usize = 0;
    assert(entrypoints_fields(runtime.spec_entrypoints()) =~= f.subrange(5, 5));
    while k < count
        invariant
            f == views(fields@),
            n == fields@.len(),
            forall|i: int| 0 <= i < fields@.len() ==> f[i] == fields@[i]@,
            utf8_of(installation_id@) == f[0],
            utf8_of(app_id@) == f[1],
            utf8_of(publisher_id@) == f[2],
            utf8_of(version@) == f[3],
            runtime_kind_bytes(kind) == f[4],
            count == (fields@.len() - BASE_SPEC_FIELD_COUNT) / (ENTRYPOINT_FIELD_COUNT as int),
            fields@.len() == BASE_SPEC_FIELD_COUNT + 3 * count,
            k <= count,
            runtime.spec_kind() == kind,
            runtime.spec_entrypoints().len() == k,
            entrypoints_fields(runtime.spec_entrypoints()) == f.subrange(5, 5 + 3 * k),
            forall|i: int| 0 <= i < 5 + 3 * k ==> valid_utf8(#[trigger] f[i]),
            forall|j: int| 0 <= j < k ==> is_target_kind_name(#[trigger] f[BASE_SPEC_FIELD_COUNT + 3 * j + 1]),
        decreases count - k,
    {
        let base = BASE_SPEC_FIELD_COUNT + 3 * k;
        let id = match utf8_field(fields, base) {
            Ok(s) => s,
            Err(e) => {
                assert(!valid_utf8(f[base as int]));
                return Err(e);
            },
        };
        let value = match utf8_field(fields, base + 2) {
            Ok(s) => s,
            Err(e) => {
                assert(!valid_utf8(f[base + 2]));
                return Err(e);
            },
        };
        if crate::text::field_to_string(fields[base + 1].as_slice()).is_none() {
            assert(!valid_utf8(f[base + 1]));
            return Err(UnixRuntimeControlServerError::InvalidRequest);
        }
        let web = web_asset_name();
        let container = container_artifact_name();
        let endpoint = endpoint_name();
        let kind_field = fields[base + 1].as_slice();
        let entrypoint = if crate::text::bytes_equal(kind_field, web.as_slice()) {
            RuntimeEntrypoint::web_asset(id, value)
        } else if crate::text::bytes_equal(kind_field, container.as_slice()) {
            RuntimeEntrypoint::container_artifact(id, value)
        } else if crate::text::bytes_equal(kind_field, endpoint.as_slice()) {
            RuntimeEntrypoint::endpoint(id, value)
        } else {
            assert(!is_target_kind_name(f[BASE_SPEC_FIELD_COUNT + 3 * k + 1]));
            return Err(UnixRuntimeControlServerError::InvalidRequest);
        };
        let ghost before = runtime.spec_entrypoints();
        runtime.add_entrypoint(entrypoint);
        proof {
            assert(runtime.spec_entrypoints().drop_last() =~= before);
            assert(entrypoint_fields(entrypoint) =~= f.subrange(base as int, base + 3));
            assert(f.subrange(5, 5 + 3 * (k + 1)) =~= f.subrange(5, 5 + 3 * k) + f.subrange(
                base as int,
                base + 3,
            ));
        }
        k = k + 1;
    }
    let spec = RuntimeInstallationSpec::new(
        AppIdentity::new(app_id, installation_id, publisher_id),
        version,
        runtime,
    );
    proof {
        assert(spec_fields(spec) =~= f);
    }
    Ok(spec)
}

} // verus!

verus! {

/// A request the server has read and validated.
#[derive(Debug)]
pub enum ParsedRequest {
    Prepare(RuntimeInstallationSpec),
    Activate(RuntimeInstallationSpec),
    State(String),
    Deactivate(String),
    Remove(String),
}

/// The operation code of a parsed request.
pub open spec fn request_operation(request: ParsedRequest) -> u8 {
    match request {
        ParsedRequest::Prepare(_) => OP_PREPARE,
        ParsedRequest::Activate(_) => OP_ACTIVATE,
        ParsedRequest::State(_) => OP_STATE,
        ParsedRequest::Deactivate(_) => OP_DEACTIVATE,
        ParsedRequest::Remove(_) => OP_REMOVE,
    }
}

/// The wire fields of a parsed request.
pub open spec fn request_fields(request: ParsedRequest) -> Seq<Seq<u8>> {
    match request {
        ParsedRequest::Prepare(s) => spec_fields(s),
        ParsedRequest::Activate(s) => spec_fields(s),
        ParsedRequest::State(id) => seq![utf8_of(id@)],
        ParsedRequest::Deactivate(id) => seq![utf8_of(id@)],
        ParsedRequest::Remove(id) => seq![utf8_of(id@)],
    }
}

/// Whether the fields of a well-framed request carry readable values for
/// its operation.
pub open spec fn request_fields_parseable(operation: u8, f: Seq<Seq<u8>>) -> bool {
    if operation == OP_PREPARE || operation == OP_ACTIVATE {
        spec_fields_parseable(f) && spec_values_valid(f)
    } else {
        f.len() == 1 && valid_utf8(f[0]) && is_uuid_text(f[0])
    }
}

impl ParsedRequest {
    pub fn operation(&self) -> (r: u8)
        ensures
            r == request_operation(*self),
    {
        match self {
            ParsedRequest::Prepare(_) => OP_PREPARE,
            ParsedRequest::Activate(_) => OP_ACTIVATE,
            ParsedRequest::State(_) => OP_STATE,
            ParsedRequest::Deactivate(_) => OP_DEACTIVATE,
            ParsedRequest::Remove(_) => OP_REMOVE,
        }
    }
}

/// Reads the installation ID field of a single-ID request.
pub fn parse_installation_id(fields: &[Vec<u8>]) -> (r: Result<String, UnixRuntimeControlServerError>)
    requires
        fields@.len() >= 1,
    ensures
        (valid_utf8(fields@[0]@) && is_uuid_text(fields@[0]@)) ==> (r matches Ok(id) && utf8_of(id@)
            == fields@[0]@),
        !(valid_utf8(fields@[0]@) && is_uuid_text(fields@[0]@)) ==> (r matches Err(
            UnixRuntimeControlServerError::InvalidRequest,
        )),
{
    if !check_uuid(fields[0].as_slice()) {
        return Err(UnixRuntimeControlServerError::InvalidRequest);
    }
    utf8_field(fields, 0)
}

/// Reads a complete request: the frame, then the values its operation needs.
/// A frame that ends early is `Truncated`; anything else that is wrong is
/// `Invalid`.
pub fn parse_request(b: &[u8]) -> (r: Result<ParsedRequest, FrameError>)
    ensures
        match decode_control_frame(b@) {
            Err(e) => r == Err::<ParsedRequest, FrameError>(e),
            Ok((op, f)) => if request_fields_parseable(op, f) {
                r matches Ok(p) && request_operation(p) == op && request_fields(p) == f
            } else {
                r == Err::<ParsedRequest, FrameError>(FrameError::Invalid)
            },
        },
{
    let (operation, fields) = match decode_request(b) {
        Ok(decoded) => decoded,
        Err(e) => return Err(e),
    };
    let ghost f = views(fields@);
    proof {
        lemma_decode_fields_len(b@, HEADER_LENGTH as int, b@[5] as nat);
    }
    assert(fields@.len() == b@[5]);
    if operation == OP_PREPARE || operation == OP_ACTIVATE {
        match parse_spec(fields.as_slice()) {
            Ok(spec) => {
                if operation == OP_PREPARE {
                    Ok(ParsedRequest::Prepare(spec))
                } else {
                    Ok(ParsedRequest::Activate(spec))
                }
            },
            Err(_) => Err(FrameError::Invalid),
        }
    } else {
        match parse_installation_id(fields.as_slice()) {
            Ok(id) => {
                assert(seq![utf8_of(id@)] =~= f);
                if operation == OP_STATE {
                    Ok(ParsedRequest::State(id))
                } else if operation == OP_DEACTIVATE {
                    Ok(ParsedRequest::Deactivate(id))
                } else {
                    Ok(ParsedRequest::Remove(id))
                }
            },
            Err(_) => Err(FrameError::Invalid),
        }
    }
}

/// Decoded fields number as many as the header announced.
pub proof fn lemma_decode_fields_len(b: Seq<u8>, pos: int, remaining: nat)
    ensures
        decode_fields(b, pos, remaining, MAX_FIELD_LENGTH as int, MAX_REQUEST_LENGTH as int) matches Ok(
            f,
        ) ==> f.len() == remaining,
    decreases remaining,
{
    if remaining > 0 && pos + 4 <= b.len() {
        let len = crate::frame::be32_value(b.subrange(pos, pos + 4));
        lemma_decode_fields_len(b, pos + 4 + len, (remaining - 1) as nat);
    }
}

/// Law: the fields of every specification are readable by the server, and
/// they fit the header of a prepare or activate request when the
/// specification names at most 64 entrypoints.
pub proof fn lemma_spec_fields_parseable(s: RuntimeInstallationSpec, operation: u8)
    requires
        s.spec_runtime().spec_entrypoints().len() <= MAX_ENTRYPOINTS,
        operation == OP_PREPARE || operation == OP_ACTIVATE,
    ensures
        spec_fields_parseable(spec_fields(s)),
        control_header_ok(operation, spec_fields(s).len() as u8),
{
    let es = s.spec_runtime().spec_entrypoints();
    let f = spec_fields(s);
    lemma_entrypoints_fields_len(es);
    assert(f.len() == 5 + 3 * es.len());
    lemma_entrypoints_fields_shape(es);
    assert forall|i: int| 0 <= i < f.len() implies valid_utf8(#[trigger] f[i]) by {
        if i < 5 {
            if i == 4 {
                lemma_kind_bytes_valid(s.spec_runtime().spec_kind());
            } else {
                vstd::utf8::encode_utf8_valid_utf8(
                    if i == 0 {
                        s.spec_identity().spec_installation_id()
                    } else if i == 1 {
                        s.spec_identity().spec_app_id()
                    } else if i == 2 {
                        s.spec_identity().spec_publisher_id()
                    } else {
                        s.spec_version()
                    },
                );
            }
        } else {
            assert(f[i] == entrypoints_fields(es)[i - 5]);
        }
    }
    assert forall|k: int| 0 <= k < (f.len() - BASE_SPEC_FIELD_COUNT) / (ENTRYPOINT_FIELD_COUNT as int)
        implies is_target_kind_name(#[trigger] f[BASE_SPEC_FIELD_COUNT + 3 * k + 1]) by {
        assert(f[BASE_SPEC_FIELD_COUNT + 3 * k + 1] == entrypoints_fields(es)[3 * k + 1]);
    }
}

/// A prepare or activate request that the client can frame, for a
/// specification whose values have their domain forms, is decoded by the
/// server into the same operation and fields, and those fields parse: the
/// server's request then carries a specification with the same wire fields.
pub proof fn lemma_spec_request_roundtrip(s: RuntimeInstallationSpec, operation: u8)
    requires
        s.spec_runtime().spec_entrypoints().len() <= MAX_ENTRYPOINTS,
        control_request_encodable(spec_fields(s)),
        spec_values_valid(spec_fields(s)),
        operation == OP_PREPARE || operation == OP_ACTIVATE,
    ensures
        decode_control_frame(frame(control_magic(), operation, spec_fields(s))) == Ok::<
            (u8, Seq<Seq<u8>>),
            FrameError,
        >((operation, spec_fields(s))),
        request_fields_parseable(operation, spec_fields(s)),
{
    lemma_spec_fields_parseable(s, operation);
    lemma_control_frame_roundtrip(operation, spec_fields(s));
}

/// A request that names one installation by a well-formed ID is decoded by
/// the server into the same operation and the same installation ID.
pub proof fn lemma_installation_request_roundtrip(installation_id: Seq<char>, operation: u8)
    requires
        control_request_encodable(seq![utf8_of(installation_id)]),
        is_uuid_text(utf8_of(installation_id)),
        operation == OP_STATE || operation == OP_DEACTIVATE || operation == OP_REMOVE,
    ensures
        decode_control_frame(frame(control_magic(), operation, seq![utf8_of(installation_id)]))
            == Ok::<(u8, Seq<Seq<u8>>), FrameError>((operation, seq![utf8_of(installation_id)])),
        request_fields_parseable(operation, seq![utf8_of(installation_id)]),
{
    vstd::utf8::encode_utf8_valid_utf8(installation_id);
    lemma_control_frame_roundtrip(operation, seq![utf8_of(installation_id)]);
}

proof fn lemma_kind_bytes_valid(kind: RuntimeKind)
    ensures
        valid_utf8(runtime_kind_bytes(kind)),
{
    let b = runtime_kind_bytes(kind);
    crate::text::lemma_ascii_valid_utf8(b);
}

/// Every field of an entrypoint list is UTF-8 and every second field of an
/// entrypoint names a target kind.
pub proof fn lemma_entrypoints_fields_shape(es: Seq<RuntimeEntrypoint>)
    ensures
        forall|i: int|
            0 <= i < entrypoints_fields(es).len() ==> valid_utf8(#[trigger] entrypoints_fields(es)[i]),
        forall|k: int|
            0 <= k < es.len() ==> is_target_kind_name(#[trigger] entrypoints_fields(es)[3 * k + 1]),
    decreases es.len(),
{
    lemma_entrypoints_fields_len(es);
    if es.len() > 0 {
        let prev = es.drop_last();
        let e = es.last();
        lemma_entrypoints_fields_shape(prev);
        lemma_entrypoints_fields_len(prev);
        let ef = entrypoint_fields(e);
        assert(entrypoints_fields(es) == entrypoints_fields(prev) + ef);
        vstd::utf8::encode_utf8_valid_utf8(e.spec_id());
        crate::text::lemma_ascii_valid_utf8(web_asset_bytes());
        crate::text::lemma_ascii_valid_utf8(container_artifact_bytes());
        crate::text::lemma_ascii_valid_utf8(endpoint_bytes());
        match e.spec_target() {
            RuntimeEntrypointTarget::WebAsset(p) => vstd::utf8::encode_utf8_valid_utf8(p@),
            RuntimeEntrypointTarget::ContainerArtifact(p) => vstd::utf8::encode_utf8_valid_utf8(p@),
            RuntimeEntrypointTarget::Endpoint(p) => vstd::utf8::encode_utf8_valid_utf8(p@),
        }
        assert forall|i: int| 0 <= i < entrypoints_fields(es).len() implies valid_utf8(
            #[trigger] entrypoints_fields(es)[i],
        ) by {
            if i >= entrypoints_fields(prev).len() {
                assert(entrypoints_fields(es)[i] == ef[i - entrypoints_fields(prev).len()]);
            } else {
                assert(entrypoints_fields(es)[i] == entrypoints_fields(prev)[i]);
            }
        }
        assert forall|k: int| 0 <= k < es.len() implies is_target_kind_name(
            #[trigger] entrypoints_fields(es)[3 * k + 1],
        ) by {
            if k < prev.len() {
                assert(entrypoints_fields(es)[3 * k + 1] == entrypoints_fields(prev)[3 * k + 1]);
            } else {
                assert(entrypoints_fields(es)[3 * k + 1] == ef[1]);
            }
        }
    }
}

} // verus!

verus! {

// ---------------------------------------------------------------------------
// States and responses
// ---------------------------------------------------------------------------

pub open spec fn state_code(state: AppRuntimeInstallationState) -> u8 {
    match state {
        AppRuntimeInstallationState::Absent => STATE_ABSENT,
        AppRuntimeInstallationState::Prepared => STATE_PREPARED,
        AppRuntimeInstallationState::Active => STATE_ACTIVE,
    }
}

pub open spec fn state_of_code(value: u8) -> Option<AppRuntimeInstallationState> {
    if value == STATE_ABSENT {
        Some(AppRuntimeInstallationState::Absent)
    } else if value == STATE_PREPARED {
        Some(AppRuntimeInstallationState::Prepared)
    } else if value == STATE_ACTIVE {
        Some(AppRuntimeInstallationState::Active)
    } else {
        None
    }
}

pub fn encode_state(state: AppRuntimeInstallationState) -> (r: u8)
    ensures
        r == state_code(state),
{
    match state {
        AppRuntimeInstallationState::Absent => STATE_ABSENT,
        AppRuntimeInstallationState::Prepared => STATE_PREPARED,
        AppRuntimeInstallationState::Active => STATE_ACTIVE,
    }
}

pub fn decode_state(value: u8) -> (r: Option<AppRuntimeInstallationState>)
    ensures
        r == state_of_code(value),
{
    if value == STATE_ABSENT {
        Some(AppRuntimeInstallationState::Absent)
    } else if value == STATE_PREPARED {
        Some(AppRuntimeInstallationState::Prepared)
    } else if value == STATE_ACTIVE {
        Some(AppRuntimeInstallationState::Active)
    } else {
        None
    }
}

/// Law: decoding a state's code gives the state back.
pub proof fn lemma_state_code_roundtrip(state: AppRuntimeInstallationState)
    ensures
        state_of_code(state_code(state)) == Some(state),
{
}

/// The seven bytes the server writes for an outcome: magic, status, state
/// and the changed flag (state and flag are zero unless accepted).
pub open spec fn response_bytes(outcome: RuntimeControlTargetOutcome) -> Seq<u8> {
    match outcome {
        RuntimeControlTargetOutcome::Accepted { state, changed } => control_magic() + seq![
            STATUS_OK,
            state_code(state),
            if changed {
                1u8
            } else {
                0u8
            },
        ],
        RuntimeControlTargetOutcome::Conflict => control_magic() + seq![
            STATUS_CONFLICT,
            STATE_ABSENT,
            0u8,
        ],
        RuntimeControlTargetOutcome::Rejected => control_magic() + seq![
            STATUS_REJECTED,
            STATE_ABSENT,
            0u8,
        ],
    }
}

/// How the client reads seven response bytes; `None` when they are not a
/// valid response.
pub open spec fn read_response(b: Seq<u8>) -> Option<RuntimeControlTargetOutcome> {
    if b.take(4) != control_magic() {
        None
    } else if b[4] == STATUS_OK {
        match state_of_code(b[5]) {
            Some(state) => if b[6] == 0 {
                Some(RuntimeControlTargetOutcome::Accepted { state, changed: false })
            } else if b[6] == 1 {
                Some(RuntimeControlTargetOutcome::Accepted { state, changed: true })
            } else {
                None
            },
            None => None,
        }
    } else if b[4] == STATUS_CONFLICT {
        Some(RuntimeControlTargetOutcome::Conflict)
    } else if b[4] == STATUS_REJECTED {
        Some(RuntimeControlTargetOutcome::Rejected)
    } else {
        None
    }
}

/// The bytes the server writes for an outcome.
pub fn encode_response(outcome: RuntimeControlTargetOutcome) -> (r: Vec<u8>)
    ensures
        r@ == response_bytes(outcome),
        r@.len() == RESPONSE_LENGTH,
{
    let (status, state, changed) = match outcome {
        RuntimeControlTargetOutcome::Accepted { state, changed } => (
            STATUS_OK,
            encode_state(state),
            if changed {
                1u8
            } else {
                0u8
            },
        ),
        RuntimeControlTargetOutcome::Conflict => (STATUS_CONFLICT, STATE_ABSENT, 0u8),
        RuntimeControlTargetOutcome::Rejected => (STATUS_REJECTED, STATE_ABSENT, 0u8),
    };
    let mut r = control_magic_bytes();
    r.push(status);
    r.push(state);
    r.push(changed);
    assert(r@ =~= response_bytes(outcome));
    r
}

/// Reads the seven response bytes the client received.
pub fn decode_response(b: &[u8]) -> (r: Result<RuntimeControlResponse, UnixAppRuntimeProviderError>)
    requires
        b@.len() == RESPONSE_LENGTH,
    ensures
        match read_response(b@) {
            Some(RuntimeControlTargetOutcome::Accepted { state, changed }) => r == Ok::<
                RuntimeControlResponse,
                UnixAppRuntimeProviderError,
            >(RuntimeControlResponse { state, changed }),
            Some(RuntimeControlTargetOutcome::Conflict) => r matches Err(
                UnixAppRuntimeProviderError::ConflictingReplay,
            ),
            Some(RuntimeControlTargetOutcome::Rejected) => r matches Err(
                UnixAppRuntimeProviderError::Rejected,
            ),
            None => r matches Err(UnixAppRuntimeProviderError::InvalidResponse),
        },
{
    let magic = control_magic_bytes();
    if !has_magic(b, magic.as_slice()) {
        return Err(UnixAppRuntimeProviderError::InvalidResponse);
    }
    let status = b[4];
    if status == STATUS_OK {
        let state = match decode_state(b[5]) {
            Some(state) => state,
            None => return Err(UnixAppRuntimeProviderError::InvalidResponse),
        };
        let changed = if b[6] == 0 {
            false
        } else if b[6] == 1 {
            true
        } else {
            return Err(UnixAppRuntimeProviderError::InvalidResponse);
        };
        Ok(RuntimeControlResponse { state, changed })
    } else if status == STATUS_CONFLICT {
        Err(UnixAppRuntimeProviderError::ConflictingReplay)
    } else if status == STATUS_REJECTED {
        Err(UnixAppRuntimeProviderError::Rejected)
    } else {
        Err(UnixAppRuntimeProviderError::InvalidResponse)
    }
}

/// Law: the client reads every outcome the server writes as that outcome.
pub proof fn lemma_response_roundtrip(outcome: RuntimeControlTargetOutcome)
    ensures
        read_response(response_bytes(outcome)) == Some(outcome),
{
    let b = response_bytes(outcome);
    assert(b.take(4) =~= control_magic());
}

// ---------------------------------------------------------------------------
// What each side accepts
// ---------------------------------------------------------------------------

/// Whether an accepted outcome is consistent with the operation: prepare
/// leaves the installation prepared or active, activate leaves it active,
/// a state query changes nothing, deactivate leaves it inactive and remove
/// leaves it absent. Conflicts and rejections are always consistent.
pub open spec fn outcome_valid_for(operation: u8, outcome: RuntimeControlTargetOutcome) -> bool {
    match outcome {
        RuntimeControlTargetOutcome::Accepted { state, changed } => if operation == OP_PREPARE {
            state == AppRuntimeInstallationState::Prepared || state
                == AppRuntimeInstallationState::Active
        } else if operation == OP_ACTIVATE {
            state == AppRuntimeInstallationState::Active
        } else if operation == OP_STATE {
            !changed
        } else if operation == OP_DEACTIVATE {
            state != AppRuntimeInstallationState::Active
        } else if operation == OP_REMOVE {
            state == AppRuntimeInstallationState::Absent
        } else {
            false
        },
        _ => true,
    }
}

pub fn target_outcome_is_valid(operation: u8, outcome: &RuntimeControlTargetOutcome) -> (r: bool)
    ensures
        r == outcome_valid_for(operation, *outcome),
{
    match outcome {
        RuntimeControlTargetOutcome::Accepted { state, changed } => {
            if operation == OP_PREPARE {
                *state == AppRuntimeInstallationState::Prepared || *state
                    == AppRuntimeInstallationState::Active
            } else if operation == OP_ACTIVATE {
                *state == AppRuntimeInstallationState::Active
            } else if operation == OP_STATE {
                !*changed
            } else if operation == OP_DEACTIVATE {
                *state != AppRuntimeInstallationState::Active
            } else if operation == OP_REMOVE {
                *state == AppRuntimeInstallationState::Absent
            } else {
                false
            }
        },
        _ => true,
    }
}

/// What the server answers once the target has run an operation (`None`
/// when the target failed), and what `serve_once` reports: a consistent
/// outcome is passed on; an inconsistent one or a target failure is answered
/// with `Rejected`.
pub fn control_reply(operation: u8, outcome: Option<RuntimeControlTargetOutcome>) -> (r: (
    RuntimeControlTargetOutcome,
    Result<(), UnixRuntimeControlServerError>,
))
    ensures
        match outcome {
            None => r.0 == RuntimeControlTargetOutcome::Rejected && (r.1 matches Err(
                UnixRuntimeControlServerError::Target,
            )),
            Some(o) => if outcome_valid_for(operation, o) {
                r.0 == o && r.1 is Ok
            } else {
                r.0 == RuntimeControlTargetOutcome::Rejected && (r.1 matches Err(
                    UnixRuntimeControlServerError::InvalidTargetOutcome,
                ))
            },
        },
        outcome_valid_for(operation, r.0),
{
    match outcome {
        None => (RuntimeControlTargetOutcome::Rejected, Err(UnixRuntimeControlServerError::Target)),
        Some(o) => {
            if target_outcome_is_valid(operation, &o) {
                (o, Ok(()))
            } else {
                (
                    RuntimeControlTargetOutcome::Rejected,
                    Err(UnixRuntimeControlServerError::InvalidTargetOutcome),
                )
            }
        },
    }
}

/// The client accepts a prepare response only in the prepared or active state.
pub fn accept_prepare(response: RuntimeControlResponse) -> (r: Result<(), UnixAppRuntimeProviderError>)
    ensures
        (response.state == AppRuntimeInstallationState::Prepared || response.state
            == AppRuntimeInstallationState::Active) ==> r is Ok,
        !(response.state == AppRuntimeInstallationState::Prepared || response.state
            == AppRuntimeInstallationState::Active) ==> (r matches Err(
            UnixAppRuntimeProviderError::InvalidResponse,
        )),
{
    match response.state {
        AppRuntimeInstallationState::Prepared | AppRuntimeInstallationState::Active => Ok(()),
        _ => Err(UnixAppRuntimeProviderError::InvalidResponse),
    }
}

/// The client accepts an activate response only in the active state.
pub fn accept_activate(response: RuntimeControlResponse) -> (r: Result<(), UnixAppRuntimeProviderError>)
    ensures
        response.state == AppRuntimeInstallationState::Active ==> r is Ok,
        response.state != AppRuntimeInstallationState::Active ==> (r matches Err(
            UnixAppRuntimeProviderError::InvalidResponse,
        )),
{
    if response.state != AppRuntimeInstallationState::Active {
        return Err(UnixAppRuntimeProviderError::InvalidResponse);
    }
    Ok(())
}

/// A state query must not report a change.
pub fn accept_state(response: RuntimeControlResponse) -> (r: Result<
    AppRuntimeInstallationState,
    UnixAppRuntimeProviderError,
>)
    ensures
        !response.changed ==> r == Ok::<AppRuntimeInstallationState, UnixAppRuntimeProviderError>(
            response.state,
        ),
        response.changed ==> (r matches Err(UnixAppRuntimeProviderError::InvalidResponse)),
{
    if response.changed {
        return Err(UnixAppRuntimeProviderError::InvalidResponse);
    }
    Ok(response.state)
}

/// Deactivation must leave the installation inactive; yields whether it changed.
pub fn accept_deactivate(response: RuntimeControlResponse) -> (r: Result<
    bool,
    UnixAppRuntimeProviderError,
>)
    ensures
        response.state != AppRuntimeInstallationState::Active ==> r == Ok::<
            bool,
            UnixAppRuntimeProviderError,
        >(response.changed),
        response.state == AppRuntimeInstallationState::Active ==> (r matches Err(
            UnixAppRuntimeProviderError::InvalidResponse,
        )),
{
    if response.state == AppRuntimeInstallationState::Active {
        return Err(UnixAppRuntimeProviderError::InvalidResponse);
    }
    Ok(response.changed)
}

/// Removal must leave the installation absent; yields whether it changed.
pub fn accept_remove(response: RuntimeControlResponse) -> (r: Result<bool, UnixAppRuntimeProviderError>)
    ensures
        response.state == AppRuntimeInstallationState::Absent ==> r == Ok::<
            bool,
            UnixAppRuntimeProviderError,
        >(response.changed),
        response.state != AppRuntimeInstallationState::Absent ==> (r matches Err(
            UnixAppRuntimeProviderError::InvalidResponse,
        )),
{
    if response.state != AppRuntimeInstallationState::Absent {
        return Err(UnixAppRuntimeProviderError::InvalidResponse);
    }
    Ok(response.changed)
}

} // verus!
