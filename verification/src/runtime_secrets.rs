//! The client side of the runtime secret protocol: the platform delivers an
//! app's OIDC client credentials to the supervisor, or asks it to remove an
//! installation's material, and reads a five-byte acknowledgement.
use vstd::prelude::*;

use crate::docker_runtime_target::path_is_absolute;
use crate::frame::{encode_fields, frame, lemma_encode_fields_push, push_be32};
use crate::runtime_provider::{socket_config_error, views};
use crate::text::{str_to_vec, utf8_of};

verus! {

pub const OP_DELIVER_OIDC: u8 = 1;
pub const OP_REMOVE_INSTALLATION: u8 = 2;
pub const STATUS_OK: u8 = 0;
pub const STATUS_CONFLICT: u8 = 1;
pub const STATUS_REJECTED: u8 = 2;
pub const RESPONSE_LENGTH: usize = 5;
pub const DEFAULT_TIMEOUT_NANOS: u64 = 5_000_000_000;

/// `RSH1`.
pub open spec fn secret_magic() -> Seq<u8> {
    seq![82u8, 83u8, 72u8, 49u8]
}

pub fn secret_magic_bytes() -> (r: Vec<u8>)
    ensures
        r@ == secret_magic(),
{
    let r = vec![82u8, 83u8, 72u8, 49u8];
    assert(r@ =~= secret_magic());
    r
}

#[derive(Debug, Clone)]
pub struct UnixRuntimeSecretDeliveryConfig {
    socket_path: String,
    expected_peer_uid: u32,
    timeout_nanos: u64,
}

#[derive(Debug, Clone, Copy, PartialEq, Eq, Structural)]
pub enum UnixRuntimeSecretDeliveryConfigError {
    SocketPathMustBeAbsolute,
    ZeroTimeout,
}

#[derive(Debug, Clone)]
pub struct UnixRuntimeSecretDelivery {
    config: UnixRuntimeSecretDeliveryConfig,
}

#[derive(Debug)]
pub enum UnixRuntimeSecretDeliveryError {
    Connect(std::io::Error),
    PeerCredentials(std::io::Error),
    UnexpectedPeerUid { expected: u32, actual: u32 },
    FieldTooLarge,
    Write(std::io::Error),
    Read(std::io::Error),
    InvalidResponse,
    ConflictingReplay,
    Rejected,
}

impl UnixRuntimeSecretDeliveryConfig {
    pub closed spec fn spec_socket_path(&self) -> Seq<char> {
        self.socket_path@
    }

    pub closed spec fn spec_expected_peer_uid(&self) -> u32 {
        self.expected_peer_uid
    }

    pub closed spec fn spec_timeout_nanos(&self) -> u64 {
        self.timeout_nanos
    }

    /// A configuration with the default five-second timeout.
    pub fn new(socket_path: String, expected_peer_uid: u32) -> (r: Result<
        Self,
        UnixRuntimeSecretDeliveryConfigError,
    >)
        ensures
            match socket_config_error(utf8_of(socket_path@), DEFAULT_TIMEOUT_NANOS) {
                None => r matches Ok(c) && c.spec_socket_path() == socket_path@
                    && c.spec_expected_peer_uid() == expected_peer_uid && c.spec_timeout_nanos()
                    == DEFAULT_TIMEOUT_NANOS,
                Some(k) => r == Err::<Self, UnixRuntimeSecretDeliveryConfigError>(
                    if k == 0 {
                        UnixRuntimeSecretDeliveryConfigError::SocketPathMustBeAbsolute
                    } else {
                        UnixRuntimeSecretDeliveryConfigError::ZeroTimeout
                    },
                ),
            },
    {
        Self::with_timeout(socket_path, expected_peer_uid, DEFAULT_TIMEOUT_NANOS)
    }

    /// Requires an absolute socket path and a non-zero timeout in nanoseconds.
    pub fn with_timeout(socket_path: String, expected_peer_uid: u32, timeout_nanos: u64) -> (r:
        Result<Self, UnixRuntimeSecretDeliveryConfigError>)
        ensures
            match socket_config_error(utf8_of(socket_path@), timeout_nanos) {
                None => r matches Ok(c) && c.spec_socket_path() == socket_path@
                    && c.spec_expected_peer_uid() == expected_peer_uid && c.spec_timeout_nanos()
                    == timeout_nanos,
                Some(k) => r == Err::<Self, UnixRuntimeSecretDeliveryConfigError>(
                    if k == 0 {
                        UnixRuntimeSecretDeliveryConfigError::SocketPathMustBeAbsolute
                    } else {
                        UnixRuntimeSecretDeliveryConfigError::ZeroTimeout
                    },
                ),
            },
    {
        if !path_is_absolute(socket_path.as_str()) {
            return Err(UnixRuntimeSecretDeliveryConfigError::SocketPathMustBeAbsolute);
        }
        if timeout_nanos == 0 {
            return Err(UnixRuntimeSecretDeliveryConfigError::ZeroTimeout);
        }
        Ok(Self { socket_path, expected_peer_uid, timeout_nanos })
    }

    pub fn socket_path(&self) -> (r: &str)
        ensures
            r@ == self.spec_socket_path(),
    {
        self.socket_path.as_str()
    }

    pub fn expected_peer_uid(&self) -> (r: u32)
        ensures
            r == self.spec_expected_peer_uid(),
    {
        self.expected_peer_uid
    }

    /// The connection timeout in nanoseconds.
    pub fn timeout(&self) -> (r: u64)
        ensures
            r == self.spec_timeout_nanos(),
    {
        self.timeout_nanos
    }
}

impl UnixRuntimeSecretDelivery {
    pub closed spec fn spec_config(&self) -> UnixRuntimeSecretDeliveryConfig {
        self.config
    }

    pub fn new(config: UnixRuntimeSecretDeliveryConfig) -> (r: Self)
        ensures
            r.spec_config() == config,
    {
        Self { config }
    }

    pub fn config(&self) -> (r: &UnixRuntimeSecretDeliveryConfig)
        ensures
            *r == self.spec_config(),
    {
        &self.config
    }

    /// The request that delivers an app installation's OIDC client ID and
    /// encoded client secret for one app operation.
    pub fn deliver_oidc_client_secret_request(
        &self,
        operation_id: &str,
        installation_id: &str,
        app_id: &str,
        publisher_id: &str,
        client_id: &str,
        client_secret: &str,
    ) -> (r: Result<Vec<u8>, UnixRuntimeSecretDeliveryError>)
        ensures
            secret_request_encodable(
                delivery_fields(
                    operation_id@,
                    installation_id@,
                    app_id@,
                    publisher_id@,
                    client_id@,
                    client_secret@,
                ),
            ) ==> (r matches Ok(bytes) && bytes@ == frame(
                secret_magic(),
                OP_DELIVER_OIDC,
                delivery_fields(
                    operation_id@,
                    installation_id@,
                    app_id@,
                    publisher_id@,
                    client_id@,
                    client_secret@,
                ),
            )),
            !secret_request_encodable(
                delivery_fields(
                    operation_id@,
                    installation_id@,
                    app_id@,
                    publisher_id@,
                    client_id@,
                    client_secret@,
                ),
            ) ==> (r matches Err(UnixRuntimeSecretDeliveryError::FieldTooLarge)),
    {
        let mut fields: Vec<Vec<u8>> = Vec::new();
        fields.push(str_to_vec(operation_id));
        fields.push(str_to_vec(installation_id));
        fields.push(str_to_vec(app_id));
        fields.push(str_to_vec(publisher_id));
        fields.push(str_to_vec(client_id));
        fields.push(str_to_vec(client_secret));
        assert(views(fields@) =~= delivery_fields(
            operation_id@,
            installation_id@,
            app_id@,
            publisher_id@,
            client_id@,
            client_secret@,
        ));
        encode_request(OP_DELIVER_OIDC, fields.as_slice())
    }

    /// The request that removes an installation's runtime secret material.
    pub fn remove_for_installation_request(&self, operation_id: &str, installation_id: &str) -> (r:
        Result<Vec<u8>, UnixRuntimeSecretDeliveryError>)
        ensures
            secret_request_encodable(removal_fields(operation_id@, installation_id@)) ==> (r matches Ok(
                bytes,
            ) && bytes@ == frame(
                secret_magic(),
                OP_REMOVE_INSTALLATION,
                removal_fields(operation_id@, installation_id@),
            )),
            !secret_request_encodable(removal_fields(operation_id@, installation_id@)) ==> (r matches Err(
                UnixRuntimeSecretDeliveryError::FieldTooLarge,
            )),
    {
        let mut fields: Vec<Vec<u8>> = Vec::new();
        fields.push(str_to_vec(operation_id));
        fields.push(str_to_vec(installation_id));
        assert(views(fields@) =~= removal_fields(operation_id@, installation_id@));
        encode_request(OP_REMOVE_INSTALLATION, fields.as_slice())
    }
}

/// The six fields of a delivery, in order.
pub open spec fn delivery_fields(
    operation_id: Seq<char>,
    installation_id: Seq<char>,
    app_id: Seq<char>,
    publisher_id: Seq<char>,
    client_id: Seq<char>,
    client_secret: Seq<char>,
) -> Seq<Seq<u8>> {
    seq![
        utf8_of(operation_id),
        utf8_of(installation_id),
        utf8_of(app_id),
        utf8_of(publisher_id),
        utf8_of(client_id),
        utf8_of(client_secret),
    ]
}

/// The two fields of a removal, in order.
pub open spec fn removal_fields(operation_id: Seq<char>, installation_id: Seq<char>) -> Seq<Seq<u8>> {
    seq![utf8_of(operation_id), utf8_of(installation_id)]
}

/// The client frames any request whose field count fits a byte and whose
/// fields' lengths fit a `u32`.
pub open spec fn secret_request_encodable(fields: Seq<Seq<u8>>) -> bool {
    fields.len() <= 255 && forall|i: int| 0 <= i < fields.len() ==> (#[trigger] fields[i]).len()
        <= u32::MAX
}

/// Frames a secret request.
pub fn encode_request(operation: u8, fields: &[Vec<u8>]) -> (r: Result<
    Vec<u8>,
    UnixRuntimeSecretDeliveryError,
>)
    ensures
        secret_request_encodable(views(fields@)) ==> (r matches Ok(bytes) && bytes@ == frame(
            secret_magic(),
            operation,
            views(fields@),
        )),
        !secret_request_encodable(views(fields@)) ==> (r matches Err(
            UnixRuntimeSecretDeliveryError::FieldTooLarge,
        )),
{
    let ghost all = views(fields@);
    if fields.len() > 255 {
        return Err(UnixRuntimeSecretDeliveryError::FieldTooLarge);
    }
    let field_count = fields.len() as u8;
    let mut request = secret_magic_bytes();
    request.push(operation);
    request.push(field_count);
    let mut i: usize = 0;
    assert(all.take(0) =~= Seq::<Seq<u8>>::empty());
    assert(request@ =~= secret_magic() + seq![operation, field_count] + encode_fields(all.take(0)));
    while i < fields.len()
        invariant
            all == views(fields@),
            all.len() == fields@.len(),
            fields@.len() <= 255,
            field_count == fields@.len() as u8,
            i <= fields@.len(),
            request@ == secret_magic() + seq![operation, field_count] + encode_fields(
                all.take(i as int),
            ),
            forall|j: int| 0 <= j < i ==> (#[trigger] all[j]).len() <= u32::MAX,
        decreases fields@.len() - i,
    {
        let field = &fields[i];
        assert(all[i as int] == field@);
        if field.len() > 4294967295 {
            return Err(UnixRuntimeSecretDeliveryError::FieldTooLarge);
        }
        push_be32(&mut request, field.len() as u32);
        request.extend_from_slice(field.as_slice());
        proof {
            assert(all.take(i as int).push(field@) =~= all.take(i + 1));
            lemma_encode_fields_push(all.take(i as int), field@);
            assert(request@ =~= secret_magic() + seq![operation, field_count] + encode_fields(
                all.take(i + 1),
            ));
        }
        i = i + 1;
    }
    assert(all.take(fields@.len() as int) =~= all);
    Ok(request)
}

/// How the client reads the five acknowledgement bytes: `Ok` for success,
/// otherwise the status it reports.
pub open spec fn read_ack(b: Seq<u8>) -> Option<u8> {
    if b.take(4) != secret_magic() {
        None
    } else if b[4] == STATUS_OK || b[4] == STATUS_CONFLICT || b[4] == STATUS_REJECTED {
        Some(b[4])
    } else {
        None
    }
}

/// Reads an acknowledgement.
pub fn decode_ack(b: &[u8]) -> (r: Result<(), UnixRuntimeSecretDeliveryError>)
    requires
        b@.len() == RESPONSE_LENGTH,
    ensures
        read_ack(b@) == Some(STATUS_OK) ==> r is Ok,
        read_ack(b@) == Some(STATUS_CONFLICT) ==> (r matches Err(
            UnixRuntimeSecretDeliveryError::ConflictingReplay,
        )),
        read_ack(b@) == Some(STATUS_REJECTED) ==> (r matches Err(
            UnixRuntimeSecretDeliveryError::Rejected,
        )),
        read_ack(b@) is None ==> (r matches Err(UnixRuntimeSecretDeliveryError::InvalidResponse)),
{
    let magic = secret_magic_bytes();
    let matches = b[0] == magic[0] && b[1] == magic[1] && b[2] == magic[2] && b[3] == magic[3];
    if !matches {
        assert(b@.take(4) != secret_magic()) by {
            if b@.take(4) == secret_magic() {
                assert(b@.take(4)[0] == b@[0] && b@.take(4)[1] == b@[1] && b@.take(4)[2] == b@[2]
                    && b@.take(4)[3] == b@[3]);
            }
        }
        return Err(UnixRuntimeSecretDeliveryError::InvalidResponse);
    }
    assert(b@.take(4) =~= secret_magic());
    let status = b[4];
    if status == STATUS_OK {
        Ok(())
    } else if status == STATUS_CONFLICT {
        Err(UnixRuntimeSecretDeliveryError::ConflictingReplay)
    } else if status == STATUS_REJECTED {
        Err(UnixRuntimeSecretDeliveryError::Rejected)
    } else {
        Err(UnixRuntimeSecretDeliveryError::InvalidResponse)
    }
}

} // verus!
