//! Encryption of app secrets at rest: AES-256-GCM under a device root key,
//! with the secret's identity, owner, purpose, key and creation time bound
//! as associated data.
use aes_gcm::aead::{Aead, KeyInit, Payload};
use aes_gcm::{Aes256Gcm, Nonce};
use vstd::prelude::*;

use crate::bytes::{byte_is_alnum, is_alnum, DOT, HYPHEN, UNDERSCORE};
use crate::docker_runtime_target::{be64, length_prefixed, push_be64};
use crate::text::utf8_of;

verus! {

/// Length of a root key, in bytes.
pub const KEY_LENGTH: usize = 32;

/// Length of a nonce, in bytes.
pub const NONCE_LENGTH: usize = 12;

/// The longest key ID, in bytes.
pub const KEY_ID_MAX_LENGTH: usize = 120;

/// The longest plaintext and associated data AES-GCM takes, in bytes.
pub const AES_GCM_MAX_INPUT: u64 = 0x1000000000;

/// The longest ciphertext AES-GCM takes, in bytes.
pub const AES_GCM_MAX_CIPHERTEXT: u64 = 0x1000000010;

/// The name of a device root key.
#[derive(Debug, Clone)]
pub struct SecretEncryptionKeyId(String);

#[derive(Debug, Clone, Copy, PartialEq, Eq, Structural)]
pub enum SecretEncryptionKeyIdError {
    Empty,
    TooLong,
    InvalidCharacter,
}

/// A device root key and its name.
pub struct SecretEncryptionKey {
    id: SecretEncryptionKeyId,
    value: [u8; KEY_LENGTH],
}

/// Why sealing or opening a stored secret failed.
#[derive(Debug)]
pub enum SqliteSecretStoreError<KeyError> {
    LockPoisoned,
    KeyProvider(KeyError),
    InvalidKeyLength,
    RandomGeneration(getrandom::Error),
    EncryptionFailed,
    AuthenticationFailed,
    AlreadyExists,
    InvalidKeyId(SecretEncryptionKeyIdError),
    InvalidNonceLength(usize),
    InvalidTimestamp(i64),
    MissingEncryptionKey(String),
    ValueOutsideSqliteRange { field: &'static str, value: u64 },
}

/// Bytes allowed in a key ID.
pub open spec fn is_key_id_byte(b: u8) -> bool {
    is_alnum(b) || b == DOT || b == HYPHEN || b == UNDERSCORE
}

/// Why `s` is not a key ID, or `None` when it is one: 1 to 120 bytes of
/// letters, digits, `.`, `-` and `_`.
pub open spec fn key_id_error(s: Seq<u8>) -> Option<SecretEncryptionKeyIdError> {
    if s.len() == 0 {
        Some(SecretEncryptionKeyIdError::Empty)
    } else if s.len() > KEY_ID_MAX_LENGTH {
        Some(SecretEncryptionKeyIdError::TooLong)
    } else if !(forall|i: int| 0 <= i < s.len() ==> is_key_id_byte(#[trigger] s[i])) {
        Some(SecretEncryptionKeyIdError::InvalidCharacter)
    } else {
        None
    }
}

impl SecretEncryptionKeyId {
    pub closed spec fn text(&self) -> Seq<char> {
        self.0@
    }

    /// Accepts 1 to 120 bytes of letters, digits, `.`, `-` and `_`.
    pub fn parse(value: String) -> (r: Result<Self, SecretEncryptionKeyIdError>)
        ensures
            match key_id_error(utf8_of(value@)) {
                None => r matches Ok(id) && id.text() == value@,
                Some(e) => r == Err::<Self, SecretEncryptionKeyIdError>(e),
            },
    {
        let bytes = value.as_str().as_bytes();
        if bytes.len() == 0 {
            return Err(SecretEncryptionKeyIdError::Empty);
        }
        if bytes.len() > KEY_ID_MAX_LENGTH {
            return Err(SecretEncryptionKeyIdError::TooLong);
        }
        let mut i: usize = 0;
        while i < bytes.len()
            invariant
                i <= bytes@.len(),
                0 < bytes@.len() <= KEY_ID_MAX_LENGTH,
                bytes@ == utf8_of(value@),
                forall|j: int| 0 <= j < i ==> is_key_id_byte(#[trigger] bytes@[j]),
            decreases bytes@.len() - i,
        {
            let b = bytes[i];
            if !(byte_is_alnum(b) || b == DOT || b == HYPHEN || b == UNDERSCORE) {
                assert(!is_key_id_byte(bytes@[i as int]));
                return Err(SecretEncryptionKeyIdError::InvalidCharacter);
            }
            i = i + 1;
        }
        Ok(SecretEncryptionKeyId(value))
    }

    pub fn as_str(&self) -> (r: &str)
        ensures
            r@ == self.text(),
    {
        self.0.as_str()
    }

    /// Whether two key IDs are the same.
    pub fn same(&self, other: &SecretEncryptionKeyId) -> (r: bool)
        ensures
            r == (self.text() == other.text()),
    {
        crate::docker_runtime_target::str_equals(self.as_str(), other.as_str())
    }

    /// A copy of the key ID.
    pub fn duplicate(&self) -> (r: SecretEncryptionKeyId)
        ensures
            r.text() == self.text(),
    {
        SecretEncryptionKeyId(crate::text::owned(self.0.as_str()))
    }
}

impl SecretEncryptionKey {
    pub closed spec fn spec_id(&self) -> SecretEncryptionKeyId {
        self.id
    }

    pub closed spec fn spec_value(&self) -> Seq<u8> {
        self.value@
    }

    pub fn new(id: SecretEncryptionKeyId, value: [u8; KEY_LENGTH]) -> (r: Self)
        ensures
            r.spec_id() == id,
            r.spec_value() == value@,
    {
        SecretEncryptionKey { id, value }
    }

    pub fn id(&self) -> (r: &SecretEncryptionKeyId)
        ensures
            *r == self.spec_id(),
    {
        &self.id
    }

    fn as_bytes(&self) -> (r: &[u8; KEY_LENGTH])
        ensures
            r@ == self.spec_value(),
    {
        &self.value
    }
}

// ---------------------------------------------------------------------------
// Associated data
// ---------------------------------------------------------------------------

/// The version tag `rumahl-secret-v1` that opens the associated data.
pub open spec fn associated_data_version() -> Seq<u8> {
    seq![114u8, 117, 109, 97, 104, 108, 45, 115, 101, 99, 114, 101, 116, 45, 118, 49]
}

/// The fields bound to a secret's ciphertext, in order.
pub open spec fn associated_fields(
    secret_id: Seq<char>,
    installation_id: Seq<char>,
    app_id: Seq<char>,
    publisher_id: Seq<char>,
    purpose: Seq<char>,
    key_id: Seq<char>,
    created_at: u64,
) -> Seq<Seq<u8>> {
    seq![
        associated_data_version(),
        utf8_of(secret_id),
        utf8_of(installation_id),
        utf8_of(app_id),
        utf8_of(publisher_id),
        utf8_of(purpose),
        utf8_of(key_id),
        be64(created_at as int),
    ]
}

/// Appends a field as its length in eight big-endian bytes and its bytes.
pub fn append_field(target: &mut Vec<u8>, value: &[u8])
    ensures
        final(target)@ == old(target)@ + be64(value@.len() as int) + value@,
{
    push_be64(target, value.len() as u64);
    let ghost before = target@;
    target.extend_from_slice(value);
    assert(target@ =~= before + value@);
}

/// The associated data of a secret: its fields, each length-prefixed.
pub fn associated_data(
    secret_id: &str,
    installation_id: &str,
    app_id: &str,
    publisher_id: &str,
    purpose: &str,
    key_id: &SecretEncryptionKeyId,
    created_at: u64,
) -> (r: Vec<u8>)
    ensures
        r@ == length_prefixed(
            associated_fields(
                secret_id@,
                installation_id@,
                app_id@,
                publisher_id@,
                purpose@,
                key_id.text(),
                created_at,
            ),
        ),
{
    let ghost fields = associated_fields(
        secret_id@,
        installation_id@,
        app_id@,
        publisher_id@,
        purpose@,
        key_id.text(),
        created_at,
    );
    let version: [u8; 16] = [114, 117, 109, 97, 104, 108, 45, 115, 101, 99, 114, 101, 116, 45, 118, 49];
    assert(version@ =~= associated_data_version());
    let mut created: Vec<u8> = Vec::new();
    push_be64(&mut created, created_at);
    assert(created@ =~= be64(created_at as int));
    let mut data: Vec<u8> = Vec::new();
    append_field(&mut data, version.as_slice());
    assert(data@ =~= length_prefixed(fields.take(1))) by {
        assert(fields.take(1).drop_last() =~= Seq::<Seq<u8>>::empty());
        assert(fields.take(1).last() == associated_data_version());
        assert(length_prefixed(Seq::<Seq<u8>>::empty()) =~= Seq::<u8>::empty());
    }
    append_field(&mut data, secret_id.as_bytes());
    assert(data@ =~= length_prefixed(fields.take(2))) by {
        assert(fields.take(2).drop_last() =~= fields.take(1));
    }
    append_field(&mut data, installation_id.as_bytes());
    assert(data@ =~= length_prefixed(fields.take(3))) by {
        assert(fields.take(3).drop_last() =~= fields.take(2));
    }
    append_field(&mut data, app_id.as_bytes());
    assert(data@ =~= length_prefixed(fields.take(4))) by {
        assert(fields.take(4).drop_last() =~= fields.take(3));
    }
    append_field(&mut data, publisher_id.as_bytes());
    assert(data@ =~= length_prefixed(fields.take(5))) by {
        assert(fields.take(5).drop_last() =~= fields.take(4));
    }
    append_field(&mut data, purpose.as_bytes());
    assert(data@ =~= length_prefixed(fields.take(6))) by {
        assert(fields.take(6).drop_last() =~= fields.take(5));
    }
    append_field(&mut data, key_id.as_str().as_bytes());
    assert(data@ =~= length_prefixed(fields.take(7))) by {
        assert(fields.take(7).drop_last() =~= fields.take(6));
    }
    append_field(&mut data, created.as_slice());
    assert(data@ =~= length_prefixed(fields)) by {
        assert(fields.drop_last() =~= fields.take(7));
    }
    data
}

// ---------------------------------------------------------------------------
// AES-256-GCM
// ---------------------------------------------------------------------------

/// What AES-256-GCM encryption with `key` and `nonce` makes of `plaintext`
/// and `aad`: the ciphertext followed by the tag.
pub uninterp spec fn aes256_gcm_seal(key: Seq<u8>, nonce: Seq<u8>, plaintext: Seq<u8>, aad: Seq<u8>) -> Seq<u8>;

/// What AES-256-GCM decryption with `key` and `nonce` makes of
/// `ciphertext` and `aad`: the plaintext, or nothing when the tag does not
/// authenticate them.
pub uninterp spec fn aes256_gcm_open(key: Seq<u8>, nonce: Seq<u8>, ciphertext: Seq<u8>, aad: Seq<u8>) -> Option<Seq<u8>>;

pub open spec fn bytes_view(v: Option<Vec<u8>>) -> Option<Seq<u8>> {
    match v {
        Some(bytes) => Some(bytes@),
        None => None,
    }
}

/// Calls `Aes256Gcm::encrypt` with a payload of `plaintext` and `aad`. Its
/// source fails exactly when the plaintext or the associated data is longer
/// than 2^36 bytes; otherwise the result is the named encryption of its
/// arguments.
#[verifier::external_body]
fn aes256_gcm_encrypt(key: &[u8; KEY_LENGTH], nonce: &[u8; NONCE_LENGTH], plaintext: &[u8], aad: &[u8]) -> (r: Option<Vec<u8>>)
    ensures
        plaintext@.len() <= AES_GCM_MAX_INPUT && aad@.len() <= AES_GCM_MAX_INPUT ==> bytes_view(r)
            == Some(aes256_gcm_seal(key@, nonce@, plaintext@, aad@)),
        !(plaintext@.len() <= AES_GCM_MAX_INPUT && aad@.len() <= AES_GCM_MAX_INPUT) ==> r is None,
{
    let cipher = Aes256Gcm::new_from_slice(key).ok()?;
    cipher.encrypt(Nonce::from_slice(nonce), Payload { msg: plaintext, aad }).ok()
}

/// Calls `Aes256Gcm::decrypt` with a payload of `ciphertext` and `aad`. The
/// result is the named decryption of its arguments, and, as the crate
/// documents for every AEAD, decrypting what encryption made with the same
/// key, nonce and associated data gives back the plaintext.
#[verifier::external_body]
fn aes256_gcm_decrypt(key: &[u8; KEY_LENGTH], nonce: &[u8; NONCE_LENGTH], ciphertext: &[u8], aad: &[u8]) -> (r: Option<Vec<u8>>)
    ensures
        bytes_view(r) == aes256_gcm_open(key@, nonce@, ciphertext@, aad@),
        forall|m: Seq<u8>|
            m.len() <= AES_GCM_MAX_INPUT && aad@.len() <= AES_GCM_MAX_INPUT && ciphertext@
                == aes256_gcm_seal(key@, nonce@, m, aad@) ==> bytes_view(r) == Some(m),
{
    let cipher = Aes256Gcm::new_from_slice(key).ok()?;
    cipher.decrypt(Nonce::from_slice(nonce), Payload { msg: ciphertext, aad }).ok()
}

/// A fresh random nonce.
pub fn random_nonce<KeyError>() -> (r: Result<[u8; NONCE_LENGTH], SqliteSecretStoreError<KeyError>>)
    ensures
        r matches Err(e) ==> e is RandomGeneration,
{
    let mut nonce = [0u8; NONCE_LENGTH];
    match crate::random::fill_random(&mut nonce) {
        Ok(()) => Ok(nonce),
        Err(error) => Err(SqliteSecretStoreError::RandomGeneration(error)),
    }
}

/// A sealed secret as it is stored.
pub struct EncryptedSecret {
    pub key_id: SecretEncryptionKeyId,
    pub nonce: [u8; NONCE_LENGTH],
    pub ciphertext: Vec<u8>,
}

/// The identity of a stored secret, bound to its ciphertext.
pub struct SecretBinding {
    pub secret_id: String,
    pub installation_id: String,
    pub app_id: String,
    pub publisher_id: String,
    pub purpose: String,
    pub created_at: u64,
}

/// The associated data of a secret under a key.
pub open spec fn binding_data(binding: SecretBinding, key_id: Seq<char>) -> Seq<u8> {
    length_prefixed(
        associated_fields(
            binding.secret_id@,
            binding.installation_id@,
            binding.app_id@,
            binding.publisher_id@,
            binding.purpose@,
            key_id,
            binding.created_at,
        ),
    )
}

/// Seals a secret value under the active key with a fresh nonce.
pub fn seal_secret<KeyError>(
    key: &SecretEncryptionKey,
    nonce: [u8; NONCE_LENGTH],
    binding: &SecretBinding,
    value: &[u8],
) -> (r: Result<EncryptedSecret, SqliteSecretStoreError<KeyError>>)
    ensures
        value@.len() <= AES_GCM_MAX_INPUT && binding_data(*binding, key.spec_id().text()).len()
            <= AES_GCM_MAX_INPUT ==> (r matches Ok(sealed) && sealed.key_id.text()
            == key.spec_id().text() && sealed.nonce@ == nonce@ && sealed.ciphertext@
            == aes256_gcm_seal(
            key.spec_value(),
            nonce@,
            value@,
            binding_data(*binding, key.spec_id().text()),
        )),
        !(value@.len() <= AES_GCM_MAX_INPUT && binding_data(*binding, key.spec_id().text()).len()
            <= AES_GCM_MAX_INPUT) ==> r matches Err(SqliteSecretStoreError::EncryptionFailed),
{
    let aad = associated_data(
        binding.secret_id.as_str(),
        binding.installation_id.as_str(),
        binding.app_id.as_str(),
        binding.publisher_id.as_str(),
        binding.purpose.as_str(),
        key.id(),
        binding.created_at,
    );
    match aes256_gcm_encrypt(key.as_bytes(), &nonce, value, aad.as_slice()) {
        Some(ciphertext) => Ok(EncryptedSecret { key_id: key.id().duplicate(), nonce, ciphertext }),
        None => Err(SqliteSecretStoreError::EncryptionFailed),
    }
}

/// Opens a stored secret with the key it names: the nonce must be twelve
/// bytes and the ciphertext must authenticate the secret's binding.
pub fn open_secret<KeyError>(
    key: &SecretEncryptionKey,
    nonce: &[u8],
    ciphertext: &[u8],
    binding: &SecretBinding,
) -> (r: Result<Vec<u8>, SqliteSecretStoreError<KeyError>>)
    ensures
        nonce@.len() != NONCE_LENGTH ==> (r matches Err(
            SqliteSecretStoreError::InvalidNonceLength(length),
        ) && length == nonce@.len()),
        nonce@.len() == NONCE_LENGTH ==> match aes256_gcm_open(
            key.spec_value(),
            nonce@,
            ciphertext@,
            binding_data(*binding, key.spec_id().text()),
        ) {
            Some(plaintext) => r matches Ok(value) && value@ == plaintext,
            None => r matches Err(SqliteSecretStoreError::AuthenticationFailed),
        },
        forall|m: Seq<u8>|
            m.len() <= AES_GCM_MAX_INPUT && binding_data(*binding, key.spec_id().text()).len()
                <= AES_GCM_MAX_INPUT && nonce@.len() == NONCE_LENGTH && ciphertext@
                == aes256_gcm_seal(
                key.spec_value(),
                nonce@,
                m,
                binding_data(*binding, key.spec_id().text()),
            ) ==> (r matches Ok(value) && value@ == m),
{
    if nonce.len() != NONCE_LENGTH {
        return Err(SqliteSecretStoreError::InvalidNonceLength(nonce.len()));
    }
    let mut fixed = [0u8; NONCE_LENGTH];
    let mut i: usize = 0;
    while i < NONCE_LENGTH
        invariant
            i <= NONCE_LENGTH,
            nonce@.len() == NONCE_LENGTH,
            forall|j: int| 0 <= j < i ==> fixed@[j] == nonce@[j],
        decreases NONCE_LENGTH - i,
    {
        fixed[i] = nonce[i];
        i = i + 1;
    }
    assert(fixed@ =~= nonce@);
    let aad = associated_data(
        binding.secret_id.as_str(),
        binding.installation_id.as_str(),
        binding.app_id.as_str(),
        binding.publisher_id.as_str(),
        binding.purpose.as_str(),
        key.id(),
        binding.created_at,
    );
    match aes256_gcm_decrypt(key.as_bytes(), &fixed, ciphertext, aad.as_slice()) {
        Some(value) => Ok(value),
        None => Err(SqliteSecretStoreError::AuthenticationFailed),
    }
}

/// A creation time as SQLite stores it: a non-negative 64-bit integer.
pub fn sqlite_created_at<KeyError>(seconds: u64) -> (r: Result<i64, SqliteSecretStoreError<KeyError>>)
    ensures
        seconds <= i64::MAX ==> r == Ok::<i64, SqliteSecretStoreError<KeyError>>(seconds as i64),
        seconds > i64::MAX ==> (r matches Err(SqliteSecretStoreError::ValueOutsideSqliteRange { field, value })
            && field == "created_at" && value == seconds),
{
    if seconds <= i64::MAX as u64 {
        Ok(seconds as i64)
    } else {
        Err(SqliteSecretStoreError::ValueOutsideSqliteRange { field: "created_at", value: seconds })
    }
}

/// A stored creation time read back: it must not be negative.
pub fn stored_created_at<KeyError>(stored: i64) -> (r: Result<u64, SqliteSecretStoreError<KeyError>>)
    ensures
        stored >= 0 ==> r == Ok::<u64, SqliteSecretStoreError<KeyError>>(stored as u64),
        stored < 0 ==> (r matches Err(SqliteSecretStoreError::InvalidTimestamp(value)) && value
            == stored),
{
    if stored >= 0 {
        Ok(stored as u64)
    } else {
        Err(SqliteSecretStoreError::InvalidTimestamp(stored))
    }
}

} // verus!
