//! Device root keys sealed in the TPM and unsealed with `tpm2_unseal`.
use vstd::prelude::*;

use crate::docker_control::texts;
use crate::docker_runtime_target::{is_absolute_path, path_is_absolute};
use crate::secret_store::{SecretEncryptionKey, SecretEncryptionKeyId, KEY_LENGTH};
use crate::text::{concat, owned, utf8_of};

verus! {

/// The default time `tpm2_unseal` may take, in nanoseconds.
pub const DEFAULT_UNSEAL_TIMEOUT_NANOS: u64 = 10_000_000_000;

/// The most output read from `tpm2_unseal`: one byte more than a key.
pub const MAX_UNSEAL_OUTPUT_LENGTH: usize = 33;

/// How the TPM authorizes unsealing a key.
#[derive(Debug, Clone)]
pub enum Tpm2Authorization {
    Passwordless,
    PolicySession(String),
}

/// A key sealed in the TPM: its ID, the TPM object context file and the
/// authorization.
#[derive(Debug, Clone)]
pub struct Tpm2SealedKey {
    id: SecretEncryptionKeyId,
    object_context: String,
    authorization: Tpm2Authorization,
}

#[derive(Debug, Clone, Copy, PartialEq, Eq, Structural)]
pub enum Tpm2SealedKeyError {
    ObjectContextMustBeAbsolute,
    PolicySessionMustBeAbsolute,
}

/// The sealed keys of a device, one of them active. Key IDs are distinct and
/// the active key is among the keys.
#[derive(Debug)]
pub struct Tpm2UnsealKeyProvider {
    executable: String,
    active_key_id: SecretEncryptionKeyId,
    keys: Vec<Tpm2SealedKey>,
    timeout_nanos: u64,
}

#[derive(Debug)]
pub enum Tpm2UnsealKeyProviderError {
    ExecutableMustBeAbsolute,
    ZeroTimeout,
    EmptyKeySet,
    DuplicateKeyId(SecretEncryptionKeyId),
    ActiveKeyMissing(SecretEncryptionKeyId),
    Spawn(std::io::Error),
    Read(std::io::Error),
    Wait(std::io::Error),
    Terminate(std::io::Error),
    ReaderPanicked,
    TimedOut,
    UnsealFailed(Option<i32>),
    InvalidKeyLength(usize),
}

pub open spec fn authorization_view(authorization: Tpm2Authorization) -> Option<Seq<char>> {
    match authorization {
        Tpm2Authorization::Passwordless => None,
        Tpm2Authorization::PolicySession(path) => Some(path@),
    }
}

impl Tpm2SealedKey {
    pub closed spec fn spec_id(&self) -> SecretEncryptionKeyId {
        self.id
    }

    pub closed spec fn spec_object_context(&self) -> Seq<char> {
        self.object_context@
    }

    pub closed spec fn spec_authorization(&self) -> Tpm2Authorization {
        self.authorization
    }

    /// Accepts absolute paths for the object context and a policy session.
    pub fn new(id: SecretEncryptionKeyId, object_context: String, authorization: Tpm2Authorization) -> (r:
        Result<Self, Tpm2SealedKeyError>)
        ensures
            !is_absolute_path(utf8_of(object_context@)) ==> r == Err::<Self, _>(
                Tpm2SealedKeyError::ObjectContextMustBeAbsolute,
            ),
            is_absolute_path(utf8_of(object_context@)) && (authorization matches Tpm2Authorization::PolicySession(
                path,
            ) && !is_absolute_path(utf8_of(path@))) ==> r == Err::<Self, _>(
                Tpm2SealedKeyError::PolicySessionMustBeAbsolute,
            ),
            is_absolute_path(utf8_of(object_context@)) && !(authorization matches Tpm2Authorization::PolicySession(
                path,
            ) && !is_absolute_path(utf8_of(path@))) ==> (r matches Ok(key) && key.spec_id() == id
                && key.spec_object_context() == object_context@ && key.spec_authorization()
                == authorization),
    {
        if !path_is_absolute(object_context.as_str()) {
            return Err(Tpm2SealedKeyError::ObjectContextMustBeAbsolute);
        }
        if let Tpm2Authorization::PolicySession(path) = &authorization {
            if !path_is_absolute(path.as_str()) {
                return Err(Tpm2SealedKeyError::PolicySessionMustBeAbsolute);
            }
        }
        Ok(Tpm2SealedKey { id, object_context, authorization })
    }

    pub fn id(&self) -> (r: &SecretEncryptionKeyId)
        ensures
            *r == self.spec_id(),
    {
        &self.id
    }

    pub fn object_context(&self) -> (r: &str)
        ensures
            r@ == self.spec_object_context(),
    {
        self.object_context.as_str()
    }

    pub fn authorization(&self) -> (r: &Tpm2Authorization)
        ensures
            *r == self.spec_authorization(),
    {
        &self.authorization
    }
}

/// The key IDs of sealed keys.
pub open spec fn key_ids(keys: Seq<Tpm2SealedKey>) -> Seq<Seq<char>> {
    keys.map_values(|k: Tpm2SealedKey| k.spec_id().text())
}

/// Whether no ID occurs twice.
pub open spec fn distinct(ids: Seq<Seq<char>>) -> bool {
    forall|i: int, j: int| 0 <= i < j < ids.len() ==> ids[i] != ids[j]
}

/// The position of the first ID that repeats an earlier one.
pub open spec fn first_repeat(ids: Seq<Seq<char>>) -> Option<int> {
    if distinct(ids) {
        None
    } else {
        Some(
            choose|j: int|
                0 <= j < ids.len() && distinct(ids.take(j)) && exists|i: int|
                    0 <= i < j && ids[i] == ids[j],
        )
    }
}

/// The first configuration rule broken, in the order they are checked.
pub open spec fn provider_config_error(
    executable: Seq<char>,
    active_key_id: Seq<char>,
    ids: Seq<Seq<char>>,
    timeout_nanos: u64,
) -> Option<u8> {
    if !is_absolute_path(utf8_of(executable)) {
        Some(0)
    } else if timeout_nanos == 0 {
        Some(1)
    } else if !distinct(ids) {
        Some(2)
    } else if ids.len() == 0 {
        Some(3)
    } else if !ids.contains(active_key_id) {
        Some(4)
    } else {
        None
    }
}

impl Tpm2UnsealKeyProvider {
    #[verifier::type_invariant]
    spec fn well_formed(&self) -> bool {
        &&& key_ids(self.keys@).len() > 0
        &&& distinct(key_ids(self.keys@))
        &&& key_ids(self.keys@).contains(self.active_key_id.text())
    }

    pub closed spec fn spec_executable(&self) -> Seq<char> {
        self.executable@
    }

    pub closed spec fn spec_active_key_id(&self) -> Seq<char> {
        self.active_key_id.text()
    }

    pub closed spec fn spec_keys(&self) -> Seq<Tpm2SealedKey> {
        self.keys@
    }

    pub closed spec fn spec_timeout_nanos(&self) -> u64 {
        self.timeout_nanos
    }

    /// A provider with the default ten-second unseal timeout.
    pub fn new(executable: String, active_key_id: SecretEncryptionKeyId, sealed_keys: Vec<Tpm2SealedKey>) -> (r:
        Result<Self, Tpm2UnsealKeyProviderError>)
        ensures
            Self::outcome(executable@, active_key_id, sealed_keys@, DEFAULT_UNSEAL_TIMEOUT_NANOS, r),
    {
        Self::with_timeout(executable, active_key_id, sealed_keys, DEFAULT_UNSEAL_TIMEOUT_NANOS)
    }

    /// What a construction gives: the first broken rule as its error, or a
    /// provider that holds exactly the configuration.
    pub open spec fn outcome(
        executable: Seq<char>,
        active_key_id: SecretEncryptionKeyId,
        keys: Seq<Tpm2SealedKey>,
        timeout_nanos: u64,
        r: Result<Self, Tpm2UnsealKeyProviderError>,
    ) -> bool {
        match provider_config_error(executable, active_key_id.text(), key_ids(keys), timeout_nanos) {
            Some(0) => r matches Err(Tpm2UnsealKeyProviderError::ExecutableMustBeAbsolute),
            Some(1) => r matches Err(Tpm2UnsealKeyProviderError::ZeroTimeout),
            Some(2) => r matches Err(Tpm2UnsealKeyProviderError::DuplicateKeyId(id))
                && first_repeat(key_ids(keys)) matches Some(j) && id.text() == key_ids(keys)[j],
            Some(3) => r matches Err(Tpm2UnsealKeyProviderError::EmptyKeySet),
            Some(_) => r matches Err(Tpm2UnsealKeyProviderError::ActiveKeyMissing(id)) && id.text()
                == active_key_id.text(),
            None => r matches Ok(provider) && provider.spec_executable() == executable
                && provider.spec_active_key_id() == active_key_id.text() && provider.spec_keys()
                == keys && provider.spec_timeout_nanos() == timeout_nanos,
        }
    }

    /// Validates the configuration: an absolute `tpm2_unseal`, a non-zero
    /// timeout, distinct key IDs, at least one key, and the active key among
    /// them.
    pub fn with_timeout(
        executable: String,
        active_key_id: SecretEncryptionKeyId,
        sealed_keys: Vec<Tpm2SealedKey>,
        timeout_nanos: u64,
    ) -> (r: Result<Self, Tpm2UnsealKeyProviderError>)
        ensures
            Self::outcome(executable@, active_key_id, sealed_keys@, timeout_nanos, r),
    {
        if !path_is_absolute(executable.as_str()) {
            return Err(Tpm2UnsealKeyProviderError::ExecutableMustBeAbsolute);
        }
        if timeout_nanos == 0 {
            return Err(Tpm2UnsealKeyProviderError::ZeroTimeout);
        }
        let ghost ids = key_ids(sealed_keys@);
        let mut j: usize = 0;
        while j < sealed_keys.len()
            invariant
                j <= sealed_keys@.len(),
                ids == key_ids(sealed_keys@),
                distinct(ids.take(j as int)),
                is_absolute_path(utf8_of(executable@)),
                timeout_nanos != 0,
            decreases sealed_keys@.len() - j,
        {
            let mut i: usize = 0;
            while i < j
                invariant
                    i <= j < sealed_keys@.len(),
                    ids == key_ids(sealed_keys@),
                    is_absolute_path(utf8_of(executable@)),
                    timeout_nanos != 0,
                    distinct(ids.take(j as int)),
                    forall|k: int| 0 <= k < i ==> ids[k] != ids[j as int],
                decreases j - i,
            {
                if sealed_keys[i].id().same(sealed_keys[j].id()) {
                    proof {
                        assert(ids[i as int] == sealed_keys@[i as int].spec_id().text());
                        assert(ids[j as int] == sealed_keys@[j as int].spec_id().text());
                        assert(ids[i as int] == ids[j as int]);
                        assert(!distinct(ids)) by {
                            assert(0 <= i < j < ids.len());
                        }
                        let w = j as int;
                        assert(0 <= w < ids.len() && distinct(ids.take(w)) && exists|k: int|
                            0 <= k < w && ids[k] == ids[w]);
                        let c = choose|w2: int|
                            0 <= w2 < ids.len() && distinct(ids.take(w2)) && exists|k: int|
                                0 <= k < w2 && ids[k] == ids[w2];
                        lemma_first_repeat_unique(ids, c, w);
                        assert(first_repeat(ids) == Some(w));
                    }
                    return Err(Tpm2UnsealKeyProviderError::DuplicateKeyId(sealed_keys[j].id().duplicate()));
                }
                proof {
                    assert(ids[i as int] == sealed_keys@[i as int].spec_id().text());
                    assert(ids[j as int] == sealed_keys@[j as int].spec_id().text());
                }
                i = i + 1;
            }
            proof {
                let next = ids.take(j + 1);
                assert forall|a: int, b: int| 0 <= a < b < j + 1 implies #[trigger] next[a]
                    != #[trigger] next[b] by {
                    if b < j {
                        assert(ids.take(j as int)[a] != ids.take(j as int)[b]);
                    }
                }
            }
            j = j + 1;
        }
        proof {
            assert(ids.take(ids.len() as int) =~= ids);
        }
        if sealed_keys.len() == 0 {
            return Err(Tpm2UnsealKeyProviderError::EmptyKeySet);
        }
        let mut found = false;
        let mut k: usize = 0;
        while k < sealed_keys.len()
            invariant
                k <= sealed_keys@.len(),
                ids == key_ids(sealed_keys@),
                found <==> exists|m: int| 0 <= m < k && ids[m] == active_key_id.text(),
            decreases sealed_keys@.len() - k,
        {
            assert(ids[k as int] == sealed_keys@[k as int].spec_id().text());
            if sealed_keys[k].id().same(&active_key_id) {
                found = true;
            }
            k = k + 1;
        }
        if !found {
            proof {
                if ids.contains(active_key_id.text()) {
                    let m = choose|m: int| 0 <= m < ids.len() && ids[m] == active_key_id.text();
                    assert(ids[m] == active_key_id.text());
                }
            }
            return Err(Tpm2UnsealKeyProviderError::ActiveKeyMissing(active_key_id));
        }
        proof {
            let m = choose|m: int| 0 <= m < k && ids[m] == active_key_id.text();
            assert(ids[m] == active_key_id.text());
        }
        Ok(Tpm2UnsealKeyProvider { executable, active_key_id, keys: sealed_keys, timeout_nanos })
    }

    pub fn executable(&self) -> (r: &str)
        ensures
            r@ == self.spec_executable(),
    {
        self.executable.as_str()
    }

    /// The unseal timeout in nanoseconds.
    pub fn timeout(&self) -> (r: u64)
        ensures
            r == self.spec_timeout_nanos(),
    {
        self.timeout_nanos
    }

    /// The sealed key with the given ID, if there is one.
    pub fn sealed_key(&self, id: &SecretEncryptionKeyId) -> (r: Option<&Tpm2SealedKey>)
        ensures
            key_ids(self.spec_keys()).contains(id.text()) ==> (r matches Some(key)
                && key.spec_id().text() == id.text() && self.spec_keys().contains(*key)),
            !key_ids(self.spec_keys()).contains(id.text()) ==> r is None,
    {
        let ghost ids = key_ids(self.keys@);
        let mut k: usize = 0;
        while k < self.keys.len()
            invariant
                k <= self.keys@.len(),
                ids == key_ids(self.keys@),
                forall|m: int| 0 <= m < k ==> ids[m] != id.text(),
            decreases self.keys@.len() - k,
        {
            if self.keys[k].id().same(id) {
                assert(ids[k as int] == id.text());
                assert(self.keys@[k as int] == self.keys@[k as int]);
                return Some(&self.keys[k]);
            }
            k = k + 1;
        }
        proof {
            if ids.contains(id.text()) {
                let m = choose|m: int| 0 <= m < ids.len() && ids[m] == id.text();
                assert(ids[m] == id.text());
            }
        }
        None
    }

    /// The active sealed key.
    pub fn active_sealed_key(&self) -> (r: &Tpm2SealedKey)
        ensures
            r.spec_id().text() == self.spec_active_key_id(),
            self.spec_keys().contains(*r),
    {
        proof {
            use_type_invariant(self);
        }
        match self.sealed_key(&self.active_key_id) {
            Some(key) => key,
            None => {
                proof {
                    assert(false);
                }
                &self.keys[0]
            },
        }
    }
}

/// A repeated ID whose prefix is distinct is the first repeat.
proof fn lemma_first_repeat_unique(ids: Seq<Seq<char>>, a: int, b: int)
    requires
        0 <= a < ids.len() && distinct(ids.take(a)) && exists|k: int| 0 <= k < a && ids[k] == ids[a],
        0 <= b < ids.len() && distinct(ids.take(b)) && exists|k: int| 0 <= k < b && ids[k] == ids[b],
    ensures
        a == b,
{
    if a < b {
        let k = choose|k: int| 0 <= k < a && ids[k] == ids[a];
        assert(ids.take(b)[k] == ids.take(b)[a]);
    } else if b < a {
        let k = choose|k: int| 0 <= k < b && ids[k] == ids[b];
        assert(ids.take(a)[k] == ids.take(a)[b]);
    }
}

/// The arguments of `tpm2_unseal` for a sealed key: its object context,
/// quiet output, and the policy session when there is one.
pub open spec fn unseal_command(object_context: Seq<char>, authorization: Option<Seq<char>>) -> Seq<
    Seq<char>,
> {
    let base = seq!["--object-context"@, object_context, "--quiet"@];
    match authorization {
        None => base,
        Some(path) => base + seq!["--auth"@, "session:"@ + path],
    }
}

/// The arguments of `tpm2_unseal` for a sealed key.
pub fn unseal_arguments(key: &Tpm2SealedKey) -> (r: Vec<String>)
    ensures
        texts(r@) == unseal_command(
            key.spec_object_context(),
            authorization_view(key.spec_authorization()),
        ),
{
    let mut r = vec![owned("--object-context"), owned(key.object_context()), owned("--quiet")];
    let ghost base = texts(r@);
    assert(base =~= seq!["--object-context"@, key.spec_object_context(), "--quiet"@]);
    match key.authorization() {
        Tpm2Authorization::Passwordless => {},
        Tpm2Authorization::PolicySession(path) => {
            r.push(owned("--auth"));
            r.push(concat("session:", path.as_str()));
            assert(texts(r@) =~= base + seq!["--auth"@, "session:"@ + path@]);
        },
    }
    r
}

/// The key `tpm2_unseal` printed for a sealed key: it must have exited
/// successfully and printed exactly 32 bytes.
pub fn unsealed_key(key: &Tpm2SealedKey, succeeded: bool, status: Option<i32>, output: &[u8]) -> (r:
    Result<SecretEncryptionKey, Tpm2UnsealKeyProviderError>)
    ensures
        !succeeded ==> (r matches Err(Tpm2UnsealKeyProviderError::UnsealFailed(code)) && code
            == status),
        succeeded && output@.len() != KEY_LENGTH ==> (r matches Err(
            Tpm2UnsealKeyProviderError::InvalidKeyLength(length),
        ) && length == output@.len()),
        succeeded && output@.len() == KEY_LENGTH ==> (r matches Ok(unsealed)
            && unsealed.spec_id().text() == key.spec_id().text() && unsealed.spec_value()
            == output@),
{
    if !succeeded {
        return Err(Tpm2UnsealKeyProviderError::UnsealFailed(status));
    }
    if output.len() != KEY_LENGTH {
        return Err(Tpm2UnsealKeyProviderError::InvalidKeyLength(output.len()));
    }
    let mut value = [0u8; KEY_LENGTH];
    let mut i: usize = 0;
    while i < KEY_LENGTH
        invariant
            i <= KEY_LENGTH,
            output@.len() == KEY_LENGTH,
            forall|j: int| 0 <= j < i ==> value@[j] == output@[j],
        decreases KEY_LENGTH - i,
    {
        value[i] = output[i];
        i = i + 1;
    }
    assert(value@ =~= output@);
    Ok(SecretEncryptionKey::new(key.id().duplicate(), value))
}

} // verus!
