use rumahl_platform::runtime_model::AppIdentity;
use rumahl_platform::secret_store::{
    append_field, associated_data, open_secret, random_nonce, seal_secret, sqlite_created_at,
    stored_created_at, EncryptedSecret, SecretBinding, SecretEncryptionKey,
    SecretEncryptionKeyId, SecretEncryptionKeyIdError, SqliteSecretStoreError,
};
use rumahl_platform::tpm2_key_provider::{
    unseal_arguments, unsealed_key, Tpm2Authorization, Tpm2SealedKey, Tpm2SealedKeyError,
    Tpm2UnsealKeyProvider, Tpm2UnsealKeyProviderError,
};

const KEY_BYTES: [u8; 32] = [0x42; 32];

fn key_id(value: &str) -> SecretEncryptionKeyId {
    SecretEncryptionKeyId::parse(value.to_owned()).unwrap()
}

fn test_key() -> SecretEncryptionKey {
    SecretEncryptionKey::new(key_id("device-key-1"), KEY_BYTES)
}

fn binding(purpose: &str) -> SecretBinding {
    let owner = AppIdentity::new(
        "com.rumahl.notes".to_owned(),
        "installation-1".to_owned(),
        "com.rumahl".to_owned(),
    );
    SecretBinding {
        secret_id: "secret-1".to_owned(),
        installation_id: owner.installation_id().to_owned(),
        app_id: owner.app_id().to_owned(),
        publisher_id: owner.publisher_id().to_owned(),
        purpose: purpose.to_owned(),
        created_at: 100,
    }
}

fn seal(value: &[u8]) -> EncryptedSecret {
    let nonce = random_nonce::<()>().unwrap();
    seal_secret::<()>(&test_key(), nonce, &binding("rumahl.oidc.client-secret"), value).unwrap()
}

#[test]
fn key_ids_are_short_names_of_a_small_alphabet() {
    assert_eq!(key_id("device-key_1.v2").as_str(), "device-key_1.v2");
    assert_eq!(
        SecretEncryptionKeyId::parse(String::new()).unwrap_err(),
        SecretEncryptionKeyIdError::Empty
    );
    assert_eq!(
        SecretEncryptionKeyId::parse("k".repeat(121)).unwrap_err(),
        SecretEncryptionKeyIdError::TooLong
    );
    assert!(SecretEncryptionKeyId::parse("k".repeat(120)).is_ok());
    assert_eq!(
        SecretEncryptionKeyId::parse("device key".to_owned()).unwrap_err(),
        SecretEncryptionKeyIdError::InvalidCharacter
    );
}

#[test]
fn fields_are_length_prefixed_in_big_endian() {
    let mut data = vec![9];
    append_field(&mut data, b"ab");
    assert_eq!(data, vec![9, 0, 0, 0, 0, 0, 0, 0, 2, b'a', b'b']);
    let associated = associated_data("s", "i", "a", "p", "u", &key_id("k"), 258);
    let mut expected = Vec::new();
    for field in [
        &b"rumahl-secret-v1"[..],
        b"s",
        b"i",
        b"a",
        b"p",
        b"u",
        b"k",
        &258u64.to_be_bytes()[..],
    ] {
        expected.extend_from_slice(&(field.len() as u64).to_be_bytes());
        expected.extend_from_slice(field);
    }
    assert_eq!(associated, expected);
}

#[test]
fn encrypted_secret_opens_with_its_key_without_plaintext_in_ciphertext() {
    let sealed = seal(b"super-secret-value");
    assert_eq!(sealed.key_id.as_str(), "device-key-1");
    assert_eq!(sealed.ciphertext.len(), b"super-secret-value".len() + 16);
    assert!(!sealed
        .ciphertext
        .windows(b"super-secret-value".len())
        .any(|window| window == b"super-secret-value"));
    let value = open_secret::<()>(
        &test_key(),
        &sealed.nonce,
        &sealed.ciphertext,
        &binding("rumahl.oidc.client-secret"),
    )
    .unwrap();
    assert_eq!(value, b"super-secret-value");
}

#[test]
fn metadata_tampering_fails_authentication() {
    let sealed = seal(b"super-secret-value");
    assert!(matches!(
        open_secret::<()>(
            &test_key(),
            &sealed.nonce,
            &sealed.ciphertext,
            &binding("rumahl.oidc.other-secret"),
        ),
        Err(SqliteSecretStoreError::AuthenticationFailed)
    ));
    let other_key = SecretEncryptionKey::new(key_id("device-key-1"), [0x24; 32]);
    assert!(matches!(
        open_secret::<()>(
            &other_key,
            &sealed.nonce,
            &sealed.ciphertext,
            &binding("rumahl.oidc.client-secret"),
        ),
        Err(SqliteSecretStoreError::AuthenticationFailed)
    ));
    assert!(matches!(
        open_secret::<()>(
            &test_key(),
            &sealed.nonce[..11],
            &sealed.ciphertext,
            &binding("rumahl.oidc.client-secret"),
        ),
        Err(SqliteSecretStoreError::InvalidNonceLength(11))
    ));
}

#[test]
fn fresh_nonces_differ() {
    assert_ne!(random_nonce::<()>().unwrap(), random_nonce::<()>().unwrap());
}

#[test]
fn creation_times_fit_sqlite_integers() {
    assert_eq!(sqlite_created_at::<()>(100).unwrap(), 100);
    assert!(matches!(
        sqlite_created_at::<()>(u64::MAX),
        Err(SqliteSecretStoreError::ValueOutsideSqliteRange {
            field: "created_at",
            value: u64::MAX
        })
    ));
    assert_eq!(stored_created_at::<()>(7).unwrap(), 7);
    assert!(matches!(
        stored_created_at::<()>(-1),
        Err(SqliteSecretStoreError::InvalidTimestamp(-1))
    ));
}

#[test]
fn requires_absolute_security_object_paths() {
    let id = key_id("device-key-1");

    assert_eq!(
        Tpm2SealedKey::new(
            id.clone(),
            "relative.ctx".to_owned(),
            Tpm2Authorization::Passwordless,
        )
        .unwrap_err(),
        Tpm2SealedKeyError::ObjectContextMustBeAbsolute
    );
    assert_eq!(
        Tpm2SealedKey::new(
            id,
            "/var/lib/rumahl/key.ctx".to_owned(),
            Tpm2Authorization::PolicySession("session.ctx".to_owned()),
        )
        .unwrap_err(),
        Tpm2SealedKeyError::PolicySessionMustBeAbsolute
    );
}

fn sealed(id: &str, authorization: Tpm2Authorization) -> Tpm2SealedKey {
    Tpm2SealedKey::new(key_id(id), format!("/var/lib/rumahl/{id}.ctx"), authorization).unwrap()
}

#[test]
fn selects_active_and_historical_keys_by_id() {
    let provider = Tpm2UnsealKeyProvider::new(
        "/usr/bin/tpm2_unseal".to_owned(),
        key_id("device-key-2"),
        vec![
            sealed("device-key-1", Tpm2Authorization::Passwordless),
            sealed(
                "device-key-2",
                Tpm2Authorization::PolicySession("/run/rumahl/policy.session".to_owned()),
            ),
        ],
    )
    .unwrap();
    assert_eq!(provider.timeout(), 10_000_000_000);
    assert_eq!(provider.active_sealed_key().id().as_str(), "device-key-2");
    assert_eq!(
        provider
            .sealed_key(&key_id("device-key-1"))
            .unwrap()
            .object_context(),
        "/var/lib/rumahl/device-key-1.ctx"
    );
    assert!(provider.sealed_key(&key_id("unknown")).is_none());
    assert_eq!(
        unseal_arguments(provider.active_sealed_key()),
        vec![
            "--object-context",
            "/var/lib/rumahl/device-key-2.ctx",
            "--quiet",
            "--auth",
            "session:/run/rumahl/policy.session"
        ]
    );
    assert_eq!(
        unseal_arguments(provider.sealed_key(&key_id("device-key-1")).unwrap()),
        vec!["--object-context", "/var/lib/rumahl/device-key-1.ctx", "--quiet"]
    );
}

#[test]
fn rejects_invalid_key_provider_configurations() {
    let one = || vec![sealed("device-key-1", Tpm2Authorization::Passwordless)];
    assert!(matches!(
        Tpm2UnsealKeyProvider::new("tpm2_unseal".to_owned(), key_id("device-key-1"), one()),
        Err(Tpm2UnsealKeyProviderError::ExecutableMustBeAbsolute)
    ));
    assert!(matches!(
        Tpm2UnsealKeyProvider::with_timeout(
            "/usr/bin/tpm2_unseal".to_owned(),
            key_id("device-key-1"),
            one(),
            0
        ),
        Err(Tpm2UnsealKeyProviderError::ZeroTimeout)
    ));
    assert!(matches!(
        Tpm2UnsealKeyProvider::new("/usr/bin/tpm2_unseal".to_owned(), key_id("device-key-1"), vec![]),
        Err(Tpm2UnsealKeyProviderError::EmptyKeySet)
    ));
    match Tpm2UnsealKeyProvider::new(
        "/usr/bin/tpm2_unseal".to_owned(),
        key_id("device-key-1"),
        vec![
            sealed("device-key-1", Tpm2Authorization::Passwordless),
            sealed("device-key-2", Tpm2Authorization::Passwordless),
            sealed("device-key-1", Tpm2Authorization::Passwordless),
        ],
    ) {
        Err(Tpm2UnsealKeyProviderError::DuplicateKeyId(id)) => assert_eq!(id.as_str(), "device-key-1"),
        other => panic!("unexpected {other:?}"),
    }
    match Tpm2UnsealKeyProvider::new("/usr/bin/tpm2_unseal".to_owned(), key_id("device-key-9"), one()) {
        Err(Tpm2UnsealKeyProviderError::ActiveKeyMissing(id)) => assert_eq!(id.as_str(), "device-key-9"),
        other => panic!("unexpected {other:?}"),
    }
}

#[test]
fn accepts_only_successfully_unsealed_thirty_two_byte_keys() {
    let key = sealed("device-key-1", Tpm2Authorization::Passwordless);
    let unsealed = unsealed_key(&key, true, Some(0), b"01234567890123456789012345678901").unwrap();
    assert_eq!(unsealed.id().as_str(), "device-key-1");
    assert!(matches!(
        unsealed_key(&key, true, Some(0), b"too-short"),
        Err(Tpm2UnsealKeyProviderError::InvalidKeyLength(9))
    ));
    assert!(matches!(
        unsealed_key(&key, false, Some(1), b"01234567890123456789012345678901"),
        Err(Tpm2UnsealKeyProviderError::UnsealFailed(Some(1)))
    ));
}

#[test]
fn unsealed_key_decrypts_what_it_encrypted() {
    let key = sealed("device-key-1", Tpm2Authorization::Passwordless);
    let unsealed = unsealed_key(&key, true, Some(0), b"01234567890123456789012345678901").unwrap();
    let nonce = random_nonce::<()>().unwrap();
    let sealed_value =
        seal_secret::<()>(&unsealed, nonce, &binding("rumahl.test.secret"), b"runtime-value").unwrap();
    let again = unsealed_key(&key, true, Some(0), b"01234567890123456789012345678901").unwrap();
    assert_eq!(
        open_secret::<()>(
            &again,
            &sealed_value.nonce,
            &sealed_value.ciphertext,
            &binding("rumahl.test.secret")
        )
        .unwrap(),
        b"runtime-value"
    );
}
