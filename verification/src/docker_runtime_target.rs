//! Immutable Docker image references and the trusted Docker target
//! configuration.
use vstd::prelude::*;

use crate::bytes::{
    bytes_occur_at, bytes_rfind, byte_is_alnum, byte_is_lower_hex, contains_byte, is_alnum, COMMA,
    is_lower_hex, prefix_contains_byte, rfind, starts_with, AT_SIGN, COLON, DOT, HYPHEN, NEWLINE, SLASH,
    UNDERSCORE,
};
use crate::digest::sha256;
use crate::runtime_model::{spec_fields, AppRuntimeInstallationState, RuntimeEntrypoint, RuntimeEntrypointTarget, RuntimeInstallationSpec, RuntimeKind};
use crate::text::{hex_bytes, string_bytes, utf8_of};

verus! {

pub const IMAGE_REFERENCE_MAX_LENGTH: usize = 512;
pub const DIGEST_HEX_LENGTH: usize = 64;
pub const NETWORK_NAME_MAX_LENGTH: usize = 128;
pub const INSTANCE_NAME_MAX_LENGTH: usize = 64;
pub const DEFAULT_COMMAND_TIMEOUT_NANOS: u64 = 15_000_000_000;
pub const DEFAULT_STOP_TIMEOUT_SECONDS: u8 = 10;
pub const MAX_STOP_TIMEOUT_SECONDS: u8 = 60;

/// A Docker image reference pinned by a SHA-256 digest.
#[derive(Debug, Clone)]
pub struct DockerImageReference(String);

#[derive(Debug, Clone, Copy, PartialEq, Eq, Structural)]
pub enum DockerImageReferenceError {
    Empty,
    TooLong,
    Mutable,
    InvalidCharacter,
    InvalidDigest,
}

/// Bytes allowed anywhere in an image reference.
pub open spec fn is_image_byte(b: u8) -> bool {
    is_alnum(b) || b == DOT || b == UNDERSCORE || b == HYPHEN || b == SLASH || b == COLON
        || b == AT_SIGN
}

/// Bytes allowed in Docker network and supervisor instance names.
pub open spec fn is_name_byte(b: u8) -> bool {
    is_alnum(b) || b == DOT || b == UNDERSCORE || b == HYPHEN
}

/// `@sha256:` as bytes.
pub open spec fn at_sha256() -> Seq<u8> {
    seq![AT_SIGN, 115u8, 104u8, 97u8, 50u8, 53u8, 54u8, COLON]
}

/// `sha256:` as bytes.
pub open spec fn sha256_prefix() -> Seq<u8> {
    seq![115u8, 104u8, 97u8, 50u8, 53u8, 54u8, COLON]
}

/// Sixty-four lower-case hexadecimal digits.
pub open spec fn valid_digest(d: Seq<u8>) -> bool {
    d.len() == DIGEST_HEX_LENGTH && forall|i: int| 0 <= i < d.len() ==> is_lower_hex(#[trigger] d[i])
}

pub open spec fn digest_error(d: Seq<u8>) -> Option<DockerImageReferenceError> {
    if valid_digest(d) {
        None
    } else {
        Some(DockerImageReferenceError::InvalidDigest)
    }
}

/// Why `s` is not an immutable image reference, or `None` when it is one:
/// either `NAME@sha256:DIGEST` split at the last `@sha256:`, with a non-empty
/// name free of `@`, or a bare `sha256:DIGEST` image ID.
pub open spec fn image_reference_error(s: Seq<u8>) -> Option<DockerImageReferenceError> {
    if s.len() == 0 {
        Some(DockerImageReferenceError::Empty)
    } else if s.len() > IMAGE_REFERENCE_MAX_LENGTH {
        Some(DockerImageReferenceError::TooLong)
    } else if !(forall|i: int| 0 <= i < s.len() ==> is_image_byte(#[trigger] s[i])) {
        Some(DockerImageReferenceError::InvalidCharacter)
    } else {
        match rfind(s, at_sha256()) {
            Some(i) => if i == 0 || contains_byte(s.take(i), AT_SIGN) {
                Some(DockerImageReferenceError::Mutable)
            } else {
                digest_error(s.skip(i + 8))
            },
            None => if starts_with(s, sha256_prefix()) {
                digest_error(s.skip(7))
            } else {
                Some(DockerImageReferenceError::Mutable)
            },
        }
    }
}

/// Whether `s` is a name of at most `maximum_length` bytes drawn from
/// letters, digits, `.`, `_` and `-`.
pub open spec fn is_valid_name(s: Seq<u8>, maximum_length: int) -> bool {
    s.len() > 0 && s.len() <= maximum_length && forall|i: int|
        0 <= i < s.len() ==> is_name_byte(#[trigger] s[i])
}

fn byte_is_image_byte(b: u8) -> (r: bool)
    ensures
        r == is_image_byte(b),
{
    byte_is_alnum(b) || b == DOT || b == UNDERSCORE || b == HYPHEN || b == SLASH || b == COLON
        || b == AT_SIGN
}

fn at_sha256_bytes() -> (r: Vec<u8>)
    ensures
        r@ == at_sha256(),
{
    let r = vec![AT_SIGN, 115u8, 104u8, 97u8, 50u8, 53u8, 54u8, COLON];
    assert(r@ =~= at_sha256());
    r
}

fn sha256_prefix_bytes() -> (r: Vec<u8>)
    ensures
        r@ == sha256_prefix(),
{
    let r = vec![115u8, 104u8, 97u8, 50u8, 53u8, 54u8, COLON];
    assert(r@ =~= sha256_prefix());
    r
}

/// Whether the bytes of `s` from `start` on are sixty-four lower-case hex digits.
fn digest_is_valid(s: &[u8], start: usize) -> (r: bool)
    requires
        start <= s@.len(),
    ensures
        r == valid_digest(s@.skip(start as int)),
{
    if s.len() - start != DIGEST_HEX_LENGTH {
        return false;
    }
    let mut i: usize = start;
    while i < s.len()
        invariant
            start <= i <= s@.len(),
            forall|j: int| start <= j < i ==> is_lower_hex(#[trigger] s@[j]),
        decreases s@.len() - i,
    {
        if !byte_is_lower_hex(s[i]) {
            assert(s@.skip(start as int)[i - start] == s@[i as int]);
            return false;
        }
        i = i + 1;
    }
    assert forall|j: int| 0 <= j < s@.skip(start as int).len() implies is_lower_hex(
        #[trigger] s@.skip(start as int)[j],
    ) by {
        assert(s@.skip(start as int)[j] == s@[start + j]);
    }
    true
}

/// Checks `s` against [`image_reference_error`].
pub fn check_image_reference(s: &[u8]) -> (r: Option<DockerImageReferenceError>)
    ensures
        r == image_reference_error(s@),
{
    if s.len() == 0 {
        return Some(DockerImageReferenceError::Empty);
    }
    if s.len() > IMAGE_REFERENCE_MAX_LENGTH {
        return Some(DockerImageReferenceError::TooLong);
    }
    let mut i: usize = 0;
    while i < s.len()
        invariant
            0 < s@.len() <= IMAGE_REFERENCE_MAX_LENGTH,
            i <= s@.len(),
            forall|j: int| 0 <= j < i ==> is_image_byte(#[trigger] s@[j]),
        decreases s@.len() - i,
    {
        if !byte_is_image_byte(s[i]) {
            assert(!is_image_byte(s@[i as int]));
            assert(!(forall|j: int| 0 <= j < s@.len() ==> is_image_byte(#[trigger] s@[j])));
            return Some(DockerImageReferenceError::InvalidCharacter);
        }
        i = i + 1;
    }
    let pattern = at_sha256_bytes();
    match bytes_rfind(s, pattern.as_slice()) {
        Some(at) => {
            if at == 0 || prefix_contains_byte(s, at, AT_SIGN) {
                return Some(DockerImageReferenceError::Mutable);
            }
            if digest_is_valid(s, at + 8) {
                None
            } else {
                Some(DockerImageReferenceError::InvalidDigest)
            }
        },
        None => {
            let prefix = sha256_prefix_bytes();
            if bytes_occur_at(s, prefix.as_slice(), 0) {
                if digest_is_valid(s, 7) {
                    None
                } else {
                    Some(DockerImageReferenceError::InvalidDigest)
                }
            } else {
                Some(DockerImageReferenceError::Mutable)
            }
        },
    }
}

/// Every accepted image reference names its image by a full SHA-256
/// digest: it ends in `sha256:` followed by exactly sixty-four lower-case
/// hexadecimal digits, and it is either that alone or a name joined to it by
/// `@`.
pub proof fn lemma_accepted_references_end_in_a_full_digest(s: Seq<u8>)
    ensures
        image_reference_error(s) is None ==> {
            &&& s.len() >= 71
            &&& s.subrange(s.len() - 71, s.len() - 64) == seq![115u8, 104u8, 97u8, 50u8, 53u8, 54u8, 58u8]
            &&& forall|j: int|
                s.len() - 64 <= j < s.len() ==> (48 <= #[trigger] s[j] <= 57 || 97 <= s[j] <= 102)
            &&& (s.len() == 71 || (s.len() > 72 && s[s.len() - 72] == 64u8))
        },
{
    if image_reference_error(s) is None {
        match rfind(s, at_sha256()) {
            Some(i) => {
                crate::bytes::lemma_rfind_from_occurs(s, at_sha256(), s.len() - at_sha256().len());
                let d = s.skip(i + 8);
                assert(valid_digest(d));
                assert(s.len() == i + 8 + 64);
                assert(s.subrange(i, i + 8) == at_sha256());
                assert forall|j: int| s.len() - 64 <= j < s.len() implies (48 <= #[trigger] s[j] <= 57
                    || 97 <= s[j] <= 102) by {
                    assert(d[j - (i + 8)] == s[j]);
                }
                assert(s[s.len() - 72] == s.subrange(i, i + 8)[0]);
                assert(s.subrange(s.len() - 71, s.len() - 64) =~= s.subrange(i, i + 8).subrange(1, 8));
                assert(i > 0);
            },
            None => {
                assert(starts_with(s, sha256_prefix()));
                let d = s.skip(7);
                assert(valid_digest(d));
                assert(s.len() == 71);
                assert(s.subrange(0, 7) == sha256_prefix());
                assert(s.subrange(s.len() - 71, s.len() - 64) =~= s.subrange(0, 7));
                assert forall|j: int| s.len() - 64 <= j < s.len() implies (48 <= #[trigger] s[j] <= 57
                    || 97 <= s[j] <= 102) by {
                    assert(d[j - 7] == s[j]);
                }
            },
        }
    }
}

impl DockerImageReference {
    /// The bytes of the reference.
    pub closed spec fn bytes(&self) -> Seq<u8> {
        utf8_of(self.0@)
    }

    /// The text of the reference.
    pub closed spec fn text(&self) -> Seq<char> {
        self.0@
    }

    /// Accepts only references that name an image by SHA-256 digest.
    pub fn parse(value: String) -> (r: Result<Self, DockerImageReferenceError>)
        ensures
            match image_reference_error(utf8_of(value@)) {
                None => r matches Ok(reference) && reference.bytes() == utf8_of(value@),
                Some(e) => r == Err::<Self, DockerImageReferenceError>(e),
            },
    {
        let checked = check_image_reference(string_bytes(&value));
        match checked {
            None => Ok(DockerImageReference(value)),
            Some(e) => Err(e),
        }
    }

    pub fn as_str(&self) -> (r: &str)
        ensures
            r@ == self.text(),
            utf8_of(r@) == self.bytes(),
    {
        self.0.as_str()
    }
}

/// Whether `value` is a non-empty name of at most `maximum_length` bytes
/// drawn from letters, digits, `.`, `_` and `-`.
pub fn valid_name(value: &str, maximum_length: usize) -> (r: bool)
    ensures
        r == is_valid_name(utf8_of(value@), maximum_length as int),
{
    let b = value.as_bytes();
    if b.len() == 0 || b.len() > maximum_length {
        return false;
    }
    let mut i: usize = 0;
    while i < b.len()
        invariant
            0 < b@.len() <= maximum_length,
            b@ == utf8_of(value@),
            i <= b@.len(),
            forall|j: int| 0 <= j < i ==> is_name_byte(#[trigger] b@[j]),
        decreases b@.len() - i,
    {
        let c = b[i];
        if !(byte_is_alnum(c) || c == DOT || c == UNDERSCORE || c == HYPHEN) {
            assert(!is_name_byte(b@[i as int]));
            assert(!(forall|j: int| 0 <= j < b@.len() ==> is_name_byte(#[trigger] b@[j])));
            return false;
        }
        i = i + 1;
    }
    true
}

} // verus!

verus! {

/// On Unix a path is absolute exactly when it starts at the root `/`.
pub open spec fn is_absolute_path(p: Seq<u8>) -> bool {
    p.len() > 0 && p[0] == SLASH
}

/// Whether a path string is absolute.
pub fn path_is_absolute(p: &str) -> (r: bool)
    ensures
        r == is_absolute_path(utf8_of(p@)),
{
    let b = p.as_bytes();
    b.len() > 0 && b[0] == SLASH
}

/// Whether the byte `c` occurs in the string.
pub fn str_contains_byte(p: &str, c: u8) -> (r: bool)
    ensures
        r == contains_byte(utf8_of(p@), c),
{
    let b = p.as_bytes();
    let found = prefix_contains_byte(b, b.len(), c);
    assert(b@.take(b@.len() as int) =~= b@);
    found
}

#[derive(Debug, Clone)]
pub struct DockerRuntimeTargetConfig {
    executable: String,
    runtime_root: String,
    network: String,
    supervisor_instance: String,
    command_timeout_nanos: u64,
    stop_timeout_seconds: u8,
}

/// What a validated Docker target configuration holds.
pub struct DockerRuntimeTargetConfigView {
    pub executable: Seq<char>,
    pub runtime_root: Seq<char>,
    pub network: Seq<char>,
    pub supervisor_instance: Seq<char>,
    pub command_timeout_nanos: u64,
    pub stop_timeout_seconds: u8,
}

#[derive(Debug, Clone, Copy, PartialEq, Eq, Structural)]
pub enum DockerRuntimeTargetConfigError {
    ExecutableMustBeAbsolute,
    RuntimeRootMustBeAbsolute,
    RuntimeRootCannotContainComma,
    InvalidNetwork,
    InvalidSupervisorInstance,
    ZeroCommandTimeout,
    InvalidStopTimeout,
}

/// The first rule, in the order they are checked, that a Docker target
/// configuration breaks.
pub open spec fn docker_config_error(
    executable: Seq<u8>,
    runtime_root: Seq<u8>,
    network: Seq<u8>,
    supervisor_instance: Seq<u8>,
    command_timeout_nanos: u64,
    stop_timeout_seconds: u8,
) -> Option<DockerRuntimeTargetConfigError> {
    if !is_absolute_path(executable) {
        Some(DockerRuntimeTargetConfigError::ExecutableMustBeAbsolute)
    } else if !is_absolute_path(runtime_root) {
        Some(DockerRuntimeTargetConfigError::RuntimeRootMustBeAbsolute)
    } else if contains_byte(runtime_root, COMMA) {
        Some(DockerRuntimeTargetConfigError::RuntimeRootCannotContainComma)
    } else if !is_valid_name(network, NETWORK_NAME_MAX_LENGTH as int) {
        Some(DockerRuntimeTargetConfigError::InvalidNetwork)
    } else if !is_valid_name(supervisor_instance, INSTANCE_NAME_MAX_LENGTH as int) {
        Some(DockerRuntimeTargetConfigError::InvalidSupervisorInstance)
    } else if command_timeout_nanos == 0 {
        Some(DockerRuntimeTargetConfigError::ZeroCommandTimeout)
    } else if !(1 <= stop_timeout_seconds && stop_timeout_seconds <= MAX_STOP_TIMEOUT_SECONDS) {
        Some(DockerRuntimeTargetConfigError::InvalidStopTimeout)
    } else {
        None
    }
}

impl View for DockerRuntimeTargetConfig {
    type V = DockerRuntimeTargetConfigView;

    closed spec fn view(&self) -> DockerRuntimeTargetConfigView {
        DockerRuntimeTargetConfigView {
            executable: self.executable@,
            runtime_root: self.runtime_root@,
            network: self.network@,
            supervisor_instance: self.supervisor_instance@,
            command_timeout_nanos: self.command_timeout_nanos,
            stop_timeout_seconds: self.stop_timeout_seconds,
        }
    }
}

impl DockerRuntimeTargetConfig {
    /// Validates a configuration with the default timeouts: fifteen seconds
    /// per Docker command and ten seconds to stop a container.
    pub fn new(
        executable: String,
        runtime_root: String,
        network: String,
        supervisor_instance: String,
    ) -> (r: Result<Self, DockerRuntimeTargetConfigError>)
        ensures
            match docker_config_error(
                utf8_of(executable@),
                utf8_of(runtime_root@),
                utf8_of(network@),
                utf8_of(supervisor_instance@),
                DEFAULT_COMMAND_TIMEOUT_NANOS,
                DEFAULT_STOP_TIMEOUT_SECONDS,
            ) {
                None => r matches Ok(config) && config@ == (DockerRuntimeTargetConfigView {
                    executable: executable@,
                    runtime_root: runtime_root@,
                    network: network@,
                    supervisor_instance: supervisor_instance@,
                    command_timeout_nanos: DEFAULT_COMMAND_TIMEOUT_NANOS,
                    stop_timeout_seconds: DEFAULT_STOP_TIMEOUT_SECONDS,
                }),
                Some(e) => r == Err::<Self, DockerRuntimeTargetConfigError>(e),
            },
    {
        Self::with_timeouts(
            executable,
            runtime_root,
            network,
            supervisor_instance,
            DEFAULT_COMMAND_TIMEOUT_NANOS,
            DEFAULT_STOP_TIMEOUT_SECONDS,
        )
    }

    /// Validates a configuration: absolute executable and runtime root, a
    /// runtime root without commas (it is embedded in a mount option), valid
    /// network and instance names, a non-zero command timeout and a stop
    /// timeout of one to sixty seconds.
    pub fn with_timeouts(
        executable: String,
        runtime_root: String,
        network: String,
        supervisor_instance: String,
        command_timeout_nanos: u64,
        stop_timeout_seconds: u8,
    ) -> (r: Result<Self, DockerRuntimeTargetConfigError>)
        ensures
            match docker_config_error(
                utf8_of(executable@),
                utf8_of(runtime_root@),
                utf8_of(network@),
                utf8_of(supervisor_instance@),
                command_timeout_nanos,
                stop_timeout_seconds,
            ) {
                None => r matches Ok(config) && config@ == (DockerRuntimeTargetConfigView {
                    executable: executable@,
                    runtime_root: runtime_root@,
                    network: network@,
                    supervisor_instance: supervisor_instance@,
                    command_timeout_nanos,
                    stop_timeout_seconds,
                }),
                Some(e) => r == Err::<Self, DockerRuntimeTargetConfigError>(e),
            },
    {
        if !path_is_absolute(executable.as_str()) {
            return Err(DockerRuntimeTargetConfigError::ExecutableMustBeAbsolute);
        }
        if !path_is_absolute(runtime_root.as_str()) {
            return Err(DockerRuntimeTargetConfigError::RuntimeRootMustBeAbsolute);
        }
        if str_contains_byte(runtime_root.as_str(), COMMA) {
            return Err(DockerRuntimeTargetConfigError::RuntimeRootCannotContainComma);
        }
        if !valid_name(network.as_str(), NETWORK_NAME_MAX_LENGTH) {
            return Err(DockerRuntimeTargetConfigError::InvalidNetwork);
        }
        if !valid_name(supervisor_instance.as_str(), INSTANCE_NAME_MAX_LENGTH) {
            return Err(DockerRuntimeTargetConfigError::InvalidSupervisorInstance);
        }
        if command_timeout_nanos == 0 {
            return Err(DockerRuntimeTargetConfigError::ZeroCommandTimeout);
        }
        if !(1 <= stop_timeout_seconds && stop_timeout_seconds <= MAX_STOP_TIMEOUT_SECONDS) {
            return Err(DockerRuntimeTargetConfigError::InvalidStopTimeout);
        }
        Ok(Self {
            executable,
            runtime_root,
            network,
            supervisor_instance,
            command_timeout_nanos,
            stop_timeout_seconds,
        })
    }

    pub fn executable(&self) -> (r: &str)
        ensures
            r@ == self@.executable,
    {
        self.executable.as_str()
    }

    pub fn runtime_root(&self) -> (r: &str)
        ensures
            r@ == self@.runtime_root,
    {
        self.runtime_root.as_str()
    }

    pub fn network(&self) -> (r: &str)
        ensures
            r@ == self@.network,
    {
        self.network.as_str()
    }

    pub fn supervisor_instance(&self) -> (r: &str)
        ensures
            r@ == self@.supervisor_instance,
    {
        self.supervisor_instance.as_str()
    }

    /// The per-command timeout in nanoseconds.
    pub fn command_timeout(&self) -> (r: u64)
        ensures
            r == self@.command_timeout_nanos,
    {
        self.command_timeout_nanos
    }

    pub fn stop_timeout_seconds(&self) -> (r: u8)
        ensures
            r == self@.stop_timeout_seconds,
    {
        self.stop_timeout_seconds
    }
}

} // verus!

verus! {

#[derive(Debug)]
pub enum DockerRuntimeTargetError<E> {
    InvalidRuntimeSpec,
    ImageResolution(E),
    RuntimeRoot(std::io::Error),
    RuntimeRootIsNotDirectory,
    RuntimeRootOwnerMismatch { expected: u32, actual: u32 },
    RuntimeRootPermissions(u32),
    Namespace(std::io::Error),
    NamespaceIsNotDirectory,
    NamespaceOwnerMismatch { expected: u32, actual: u32 },
    NamespacePermissions(u32),
    Spawn(std::io::Error),
    Read(std::io::Error),
    Wait(std::io::Error),
    Terminate(std::io::Error),
    ReaderPanicked,
    TimedOut(&'static str),
    CommandFailed { operation: &'static str, status: Option<i32> },
    OutputTooLarge(&'static str),
    InvalidOutput(&'static str),
}

/// What a finished docker command gives: a command that did not succeed
/// fails with its exit code; output cut at the capture limit is too large;
/// output that is not UTF-8 is invalid; otherwise the output, without
/// leading and trailing whitespace.
pub fn command_output<E>(
    operation: &'static str,
    succeeded: bool,
    exit_code: Option<i32>,
    overflowed: bool,
    stdout: Vec<u8>,
) -> (r: Result<String, DockerRuntimeTargetError<E>>)
    ensures
        !succeeded ==> (r matches Err(DockerRuntimeTargetError::CommandFailed { operation: o, status })
            && o == operation && status == exit_code),
        succeeded && overflowed ==> (r matches Err(DockerRuntimeTargetError::OutputTooLarge(o))
            && o == operation),
        succeeded && !overflowed && !vstd::utf8::valid_utf8(stdout@) ==> (r matches Err(
            DockerRuntimeTargetError::InvalidOutput(o),
        ) && o == operation),
        succeeded && !overflowed && vstd::utf8::valid_utf8(stdout@) ==> (r matches Ok(text)
            && text@ == crate::text::trimmed(vstd::utf8::decode_utf8(stdout@))),
{
    if !succeeded {
        return Err(DockerRuntimeTargetError::CommandFailed { operation, status: exit_code });
    }
    if overflowed {
        return Err(DockerRuntimeTargetError::OutputTooLarge(operation));
    }
    match crate::text::string_from_utf8(stdout) {
        Some(text) => Ok(crate::text::owned(crate::text::str_trim(text.as_str()))),
        None => Err(DockerRuntimeTargetError::InvalidOutput(operation)),
    }
}

/// The eight big-endian bytes of `n`.
pub open spec fn be64(n: int) -> Seq<u8> {
    seq![
        ((n / 0x100000000000000) % 256) as u8,
        ((n / 0x1000000000000) % 256) as u8,
        ((n / 0x10000000000) % 256) as u8,
        ((n / 0x100000000) % 256) as u8,
        ((n / 0x1000000) % 256) as u8,
        ((n / 0x10000) % 256) as u8,
        ((n / 0x100) % 256) as u8,
        (n % 256) as u8,
    ]
}

/// Each field as its big-endian 64-bit length followed by its bytes; the
/// fingerprint hashes this, so that no two field lists hash the same input.
pub open spec fn length_prefixed(fields: Seq<Seq<u8>>) -> Seq<u8>
    decreases fields.len(),
{
    if fields.len() == 0 {
        Seq::empty()
    } else {
        length_prefixed(fields.drop_last()) + be64(fields.last().len() as int) + fields.last()
    }
}

/// Appends `n` as eight big-endian bytes.
pub fn push_be64(out: &mut Vec<u8>, n: u64)
    ensures
        final(out)@ == old(out)@ + be64(n as int),
{
    out.push((n / 0x100000000000000) as u8);
    out.push(((n / 0x1000000000000) % 256) as u8);
    out.push(((n / 0x10000000000) % 256) as u8);
    out.push(((n / 0x100000000) % 256) as u8);
    out.push(((n / 0x1000000) % 256) as u8);
    out.push(((n / 0x10000) % 256) as u8);
    out.push(((n / 0x100) % 256) as u8);
    out.push((n % 256) as u8);
    assert(final(out)@ =~= old(out)@ + be64(n as int));
}

/// The number of container artifacts among the entrypoints.
pub open spec fn artifact_count(es: Seq<RuntimeEntrypoint>) -> nat
    decreases es.len(),
{
    if es.len() == 0 {
        0
    } else {
        artifact_count(es.drop_last()) + if es.last().spec_target() is ContainerArtifact {
            1nat
        } else {
            0nat
        }
    }
}

/// Whether any entrypoint serves web assets.
pub open spec fn has_web_asset(es: Seq<RuntimeEntrypoint>) -> bool {
    exists|i: int| 0 <= i < es.len() && (#[trigger] es[i]).spec_target() is WebAsset
}

/// The path of the last container artifact among the entrypoints.
pub open spec fn artifact_path(es: Seq<RuntimeEntrypoint>) -> Seq<char>
    decreases es.len(),
{
    if es.len() == 0 {
        Seq::empty()
    } else if es.last().spec_target() is ContainerArtifact {
        es.last().spec_target()->ContainerArtifact_0@
    } else {
        artifact_path(es.drop_last())
    }
}

/// A specification the Docker target can run: a container runtime with
/// exactly one container artifact and no web assets.
pub open spec fn is_container_spec(s: RuntimeInstallationSpec) -> bool {
    &&& s.spec_runtime().spec_kind() == RuntimeKind::Container
    &&& !has_web_asset(s.spec_runtime().spec_entrypoints())
    &&& artifact_count(s.spec_runtime().spec_entrypoints()) == 1
}

/// The fingerprint of a specification: lower-case hex of the SHA-256 of its
/// length-prefixed wire fields.
pub open spec fn spec_fingerprint(s: RuntimeInstallationSpec) -> Seq<u8> {
    hex_bytes(sha256(length_prefixed(spec_fields(s))))
}

proof fn lemma_length_prefixed_push(fields: Seq<Seq<u8>>, f: Seq<u8>)
    ensures
        length_prefixed(fields.push(f)) == length_prefixed(fields) + be64(f.len() as int) + f,
{
    assert(fields.push(f).drop_last() =~= fields);
}

/// The fingerprint of a container specification and its artifact path.
pub fn spec_fingerprint_and_artifact<E>(spec: &RuntimeInstallationSpec) -> (r: Result<
    (String, String),
    DockerRuntimeTargetError<E>,
>)
    ensures
        is_container_spec(*spec) ==> (r matches Ok((fingerprint, artifact)) && utf8_of(
            fingerprint@,
        ) == spec_fingerprint(*spec) && artifact@ == artifact_path(
            spec.spec_runtime().spec_entrypoints(),
        )),
        !is_container_spec(*spec) ==> (r matches Err(DockerRuntimeTargetError::InvalidRuntimeSpec)),
{
    let runtime = spec.runtime();
    if runtime.kind() != RuntimeKind::Container {
        return Err(DockerRuntimeTargetError::InvalidRuntimeSpec);
    }
    let fields = crate::runtime_provider::spec_wire_fields(spec);
    let entrypoints = runtime.entrypoints();
    let ghost es = entrypoints@;
    let mut artifact: Option<String> = None;
    let mut i: usize = 0;
    while i < entrypoints.len()
        invariant
            es == entrypoints@,
            es == spec.spec_runtime().spec_entrypoints(),
            i <= es.len(),
            !has_web_asset(es.take(i as int)),
            artifact_count(es.take(i as int)) <= 1,
            artifact is None <==> artifact_count(es.take(i as int)) == 0,
            artifact matches Some(p) ==> p@ == artifact_path(es.take(i as int)),
        decreases es.len() - i,
    {
        proof {
            assert(es.take(i + 1).drop_last() =~= es.take(i as int));
            assert(es.take(i + 1).last() == es[i as int]);
        }
        match entrypoints[i].target() {
            RuntimeEntrypointTarget::ContainerArtifact(path) => {
                if artifact.is_some() {
                    proof {
                        lemma_artifact_count_prefix(es, i + 1);
                    }
                    return Err(DockerRuntimeTargetError::InvalidRuntimeSpec);
                }
                artifact = Some(crate::text::owned(path.as_str()));
            },
            RuntimeEntrypointTarget::Endpoint(_) => {},
            RuntimeEntrypointTarget::WebAsset(_) => {
                assert(has_web_asset(es)) by {
                    assert(es[i as int].spec_target() is WebAsset);
                }
                return Err(DockerRuntimeTargetError::InvalidRuntimeSpec);
            },
        }
        proof {
            assert(!has_web_asset(es.take(i + 1))) by {
                if has_web_asset(es.take(i + 1)) {
                    let j = choose|j: int| 0 <= j < i + 1 && (#[trigger] es.take(i + 1)[j]).spec_target() is WebAsset;
                    if j < i {
                        assert(es.take(i as int)[j] == es.take(i + 1)[j]);
                    }
                }
            }
        }
        i = i + 1;
    }
    assert(es.take(es.len() as int) =~= es);
    let artifact = match artifact {
        Some(p) => p,
        None => return Err(DockerRuntimeTargetError::InvalidRuntimeSpec),
    };
    let mut input: Vec<u8> = Vec::new();
    let mut k: usize = 0;
    assert(fields@.take(0) =~= Seq::<Vec<u8>>::empty());
    assert(crate::runtime_provider::views(fields@.take(0)) =~= Seq::<Seq<u8>>::empty());
    while k < fields.len()
        invariant
            k <= fields@.len(),
            input@ == length_prefixed(crate::runtime_provider::views(fields@.take(k as int))),
        decreases fields@.len() - k,
    {
        let field = &fields[k];
        proof {
            assert(crate::runtime_provider::views(fields@.take(k + 1)) =~= crate::runtime_provider::views(
                fields@.take(k as int),
            ).push(field@));
            lemma_length_prefixed_push(crate::runtime_provider::views(fields@.take(k as int)), field@);
        }
        push_be64(&mut input, field.len() as u64);
        input.extend_from_slice(field.as_slice());
        assert(input@ =~= length_prefixed(crate::runtime_provider::views(fields@.take(k + 1))));
        k = k + 1;
    }
    assert(fields@.take(fields@.len() as int) =~= fields@);
    let digest = crate::digest::sha256_digest(input.as_slice());
    Ok((crate::text::hex(digest.as_slice()), artifact))
}

proof fn lemma_artifact_count_prefix(es: Seq<RuntimeEntrypoint>, n: int)
    requires
        0 <= n <= es.len(),
    ensures
        artifact_count(es.take(n)) <= artifact_count(es),
    decreases es.len(),
{
    if n < es.len() {
        assert(es.drop_last().take(n) =~= es.take(n));
        lemma_artifact_count_prefix(es.drop_last(), n);
    } else {
        assert(es.take(n) =~= es);
    }
}

} // verus!

verus! {

pub const CARRIAGE_RETURN: u8 = 13;

/// `s` split at every newline (a final newline leaves an empty last line).
pub open spec fn split_lines(s: Seq<u8>) -> Seq<Seq<u8>>
    decreases s.len(),
{
    if s.len() == 0 {
        seq![Seq::empty()]
    } else if s.last() == NEWLINE {
        split_lines(s.drop_last()).push(Seq::empty())
    } else {
        let ls = split_lines(s.drop_last());
        ls.update(ls.len() - 1, ls.last().push(s.last()))
    }
}

pub proof fn lemma_split_lines_nonempty(s: Seq<u8>)
    ensures
        split_lines(s).len() >= 1,
    decreases s.len(),
{
    if s.len() > 0 {
        lemma_split_lines_nonempty(s.drop_last());
    }
}

/// A line without one trailing carriage return, as `str::lines` yields it.
pub open spec fn strip_cr(line: Seq<u8>) -> Seq<u8> {
    if line.len() > 0 && line.last() == CARRIAGE_RETURN {
        line.drop_last()
    } else {
        line
    }
}

/// The non-empty lines of `ls`, carriage returns stripped, in order.
pub open spec fn nonempty_lines(ls: Seq<Seq<u8>>) -> Seq<Seq<u8>>
    decreases ls.len(),
{
    if ls.len() == 0 {
        Seq::empty()
    } else if strip_cr(ls.last()).len() == 0 {
        nonempty_lines(ls.drop_last())
    } else {
        nonempty_lines(ls.drop_last()).push(strip_cr(ls.last()))
    }
}

/// The non-empty lines of a command's output.
pub fn output_lines(output: &[u8]) -> (r: Vec<Vec<u8>>)
    ensures
        crate::runtime_provider::views(r@) == nonempty_lines(split_lines(output@)),
{
    let mut done: Vec<Vec<u8>> = Vec::new();
    let mut current: Vec<u8> = Vec::new();
    let mut i: usize = 0;
    proof {
        assert(output@.take(0) =~= Seq::<u8>::empty());
        assert(split_lines(output@.take(0)).drop_last() =~= Seq::<Seq<u8>>::empty());
    }
    while i < output.len()
        invariant
            i <= output@.len(),
            split_lines(output@.take(i as int)).len() >= 1,
            crate::runtime_provider::views(done@) == nonempty_lines(
                split_lines(output@.take(i as int)).drop_last(),
            ),
            current@ == split_lines(output@.take(i as int)).last(),
        decreases output@.len() - i,
    {
        let b = output[i];
        let ghost prev = split_lines(output@.take(i as int));
        proof {
            assert(output@.take(i + 1).drop_last() =~= output@.take(i as int));
            assert(output@.take(i + 1).last() == b);
            lemma_split_lines_nonempty(output@.take(i + 1));
        }
        if b == NEWLINE {
            let line = strip_cr_vec(&current);
            let ghost before = crate::runtime_provider::views(done@);
            if line.len() > 0 {
                done.push(line);
                assert(crate::runtime_provider::views(done@) =~= before.push(strip_cr(prev.last())));
            }
            current = Vec::new();
            proof {
                let next = split_lines(output@.take(i + 1));
                assert(next == prev.push(Seq::empty()));
                assert(next.drop_last() =~= prev);
                assert(prev.drop_last().push(prev.last()) =~= prev);
                assert(nonempty_lines(prev) == if strip_cr(prev.last()).len() == 0 {
                    nonempty_lines(prev.drop_last())
                } else {
                    nonempty_lines(prev.drop_last()).push(strip_cr(prev.last()))
                });
                assert(current@ =~= next.last());
            }
        } else {
            current.push(b);
            proof {
                let next = split_lines(output@.take(i + 1));
                assert(next == prev.update(prev.len() - 1, prev.last().push(b)));
                assert(next.drop_last() =~= prev.drop_last());
            }
        }
        i = i + 1;
    }
    proof {
        assert(output@.take(output@.len() as int) =~= output@);
    }
    let ghost all = split_lines(output@);
    let line = strip_cr_vec(&current);
    if line.len() > 0 {
        let ghost before = crate::runtime_provider::views(done@);
        done.push(line);
        assert(crate::runtime_provider::views(done@) =~= before.push(strip_cr(all.last())));
    }
    proof {
        assert(all.drop_last().push(all.last()) =~= all);
        assert(nonempty_lines(all) == if strip_cr(all.last()).len() == 0 {
            nonempty_lines(all.drop_last())
        } else {
            nonempty_lines(all.drop_last()).push(strip_cr(all.last()))
        });
    }
    done
}

/// The fields of `s` separated by newlines, as `str::split('\n')` yields
/// them.
pub fn split_fields(s: &[u8]) -> (r: Vec<Vec<u8>>)
    ensures
        crate::runtime_provider::views(r@) == split_lines(s@),
{
    let mut done: Vec<Vec<u8>> = Vec::new();
    let mut current: Vec<u8> = Vec::new();
    let mut i: usize = 0;
    proof {
        assert(s@.take(0) =~= Seq::<u8>::empty());
        assert(split_lines(s@.take(0)).drop_last() =~= Seq::<Seq<u8>>::empty());
    }
    while i < s.len()
        invariant
            i <= s@.len(),
            split_lines(s@.take(i as int)).len() >= 1,
            crate::runtime_provider::views(done@) == split_lines(s@.take(i as int)).drop_last(),
            current@ == split_lines(s@.take(i as int)).last(),
        decreases s@.len() - i,
    {
        let b = s[i];
        let ghost prev = split_lines(s@.take(i as int));
        proof {
            assert(s@.take(i + 1).drop_last() =~= s@.take(i as int));
            assert(s@.take(i + 1).last() == b);
            lemma_split_lines_nonempty(s@.take(i + 1));
        }
        if b == NEWLINE {
            let ghost before = crate::runtime_provider::views(done@);
            done.push(current);
            current = Vec::new();
            proof {
                let next = split_lines(s@.take(i + 1));
                assert(next == prev.push(Seq::empty()));
                assert(next.drop_last() =~= prev);
                assert(crate::runtime_provider::views(done@) =~= before.push(prev.last()));
                assert(prev.drop_last().push(prev.last()) =~= prev);
                assert(current@ =~= next.last());
            }
        } else {
            current.push(b);
            proof {
                let next = split_lines(s@.take(i + 1));
                assert(next == prev.update(prev.len() - 1, prev.last().push(b)));
                assert(next.drop_last() =~= prev.drop_last());
            }
        }
        i = i + 1;
    }
    proof {
        assert(s@.take(s@.len() as int) =~= s@);
    }
    let ghost all = split_lines(s@);
    let ghost before = crate::runtime_provider::views(done@);
    done.push(current);
    proof {
        assert(crate::runtime_provider::views(done@) =~= before.push(all.last()));
        assert(all.drop_last().push(all.last()) =~= all);
    }
    done
}

fn strip_cr_vec(line: &Vec<u8>) -> (r: Vec<u8>)
    ensures
        r@ == strip_cr(line@),
{
    if line.len() > 0 && line[line.len() - 1] == CARRIAGE_RETURN {
        let r = vstd::slice::slice_to_vec(vstd::slice::slice_subrange(line.as_slice(), 0, line.len() - 1));
        assert(r@ =~= line@.drop_last());
        r
    } else {
        vstd::slice::slice_to_vec(line.as_slice())
    }
}

/// Which container `docker container ls` named: none, exactly the expected
/// name, or something unexpected (`Err`).
pub open spec fn selected_container(output: Seq<u8>, expected: Seq<u8>) -> Result<
    Option<Seq<u8>>,
    (),
> {
    let ls = nonempty_lines(split_lines(output));
    if ls.len() == 0 {
        Ok(None)
    } else if ls.len() == 1 && ls[0] == expected {
        Ok(Some(expected))
    } else {
        Err(())
    }
}

/// Picks the managed container out of a container listing.
pub fn select_container<E>(output: &str, expected_name: &str) -> (r: Result<
    Option<String>,
    DockerRuntimeTargetError<E>,
>)
    ensures
        match selected_container(utf8_of(output@), utf8_of(expected_name@)) {
            Ok(None) => r matches Ok(None),
            Ok(Some(_)) => r matches Ok(Some(name)) && name@ == expected_name@,
            Err(_) => r matches Err(DockerRuntimeTargetError::InvalidOutput(_)),
        },
{
    let lines = output_lines(output.as_bytes());
    let expected = expected_name.as_bytes();
    assert(crate::runtime_provider::views(lines@).len() == lines@.len());
    if lines.len() == 0 {
        return Ok(None);
    }
    if lines.len() == 1 && crate::text::bytes_equal(lines[0].as_slice(), expected) {
        return Ok(Some(crate::text::owned(expected_name)));
    }
    proof {
        if lines@.len() == 1 {
            assert(crate::runtime_provider::views(lines@)[0] == lines@[0]@);
        }
    }
    Err(DockerRuntimeTargetError::InvalidOutput("container lookup"))
}

/// How `docker container inspect` reports a managed container's status:
/// running, paused and restarting containers are active, created and exited
/// ones prepared; any other status is unexpected.
pub open spec fn container_status_state(status: Seq<char>) -> Option<AppRuntimeInstallationState> {
    if status == "running"@ || status == "paused"@ || status == "restarting"@ {
        Some(AppRuntimeInstallationState::Active)
    } else if status == "created"@ || status == "exited"@ {
        Some(AppRuntimeInstallationState::Prepared)
    } else {
        None
    }
}

/// Maps a container status to the installation's runtime state.
pub fn state_from_status<E>(status: &str) -> (r: Result<
    AppRuntimeInstallationState,
    DockerRuntimeTargetError<E>,
>)
    ensures
        match container_status_state(status@) {
            Some(state) => r matches Ok(s) && s == state,
            None => r matches Err(DockerRuntimeTargetError::InvalidOutput(_)),
        },
{
    if str_equals(status, "running") || str_equals(status, "paused") || str_equals(
        status,
        "restarting",
    ) {
        Ok(AppRuntimeInstallationState::Active)
    } else if str_equals(status, "created") || str_equals(status, "exited") {
        Ok(AppRuntimeInstallationState::Prepared)
    } else {
        Err(DockerRuntimeTargetError::InvalidOutput("container state"))
    }
}

/// Docker's container statuses and what they mean for an installation:
/// "running", "paused" and "restarting" containers are active, "created"
/// and "exited" ones are prepared, and no other status names a state.
pub proof fn lemma_container_statuses(status: Seq<char>)
    ensures
        container_status_state(status) == Some(AppRuntimeInstallationState::Active) <==> (status
            == "running"@ || status == "paused"@ || status == "restarting"@),
        container_status_state(status) == Some(AppRuntimeInstallationState::Prepared) <==> (status
            == "created"@ || status == "exited"@),
        container_status_state(status) != Some(AppRuntimeInstallationState::Absent),
{
    reveal_strlit("running");
    reveal_strlit("paused");
    reveal_strlit("restarting");
    reveal_strlit("created");
    reveal_strlit("exited");
    if status == "created"@ || status == "exited"@ {
        assert(status != "running"@ && status != "paused"@ && status != "restarting"@) by {
            if status == "created"@ {
                assert(status[0] == 'c');
            } else {
                assert(status[0] == 'e');
            }
        }
    }
}

/// Whether two strings are equal.
pub fn str_equals(a: &str, b: &str) -> (r: bool)
    ensures
        r == (a@ == b@),
{
    let r = crate::text::bytes_equal(a.as_bytes(), b.as_bytes());
    proof {
        vstd::utf8::encode_utf8_decode_utf8(a@);
        vstd::utf8::encode_utf8_decode_utf8(b@);
    }
    r
}

} // verus!
