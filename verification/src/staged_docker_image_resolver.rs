//! Container images staged ahead of installation. For each installation a
//! metadata file `image-reference` under the staging root names the package
//! artifact and the immutable image it was imported as:
//! `RDI1\n<artifact>\n<image reference>\n`.
use vstd::prelude::*;

use crate::docker_control::{join_path, path_join};
use crate::docker_runtime_target::{
    image_reference_error, is_absolute_path, is_image_byte, path_is_absolute, split_fields,
    split_lines, DockerImageReference,
};
use crate::runtime_provider::views;
use crate::text::{bytes_equal, field_to_string, lemma_ascii_valid_utf8, string_from_utf8, utf8_of};
use vstd::utf8::{decode_utf8, valid_utf8};

verus! {

/// The largest metadata file read, in bytes.
pub const MAX_METADATA_LENGTH: usize = 2048;

#[derive(Debug, Clone)]
pub struct StagedDockerImageResolverConfig {
    root: String,
}

#[derive(Debug, Clone, Copy, PartialEq, Eq, Structural)]
pub enum StagedDockerImageResolverConfigError {
    RootMustBeAbsolute,
}

#[derive(Debug, Clone)]
pub struct StagedDockerImageResolver {
    config: StagedDockerImageResolverConfig,
}

#[derive(Debug)]
pub enum StagedDockerImageResolverError {
    Root(std::io::Error),
    RootIsNotDirectory,
    RootOwnerMismatch { expected: u32, actual: u32 },
    RootPermissions(u32),
    InstallationDirectory(std::io::Error),
    InstallationPathIsNotDirectory,
    InstallationOwnerMismatch { expected: u32, actual: u32 },
    InstallationPermissions(u32),
    Open(std::io::Error),
    Metadata(std::io::Error),
    MetadataIsNotRegularFile,
    MetadataOwnerMismatch { expected: u32, actual: u32 },
    MetadataPermissions(u32),
    Read(std::io::Error),
    MetadataTooLarge,
    InvalidMetadata,
    ArtifactMismatch,
    InvalidImageReference,
}

impl StagedDockerImageResolverConfig {
    pub closed spec fn spec_root(&self) -> Seq<char> {
        self.root@
    }

    /// Accepts an absolute staging root.
    pub fn new(root: String) -> (r: Result<Self, StagedDockerImageResolverConfigError>)
        ensures
            is_absolute_path(utf8_of(root@)) ==> (r matches Ok(config) && config.spec_root()
                == root@),
            !is_absolute_path(utf8_of(root@)) ==> r == Err::<Self, _>(
                StagedDockerImageResolverConfigError::RootMustBeAbsolute,
            ),
    {
        if !path_is_absolute(root.as_str()) {
            return Err(StagedDockerImageResolverConfigError::RootMustBeAbsolute);
        }
        Ok(StagedDockerImageResolverConfig { root })
    }

    pub fn root(&self) -> (r: &str)
        ensures
            r@ == self.spec_root(),
    {
        self.root.as_str()
    }
}

/// The installation's staging directory.
pub open spec fn staged_installation_root(root: Seq<char>, installation_id: Seq<char>) -> Seq<char> {
    path_join(root, installation_id)
}

/// The installation's metadata file.
pub open spec fn staged_metadata_path(root: Seq<char>, installation_id: Seq<char>) -> Seq<char> {
    path_join(staged_installation_root(root, installation_id), "image-reference"@)
}

impl StagedDockerImageResolver {
    pub closed spec fn spec_config(&self) -> StagedDockerImageResolverConfig {
        self.config
    }

    pub fn new(config: StagedDockerImageResolverConfig) -> (r: Self)
        ensures
            r.spec_config() == config,
    {
        StagedDockerImageResolver { config }
    }

    pub fn config(&self) -> (r: &StagedDockerImageResolverConfig)
        ensures
            *r == self.spec_config(),
    {
        &self.config
    }

    /// The installation's staging directory.
    pub fn installation_root(&self, installation_id: &str) -> (r: String)
        ensures
            r@ == staged_installation_root(self.spec_config().spec_root(), installation_id@),
    {
        join_path(self.config.root(), installation_id)
    }

    /// The installation's metadata file.
    pub fn metadata_path(&self, installation_id: &str) -> (r: String)
        ensures
            r@ == staged_metadata_path(self.spec_config().spec_root(), installation_id@),
    {
        let installation_root = self.installation_root(installation_id);
        join_path(installation_root.as_str(), "image-reference")
    }
}

/// Checks what `symlink_metadata` reports of the staging root (`root`) or
/// of the installation's staging directory: a directory that is not a
/// symbolic link, owned by the supervisor's user, writable by nobody else.
pub fn check_directory(
    root: bool,
    is_directory: bool,
    uid: u32,
    expected_uid: u32,
    mode: u32,
) -> (r: Result<(), StagedDockerImageResolverError>)
    ensures
        !is_directory ==> if root {
            r matches Err(StagedDockerImageResolverError::RootIsNotDirectory)
        } else {
            r matches Err(StagedDockerImageResolverError::InstallationPathIsNotDirectory)
        },
        is_directory && uid != expected_uid ==> if root {
            r matches Err(StagedDockerImageResolverError::RootOwnerMismatch { expected, actual })
                && expected == expected_uid && actual == uid
        } else {
            r matches Err(
                StagedDockerImageResolverError::InstallationOwnerMismatch { expected, actual },
            ) && expected == expected_uid && actual == uid
        },
        is_directory && uid == expected_uid && (mode & 0o777) & 0o022 != 0 ==> if root {
            r matches Err(StagedDockerImageResolverError::RootPermissions(m)) && m == mode & 0o777
        } else {
            r matches Err(StagedDockerImageResolverError::InstallationPermissions(m)) && m == mode
                & 0o777
        },
        is_directory && uid == expected_uid && (mode & 0o777) & 0o022 == 0 ==> r is Ok,
{
    if !is_directory {
        return Err(
            if root {
                StagedDockerImageResolverError::RootIsNotDirectory
            } else {
                StagedDockerImageResolverError::InstallationPathIsNotDirectory
            },
        );
    }
    if uid != expected_uid {
        return Err(
            if root {
                StagedDockerImageResolverError::RootOwnerMismatch {
                    expected: expected_uid,
                    actual: uid,
                }
            } else {
                StagedDockerImageResolverError::InstallationOwnerMismatch {
                    expected: expected_uid,
                    actual: uid,
                }
            },
        );
    }
    let permissions = mode & 0o777;
    if permissions & 0o022 != 0 {
        return Err(
            if root {
                StagedDockerImageResolverError::RootPermissions(permissions)
            } else {
                StagedDockerImageResolverError::InstallationPermissions(permissions)
            },
        );
    }
    Ok(())
}

/// Checks what the opened metadata file reports: a regular file owned by
/// the supervisor's user, writable by nobody else.
pub fn check_metadata_file(is_file: bool, uid: u32, expected_uid: u32, mode: u32) -> (r: Result<
    (),
    StagedDockerImageResolverError,
>)
    ensures
        !is_file ==> r matches Err(StagedDockerImageResolverError::MetadataIsNotRegularFile),
        is_file && uid != expected_uid ==> (r matches Err(
            StagedDockerImageResolverError::MetadataOwnerMismatch { expected, actual },
        ) && expected == expected_uid && actual == uid),
        is_file && uid == expected_uid && (mode & 0o777) & 0o022 != 0 ==> (r matches Err(
            StagedDockerImageResolverError::MetadataPermissions(m),
        ) && m == mode & 0o777),
        is_file && uid == expected_uid && (mode & 0o777) & 0o022 == 0 ==> r is Ok,
{
    if !is_file {
        return Err(StagedDockerImageResolverError::MetadataIsNotRegularFile);
    }
    if uid != expected_uid {
        return Err(
            StagedDockerImageResolverError::MetadataOwnerMismatch { expected: expected_uid, actual: uid },
        );
    }
    let permissions = mode & 0o777;
    if permissions & 0o022 != 0 {
        return Err(StagedDockerImageResolverError::MetadataPermissions(permissions));
    }
    Ok(())
}

/// Turns the bytes read from the metadata file (at most one more than the
/// limit) into text.
pub fn decode_metadata(bytes: Vec<u8>) -> (r: Result<String, StagedDockerImageResolverError>)
    ensures
        bytes@.len() > MAX_METADATA_LENGTH ==> r matches Err(
            StagedDockerImageResolverError::MetadataTooLarge,
        ),
        bytes@.len() <= MAX_METADATA_LENGTH && !valid_utf8(bytes@) ==> r matches Err(
            StagedDockerImageResolverError::InvalidMetadata,
        ),
        bytes@.len() <= MAX_METADATA_LENGTH && valid_utf8(bytes@) ==> (r matches Ok(text)
            && text@ == decode_utf8(bytes@)),
{
    if bytes.len() > MAX_METADATA_LENGTH {
        return Err(StagedDockerImageResolverError::MetadataTooLarge);
    }
    match string_from_utf8(bytes) {
        Some(text) => Ok(text),
        None => Err(StagedDockerImageResolverError::InvalidMetadata),
    }
}

/// The format tag `RDI1`.
pub open spec fn staged_format() -> Seq<u8> {
    seq![82u8, 68u8, 73u8, 49u8]
}

/// What the metadata says of the artifact: the staged image's reference
/// bytes, or why it cannot be used. The metadata must be exactly the tag,
/// the artifact and the reference, each followed by a newline.
pub open spec fn staged_image(metadata: Seq<u8>, artifact: Seq<u8>) -> Result<
    Seq<u8>,
    StagedDockerImageResolverError,
> {
    let fields = split_lines(metadata);
    if fields.len() != 4 || fields[0] != staged_format() || fields[3].len() != 0 {
        Err(StagedDockerImageResolverError::InvalidMetadata)
    } else if fields[1] != artifact {
        Err(StagedDockerImageResolverError::ArtifactMismatch)
    } else if image_reference_error(fields[2]) is Some {
        Err(StagedDockerImageResolverError::InvalidImageReference)
    } else {
        Ok(fields[2])
    }
}

/// Resolves the staged image of an artifact from the installation's
/// metadata.
pub fn resolve_staged_image(metadata: &str, artifact: &str) -> (r: Result<
    DockerImageReference,
    StagedDockerImageResolverError,
>)
    ensures
        match staged_image(utf8_of(metadata@), utf8_of(artifact@)) {
            Ok(reference) => r matches Ok(image) && image.bytes() == reference,
            Err(StagedDockerImageResolverError::InvalidMetadata) => r matches Err(
                StagedDockerImageResolverError::InvalidMetadata,
            ),
            Err(StagedDockerImageResolverError::ArtifactMismatch) => r matches Err(
                StagedDockerImageResolverError::ArtifactMismatch,
            ),
            _ => r matches Err(StagedDockerImageResolverError::InvalidImageReference),
        },
{
    let fields = split_fields(metadata.as_bytes());
    let ghost fs = split_lines(utf8_of(metadata@));
    assert(views(fields@).len() == fields@.len());
    if fields.len() != 4 {
        return Err(StagedDockerImageResolverError::InvalidMetadata);
    }
    assert(views(fields@)[0] == fields@[0]@);
    assert(views(fields@)[1] == fields@[1]@);
    assert(views(fields@)[2] == fields@[2]@);
    assert(views(fields@)[3] == fields@[3]@);
    let format: [u8; 4] = [82, 68, 73, 49];
    assert(format@ =~= staged_format());
    if !bytes_equal(fields[0].as_slice(), format.as_slice()) || fields[3].len() != 0 {
        return Err(StagedDockerImageResolverError::InvalidMetadata);
    }
    if !bytes_equal(fields[1].as_slice(), artifact.as_bytes()) {
        return Err(StagedDockerImageResolverError::ArtifactMismatch);
    }
    match field_to_string(fields[2].as_slice()) {
        None => {
            proof {
                if image_reference_error(fs[2]) is None {
                    assert forall|i: int| 0 <= i < fs[2].len() implies #[trigger] fs[2][i] < 128 by {
                        assert(is_image_byte(fs[2][i]));
                    }
                    lemma_ascii_valid_utf8(fs[2]);
                }
            }
            Err(StagedDockerImageResolverError::InvalidImageReference)
        },
        Some(text) => match DockerImageReference::parse(text) {
            Ok(image) => Ok(image),
            Err(_) => Err(StagedDockerImageResolverError::InvalidImageReference),
        },
    }
}

} // verus!
