use rumahl_platform::staged_docker_image_resolver::{
    check_directory, check_metadata_file, decode_metadata, resolve_staged_image,
    StagedDockerImageResolver, StagedDockerImageResolverConfig,
    StagedDockerImageResolverConfigError, StagedDockerImageResolverError,
};

#[test]
fn staged_metadata_resolves_matching_immutable_image() {
    let digest = "a".repeat(64);
    let metadata = format!("RDI1\nruntime/server.oci\nsha256:{digest}\n");
    let image = resolve_staged_image(&metadata, "runtime/server.oci").unwrap();
    assert_eq!(image.as_str(), format!("sha256:{digest}"));
}

#[test]
fn staged_metadata_rejects_artifact_mismatch_and_mutable_reference() {
    let digest = "b".repeat(64);
    let metadata = format!("RDI1\nruntime/other.oci\nsha256:{digest}\n");
    assert!(matches!(
        resolve_staged_image(&metadata, "runtime/server.oci"),
        Err(StagedDockerImageResolverError::ArtifactMismatch)
    ));
    assert!(matches!(
        resolve_staged_image("RDI1\nruntime/server.oci\nregistry/app:latest\n", "runtime/server.oci"),
        Err(StagedDockerImageResolverError::InvalidImageReference)
    ));
}

#[test]
fn staged_metadata_must_be_exactly_three_terminated_lines() {
    let digest = "c".repeat(64);
    for metadata in [
        format!("RDI2\nruntime/server.oci\nsha256:{digest}\n"),
        format!("RDI1\nruntime/server.oci\nsha256:{digest}"),
        format!("RDI1\nruntime/server.oci\nsha256:{digest}\n\n"),
        String::new(),
    ] {
        assert!(matches!(
            resolve_staged_image(&metadata, "runtime/server.oci"),
            Err(StagedDockerImageResolverError::InvalidMetadata)
        ));
    }
}

#[test]
fn staged_metadata_is_bounded_utf8() {
    assert!(matches!(
        decode_metadata(vec![b'a'; 2049]),
        Err(StagedDockerImageResolverError::MetadataTooLarge)
    ));
    assert!(matches!(
        decode_metadata(vec![0xff]),
        Err(StagedDockerImageResolverError::InvalidMetadata)
    ));
    assert_eq!(decode_metadata(b"RDI1\n".to_vec()).unwrap(), "RDI1\n");
}

#[test]
fn staged_paths_and_permissions() {
    assert_eq!(
        StagedDockerImageResolverConfig::new("images".to_owned()).unwrap_err(),
        StagedDockerImageResolverConfigError::RootMustBeAbsolute
    );
    let resolver = StagedDockerImageResolver::new(
        StagedDockerImageResolverConfig::new("/var/lib/rumahl-runtime-images".to_owned()).unwrap(),
    );
    assert_eq!(
        resolver.metadata_path("installation-1"),
        "/var/lib/rumahl-runtime-images/installation-1/image-reference"
    );
    assert!(check_directory(true, true, 1000, 1000, 0o40755).is_ok());
    assert!(matches!(
        check_directory(false, true, 1000, 1000, 0o40775),
        Err(StagedDockerImageResolverError::InstallationPermissions(0o775))
    ));
    assert!(matches!(
        check_directory(true, false, 1000, 1000, 0o755),
        Err(StagedDockerImageResolverError::RootIsNotDirectory)
    ));
    assert!(matches!(
        check_metadata_file(true, 1000, 1000, 0o100666),
        Err(StagedDockerImageResolverError::MetadataPermissions(0o666))
    ));
    assert!(matches!(
        check_metadata_file(true, 0, 1000, 0o100644),
        Err(StagedDockerImageResolverError::MetadataOwnerMismatch {
            expected: 1000,
            actual: 0
        })
    ));
}
