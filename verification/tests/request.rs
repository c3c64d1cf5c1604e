use spirv_out::capability::parse_capability;
use spirv_out::request::{parse_spirv_metadata, BuildRequest, ConfigError, MetadataVerbosity};

#[test]
fn metadata_token_none_parses() {
    assert_eq!(parse_spirv_metadata(&b"none".to_vec()), Ok(MetadataVerbosity::Off));
}

#[test]
fn metadata_token_full_parses() {
    assert_eq!(parse_spirv_metadata(&b"full".to_vec()), Ok(MetadataVerbosity::Full));
}

#[test]
fn metadata_token_name_variables_parses() {
    assert_eq!(
        parse_spirv_metadata(&b"name-variables".to_vec()),
        Ok(MetadataVerbosity::NameVariables)
    );
}

#[test]
fn unknown_metadata_token_is_rejected() {
    assert_eq!(
        parse_spirv_metadata(&b"partial".to_vec()),
        Err(ConfigError::UnknownMetadataVerbosity)
    );
    assert_eq!(
        parse_spirv_metadata(&Vec::new()),
        Err(ConfigError::UnknownMetadataVerbosity)
    );
}

#[test]
fn known_capability_token_parses() {
    assert_eq!(
        parse_capability(&b"Int8".to_vec()),
        Ok(spirv_builder::Capability::Int8)
    );
    assert_eq!(
        parse_capability(&b"Shader".to_vec()),
        Ok(spirv_builder::Capability::Shader)
    );
}

#[test]
fn unknown_capability_token_is_rejected() {
    assert_eq!(parse_capability(&b"NotACapability".to_vec()), Err(ConfigError::UnknownCapability));
    assert_eq!(parse_capability(&Vec::new()), Err(ConfigError::UnknownCapability));
    // Capability names are case-sensitive words from the builder's table.
    assert_eq!(parse_capability(&b"int8".to_vec()), Err(ConfigError::UnknownCapability));
}

#[test]
fn request_defaults_output_to_source_parent() {
    let request = BuildRequest::new(
        b"/proj/shaders/main.rs".to_vec(),
        b"spirv-unknown-spv1.0".to_vec(),
        false,
        false,
        MetadataVerbosity::Off,
        Vec::new(),
        Vec::new(),
        None,
    )
    .unwrap();
    assert_eq!(request.output_dir, b"/proj/shaders".to_vec());
    assert_eq!(request.fallback_file_name, b"main.rs".to_vec());
    assert!(request.release);
    assert!(!request.multimodule);
}

#[test]
fn request_keeps_explicit_output_directory() {
    let request = BuildRequest::new(
        b"/proj/shaders/main.rs".to_vec(),
        b"spirv-unknown-spv1.0".to_vec(),
        true,
        true,
        MetadataVerbosity::Full,
        Vec::new(),
        vec![b"SPV_KHR_ray_tracing".to_vec()],
        Some(b"/out".to_vec()),
    )
    .unwrap();
    assert_eq!(request.output_dir, b"/out".to_vec());
    assert!(!request.release);
    assert!(request.multimodule);
    assert_eq!(request.extensions, vec![b"SPV_KHR_ray_tracing".to_vec()]);
}

#[test]
fn source_path_without_parent_is_rejected() {
    let err = BuildRequest::new(
        b"/".to_vec(),
        b"spirv-unknown-spv1.0".to_vec(),
        false,
        false,
        MetadataVerbosity::Off,
        Vec::new(),
        Vec::new(),
        None,
    )
    .unwrap_err();
    assert_eq!(err, ConfigError::PathHasNoParent);
}

#[test]
fn request_defaults_output_for_trailing_slash_source() {
    let request = BuildRequest::new(
        b"dir/sub/".to_vec(),
        b"spirv-unknown-spv1.0".to_vec(),
        false,
        false,
        MetadataVerbosity::Off,
        Vec::new(),
        Vec::new(),
        None,
    )
    .unwrap();
    assert_eq!(request.output_dir, b"dir".to_vec());
    assert_eq!(request.fallback_file_name, b"sub".to_vec());
}

#[test]
fn source_path_without_file_name_is_rejected() {
    let err = BuildRequest::new(
        b"..".to_vec(),
        b"spirv-unknown-spv1.0".to_vec(),
        false,
        false,
        MetadataVerbosity::Off,
        Vec::new(),
        Vec::new(),
        Some(b"/out".to_vec()),
    )
    .unwrap_err();
    assert_eq!(err, ConfigError::PathHasNoFileName);
}

#[test]
fn bindings_are_preserved_exactly_when_metadata_is_kept() {
    for (metadata, expected) in [
        (MetadataVerbosity::Off, false),
        (MetadataVerbosity::Full, true),
        (MetadataVerbosity::NameVariables, true),
    ] {
        let request = BuildRequest::new(
            b"/proj/shaders/main.rs".to_vec(),
            b"spirv-unknown-spv1.0".to_vec(),
            false,
            false,
            metadata,
            Vec::new(),
            Vec::new(),
            None,
        )
        .unwrap();
        assert_eq!(request.preserve_bindings(), expected);
    }
}
