use oci_distribution::client::{ClientProtocol, ImageData, ImageLayer, PushResponse};
use oci_distribution::errors::{OciDistributionError, OciEnvelope, OciError, OciErrorCode};
use stuffed::client::{
    classify_pull_failure, exists_outcome, parse_reference, prepare_pull, prepare_push, protocol_for, pull_content,
    pull_outcome, push_outcome, ClientError,
};
use stuffed::content::{content_digest, output_path};
use stuffed::manifest::{
    build_config, build_manifest, wasm_layer, COMPONENT_ARTIFACT_TYPE, IMAGE_CONFIG_MEDIA_TYPE,
    WASM_LAYER_MEDIA_TYPE,
};

fn layer(data: &[u8]) -> ImageLayer {
    ImageLayer::new(data.to_vec(), WASM_LAYER_MEDIA_TYPE.to_string(), None)
}

#[test]
fn insecure_selects_plain_http() {
    assert_eq!(protocol_for(true), ClientProtocol::Http);
    assert_eq!(protocol_for(false), ClientProtocol::Https);
}

#[test]
fn invalid_reference_is_rejected_with_its_text() {
    match parse_reference("not a valid ref!!") {
        Err(ClientError::InvalidReference(s)) => assert_eq!(s, "not a valid ref!!"),
        _ => panic!("expected an invalid reference"),
    }
    assert!(matches!(parse_reference(""), Err(ClientError::InvalidReference(_))));
    let r = parse_reference("registry.test/ns/comp:v1").unwrap();
    assert_eq!(r.registry(), "registry.test");
    assert_eq!(r.repository(), "ns/comp");
    assert_eq!(r.tag(), Some("v1"));
}

#[test]
fn invalid_reference_yields_no_request() {
    match prepare_pull("not a valid ref!!") {
        Err(ClientError::InvalidReference(s)) => assert_eq!(s, "not a valid ref!!"),
        _ => panic!("expected an invalid reference"),
    }
    match prepare_push("not a valid ref!!", b"wasm".to_vec(), "abcd") {
        Err(ClientError::InvalidReference(s)) => assert_eq!(s, "not a valid ref!!"),
        _ => panic!("expected an invalid reference"),
    }
}

#[test]
fn pull_accepts_only_the_wasm_layer_media_type() {
    let req = prepare_pull("registry.test/ns/comp:v1").unwrap();
    assert_eq!(req.accepted_media_types, vec![WASM_LAYER_MEDIA_TYPE.to_string()]);
    assert_eq!(req.reference.repository(), "ns/comp");
}

#[test]
fn wasm_layer_carries_the_bytes() {
    let l = wasm_layer(vec![1, 2, 3]);
    assert_eq!(l.data, vec![1, 2, 3]);
    assert_eq!(l.media_type, WASM_LAYER_MEDIA_TYPE);
    assert!(l.annotations.is_none());
}

#[test]
fn config_names_wasm_platform_and_entrypoint() {
    let config = build_config("abcd").unwrap();
    assert_eq!(config.media_type, IMAGE_CONFIG_MEDIA_TYPE);
    let json: serde_json::Value = serde_json::from_slice(&config.data).unwrap();
    assert_eq!(json["architecture"].as_str(), Some("wasm"));
    assert_eq!(json["os"].as_str(), Some("wasip1"));
    assert_eq!(json["config"]["Entrypoint"][0].as_str(), Some("/abcd"));
    assert_eq!(json["config"]["Entrypoint"].as_array().unwrap().len(), 1);
}

#[test]
fn config_bytes_are_stable() {
    let a = build_config("abcd").unwrap();
    let b = build_config("abcd").unwrap();
    assert_eq!(a.data, b.data);
}

#[test]
fn manifest_marks_the_component_artifact_type() {
    let config = build_config("abcd").unwrap();
    let layers = vec![wasm_layer(b"abc".to_vec())];
    let m = build_manifest(&layers, &config);
    assert_eq!(m.schema_version, 2);
    assert_eq!(m.artifact_type.as_deref(), Some(COMPONENT_ARTIFACT_TYPE));
    assert_eq!(m.layers.len(), 1);
    assert_eq!(m.layers[0].media_type, WASM_LAYER_MEDIA_TYPE);
    assert_eq!(m.layers[0].size, 3);
    assert_eq!(m.layers[0].digest, format!("sha256:{}", content_digest(b"abc")));
    assert_eq!(m.config.media_type, IMAGE_CONFIG_MEDIA_TYPE);
    assert_eq!(m.config.size, config.data.len() as i64);
    assert_ne!(COMPONENT_ARTIFACT_TYPE, WASM_LAYER_MEDIA_TYPE);
}

#[test]
fn push_request_has_one_wasm_layer() {
    let bytes = b"\0asm component".to_vec();
    let digest = content_digest(&bytes);
    let req = prepare_push("registry.test/ns/comp:v1", bytes.clone(), &digest).unwrap();
    assert_eq!(req.layers.len(), 1);
    assert_eq!(req.layers[0].data, bytes);
    assert_eq!(req.manifest.layers.len(), 1);
    assert_eq!(req.manifest.layers[0].digest, format!("sha256:{}", digest));
    assert_eq!(req.manifest.config.digest, format!("sha256:{}", content_digest(&req.config.data)));
    let json: serde_json::Value = serde_json::from_slice(&req.config.data).unwrap();
    assert_eq!(json["config"]["Entrypoint"][0].as_str(), Some(format!("/{}", digest).as_str()));
}

#[test]
fn pull_with_no_layer_is_not_found() {
    assert!(matches!(pull_content("out", vec![]), Err(ClientError::NotFound)));
}

#[test]
fn pull_takes_only_the_first_layer() {
    let c = pull_content("out", vec![layer(b"first"), layer(b"second")]).unwrap();
    assert_eq!(c.data, b"first".to_vec());
    assert_eq!(c.path, format!("out/sha256-{}", content_digest(b"first")));
}

#[test]
fn pull_outcome_passes_failure_on() {
    let r = pull_outcome("out", Err(OciDistributionError::PullNoLayersError));
    assert!(matches!(r, Err(ClientError::PullFailure(OciDistributionError::PullNoLayersError))));
}

#[test]
fn push_outcome_returns_manifest_url() {
    let ok = push_outcome(Ok(PushResponse {
        config_url: "https://registry.test/v2/ns/comp/blobs/c".to_string(),
        manifest_url: "https://registry.test/v2/ns/comp/manifests/v1".to_string(),
    }));
    assert_eq!(ok.unwrap(), "https://registry.test/v2/ns/comp/manifests/v1");
    let err = push_outcome(Err(OciDistributionError::PushNoDataError));
    assert!(matches!(err, Err(ClientError::PushRejected(OciDistributionError::PushNoDataError))));
}

#[test]
fn exists_is_false_on_every_failure() {
    assert!(exists_outcome(&Ok("sha256:abcd".to_string())));
    let missing = exists_outcome(&Err(OciDistributionError::ImageManifestNotFoundError(
        "404".to_string(),
    )));
    let unreachable = exists_outcome(&Err(OciDistributionError::GenericError(Some(
        "connection refused".to_string(),
    ))));
    assert!(!missing);
    assert_eq!(missing, unreachable);
}

#[test]
fn push_then_pull_round_trip() {
    let bytes = b"\0asm round trip".to_vec();
    let digest = content_digest(&bytes);
    let req = prepare_push("registry.test/ns/comp:v1", bytes.clone(), &digest).unwrap();
    let announced = req.manifest.layers[0].digest.clone();
    let pull = prepare_pull("registry.test/ns/comp:v1").unwrap();
    assert_eq!(pull.reference.whole(), req.reference.whole());
    assert!(pull.reference.whole().contains("registry.test/ns/comp"));
    let image = ImageData {
        layers: req.layers.clone(),
        digest: None,
        config: req.config.clone(),
        manifest: Some(req.manifest.clone()),
    };
    let content = pull_outcome("outdir", Ok(image)).unwrap();
    assert_eq!(content.data, bytes);
    assert_eq!(content.path, output_path("outdir", &announced));
}

fn envelope(code: OciErrorCode) -> OciDistributionError {
    OciDistributionError::RegistryError {
        envelope: OciEnvelope {
            errors: vec![OciError {
                code,
                message: String::new(),
                detail: serde_json::Value::Null,
            }],
        },
        url: "https://registry.test/v2/ns/comp/manifests/v1".to_string(),
    }
}

#[test]
fn missing_manifest_is_not_found() {
    let r = pull_outcome("out", Err(envelope(OciErrorCode::ManifestUnknown)));
    assert!(matches!(r, Err(ClientError::NotFound)));
    let r = pull_outcome(
        "out",
        Err(OciDistributionError::ImageManifestNotFoundError("v1".to_string())),
    );
    assert!(matches!(r, Err(ClientError::NotFound)));
    assert!(matches!(
        classify_pull_failure(envelope(OciErrorCode::NameUnknown)),
        ClientError::NotFound
    ));
}

#[test]
fn other_registry_refusal_is_a_pull_failure() {
    assert!(matches!(
        classify_pull_failure(envelope(OciErrorCode::Denied)),
        ClientError::PullFailure(OciDistributionError::RegistryError { .. })
    ));
}

#[test]
fn unreachable_registry_is_a_transport_failure() {
    let io = std::io::Error::new(std::io::ErrorKind::ConnectionRefused, "connection refused");
    let r = pull_outcome("out", Err(OciDistributionError::IoError(io)));
    assert!(matches!(
        r,
        Err(ClientError::TransportFailure(OciDistributionError::IoError(_)))
    ));
}

#[test]
fn push_request_is_made_for_every_valid_reference() {
    for reference in ["registry.test/ns/comp:v1", "localhost:5000/comp", "ns/comp@sha256:e3b0c44298fc1c149afbf4c8996fb92427ae41e4649b934ca495991b7852b855"] {
        let req = prepare_push(reference, vec![7, 8, 9], "abcd").unwrap();
        assert_eq!(req.layers.len(), 1);
        assert!(req.layers[0].annotations.is_none());
        assert!(req.manifest.layers[0].annotations.is_none());
        assert!(req.manifest.config.annotations.is_none());
    }
}

#[test]
fn equal_pushes_give_equal_requests() {
    let a = prepare_push("registry.test/ns/comp:v1", vec![1, 2], "abcd").unwrap();
    let b = prepare_push("registry.test/ns/comp:v1", vec![1, 2], "abcd").unwrap();
    assert_eq!(a.config.data, b.config.data);
    assert_eq!(a.layers[0].data, b.layers[0].data);
    assert_eq!(a.layers[0].media_type, b.layers[0].media_type);
    assert_eq!(
        serde_json::to_vec(&a.manifest).unwrap(),
        serde_json::to_vec(&b.manifest).unwrap()
    );
}
