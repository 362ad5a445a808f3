//! Encoding of a wasm component as a registry artifact: its layer, its
//! platform configuration and the image manifest that binds them.
use oci_distribution::client::{Config, ImageLayer};
use oci_distribution::config::{Architecture, Os};
use oci_distribution::manifest::{OciDescriptor, OciImageManifest};
use std::collections::HashMap;
use vstd::prelude::*;
use vstd::string::StringExecFns;

use crate::content::{content_digest_of, sha256_of};

verus! {

/// The artifact type that marks a manifest as a wasm component artifact.
pub const COMPONENT_ARTIFACT_TYPE: &'static str = "application/vnd.bytecodealliance.component.v1+wasm";

/// The media type of the layer that holds the component's bytes.
pub const WASM_LAYER_MEDIA_TYPE: &'static str = "application/vnd.bytecodealliance.wasm.component.layer.v0+wasm";

/// The media type that `oci_distribution` gives to an OCI v1 configuration blob.
pub const IMAGE_CONFIG_MEDIA_TYPE: &'static str = "application/vnd.oci.image.config.v1+json";

#[verifier::external_type_specification]
pub struct ExImageLayer(ImageLayer);

#[verifier::external_type_specification]
pub struct ExConfig(Config);

#[verifier::external_type_specification]
pub struct ExOciDescriptor(OciDescriptor);

#[verifier::external_type_specification]
pub struct ExOciImageManifest(OciImageManifest);

#[verifier::external_type_specification]
pub struct ExArchitecture(Architecture);

#[verifier::external_type_specification]
pub struct ExOs(Os);

#[verifier::external_type_specification]
#[verifier::external_body]
pub struct ExJsonError(serde_json::Error);

/// How `oci_distribution` writes the digest of a blob: `sha256:` and the
/// lowercase hexadecimal SHA-256 hash of its bytes.
pub open spec fn blob_digest_of(data: Seq<u8>) -> Seq<char> {
    seq!['s', 'h', 'a', '2', '5', '6', ':'] + content_digest_of(data)
}

/// The entrypoint list of a component's configuration: its digest behind a `/`.
pub open spec fn entrypoint_of(digest: Seq<char>) -> Seq<Seq<char>> {
    seq![seq!['/'] + digest]
}

/// The JSON bytes of an OCI image configuration with the given architecture,
/// operating system and entrypoint, and every other field at its default.
pub uninterp spec fn config_json_of(architecture: Architecture, os: Os, entrypoint: Seq<Seq<char>>) -> Seq<u8>;

/// A descriptor that `OciImageManifest::build` writes for a blob.
pub open spec fn describes(d: OciDescriptor, media_type: Seq<char>, data: Seq<u8>) -> bool {
    &&& d.media_type@ == media_type
    &&& d.digest@ == blob_digest_of(data)
    &&& d.size == data.len() as i64
    &&& d.urls is None
}

/// Relies on `ImageLayer::new`, which stores its three arguments as the layer's fields.
pub assume_specification[ ImageLayer::new ](
    data: Vec<u8>,
    media_type: String,
    annotations: Option<HashMap<String, String>>,
) -> (r: ImageLayer)
    ensures
        r.data@ == data@,
        r.media_type@ == media_type@,
        r.annotations == annotations,
;

/// Relies on `ImageLayer::sha256_digest`, which formats `sha256:` and the
/// lowercase hexadecimal `sha2::Sha256` hash of the layer's data.
pub assume_specification[ ImageLayer::sha256_digest ](layer: &ImageLayer) -> (r: String)
    ensures
        r@ == blob_digest_of(layer.data@),
;

/// Relies on `Config::oci_v1`, which stores the data and annotations and sets
/// the OCI v1 configuration media type.
pub assume_specification[ Config::oci_v1 ](
    data: Vec<u8>,
    annotations: Option<HashMap<String, String>>,
) -> (r: Config)
    ensures
        r.data@ == data@,
        r.media_type@ == IMAGE_CONFIG_MEDIA_TYPE@,
        r.annotations == annotations,
;

/// Relies on `OciImageManifest::build`: schema version 2, no media type or
/// artifact type, the given annotations, a descriptor of the configuration blob
/// without annotations, and one descriptor per layer in order, each with the
/// blob's media type, size and `sha256:` digest as `oci_distribution` computes
/// it with `sha2`, and a clone of the layer's annotations (none where it has none).
pub assume_specification[ OciImageManifest::build ](
    layers: &[ImageLayer],
    config: &Config,
    annotations: Option<HashMap<String, String>>,
) -> (r: OciImageManifest)
    ensures
        r.schema_version == 2,
        r.media_type is None,
        r.artifact_type is None,
        r.annotations == annotations,
        describes(r.config, config.media_type@, config.data@),
        r.config.annotations is None,
        r.layers@.len() == layers@.len(),
        forall|i: int|
            0 <= i < layers@.len() ==> describes(
                #[trigger] r.layers@[i],
                layers@[i].media_type@,
                layers@[i].data@,
            ),
        forall|i: int|
            0 <= i < layers@.len() && layers@[i].annotations is None ==> (#[trigger] r.layers@[i]).annotations is None,
;

/// Relies on `serde_json::to_vec` over `oci_distribution`'s `ConfigFile` with
/// the given architecture, operating system and entrypoint, and every other
/// field at its default. Writing into a `Vec` cannot fail, and that
/// `ConfigFile` holds only string map keys, so the serialization succeeds.
#[verifier::external_body]
fn config_json(architecture: Architecture, os: Os, entrypoint: Vec<String>) -> (r: Result<Vec<u8>, serde_json::Error>)
    ensures
        r is Ok,
        r matches Ok(b) ==> b@ == config_json_of(architecture, os, entrypoint.deep_view()),
{
    let file = oci_distribution::config::ConfigFile {
        architecture,
        os,
        config: Some(oci_distribution::config::Config { entrypoint: Some(entrypoint), ..Default::default() }),
        ..Default::default()
    };
    serde_json::to_vec(&file)
}

/// A layer that carries the component's bytes under the wasm layer media type.
pub fn wasm_layer(file_contents: Vec<u8>) -> (r: ImageLayer)
    ensures
        r.data@ == file_contents@,
        r.media_type@ == WASM_LAYER_MEDIA_TYPE@,
        r.annotations is None,
{
    ImageLayer::new(file_contents, String::from_str(WASM_LAYER_MEDIA_TYPE), None)
}

/// The configuration blob for a component whose entrypoint is named by its digest:
/// architecture wasm, operating system wasip1, entrypoint `/<digest>`.
pub fn build_config(entrypoint_digest: &str) -> (r: Result<Config, serde_json::Error>)
    ensures
        r is Ok,
        r matches Ok(c) ==> {
            &&& c.data@ == config_json_of(Architecture::Wasm, Os::Wasip1, entrypoint_of(entrypoint_digest@))
            &&& c.media_type@ == IMAGE_CONFIG_MEDIA_TYPE@
            &&& c.annotations is None
        },
{
    proof {
        reveal_strlit("/");
    }
    let entrypoint = String::from_str("/").concat(entrypoint_digest);
    let mut entrypoints: Vec<String> = Vec::new();
    entrypoints.push(entrypoint);
    proof {
        assert("/"@ =~= seq!['/']);
        assert(entrypoints.deep_view()[0] == entrypoints@[0]@);
        assert(entrypoints.deep_view() =~= entrypoint_of(entrypoint_digest@));
    }
    let data = config_json(Architecture::Wasm, Os::Wasip1, entrypoints)?;
    Ok(Config::oci_v1(data, None))
}

/// The image manifest for the given layers and configuration, marked with the
/// component artifact type.
pub fn build_manifest(layers: &Vec<ImageLayer>, config: &Config) -> (r: OciImageManifest)
    ensures
        r.schema_version == 2,
        r.media_type is None,
        r.artifact_type matches Some(t) && t@ == COMPONENT_ARTIFACT_TYPE@,
        r.annotations is None,
        describes(r.config, config.media_type@, config.data@),
        r.config.annotations is None,
        r.layers@.len() == layers@.len(),
        forall|i: int|
            0 <= i < layers@.len() ==> describes(
                #[trigger] r.layers@[i],
                layers@[i].media_type@,
                layers@[i].data@,
            ),
        forall|i: int|
            0 <= i < layers@.len() && layers@[i].annotations is None ==> (#[trigger] r.layers@[i]).annotations is None,
{
    let mut manifest = OciImageManifest::build(layers.as_slice(), config, None);
    manifest.artifact_type = Some(String::from_str(COMPONENT_ARTIFACT_TYPE));
    manifest
}

} // verus!
