//! The decisions of the registry client: which reference to address, what to
//! send on a push, which media types to accept on a pull, and what to make of
//! the registry's answers. The round trips themselves are made by the caller.
use oci_distribution::client::{ClientProtocol, Config, ImageData, ImageLayer, PushResponse};
use oci_distribution::errors::{OciDistributionError, OciEnvelope, OciError, OciErrorCode};
use oci_distribution::manifest::OciImageManifest;
use oci_distribution::{ParseError, Reference};
use vstd::prelude::*;
use vstd::string::StringExecFns;

use crate::content::{content_digest_of, output_path, output_path_of};
use crate::manifest::{
    blob_digest_of, build_config, build_manifest, config_json_of, describes, entrypoint_of,
    wasm_layer, COMPONENT_ARTIFACT_TYPE, IMAGE_CONFIG_MEDIA_TYPE, WASM_LAYER_MEDIA_TYPE,
};
use oci_distribution::config::{Architecture, Os};

verus! {

#[verifier::external_type_specification]
#[verifier::external_body]
pub struct ExReference(Reference);

#[verifier::external_type_specification]
#[verifier::external_body]
pub struct ExParseError(ParseError);

#[verifier::external_type_specification]
pub struct ExOciDistributionError(OciDistributionError);

#[verifier::external_type_specification]
pub struct ExOciEnvelope(OciEnvelope);

#[verifier::external_type_specification]
pub struct ExOciError(OciError);

#[verifier::external_type_specification]
pub struct ExOciErrorCode(OciErrorCode);

#[verifier::external_type_specification]
#[verifier::external_body]
pub struct ExJsonValue(serde_json::Value);

#[verifier::external_type_specification]
#[verifier::external_body]
pub struct ExRequestError(reqwest::Error);

#[verifier::external_type_specification]
#[verifier::external_body]
pub struct ExToStrError(reqwest::header::ToStrError);

#[verifier::external_type_specification]
#[verifier::external_body]
pub struct ExIoError(std::io::Error);

#[verifier::external_type_specification]
pub struct ExClientProtocol(ClientProtocol);

#[verifier::external_type_specification]
pub struct ExImageData(ImageData);

#[verifier::external_type_specification]
pub struct ExPushResponse(PushResponse);

/// Whether a text is a reference in the registry grammar
/// `[host[:port]/]namespace/name[:tag|@digest]`.
pub uninterp spec fn reference_parses(text: Seq<char>) -> bool;

/// Relies on `Reference`'s `FromStr` impl: whether a text parses depends on the
/// text alone, and the empty text never does.
#[verifier::external_body]
fn parse_reference_text(text: &str) -> (r: Result<Reference, ParseError>)
    ensures
        r is Ok <==> reference_parses(text@),
        text@.len() == 0 ==> r is Err,
{
    text.parse()
}

/// Why an operation of the client failed.
#[derive(Debug)]
pub enum ClientError {
    /// The reference is not in the registry grammar; holds the text as given.
    InvalidReference(String),
    /// The registry has no artifact under the reference, or sent back no layer
    /// of the accepted media type.
    NotFound,
    /// The registry could not be reached, or the exchange broke off at the
    /// network, TLS or HTTP level.
    TransportFailure(OciDistributionError),
    /// The configuration blob could not be written as JSON; a push of a
    /// component's configuration never meets it.
    EncodingFailure(serde_json::Error),
    /// The registry declined to hand out the artifact for another reason.
    PullFailure(OciDistributionError),
    /// The registry could not be reached, or declined a blob or the manifest.
    PushRejected(OciDistributionError),
}

/// What a pull leaves for the caller to write: the file's path and its bytes.
pub struct PulledContent {
    pub path: String,
    pub data: Vec<u8>,
}

/// What a pull asks of the registry.
pub struct PullRequest {
    pub reference: Reference,
    pub accepted_media_types: Vec<String>,
}

/// What a push sends to the registry: the layers, the configuration blob and
/// the manifest that binds them.
pub struct PushRequest {
    pub reference: Reference,
    pub layers: Vec<ImageLayer>,
    pub config: Config,
    pub manifest: OciImageManifest,
}

/// The content that a pull materializes from the layers the registry handed
/// back: the first layer alone, in the file named by its digest.
pub open spec fn pulled_content_of(output_dir: Seq<char>, layers: Seq<ImageLayer>) -> Option<(Seq<char>, Seq<u8>)> {
    if layers.len() == 0 {
        None
    } else {
        Some((output_path_of(output_dir, blob_digest_of(layers[0].data@)), layers[0].data@))
    }
}

/// A push request for `contents`, whose configuration carries the entrypoint
/// digest `digest`.
pub open spec fn is_push_of(req: PushRequest, contents: Seq<u8>, digest: Seq<char>) -> bool {
    &&& req.layers@.len() == 1
    &&& req.layers@[0].data@ == contents
    &&& req.layers@[0].media_type@ == WASM_LAYER_MEDIA_TYPE@
    &&& req.layers@[0].annotations is None
    &&& req.config.data@ == config_json_of(Architecture::Wasm, Os::Wasip1, entrypoint_of(digest))
    &&& req.config.media_type@ == IMAGE_CONFIG_MEDIA_TYPE@
    &&& req.config.annotations is None
    &&& req.manifest.schema_version == 2
    &&& req.manifest.media_type is None
    &&& req.manifest.artifact_type matches Some(t) && t@ == COMPONENT_ARTIFACT_TYPE@
    &&& req.manifest.annotations is None
    &&& describes(req.manifest.config, req.config.media_type@, req.config.data@)
    &&& req.manifest.config.annotations is None
    &&& req.manifest.layers@.len() == 1
    &&& describes(req.manifest.layers@[0], WASM_LAYER_MEDIA_TYPE@, contents)
    &&& req.manifest.layers@[0].annotations is None
}

/// The scheme a client speaks: plain HTTP when `insecure`, HTTPS otherwise.
pub fn protocol_for(insecure: bool) -> (r: ClientProtocol)
    ensures
        insecure ==> r is Http,
        !insecure ==> r is Https,
{
    if insecure {
        ClientProtocol::Http
    } else {
        ClientProtocol::Https
    }
}

/// Parses a reference, failing with `InvalidReference` and the text as given.
pub fn parse_reference(reference: &str) -> (r: Result<Reference, ClientError>)
    ensures
        r is Ok <==> reference_parses(reference@),
        r is Err ==> (r matches Err(ClientError::InvalidReference(s)) && s@ == reference@),
{
    match parse_reference_text(reference) {
        Ok(parsed) => Ok(parsed),
        Err(_) => Err(ClientError::InvalidReference(String::from_str(reference))),
    }
}

/// The request for a pull of `reference`: only wasm component layers are accepted.
pub fn prepare_pull(reference: &str) -> (r: Result<PullRequest, ClientError>)
    ensures
        r is Ok <==> reference_parses(reference@),
        r matches Ok(req) ==> req.accepted_media_types.deep_view() == seq![WASM_LAYER_MEDIA_TYPE@],
        r is Err ==> (r matches Err(ClientError::InvalidReference(s)) && s@ == reference@),
{
    let parsed = parse_reference(reference)?;
    let mut accepted: Vec<String> = Vec::new();
    accepted.push(String::from_str(WASM_LAYER_MEDIA_TYPE));
    proof {
        assert(accepted.deep_view()[0] == accepted@[0]@);
        assert(accepted.deep_view() =~= seq![WASM_LAYER_MEDIA_TYPE@]);
    }
    Ok(PullRequest { reference: parsed, accepted_media_types: accepted })
}

/// The content to materialize from the layers of a pulled image: the first
/// layer, to be written in `output_dir` under its digest; the rest are ignored.
pub fn pull_content(output_dir: &str, layers: Vec<ImageLayer>) -> (r: Result<PulledContent, ClientError>)
    ensures
        layers@.len() == 0 ==> r matches Err(ClientError::NotFound),
        layers@.len() > 0 ==> (r matches Ok(c) && pulled_content_of(output_dir@, layers@) == Some((c.path@, c.data@))),
{
    let mut layers = layers;
    if layers.len() == 0 {
        return Err(ClientError::NotFound);
    }
    let first = layers.swap_remove(0);
    let digest = first.sha256_digest();
    let path = output_path(output_dir, digest.as_str());
    Ok(PulledContent { path, data: first.data })
}

/// Whether a registry error code says that what was asked for is unknown to it.
pub open spec fn is_unknown_code(code: OciErrorCode) -> bool {
    code is ManifestUnknown || code is BlobUnknown || code is NameUnknown
}

/// Whether a failed request means that the registry has nothing under the
/// reference: no manifest was found, or the registry answered with an error
/// envelope naming an unknown manifest, blob or repository.
pub open spec fn is_absence(e: OciDistributionError) -> bool {
    match e {
        OciDistributionError::ImageManifestNotFoundError(_) => true,
        OciDistributionError::RegistryError { envelope, .. } => exists|i: int|
            0 <= i < envelope.errors@.len() && is_unknown_code(#[trigger] envelope.errors@[i].code),
        _ => false,
    }
}

/// Whether a failed request broke off at the network, TLS or HTTP level.
pub open spec fn is_transport_failure(e: OciDistributionError) -> bool {
    e is RequestError || e is IoError || e is HeaderValueError
}

/// The error a failed pull request is reported as.
pub open spec fn pull_failure_of(e: OciDistributionError) -> ClientError {
    if is_absence(e) {
        ClientError::NotFound
    } else if is_transport_failure(e) {
        ClientError::TransportFailure(e)
    } else {
        ClientError::PullFailure(e)
    }
}

fn is_unknown(code: &OciErrorCode) -> (r: bool)
    ensures
        r == is_unknown_code(*code),
{
    match code {
        OciErrorCode::ManifestUnknown => true,
        OciErrorCode::BlobUnknown => true,
        OciErrorCode::NameUnknown => true,
        _ => false,
    }
}

/// Sorts the failure of a pull request into absence, transport failure, or
/// another refusal.
pub fn classify_pull_failure(e: OciDistributionError) -> (r: ClientError)
    ensures
        r == pull_failure_of(e),
{
    let absent = match &e {
        OciDistributionError::ImageManifestNotFoundError(_) => true,
        OciDistributionError::RegistryError { envelope, .. } => {
            let mut found = false;
            let mut i: usize = 0;
            while i < envelope.errors.len()
                invariant
                    i <= envelope.errors@.len(),
                    found <==> exists|j: int| 0 <= j < i && is_unknown_code(#[trigger] envelope.errors@[j].code),
                decreases envelope.errors@.len() - i,
            {
                if is_unknown(&envelope.errors[i].code) {
                    found = true;
                }
                i = i + 1;
            }
            found
        },
        _ => false,
    };
    if absent {
        return ClientError::NotFound;
    }
    match e {
        OciDistributionError::RequestError(_) => ClientError::TransportFailure(e),
        OciDistributionError::IoError(_) => ClientError::TransportFailure(e),
        OciDistributionError::HeaderValueError(_) => ClientError::TransportFailure(e),
        _ => ClientError::PullFailure(e),
    }
}

/// What a pull makes of the registry's answer: its failure, sorted into
/// absence, transport failure or refusal, or the content of the first layer it
/// handed back.
pub fn pull_outcome(output_dir: &str, result: Result<ImageData, OciDistributionError>) -> (r: Result<PulledContent, ClientError>)
    ensures
        result matches Err(e) ==> r == Err::<PulledContent, ClientError>(pull_failure_of(e)),
        result is Ok && result->Ok_0.layers@.len() == 0 ==> r matches Err(ClientError::NotFound),
        result is Ok && result->Ok_0.layers@.len() > 0 ==> (r matches Ok(c)
            && pulled_content_of(output_dir@, result->Ok_0.layers@) == Some((c.path@, c.data@))),
{
    match result {
        Ok(image) => pull_content(output_dir, image.layers),
        Err(e) => Err(classify_pull_failure(e)),
    }
}

/// The push request that sends `file_contents` as the single wasm layer, with
/// the given configuration blob and a manifest of the component artifact type.
pub fn push_request(reference: Reference, file_contents: Vec<u8>, config: Config) -> (r: PushRequest)
    ensures
        r.reference == reference,
        r.config == config,
        r.layers@.len() == 1,
        r.layers@[0].data@ == file_contents@,
        r.layers@[0].media_type@ == WASM_LAYER_MEDIA_TYPE@,
        r.layers@[0].annotations is None,
        r.manifest.schema_version == 2,
        r.manifest.media_type is None,
        r.manifest.artifact_type matches Some(t) && t@ == COMPONENT_ARTIFACT_TYPE@,
        r.manifest.annotations is None,
        describes(r.manifest.config, config.media_type@, config.data@),
        r.manifest.config.annotations is None,
        r.manifest.layers@.len() == 1,
        describes(r.manifest.layers@[0], WASM_LAYER_MEDIA_TYPE@, file_contents@),
        r.manifest.layers@[0].annotations is None,
{
    let mut layers: Vec<ImageLayer> = Vec::new();
    layers.push(wasm_layer(file_contents));
    let manifest = build_manifest(&layers, &config);
    PushRequest { reference, layers, config, manifest }
}

/// The request for a push of `file_contents` to `reference`, whose entrypoint is
/// named by `digest`. The digest is taken as given.
pub fn prepare_push(reference: &str, file_contents: Vec<u8>, digest: &str) -> (r: Result<PushRequest, ClientError>)
    ensures
        !reference_parses(reference@) ==> (r matches Err(ClientError::InvalidReference(s)) && s@ == reference@),
        reference_parses(reference@) ==> (r matches Ok(req) && is_push_of(req, file_contents@, digest@)),
{
    let parsed = parse_reference(reference)?;
    let config = match build_config(digest) {
        Ok(c) => c,
        Err(e) => {
            return Err(ClientError::EncodingFailure(e));
        },
    };
    Ok(push_request(parsed, file_contents, config))
}

/// What a push makes of the registry's answer: the manifest's URL, or the failure.
pub fn push_outcome(result: Result<PushResponse, OciDistributionError>) -> (r: Result<String, ClientError>)
    ensures
        result matches Ok(resp) ==> (r matches Ok(url) && url@ == resp.manifest_url@),
        result matches Err(e) ==> r == Err::<String, ClientError>(ClientError::PushRejected(e)),
{
    match result {
        Ok(resp) => Ok(resp.manifest_url),
        Err(e) => Err(ClientError::PushRejected(e)),
    }
}

/// Whether an artifact exists, given the registry's answer to a manifest digest
/// request: present exactly when a digest came back.
pub open spec fn exists_of(result: Result<String, OciDistributionError>) -> bool {
    result is Ok
}

/// Whether an artifact exists, from the registry's answer to a manifest digest
/// request: every failure counts as absence.
pub fn exists_outcome(result: &Result<String, OciDistributionError>) -> (r: bool)
    ensures
        r == exists_of(*result),
{
    result.is_ok()
}

/// A push of `contents` under the contents' own digest, followed by a pull on
/// which the registry hands back the pushed bytes as the first layer,
/// materializes exactly `contents`, in the file named by the layer digest that
/// the pushed manifest announced; that digest is the contents' `sha256:` digest,
/// and the configuration names the same digest as its entrypoint.
pub proof fn lemma_push_then_pull(
    req: PushRequest,
    contents: Seq<u8>,
    output_dir: Seq<char>,
    pulled: Seq<ImageLayer>,
)
    requires
        is_push_of(req, contents, content_digest_of(contents)),
        pulled.len() > 0,
        pulled[0].data@ == req.layers@[0].data@,
    ensures
        pulled_content_of(output_dir, pulled) == Some(
            (output_path_of(output_dir, req.manifest.layers@[0].digest@), contents),
        ),
        req.manifest.layers@[0].digest@ == blob_digest_of(contents),
        req.config.data@ == config_json_of(
            Architecture::Wasm,
            Os::Wasip1,
            entrypoint_of(content_digest_of(contents)),
        ),
{
}

/// Two pushes of the same contents under the same entrypoint digest send the
/// same bytes: the same configuration blob, the same single layer, and
/// manifests that agree field by field.
pub proof fn lemma_push_is_reproducible(a: PushRequest, b: PushRequest, contents: Seq<u8>, digest: Seq<char>)
    requires
        is_push_of(a, contents, digest),
        is_push_of(b, contents, digest),
    ensures
        a.config.data@ == b.config.data@,
        a.config.media_type@ == b.config.media_type@,
        a.layers@[0].data@ == b.layers@[0].data@,
        a.layers@[0].media_type@ == b.layers@[0].media_type@,
        a.manifest.schema_version == b.manifest.schema_version,
        a.manifest.artifact_type->0@ == b.manifest.artifact_type->0@,
        a.manifest.config.media_type@ == b.manifest.config.media_type@,
        a.manifest.config.digest@ == b.manifest.config.digest@,
        a.manifest.config.size == b.manifest.config.size,
        a.manifest.layers@.len() == b.manifest.layers@.len(),
        a.manifest.layers@[0].media_type@ == b.manifest.layers@[0].media_type@,
        a.manifest.layers@[0].digest@ == b.manifest.layers@[0].digest@,
        a.manifest.layers@[0].size == b.manifest.layers@[0].size,
        a.manifest.layers@[0].annotations == b.manifest.layers@[0].annotations,
{
}

/// A pull materializes the first layer alone: two answers whose first layers
/// hold the same bytes give the same file with the same content, whatever
/// follows them.
pub proof fn lemma_pull_uses_first_layer_only(
    output_dir: Seq<char>,
    a: Seq<ImageLayer>,
    b: Seq<ImageLayer>,
)
    requires
        a.len() > 0,
        b.len() > 0,
        a[0].data@ == b[0].data@,
    ensures
        pulled_content_of(output_dir, a) == pulled_content_of(output_dir, b),
        pulled_content_of(output_dir, a) == Some(
            (output_path_of(output_dir, blob_digest_of(a[0].data@)), a[0].data@),
        ),
{
}

/// An existence check answers `false` on every failure alike, whatever its
/// kind: a missing manifest and an unreachable registry cannot be told apart.
pub proof fn lemma_exists_false_on_any_failure(e1: OciDistributionError, e2: OciDistributionError)
    ensures
        exists_of(Err(e1)) == exists_of(Err(e2)),
        !exists_of(Err(e1)),
{
}

} // verus!
