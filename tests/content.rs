use stuffed::content::{content_digest, content_file_name, digest, output_path};
use stuffed::version;

const EMPTY_SHA256: &str = "e3b0c44298fc1c149afbf4c8996fb92427ae41e4649b934ca495991b7852b855";
const ABC_SHA256: &str = "ba7816bf8f01cfea414140de5dae2223b00361a396177a9cb410ff61f20015ad";

#[test]
fn digest_of_empty_payload_is_sha256() {
    let d = digest(&[]);
    assert_eq!(d.len(), 32);
    assert_eq!(d[0], 0xe3);
    assert_eq!(d[31], 0x55);
    assert_eq!(content_digest(&[]), EMPTY_SHA256);
}

#[test]
fn content_digest_is_lowercase_hex_sha256() {
    assert_eq!(content_digest(b"abc"), ABC_SHA256);
}

#[test]
fn content_digest_is_deterministic() {
    let p = b"component bytes".to_vec();
    let q = p.clone();
    assert_eq!(content_digest(&p), content_digest(&q));
    assert_ne!(content_digest(&p), content_digest(b"component bytez"));
    assert_eq!(content_digest(&p).len(), 64);
}

#[test]
fn file_name_replaces_every_colon() {
    assert_eq!(content_file_name("sha256:abcd"), "sha256-abcd");
    assert_eq!(content_file_name("a:b:c"), "a-b-c");
    assert_eq!(content_file_name("plain"), "plain");
    assert_eq!(content_file_name(""), "");
}

#[test]
fn output_path_joins_directory_and_file_name() {
    assert_eq!(output_path("out", "sha256:abcd1234"), "out/sha256-abcd1234");
    assert_eq!(output_path("/tmp/cache/", "sha256:abcd1234"), "/tmp/cache/sha256-abcd1234");
    assert_eq!(output_path(".", "sha256:abcd1234"), "./sha256-abcd1234");
}

#[test]
fn output_path_edge_cases() {
    assert_eq!(output_path("", "sha256:abcd1234"), "sha256-abcd1234");
    assert_eq!(output_path("out", "/abs:x"), "/abs-x");
}

#[test]
fn output_path_matches_std_join() {
    for dir in ["out", "out/", "", "/a/b", "."] {
        let expected = std::path::Path::new(dir).join("sha256-abcd1234");
        assert_eq!(output_path(dir, "sha256:abcd1234"), expected.to_string_lossy());
    }
}

#[test]
fn version_prefers_build_information() {
    assert_eq!(version(Some("1.2.3-abc"), "0.1.0"), "1.2.3-abc");
    assert_eq!(version(None, "0.1.0"), "0.1.0");
}
