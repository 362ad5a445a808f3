//! Content addressing: digests of payloads and the file names derived from them.
use sha2::Digest;
use vstd::prelude::*;
use vstd::string::StrSliceExecFns;
use vstd::string::StringExecFns;

verus! {

/// The SHA-256 hash of a byte sequence, as computed by the `sha2` crate.
pub uninterp spec fn sha256_of(data: Seq<u8>) -> Seq<u8>;

/// The lowercase hexadecimal digit for a value below sixteen.
pub open spec fn hex_digit(n: int) -> char {
    seq!['0', '1', '2', '3', '4', '5', '6', '7', '8', '9', 'a', 'b', 'c', 'd', 'e', 'f'][n]
}

/// Lowercase hexadecimal text of a byte sequence: two digits per byte, high nibble first.
pub open spec fn hex_of(data: Seq<u8>) -> Seq<char>
    decreases data.len(),
{
    if data.len() == 0 {
        Seq::empty()
    } else {
        seq![hex_digit(data[0] as int / 16), hex_digit(data[0] as int % 16)] + hex_of(data.drop_first())
    }
}

/// The hexadecimal content digest of a payload.
pub open spec fn content_digest_of(data: Seq<u8>) -> Seq<char> {
    hex_of(sha256_of(data))
}

/// A digest with every `:` replaced by `-`, so that it can serve as a file name.
pub open spec fn file_name_of(digest: Seq<char>) -> Seq<char> {
    digest.map_values(|c: char| if c == ':' { '-' } else { c })
}

/// `name` appended to the directory `dir` as a path component: an absolute
/// `name` stands alone, and a separator is put between the two only where `dir`
/// is non-empty and does not already end in one.
pub open spec fn join_path(dir: Seq<char>, name: Seq<char>) -> Seq<char> {
    if name.len() > 0 && name[0] == '/' {
        name
    } else if dir.len() == 0 || dir.last() == '/' {
        dir + name
    } else {
        dir + seq!['/'] + name
    }
}

/// Where the content with the given digest is written inside `dir`.
pub open spec fn output_path_of(dir: Seq<char>, digest: Seq<char>) -> Seq<char> {
    join_path(dir, file_name_of(digest))
}

/// Relies on sha2's `Sha256::digest`: the 32-byte SHA-256 hash of the input.
#[verifier::external_body]
fn sha256(data: &[u8]) -> (r: Vec<u8>)
    ensures
        r@ == sha256_of(data@),
        r@.len() == 32,
{
    sha2::Sha256::digest(data).to_vec()
}

/// Relies on `hex::encode`: two lowercase hexadecimal digits per byte, in order.
#[verifier::external_body]
fn hex_encode(data: &[u8]) -> (r: String)
    ensures
        r@ == hex_of(data@),
{
    hex::encode(data)
}

/// Relies on std's `String::push`: appends one character.
#[verifier::external_body]
fn push_char(s: &mut String, c: char)
    ensures
        final(s)@ == old(s)@.push(c),
{
    s.push(c)
}

/// The SHA-256 hash of `content_bytes`.
pub fn digest(content_bytes: &[u8]) -> (r: Vec<u8>)
    ensures
        r@ == sha256_of(content_bytes@),
        r@.len() == 32,
{
    sha256(content_bytes)
}

/// The SHA-256 hash of `content_bytes` as lowercase hexadecimal text.
pub fn content_digest(content_bytes: &[u8]) -> (r: String)
    ensures
        r@ == content_digest_of(content_bytes@),
        r@.len() == 64,
{
    let hash = digest(content_bytes);
    proof {
        lemma_hex_of_len(hash@);
    }
    hex_encode(hash.as_slice())
}

/// The file name for a content address: the digest with each `:` replaced by `-`.
pub fn content_file_name(digest: &str) -> (r: String)
    ensures
        r@ == file_name_of(digest@),
{
    let n = digest.unicode_len();
    let mut name = String::new();
    let mut i: usize = 0;
    while i < n
        invariant
            n == digest@.len(),
            i <= n,
            name@ == file_name_of(digest@.subrange(0, i as int)),
        decreases n - i,
    {
        let c = digest.get_char(i);
        let d = if c == ':' { '-' } else { c };
        push_char(&mut name, d);
        proof {
            assert(digest@.subrange(0, i + 1) =~= digest@.subrange(0, i as int).push(c));
        }
        i = i + 1;
    }
    proof {
        assert(digest@.subrange(0, n as int) =~= digest@);
    }
    name
}

/// The path of the file that holds the content with address `digest` in `output_dir`.
pub fn output_path(output_dir: &str, digest: &str) -> (r: String)
    ensures
        r@ == output_path_of(output_dir@, digest@),
{
    let name = content_file_name(digest);
    let name_len = name.as_str().unicode_len();
    if name_len > 0 && name.as_str().get_char(0) == '/' {
        return name;
    }
    let dir_len = output_dir.unicode_len();
    if dir_len == 0 || output_dir.get_char(dir_len - 1) == '/' {
        String::from_str(output_dir).concat(name.as_str())
    } else {
        proof {
            reveal_strlit("/");
        }
        String::from_str(output_dir).concat("/").concat(name.as_str())
    }
}

/// Hexadecimal text has two digits for each byte.
pub proof fn lemma_hex_of_len(data: Seq<u8>)
    ensures
        hex_of(data).len() == 2 * data.len(),
    decreases data.len(),
{
    if data.len() > 0 {
        lemma_hex_of_len(data.drop_first());
    }
}

/// The digest of a payload depends on its bytes alone: equal payloads have equal
/// digests, and each digest is the hexadecimal text of the payload's SHA-256
/// hash, two digits per byte of the hash.
pub proof fn lemma_digest_deterministic(p: Seq<u8>, q: Seq<u8>)
    requires
        p == q,
    ensures
        content_digest_of(p) == content_digest_of(q),
        content_digest_of(p) == hex_of(sha256_of(p)),
        content_digest_of(p).len() == 2 * sha256_of(p).len(),
{
    lemma_hex_of_len(sha256_of(p));
}

/// The file for a registry digest sits in the output directory under the digest's
/// text with each `:` turned into `-`, whatever the directory is.
pub proof fn lemma_output_path_of_registry_digest(dir: Seq<char>, hex: Seq<char>)
    requires
        forall|i: int| 0 <= i < hex.len() ==> hex[i] != ':',
    ensures
        output_path_of(dir, seq!['s', 'h', 'a', '2', '5', '6', ':'] + hex) == join_path(
            dir,
            seq!['s', 'h', 'a', '2', '5', '6', '-'] + hex,
        ),
{
    let d = seq!['s', 'h', 'a', '2', '5', '6', ':'] + hex;
    assert(file_name_of(d) =~= seq!['s', 'h', 'a', '2', '5', '6', '-'] + hex);
}

} // verus!
