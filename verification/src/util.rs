//! Content digests and the platform names used by registries.

use sha2::Digest;
use vstd::prelude::*;
use vstd::std_specs::iter::IteratorSpec;

use crate::error::DigestError;
use crate::text::str_eq;

verus! {

broadcast use vstd::string::group_string_axioms;

/// The name that registries use for a target architecture: `amd64` for
/// `x86_64`, `arm64` for `aarch64`. Other architectures are not supported.
pub open spec fn oci_arch_of(target_arch: Seq<char>) -> Option<Seq<char>> {
    if target_arch == "x86_64"@ {
        Some("amd64"@)
    } else if target_arch == "aarch64"@ {
        Some("arm64"@)
    } else {
        None
    }
}

/// The name that registries use for a target operating system: only `linux`
/// is supported.
pub open spec fn oci_os_of(target_os: Seq<char>) -> Option<Seq<char>> {
    if target_os == "linux"@ {
        Some("linux"@)
    } else {
        None
    }
}

/// The registry's name for the architecture that the compiler calls
/// `target_arch`.
pub fn oci_arch(target_arch: &str) -> (name: Option<&'static str>)
    ensures
        match name {
            Some(n) => oci_arch_of(target_arch@) == Some(n@),
            None => oci_arch_of(target_arch@) is None,
        },
{
    if str_eq(target_arch, "x86_64") {
        Some("amd64")
    } else if str_eq(target_arch, "aarch64") {
        Some("arm64")
    } else {
        None
    }
}

/// The registry's name for the operating system that the compiler calls
/// `target_os`.
pub fn oci_os(target_os: &str) -> (name: Option<&'static str>)
    ensures
        match name {
            Some(n) => oci_os_of(target_os@) == Some(n@),
            None => oci_os_of(target_os@) is None,
        },
{
    if str_eq(target_os, "linux") {
        Some("linux")
    } else {
        None
    }
}

/// The sixteen lowercase hexadecimal digits, by value.
pub open spec fn hex_digits() -> Seq<char> {
    seq!['0', '1', '2', '3', '4', '5', '6', '7', '8', '9', 'a', 'b', 'c', 'd', 'e', 'f']
}

/// Lowercase hexadecimal rendering: two digits per byte, high nibble first.
pub open spec fn hex_of(bytes: Seq<u8>) -> Seq<char> {
    Seq::new(
        2 * bytes.len(),
        |i: int|
            if i % 2 == 0 {
                hex_digits()[bytes[i / 2] as int / 16]
            } else {
                hex_digits()[bytes[i / 2] as int % 16]
            },
    )
}

/// The SHA-256 hash of a byte sequence (32 bytes).
pub uninterp spec fn sha256_of(content: Seq<u8>) -> Seq<u8>;

/// The SHA-512 hash of a byte sequence (64 bytes).
pub uninterp spec fn sha512_of(content: Seq<u8>) -> Seq<u8>;

/// Runs `sha2::Sha256` over the whole input. Trusted: the result is taken to be
/// the SHA-256 hash of exactly these bytes, the same on every call.
#[verifier::external_body]
fn sha256(content: &[u8]) -> (hash: Vec<u8>)
    ensures
        hash@ == sha256_of(content@),
{
    let mut hasher = sha2::Sha256::new();
    hasher.update(content);
    hasher.finalize().to_vec()
}

/// Runs `sha2::Sha512` over the whole input. Trusted: the result is taken to be
/// the SHA-512 hash of exactly these bytes, the same on every call.
#[verifier::external_body]
fn sha512(content: &[u8]) -> (hash: Vec<u8>)
    ensures
        hash@ == sha512_of(content@),
{
    let mut hasher = sha2::Sha512::new();
    hasher.update(content);
    hasher.finalize().to_vec()
}

/// Calls `hex::encode`. Trusted: the result has two lowercase hexadecimal
/// digits for each input byte, in order, high nibble first.
#[verifier::external_body]
fn hex_encode(bytes: &[u8]) -> (text: String)
    ensures
        text@ == hex_of(bytes@),
{
    hex::encode(bytes)
}

/// A hash algorithm that digests may name.
#[derive(Clone, Copy, Debug, PartialEq, Eq, Structural)]
pub enum Algorithm {
    Sha256,
    Sha512,
}

impl Algorithm {
    /// The algorithm that a name stands for, if any.
    pub open spec fn of_name(name: Seq<char>) -> Option<Algorithm> {
        if name == "sha256"@ {
            Some(Algorithm::Sha256)
        } else if name == "sha512"@ {
            Some(Algorithm::Sha512)
        } else {
            None
        }
    }

    /// The hash of `content` under this algorithm.
    pub open spec fn hash_of(self, content: Seq<u8>) -> Seq<u8> {
        match self {
            Algorithm::Sha256 => sha256_of(content),
            Algorithm::Sha512 => sha512_of(content),
        }
    }

    /// Reads an algorithm name; only `sha256` and `sha512` are known.
    pub fn from_name(name: &str) -> (alg: Option<Algorithm>)
        ensures
            alg == Self::of_name(name@),
    {
        if str_eq(name, "sha256") {
            Some(Algorithm::Sha256)
        } else if str_eq(name, "sha512") {
            Some(Algorithm::Sha512)
        } else {
            None
        }
    }

    /// Hashes `content` and renders the hash as lowercase hexadecimal.
    pub fn hash_hex(self, content: &[u8]) -> (text: String)
        ensures
            text@ == hex_of(self.hash_of(content@)),
    {
        match self {
            Algorithm::Sha256 => {
                let hash = sha256(content);
                hex_encode(hash.as_slice())
            },
            Algorithm::Sha512 => {
                let hash = sha512(content);
                hex_encode(hash.as_slice())
            },
        }
    }
}

/// What `digest` returns for an algorithm name and content.
pub open spec fn digest_spec(alg: Seq<char>, content: Seq<u8>) -> Result<Seq<char>, DigestError> {
    match Algorithm::of_name(alg) {
        Some(a) => Ok(hex_of(a.hash_of(content))),
        None => Err(DigestError::UnrecognizedAlgorithm),
    }
}

/// Hashes `content` under the named algorithm and renders the hash as
/// lowercase hexadecimal. Fails exactly when the name is not a known algorithm.
pub fn digest(alg: &str, content: Vec<u8>) -> (r: Result<String, DigestError>)
    ensures
        match r {
            Ok(text) => digest_spec(alg@, content@) == Ok::<Seq<char>, DigestError>(text@),
            Err(e) => digest_spec(alg@, content@) == Err::<Seq<char>, DigestError>(e),
        },
{
    match Algorithm::from_name(alg) {
        Some(a) => Ok(a.hash_hex(content.as_slice())),
        None => Err(DigestError::UnrecognizedAlgorithm),
    }
}

/// Whether `i` is the position of the first `:` in `s`.
pub open spec fn is_first_colon(s: Seq<char>, i: int) -> bool {
    &&& 0 <= i < s.len()
    &&& s[i] == ':'
    &&& forall|j: int| 0 <= j < i ==> s[j] != ':'
}

/// The two parts of a digest string: what stands before its first `:` (the
/// algorithm) and what stands after it (the encoded hash). `None` when the
/// string holds no `:`.
pub open spec fn split_digest_spec(s: Seq<char>) -> Option<(Seq<char>, Seq<char>)> {
    if exists|i: int| is_first_colon(s, i) {
        let i = choose|i: int| is_first_colon(s, i);
        Some((s.subrange(0, i), s.subrange(i + 1, s.len() as int)))
    } else {
        None
    }
}

/// A string built as `alg`, `:`, `encoded` splits back into those parts,
/// provided `alg` itself holds no `:`.
pub proof fn lemma_split_digest_of_parts(alg: Seq<char>, encoded: Seq<char>)
    requires
        !alg.contains(':'),
    ensures
        split_digest_spec(alg + seq![':'] + encoded) == Some((alg, encoded)),
{
    let s = alg + seq![':'] + encoded;
    let k = alg.len() as int;
    assert(is_first_colon(s, k)) by {
        assert forall|j: int| 0 <= j < k implies s[j] != ':' by {
            assert(s[j] == alg[j]);
        }
    }
    let i = choose|i: int| is_first_colon(s, i);
    assert(i == k);
    assert(s.subrange(0, k) =~= alg);
    assert(s.subrange(k + 1, s.len() as int) =~= encoded);
}

/// Splits a digest string at its first `:`.
pub fn split_digest(digest: &str) -> (parts: Option<(&str, &str)>)
    ensures
        match parts {
            Some((alg, encoded)) => split_digest_spec(digest@) == Some((alg@, encoded@)),
            None => split_digest_spec(digest@) is None,
        },
{
    let n = digest.unicode_len();
    let mut rest = digest.chars();
    let mut i: usize = 0;
    loop
        invariant
            n == digest@.len(),
            i <= n,
            rest.remaining() == digest@.skip(i as int),
            rest.obeys_prophetic_iter_laws(),
            forall|j: int| 0 <= j < i ==> digest@[j] != ':',
        decreases n - i,
    {
        match rest.next() {
            None => {
                assert(i == n);
                assert(!exists|k: int| is_first_colon(digest@, k));
                return None;
            },
            Some(c) => {
                assert(c == digest@[i as int]);
                if c == ':' {
                    assert(is_first_colon(digest@, i as int));
                    let alg = digest.substring_char(0, i);
                    let encoded = digest.substring_char(i + 1, n);
                    return Some((alg, encoded));
                }
                i = i + 1;
            },
        }
    }
}

} // verus!
