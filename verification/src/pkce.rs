//! PKCE (RFC 7636) verifier/challenge pairs, always with the `S256` method.

use base64::Engine;
use rand::RngCore;
use sha2::Digest;
use vstd::prelude::*;
use vstd::string::StringSliceAdditionalSpecFns;
use vstd::utf8::encode_utf8;

verus! {

/// The URL-safe base64 alphabet (RFC 4648 section 5).
pub open spec fn b64_char(v: int) -> char {
    if v < 26 {
        (65 + v) as char
    } else if v < 52 {
        (97 + (v - 26)) as char
    } else if v < 62 {
        (48 + (v - 52)) as char
    } else if v == 62 {
        '-'
    } else {
        '_'
    }
}

/// Base64 with the URL-safe alphabet and no padding: every three bytes become
/// four characters, a trailing pair three, a trailing byte two.
pub open spec fn base64url(b: Seq<u8>) -> Seq<char>
    decreases b.len(),
{
    if b.len() == 0 {
        Seq::empty()
    } else if b.len() == 1 {
        seq![b64_char((b[0] as int) / 4), b64_char(((b[0] as int) % 4) * 16)]
    } else if b.len() == 2 {
        seq![
            b64_char((b[0] as int) / 4),
            b64_char(((b[0] as int) % 4) * 16 + (b[1] as int) / 16),
            b64_char(((b[1] as int) % 16) * 4),
        ]
    } else {
        seq![
            b64_char((b[0] as int) / 4),
            b64_char(((b[0] as int) % 4) * 16 + (b[1] as int) / 16),
            b64_char(((b[1] as int) % 16) * 4 + (b[2] as int) / 64),
            b64_char((b[2] as int) % 64),
        ] + base64url(b.skip(3))
    }
}

/// The SHA-256 digest of `bytes`.
pub uninterp spec fn sha256(bytes: Seq<u8>) -> Seq<u8>;

/// `base64::engine::general_purpose::URL_SAFE_NO_PAD.encode(bytes)`.
#[verifier::external_body]
fn base64url_encode(bytes: &[u8]) -> (r: String)
    requires
        bytes@.len() <= usize::MAX / 4,
    ensures
        r@ == base64url(bytes@),
{
    base64::engine::general_purpose::URL_SAFE_NO_PAD.encode(bytes)
}

/// `sha2::Sha256::digest(bytes)`: the 32-byte SHA-256 digest of `bytes`.
#[verifier::external_body]
fn sha256_digest(bytes: &[u8]) -> (r: Vec<u8>)
    ensures
        r@ == sha256(bytes@),
        r@.len() == 32,
{
    sha2::Sha256::digest(bytes).to_vec()
}

/// `rand::thread_rng().fill_bytes(..)` on 32 bytes: 32 bytes from the
/// thread's cryptographically secure generator. Nothing is promised of
/// their values.
#[verifier::external_body]
fn random_32_bytes() -> (r: Vec<u8>)
    ensures
        r@.len() == 32,
{
    let mut bytes = [0u8; 32];
    rand::thread_rng().fill_bytes(&mut bytes);
    bytes.to_vec()
}

/// The characters RFC 7636 allows in a code verifier: `[A-Z a-z 0-9 - . _ ~]`.
pub open spec fn is_unreserved(c: char) -> bool {
    ('A' <= c <= 'Z') || ('a' <= c <= 'z') || ('0' <= c <= '9') || c == '-' || c == '.' || c
        == '_' || c == '~'
}

/// A valid code verifier: 43 to 128 unreserved characters.
pub open spec fn is_verifier(s: Seq<char>) -> bool {
    43 <= s.len() <= 128 && forall|i: int| 0 <= i < s.len() ==> is_unreserved(#[trigger] s[i])
}

/// The `S256` challenge of a verifier: the URL-safe, unpadded base64 of the
/// SHA-256 of its UTF-8 bytes.
pub open spec fn s256_challenge(verifier: Seq<char>) -> Seq<char> {
    base64url(sha256(encode_utf8(verifier)))
}

/// The length of the encoding of `n` bytes.
pub open spec fn base64url_len(n: int) -> int {
    4 * (n / 3) + (if n % 3 == 0 {
        0
    } else {
        n % 3 + 1
    })
}

proof fn lemma_b64_char(v: int)
    requires
        0 <= v < 64,
    ensures
        is_unreserved(b64_char(v)),
{
}

/// The encoding of `b` has the expected length and uses only the URL-safe
/// alphabet, all of it unreserved.
pub proof fn lemma_base64url(b: Seq<u8>)
    ensures
        base64url(b).len() == base64url_len(b.len() as int),
        forall|i: int| 0 <= i < base64url(b).len() ==> is_unreserved(#[trigger] base64url(b)[i]),
    decreases b.len(),
{
    if b.len() == 0 {
    } else if b.len() == 1 {
        lemma_b64_char((b[0] as int) / 4);
        lemma_b64_char(((b[0] as int) % 4) * 16);
    } else if b.len() == 2 {
        lemma_b64_char((b[0] as int) / 4);
        lemma_b64_char(((b[0] as int) % 4) * 16 + (b[1] as int) / 16);
        lemma_b64_char(((b[1] as int) % 16) * 4);
    } else {
        lemma_base64url(b.skip(3));
        lemma_b64_char((b[0] as int) / 4);
        lemma_b64_char(((b[0] as int) % 4) * 16 + (b[1] as int) / 16);
        lemma_b64_char(((b[1] as int) % 16) * 4 + (b[2] as int) / 64);
        lemma_b64_char((b[2] as int) % 64);
        let head = seq![
            b64_char((b[0] as int) / 4),
            b64_char(((b[0] as int) % 4) * 16 + (b[1] as int) / 16),
            b64_char(((b[1] as int) % 16) * 4 + (b[2] as int) / 64),
            b64_char((b[2] as int) % 64),
        ];
        let tail = base64url(b.skip(3));
        assert(base64url(b) == head + tail);
        assert forall|i: int| 0 <= i < base64url(b).len() implies is_unreserved(
            #[trigger] base64url(b)[i],
        ) by {
            if i >= 4 {
                assert(base64url(b)[i] == tail[i - 4]);
            }
        }
    }
}

/// The encoding of 32 bytes is a valid code verifier (43 characters).
pub proof fn lemma_32_bytes_encode_to_verifier(b: Seq<u8>)
    requires
        b.len() == 32,
    ensures
        base64url(b).len() == 43,
        is_verifier(base64url(b)),
{
    lemma_base64url(b);
}

/// A generated PKCE (RFC 7636) verifier/challenge pair. Always uses the
/// `S256` challenge method; there's no reason for a client we control to
/// use `plain`, even though the server supports it.
#[derive(Debug)]
pub struct PkceChallenge {
    verifier: String,
    challenge: String,
}

impl PkceChallenge {
    #[verifier::type_invariant]
    spec fn well_formed(self) -> bool {
        &&& is_verifier(self.verifier@)
        &&& self.verifier@.len() == 43
        &&& self.challenge@ == s256_challenge(self.verifier@)
        &&& self.challenge@.len() == 43
    }

    /// The verifier, as text.
    pub closed spec fn verifier_text(&self) -> Seq<char> {
        self.verifier@
    }

    /// The challenge, as text.
    pub closed spec fn challenge_text(&self) -> Seq<char> {
        self.challenge@
    }

    /// Generates a new random verifier and its S256 challenge. The verifier is
    /// 32 random bytes in URL-safe base64 without padding: 43 characters, all
    /// of them ones RFC 7636 allows.
    #[must_use]
    pub fn generate() -> (r: Self)
        ensures
            exists|b: Seq<u8>| b.len() == 32 && r.verifier_text() == base64url(b),
            r.verifier_text().len() == 43,
            is_verifier(r.verifier_text()),
            r.challenge_text() == s256_challenge(r.verifier_text()),
            r.challenge_text().len() == 43,
    {
        let bytes = random_32_bytes();
        Self::from_random_bytes(bytes.as_slice())
    }

    /// The pair whose verifier is the URL-safe, unpadded base64 of the 32
    /// `bytes`, and its S256 challenge.
    pub fn from_random_bytes(bytes: &[u8]) -> (r: Self)
        requires
            bytes@.len() == 32,
        ensures
            r.verifier_text() == base64url(bytes@),
            r.verifier_text().len() == 43,
            is_verifier(r.verifier_text()),
            r.challenge_text() == s256_challenge(r.verifier_text()),
            r.challenge_text().len() == 43,
    {
        let verifier = base64url_encode(bytes);
        proof {
            lemma_32_bytes_encode_to_verifier(bytes@);
        }
        let challenge = Self::derive_challenge(verifier.as_str());
        PkceChallenge { verifier, challenge }
    }

    /// The S256 challenge of `verifier`: always 43 characters.
    pub fn derive_challenge(verifier: &str) -> (r: String)
        ensures
            r@ == s256_challenge(verifier@),
            r@.len() == 43,
    {
        let digest = sha256_digest(verifier.as_bytes());
        proof {
            lemma_base64url(digest@);
        }
        base64url_encode(digest.as_slice())
    }

    /// The code verifier, to send with the authorization code.
    #[must_use]
    pub fn code_verifier(&self) -> (r: &str)
        ensures
            r@ == self.verifier_text(),
            is_verifier(r@),
            r@.len() == 43,
    {
        proof {
            use_type_invariant(self);
        }
        self.verifier.as_str()
    }

    #[must_use]
    pub fn challenge(&self) -> (r: &str)
        ensures
            r@ == self.challenge_text(),
            r@ == s256_challenge(self.verifier_text()),
            r@.len() == 43,
    {
        proof {
            use_type_invariant(self);
        }
        self.challenge.as_str()
    }
}

impl Clone for PkceChallenge {
    fn clone(&self) -> (r: Self)
        ensures
            r.verifier_text() == self.verifier_text(),
            r.challenge_text() == self.challenge_text(),
    {
        proof {
            use_type_invariant(self);
        }
        PkceChallenge { verifier: self.verifier.clone(), challenge: self.challenge.clone() }
    }
}

/// The verifier and challenge for a single PKCE session, as plain fields.
/// Keep the `verifier` secret; pass only the `challenge` in the authorization
/// URL.
#[derive(Debug, Clone, PartialEq, Eq)]
pub struct PkceSession {
    pub verifier: String,
    pub challenge: String,
}

/// Generates a fresh PKCE verifier/challenge pair (RFC 7636, S256 method).
pub fn generate_pkce_session() -> (r: PkceSession)
    ensures
        exists|b: Seq<u8>| b.len() == 32 && r.verifier@ == base64url(b),
        is_verifier(r.verifier@),
        r.challenge@ == s256_challenge(r.verifier@),
        r.challenge@.len() == 43,
{
    let pkce = PkceChallenge::generate();
    PkceSession {
        verifier: pkce.code_verifier().to_owned(),
        challenge: pkce.challenge().to_owned(),
    }
}

} // verus!
