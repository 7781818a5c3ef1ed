use scribe_client::pkce::{generate_pkce_session, PkceChallenge};

#[test]
fn generated_verifier_matches_rfc7636_charset_and_length() {
    let pkce = PkceChallenge::generate();
    assert_eq!(pkce.code_verifier().len(), 43);
    assert!(pkce.code_verifier().chars().all(|c| c.is_ascii_alphanumeric()
        || c == '-'
        || c == '.'
        || c == '_'
        || c == '~'));
}

#[test]
fn challenge_is_deterministic_s256_of_verifier() {
    // RFC 7636 appendix B test vector.
    let verifier = "dBjftJeZ4CVP-mB92K27uhbUJU1p1r_wW1gFWFOEjXk";
    let expected_challenge = "E9Melhoa2OwvFrEMTJguCHaoeK1t8URWbuGJSstw-cM";
    assert_eq!(PkceChallenge::derive_challenge(verifier), expected_challenge);
}

#[test]
fn two_generated_challenges_differ() {
    let a = PkceChallenge::generate();
    let b = PkceChallenge::generate();
    assert_ne!(a.code_verifier(), b.code_verifier());
    assert_ne!(a.challenge(), b.challenge());
}

#[test]
fn generated_challenge_is_the_s256_of_its_verifier() {
    let pkce = PkceChallenge::generate();
    assert_eq!(PkceChallenge::derive_challenge(pkce.code_verifier()), pkce.challenge());
    assert_eq!(pkce.challenge().len(), 43);
}

#[test]
fn challenge_of_an_empty_verifier_is_the_sha256_of_nothing() {
    // SHA-256("") = e3b0c442...b855, in URL-safe base64 without padding.
    assert_eq!(
        PkceChallenge::derive_challenge(""),
        "47DEQpj8HBSa-_TImW-5JCeuQeRkm5NMpJWZG3hSuFU"
    );
}

#[test]
fn pkce_session_carries_a_matching_pair() {
    let session = generate_pkce_session();
    assert_eq!(session.verifier.len(), 43);
    assert_eq!(PkceChallenge::derive_challenge(&session.verifier), session.challenge);
}

#[test]
fn cloned_challenge_keeps_both_texts() {
    let pkce = PkceChallenge::generate();
    let copy = pkce.clone();
    assert_eq!(copy.code_verifier(), pkce.code_verifier());
    assert_eq!(copy.challenge(), pkce.challenge());
}

#[test]
fn the_verifier_is_the_base64_of_the_drawn_bytes() {
    let zeros = PkceChallenge::from_random_bytes(&[0u8; 32]);
    assert_eq!(zeros.code_verifier(), "A".repeat(43));
    assert_eq!(zeros.challenge(), PkceChallenge::derive_challenge(&"A".repeat(43)));
    let mut bytes = [0u8; 32];
    bytes[0] = 0xff;
    let other = PkceChallenge::from_random_bytes(&bytes);
    assert_eq!(other.code_verifier(), format!("_w{}", "A".repeat(41)));
    assert_eq!(other.challenge().len(), 43);
}
