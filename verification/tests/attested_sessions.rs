use axiom_proxy::attestation::{decode_quote, verify_report, AttestationReport};
use axiom_proxy::e2ee::{decrypt_wire, encrypt_to_model, seal_to_model, ClientKeypair};
use axiom_proxy::near::NearCipher;
use axiom_proxy::provider::VerifiedModel;

fn hex32(s: &str) -> [u8; 32] {
    let b = hex::decode(s).unwrap();
    let mut out = [0u8; 32];
    out.copy_from_slice(&b);
    out
}

fn base_report() -> AttestationReport {
    AttestationReport {
        signing_algo: Some("ed25519".into()),
        signing_public_key: Some("aa".repeat(32)),
        signing_address: None,
        nonce: Some("NONCE123".into()),
        tls_fingerprint: Some("56".repeat(32)),
        model_name: Some("test-model".into()),
        intel_quote: None,
        nvidia_payload: None,
    }
}

fn unverified_model(key_hex: String) -> VerifiedModel {
    VerifiedModel {
        model_public_key_hex: key_hex,
        tls_fingerprint: None,
        checks: vec![],
        provider_state: None,
        expires_at_unix: None,
    }
}

#[test]
fn client_keypair_self_roundtrip() {
    let client = ClientKeypair::generate();
    let ed_pub = hex32(&client.public_hex);
    let wire = encrypt_to_model(&ed_pub, b"hello self").unwrap();
    assert_eq!(client.decrypt(&wire).unwrap(), b"hello self");
}

#[test]
fn tampered_self_ciphertext_fails() {
    let client = ClientKeypair::generate();
    let ed_pub = hex32(&client.public_hex);
    let mut wire = encrypt_to_model(&ed_pub, b"hello self").unwrap();
    let last = wire.pop().unwrap();
    wire.push(if last == '0' { '1' } else { '0' });
    assert!(client.decrypt(&wire).is_err());
}

#[test]
fn short_or_non_hex_wire_is_refused() {
    let secret = [7u8; 32];
    assert!(decrypt_wire(&secret, "zz").is_err());
    assert!(decrypt_wire(&secret, &"00".repeat(40)).is_err());
}

#[test]
fn near_session_roundtrip() {
    let cipher = NearCipher;
    assert_eq!(cipher.protocol(), "near-v2");
    assert_eq!(cipher.encryption_version(), 2);
    let probe = ClientKeypair::generate();
    let mut session = cipher.new_session(&unverified_model(probe.public_hex.clone())).unwrap();
    assert!(session.client_public_key_hex().is_some());
    let wire = session.encrypt(b"hello provider").unwrap();
    assert_eq!(probe.decrypt(&wire).unwrap(), b"hello provider");
}

#[test]
fn near_session_refuses_a_malformed_model_key() {
    let cipher = NearCipher;
    assert!(cipher.new_session(&unverified_model("zz".to_string())).is_err());
}

#[test]
fn verify_report_accepts_bound_evidence() {
    let r = base_report();
    let v = verify_report(&r, &"56".repeat(32), "nonce123", "test-model", "UpToDate", "verified")
        .unwrap();
    assert_eq!(v.model_public_key_hex, "aa".repeat(32));
    assert_eq!(v.checks.len(), 3);
}

#[test]
fn rejects_tls_fingerprint_mismatch() {
    let r = base_report();
    let err = verify_report(&r, &"99".repeat(32), "nonce123", "test-model", "UpToDate", "verified");
    assert!(err.is_err());
}

#[test]
fn rejects_nonce_mismatch() {
    let r = base_report();
    assert!(verify_report(&r, &"56".repeat(32), "different", "test-model", "UpToDate", "verified")
        .is_err());
}

#[test]
fn rejects_wrong_model() {
    let r = base_report();
    assert!(verify_report(&r, &"56".repeat(32), "nonce123", "other-model", "UpToDate", "verified")
        .is_err());
}

#[test]
fn rejects_bad_tdx_or_gpu_status() {
    let r = base_report();
    assert!(verify_report(&r, &"56".repeat(32), "nonce123", "test-model", "OutOfDate", "verified")
        .is_err());
    assert!(verify_report(&r, &"56".repeat(32), "nonce123", "test-model", "UpToDate", "skipped")
        .is_err());
}

#[test]
fn rejects_non_ed25519() {
    let mut r = base_report();
    r.signing_algo = Some("ecdsa".into());
    assert!(verify_report(&r, &"56".repeat(32), "nonce123", "test-model", "UpToDate", "verified")
        .is_err());
}

#[test]
fn decode_quote_handles_hex_and_base64() {
    assert_eq!(decode_quote("0xdeadbeef").unwrap(), vec![0xde, 0xad, 0xbe, 0xef]);
    assert_eq!(decode_quote("deadbeef").unwrap(), vec![0xde, 0xad, 0xbe, 0xef]);
    assert_eq!(decode_quote("aGk=").unwrap(), b"hi".to_vec());
}

#[test]
fn sealing_with_given_ephemeral_and_nonce_is_exact_and_opens() {
    let client = ClientKeypair::generate();
    let recipient = x25519_dalek::x25519(client.x25519_secret, x25519_dalek::X25519_BASEPOINT_BYTES);
    let ephemeral = [9u8; 32];
    let nonce = [3u8; 24];
    let wire = seal_to_model(&recipient, &ephemeral, &nonce, b"sealed").unwrap();
    assert_eq!(wire.len(), 2 * (32 + 24 + 6 + 16));
    let ephemeral_public = x25519_dalek::x25519(ephemeral, x25519_dalek::X25519_BASEPOINT_BYTES);
    assert!(wire.starts_with(&format!("{}{}", hex::encode(ephemeral_public), hex::encode(nonce))));
    assert_eq!(seal_to_model(&recipient, &ephemeral, &nonce, b"sealed").unwrap(), wire);
    assert_eq!(client.decrypt(&wire).unwrap(), b"sealed");
    let other_nonce = seal_to_model(&recipient, &ephemeral, &[4u8; 24], b"sealed").unwrap();
    assert_ne!(other_nonce, wire);
    assert_eq!(client.decrypt(&other_nonce).unwrap(), b"sealed");
}

#[test]
fn model_wire_has_prefix_ciphertext_and_tag_length() {
    let client = ClientKeypair::generate();
    let ed_pub = hex32(&client.public_hex);
    for plaintext in [&b""[..], &b"x"[..], &b"a longer plaintext"[..]] {
        let wire = encrypt_to_model(&ed_pub, plaintext).unwrap();
        assert_eq!(wire.len(), 2 * (32 + 24 + plaintext.len() + 16));
        assert!(wire.chars().all(|c| c.is_ascii_digit() || ('a'..='f').contains(&c)));
        assert_eq!(client.decrypt(&wire).unwrap(), plaintext);
    }
}
