//! Crypto envelope behaviour, exercised against the real primitives.

use pr2::crypto::{
    agree_pair, dispatch_round_trip, get_shared_key, open_envelope, seal_open, sign_envelope,
    unwrap_job, wrap_job, CryptoContext, Encrypted,
};
use ed25519_dalek::Signer;
use pr2::error::Error;

#[test]
fn key_agreement_is_symmetric() {
    let a_private = [0x11u8; 32];
    let b_private = [0x42u8; 32];
    let (k_a, k_b) = agree_pair(&a_private, &b_private);
    assert_eq!(k_a, k_b);
    // and the shared key is not simply one of the inputs handed back
    assert_ne!(k_a, a_private);
    assert_ne!(k_a, b_private);
}

#[test]
fn key_agreement_matches_the_underlying_curve() {
    let a_private = [0x07u8; 32];
    let b_private = [0x0bu8; 32];
    let b_public = x25519_dalek::PublicKey::from(&x25519_dalek::StaticSecret::from(b_private))
        .to_bytes();
    let ours = get_shared_key(a_private, b_public);
    let theirs = x25519_dalek::StaticSecret::from(a_private)
        .diffie_hellman(&x25519_dalek::PublicKey::from(b_public))
        .to_bytes();
    assert_eq!(ours, theirs);
}

#[test]
fn context_agrees_with_the_server() {
    let server_private = [0x33u8; 32];
    let server_public = x25519_dalek::PublicKey::from(&x25519_dalek::StaticSecret::from(
        server_private,
    ))
    .to_bytes();
    let ctx = CryptoContext::new(server_public);
    // the server derives the same shared key from the context's public key
    let server_side = get_shared_key(server_private, ctx.public_key);
    assert_eq!(ctx.shared_key, server_side);
}

#[test]
fn envelope_round_trip() {
    let key = [0x5au8; 32];
    let msg = b"run this job".to_vec();
    let (enc, out) = seal_open(key, &msg).unwrap();
    assert_eq!(out, msg);
    assert_eq!(enc.ciphertext().len(), msg.len() + 16);
}

#[test]
fn sealing_changes_the_bytes_and_appends_a_tag() {
    let key = [0x5au8; 32];
    let msg = b"plaintext".to_vec();
    let enc = Encrypted::from_byte_array(key, &msg).unwrap();
    assert_eq!(enc.ciphertext().len(), msg.len() + 16);
    assert_ne!(&enc.ciphertext()[..msg.len()], msg.as_slice());
}

#[test]
fn decrypt_with_wrong_key_fails_authentication() {
    let key = [0x5au8; 32];
    let wrong = [0x5bu8; 32];
    let msg = b"secret".to_vec();
    let enc = Encrypted::from_byte_array(key, &msg).unwrap();
    let r = enc.decrypt(wrong);
    assert!(matches!(r, Err(Error::EncryptionError(_))));
}

#[test]
fn tampered_ciphertext_fails_authentication() {
    let key = [0x21u8; 32];
    let msg = b"untouched".to_vec();
    let enc = Encrypted::from_byte_array(key, &msg).unwrap();
    let mut ct = enc.ciphertext().clone();
    ct[0] = ct[0].wrapping_add(1);
    let tampered = Encrypted::assemble(*enc.nonce(), ct);
    let r = tampered.decrypt(key);
    assert!(matches!(r, Err(Error::EncryptionError(_))));
}

#[test]
fn signed_envelope_verifies_then_decrypts() {
    let shared_key = [0x77u8; 32];
    let identity_private = [0x13u8; 32];
    let identity_public = ed25519_dalek::SigningKey::from_bytes(&identity_private)
        .verifying_key()
        .to_bytes();
    let ephemeral_public = [0x44u8; 32];
    let msg = b"job payload".to_vec();

    let enc = Encrypted::from_byte_array(shared_key, &msg).unwrap();
    let signature = sign_envelope(&identity_private, &ephemeral_public, &enc);
    let out = open_envelope(&identity_public, &signature, &ephemeral_public, shared_key, &enc)
        .unwrap();
    assert_eq!(out, msg);
}

#[test]
fn envelope_with_bad_signature_is_rejected_before_decryption() {
    let shared_key = [0x77u8; 32];
    let identity_private = [0x13u8; 32];
    let identity_public = ed25519_dalek::SigningKey::from_bytes(&identity_private)
        .verifying_key()
        .to_bytes();
    let ephemeral_public = [0x44u8; 32];
    let msg = b"job payload".to_vec();

    let enc = Encrypted::from_byte_array(shared_key, &msg).unwrap();
    let mut signature = sign_envelope(&identity_private, &ephemeral_public, &enc);
    signature[0] = signature[0].wrapping_add(1);
    let r = open_envelope(&identity_public, &signature, &ephemeral_public, shared_key, &enc);
    assert!(matches!(r, Err(Error::EncryptionError(_))));
}

#[test]
fn envelope_signed_by_someone_else_is_rejected() {
    let shared_key = [0x77u8; 32];
    let identity_private = [0x13u8; 32];
    let other_private = [0x14u8; 32];
    let identity_public = ed25519_dalek::SigningKey::from_bytes(&identity_private)
        .verifying_key()
        .to_bytes();
    let ephemeral_public = [0x44u8; 32];
    let msg = b"job payload".to_vec();

    let enc = Encrypted::from_byte_array(shared_key, &msg).unwrap();
    let signature = sign_envelope(&other_private, &ephemeral_public, &enc);
    let r = open_envelope(&identity_public, &signature, &ephemeral_public, shared_key, &enc);
    assert!(matches!(r, Err(Error::EncryptionError(_))));
}

#[test]
fn signature_matches_the_underlying_scheme() {
    let identity_private = [0x13u8; 32];
    let ephemeral_public = [0x02u8; 32];
    let enc = Encrypted::assemble([0u8; 24], vec![0xaa, 0xbb]);
    let signature = sign_envelope(&identity_private, &ephemeral_public, &enc);
    let mut message = ephemeral_public.to_vec();
    message.extend_from_slice(&[0xaa, 0xbb]);
    let expected = ed25519_dalek::SigningKey::from_bytes(&identity_private)
        .sign(&message)
        .to_bytes();
    assert_eq!(signature, expected);
}

#[test]
fn job_dispatch_round_trips_end_to_end() {
    let server_signing_key = [0x61u8; 32];
    let agent_private_key = [0x62u8; 32];
    let payload = b"task uname -a".to_vec();
    let (env, out) =
        dispatch_round_trip(&server_signing_key, &agent_private_key, &payload).unwrap();
    assert_eq!(out, payload);
    assert_eq!(env.encrypted.ciphertext().len(), payload.len() + 16);
}

#[test]
fn wrapped_job_opens_only_for_the_right_agent() {
    let server_signing_key = [0x61u8; 32];
    let agent_private_key = [0x62u8; 32];
    let other_private_key = [0x63u8; 32];
    let agent_prekey = x25519_dalek::PublicKey::from(&x25519_dalek::StaticSecret::from(
        agent_private_key,
    ))
    .to_bytes();
    let server_identity_key = ed25519_dalek::SigningKey::from_bytes(&server_signing_key)
        .verifying_key()
        .to_bytes();
    let payload = b"task id".to_vec();
    let env = wrap_job(&server_signing_key, &agent_prekey, &payload).unwrap();

    let opened = unwrap_job(&agent_private_key, &server_identity_key, &env).unwrap();
    assert_eq!(opened, payload);

    // a different agent cannot derive the key: authentication fails
    let r = unwrap_job(&other_private_key, &server_identity_key, &env);
    assert!(matches!(r, Err(Error::EncryptionError(_))));
}

#[test]
fn wrapped_job_from_an_unknown_signer_is_rejected() {
    let server_signing_key = [0x61u8; 32];
    let impostor_signing_key = [0x64u8; 32];
    let agent_private_key = [0x62u8; 32];
    let agent_prekey = x25519_dalek::PublicKey::from(&x25519_dalek::StaticSecret::from(
        agent_private_key,
    ))
    .to_bytes();
    let server_identity_key = ed25519_dalek::SigningKey::from_bytes(&server_signing_key)
        .verifying_key()
        .to_bytes();
    let payload = b"task id".to_vec();
    let env = wrap_job(&impostor_signing_key, &agent_prekey, &payload).unwrap();
    let r = unwrap_job(&agent_private_key, &server_identity_key, &env);
    assert!(matches!(r, Err(Error::EncryptionError(_))));
}
