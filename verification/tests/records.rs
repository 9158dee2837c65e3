//! Envelope serialization and store-record conversions.

use pr2::api::c2::JobStatus;
use pr2::crypto::Encrypted;
use pr2::error::Error;
use pr2::packet::{checksum, parse_envelope, serialize_envelope, EncryptedData};
use pr2::server::db;

#[test]
fn envelope_serialization_round_trips() {
    let ed = EncryptedData {
        public_key: [3u8; 32],
        data: Encrypted::assemble([4u8; 24], vec![10, 20, 30]),
    };
    let bytes = serialize_envelope(&ed);
    assert_eq!(bytes.len(), 64 + 3);
    let back = parse_envelope(&bytes).unwrap();
    assert_eq!(back.public_key, [3u8; 32]);
    assert_eq!(*back.data.nonce(), [4u8; 24]);
    assert_eq!(*back.data.ciphertext(), vec![10, 20, 30]);
}

#[test]
fn envelope_layout_is_fixed() {
    let ed = EncryptedData {
        public_key: [1u8; 32],
        data: Encrypted::assemble([2u8; 24], vec![0xaa]),
    };
    let bytes = serialize_envelope(&ed);
    assert_eq!(&bytes[0..32], &[1u8; 32]);
    assert_eq!(&bytes[32..56], &[2u8; 24]);
    assert_eq!(&bytes[56..64], &1u64.to_le_bytes());
    assert_eq!(&bytes[64..], &[0xaa]);
}

#[test]
fn truncated_envelope_is_a_serialization_error() {
    let r = parse_envelope(&[0u8; 63]);
    assert!(matches!(r, Err(Error::SerializationError(_))));
}

#[test]
fn envelope_with_wrong_recorded_length_is_rejected() {
    let ed = EncryptedData {
        public_key: [1u8; 32],
        data: Encrypted::assemble([2u8; 24], vec![0xaa, 0xbb]),
    };
    let mut bytes = serialize_envelope(&ed);
    bytes[56] = 9;
    let r = parse_envelope(&bytes);
    assert!(matches!(r, Err(Error::SerializationError(_))));
}

#[test]
fn checksum_is_the_byte_sum() {
    assert_eq!(checksum(&[]), 0);
    assert_eq!(checksum(&[1, 2, 3]), 6);
    assert_eq!(checksum(&[255, 255]), 510);
}

#[test]
fn job_record_converts_to_the_wire_type() {
    let rec = db::Job {
        id: 7,
        agent_id: 8,
        encrypted_job: vec![1],
        ephemeral_public_key: vec![2u8; 32],
        nonce: vec![3u8; 24],
        signature: vec![4],
        status: JobStatus::Pending,
        encrypted_result: Some(vec![5]),
        result_ephemeral_public_key: Some(vec![6u8; 32]),
        result_nonce: Some(vec![7u8; 24]),
        result_signature: Some(vec![8]),
    };
    let j = rec.into_c2();
    assert_eq!(j.id, 7);
    assert_eq!(j.agent_id, 8);
    assert_eq!(j.ephemeral_public_key, [2u8; 32]);
    assert_eq!(j.nonce, [3u8; 24]);
    assert!(matches!(j.status, JobStatus::Pending));
    assert_eq!(j.result_ephemeral_public_key.unwrap(), [6u8; 32]);
    assert_eq!(j.result_nonce.unwrap(), [7u8; 24]);
}

#[test]
fn agent_record_zeroes_malformed_keys() {
    let rec = db::Agent {
        id: 9,
        created_at: 1,
        last_seen: 2,
        identity_public_key: vec![0xaa; 32],
        public_prekey: vec![0xbb; 3],
        public_prekey_signature: vec![0xcc; 64],
    };
    let a = rec.into_c2();
    assert_eq!(a.identity_public_key, [0xaa; 32]);
    assert_eq!(a.public_prekey, [0u8; 32]);
    assert_eq!(a.public_prekey_signature, vec![0xcc; 64]);
}

#[test]
fn protocol_error_messages_carry_their_text() {
    let e = Error::CodingError(String::from("too large"));
    assert_eq!(e.message(), "too large");
    let e = Error::SerializationError(String::from("bad shape"));
    assert_eq!(e.message(), "bad shape");
    let e = Error::EncryptionError(String::from("no auth"));
    assert_eq!(e.message(), "no auth");
}
