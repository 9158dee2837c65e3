//! Wire codec behaviour: round trips, fragmentation, size bounds.

use pr2::api::op::{Message, OpCode, Val};
use pr2::codec::c2::C2Codec;
use pr2::codec::op::OpCodec;
use pr2::crypto::Encrypted;
use pr2::error::Error;
use pr2::packet::{EncryptedData, Packet};

fn sample_message() -> Message {
    let payload = b"agents".to_vec();
    Message::new(OpCode::GET, payload.len() as u32, &payload)
}

#[test]
fn message_to_bytes_layout() {
    let m = Message::new(OpCode::SET, 3, &[1, 2, 3]);
    let bytes = m.to_bytes().unwrap();
    assert_eq!(bytes, vec![0x01, 3, 0, 0, 0, 1, 2, 3]);
}

#[test]
fn op_encode_decode_round_trip() {
    let mut codec = OpCodec {};
    let mut buf: Vec<u8> = Vec::new();
    codec.encode(sample_message(), &mut buf).unwrap();
    let decoded = codec.decode(&mut buf).unwrap().unwrap();
    assert!(matches!(decoded.top(), OpCode::GET));
    assert_eq!(decoded.len(), 6);
    assert_eq!(decoded.val(), b"agents".to_vec());
    assert!(buf.is_empty());
}

#[test]
fn op_decode_one_byte_at_a_time() {
    let mut codec = OpCodec {};
    let mut encoded: Vec<u8> = Vec::new();
    codec.encode(sample_message(), &mut encoded).unwrap();
    let mut buf: Vec<u8> = Vec::new();
    for (i, b) in encoded.iter().enumerate() {
        if i + 1 < encoded.len() {
            buf.push(*b);
            // every strict prefix must ask for more data, consuming nothing
            let before = buf.clone();
            let r = codec.decode(&mut buf).unwrap();
            assert!(r.is_none());
            assert_eq!(buf, before);
        } else {
            buf.push(*b);
        }
    }
    let decoded = codec.decode(&mut buf).unwrap().unwrap();
    assert!(matches!(decoded.top(), OpCode::GET));
    assert_eq!(decoded.val(), b"agents".to_vec());
}

#[test]
fn op_decode_rejects_oversized_length_without_waiting() {
    // a header that declares 200 MiB on a 120 MiB ceiling, with no payload
    let mut codec = OpCodec {};
    let declared: u32 = 200 * 1024 * 1024;
    let mut buf: Vec<u8> = vec![0x00];
    buf.extend_from_slice(&declared.to_le_bytes());
    let before = buf.clone();
    let r = codec.decode(&mut buf);
    assert!(matches!(r, Err(Error::CodingError(_))));
    // the buffer is not advanced past the 5-byte header
    assert_eq!(buf, before);
}

#[test]
fn op_decode_rejects_unassigned_opcode() {
    let mut codec = OpCodec {};
    let mut buf: Vec<u8> = vec![0x7f, 0, 0, 0, 0];
    let r = codec.decode(&mut buf);
    assert!(matches!(r, Err(Error::CodingError(_))));
}

#[test]
fn op_encode_rejects_oversized_message() {
    let mut codec = OpCodec {};
    let m = Message::new(OpCode::GET, 200 * 1024 * 1024, &[]);
    let mut buf: Vec<u8> = Vec::new();
    let r = codec.encode(m, &mut buf);
    assert!(matches!(r, Err(Error::CodingError(_))));
    assert!(buf.is_empty());
}

#[test]
fn op_decode_two_frames_in_one_buffer() {
    let mut codec = OpCodec {};
    let mut buf: Vec<u8> = Vec::new();
    codec.encode(Message::new(OpCode::START, 2, &[7, 8]), &mut buf).unwrap();
    codec.encode(Message::new(OpCode::STOP, 1, &[9]), &mut buf).unwrap();
    let first = codec.decode(&mut buf).unwrap().unwrap();
    assert!(matches!(first.top(), OpCode::START));
    assert_eq!(first.val(), vec![7, 8]);
    let second = codec.decode(&mut buf).unwrap().unwrap();
    assert!(matches!(second.top(), OpCode::STOP));
    assert_eq!(second.val(), vec![9]);
    assert!(buf.is_empty());
}

fn sample_packet() -> Packet {
    let data = Encrypted::assemble([9u8; 24], vec![1, 2, 3, 4, 5]);
    let val = EncryptedData { public_key: [7u8; 32], data };
    Packet::from_data(val).unwrap()
}

#[test]
fn c2_packet_framing_layout() {
    let p = sample_packet();
    // envelope = 32 key + 24 nonce + 8 length + 5 ciphertext
    assert_eq!(p.len(), 69);
    let bytes = p.to_bytes().unwrap();
    assert_eq!(bytes.len(), 6 + 69);
    assert_eq!(&bytes[0..2], &69u16.to_le_bytes());
    // checksum: 32*7 + 24*9 + 5 (little-endian length byte) + (1+2+3+4+5)
    let expected_chk: u32 = 32 * 7 + 24 * 9 + 5 + 15;
    assert_eq!(p.chk(), expected_chk);
    assert_eq!(&bytes[2..6], &expected_chk.to_le_bytes());
}

#[test]
fn c2_encode_decode_round_trip() {
    let mut codec = C2Codec {};
    let mut buf: Vec<u8> = Vec::new();
    codec.encode(sample_packet(), &mut buf).unwrap();
    let decoded = codec.decode(&mut buf).unwrap().unwrap();
    assert_eq!(decoded.len(), 69);
    assert_eq!(decoded.val.public_key, [7u8; 32]);
    assert_eq!(*decoded.val.data.nonce(), [9u8; 24]);
    assert_eq!(*decoded.val.data.ciphertext(), vec![1, 2, 3, 4, 5]);
    assert!(buf.is_empty());
}

#[test]
fn c2_decode_one_byte_at_a_time() {
    let mut codec = C2Codec {};
    let mut encoded: Vec<u8> = Vec::new();
    codec.encode(sample_packet(), &mut encoded).unwrap();
    let mut buf: Vec<u8> = Vec::new();
    let n = encoded.len();
    for (i, b) in encoded.iter().enumerate() {
        buf.push(*b);
        if i + 1 < n {
            let before = buf.clone();
            let r = codec.decode(&mut buf).unwrap();
            assert!(r.is_none());
            assert_eq!(buf, before);
        }
    }
    let decoded = codec.decode(&mut buf).unwrap().unwrap();
    assert_eq!(decoded.val.public_key, [7u8; 32]);
}

#[test]
fn c2_decode_rejects_checksum_mismatch() {
    let mut codec = C2Codec {};
    let mut buf: Vec<u8> = Vec::new();
    codec.encode(sample_packet(), &mut buf).unwrap();
    // corrupt one ciphertext byte: the checksum no longer matches
    let last = buf.len() - 1;
    buf[last] = buf[last].wrapping_add(1);
    let r = codec.decode(&mut buf);
    assert!(matches!(r, Err(Error::CodingError(_))));
    // the bad frame was dropped whole
    assert!(buf.is_empty());
}

#[test]
fn c2_decode_rejects_malformed_envelope() {
    let mut codec = C2Codec {};
    // a 4-byte envelope cannot hold the fixed-size keys
    let env: Vec<u8> = vec![1, 2, 3, 4];
    let chk: u32 = (1 + 2 + 3 + 4) as u32;
    let mut buf: Vec<u8> = Vec::new();
    buf.extend_from_slice(&4u16.to_le_bytes());
    buf.extend_from_slice(&chk.to_le_bytes());
    buf.extend_from_slice(&env);
    let r = codec.decode(&mut buf);
    assert!(matches!(r, Err(Error::SerializationError(_))));
}

#[test]
fn val_records_its_length() {
    let v = Val::from_vec(vec![1, 2, 3]);
    assert_eq!(v.len, 3);
    assert_eq!(v.val, vec![1, 2, 3]);
    let s = Val::from_slice(&[4, 5]);
    assert_eq!(s.len, 2);
    assert_eq!(s.val, vec![4, 5]);
}

#[test]
fn message_builders_replace_fields() {
    let m = Message::new(OpCode::GET, 1, &[1]);
    let m = m.with_top(OpCode::SLEEP).with_len(2).with_val(&[2, 3]);
    assert!(matches!(m.top(), OpCode::SLEEP));
    assert_eq!(m.len(), 2);
    assert_eq!(m.val(), vec![2, 3]);
}

#[test]
fn opcode_bytes_are_fixed() {
    assert_eq!(OpCode::GET.to_byte(), 0x00);
    assert_eq!(OpCode::SET.to_byte(), 0x01);
    assert_eq!(OpCode::QUERY.to_byte(), 0x10);
    assert_eq!(OpCode::START.to_byte(), 0x20);
    assert_eq!(OpCode::STOP.to_byte(), 0x21);
    assert_eq!(OpCode::SLEEP.to_byte(), 0x22);
    assert_eq!(OpCode::SUGET.to_byte(), 0xF0);
    assert_eq!(OpCode::SUSET.to_byte(), 0xF1);
    assert_eq!(OpCode::SHUTDOWN.to_byte(), 0xFF);
    assert!(matches!(OpCode::from_byte(0x10), Ok(OpCode::QUERY)));
    assert!(matches!(OpCode::from_byte(0x02), Err(Error::CodingError(_))));
}

#[test]
fn opcode_names_parse_case_insensitively() {
    assert!(matches!(OpCode::from_str("get"), Ok(OpCode::GET)));
    assert!(matches!(OpCode::from_str("QuErY"), Ok(OpCode::QUERY)));
    assert!(matches!(OpCode::from_str("SUGET"), Ok(OpCode::SUGET)));
    assert!(matches!(OpCode::from_str("suset"), Ok(OpCode::SUSET)));
    assert!(matches!(OpCode::from_str("shutdown"), Ok(OpCode::SHUTDOWN)));
    assert!(matches!(OpCode::from_str("bogus"), Err(Error::CodingError(_))));
    assert_eq!(OpCode::SUGET.as_str(), "SUGET");
    assert_eq!(OpCode::SUSET.as_str(), "SUSET");
}
