//! The C2 wire envelope: an ephemeral public key plus a sealed box, framed by
//! a 2-byte length and a 4-byte checksum.
//!
//! Envelope layout: `public_key:32 | nonce:24 | ciphertext_len:8 LE |
//! ciphertext`.  A `Packet` wraps the envelope with `len:u16-LE | chk:u32-LE`
//! framing; the checksum is the byte sum of the envelope modulo 2^32.

use crate::crypto::{Encrypted, EncryptedView, PublicKey};
use crate::error::Error;
use vstd::arithmetic::div_mod::lemma_add_mod_noop;
use vstd::bytes::{
    spec_u16_to_le_bytes, spec_u32_to_le_bytes, spec_u64_from_le_bytes, spec_u64_to_le_bytes,
    u16_to_le_bytes, u32_to_le_bytes, u64_from_le_bytes, u64_to_le_bytes,
};
use vstd::prelude::*;
use vstd::slice::{slice_subrange, slice_to_vec};

verus! {

/// The ghost value of an `EncryptedData`.
pub struct EncryptedDataView {
    pub public_key: Seq<u8>,
    pub data: EncryptedView,
}

/// The payload of a C2 frame: the sender's ephemeral key-agreement public key
/// and the sealed box it protects.
#[derive(Clone)]
pub struct EncryptedData {
    pub public_key: PublicKey,
    pub data: Encrypted,
}

impl View for EncryptedData {
    type V = EncryptedDataView;

    open spec fn view(&self) -> EncryptedDataView {
        EncryptedDataView { public_key: self.public_key@, data: self.data@ }
    }
}

/// The serialized bytes of an envelope.
pub open spec fn spec_envelope(ed: EncryptedDataView) -> Seq<u8> {
    ed.public_key + ed.data.nonce + spec_u64_to_le_bytes(ed.data.ciphertext.len() as u64)
        + ed.data.ciphertext
}

/// The envelope a byte string deserializes to, if it is well-formed: the
/// fixed-size keys, then a ciphertext whose recorded length matches exactly
/// the bytes that remain.
pub open spec fn spec_envelope_parse(b: Seq<u8>) -> Option<EncryptedDataView> {
    if b.len() < 64 {
        None
    } else {
        let ct_len = spec_u64_from_le_bytes(b.subrange(56, 64));
        if b.len() == 64 + ct_len {
            Some(
                EncryptedDataView {
                    public_key: b.subrange(0, 32),
                    data: EncryptedView {
                        nonce: b.subrange(32, 56),
                        ciphertext: b.subrange(64, b.len() as int),
                    },
                },
            )
        } else {
            None
        }
    }
}

/// Copy the first 32 bytes of a slice into an array.
pub(crate) fn array32_from_slice(s: &[u8]) -> (r: [u8; 32])
    requires
        s@.len() == 32,
    ensures
        r@ == s@,
{
    let r =
        [
        s[0],
        s[1],
        s[2],
        s[3],
        s[4],
        s[5],
        s[6],
        s[7],
        s[8],
        s[9],
        s[10],
        s[11],
        s[12],
        s[13],
        s[14],
        s[15],
        s[16],
        s[17],
        s[18],
        s[19],
        s[20],
        s[21],
        s[22],
        s[23],
        s[24],
        s[25],
        s[26],
        s[27],
        s[28],
        s[29],
        s[30],
        s[31],
    ];
    proof {
        assert(r@ =~= s@);
    }
    r
}

/// Copy the first 24 bytes of a slice into an array.
pub(crate) fn array24_from_slice(s: &[u8]) -> (r: [u8; 24])
    requires
        s@.len() == 24,
    ensures
        r@ == s@,
{
    let r =
        [
        s[0],
        s[1],
        s[2],
        s[3],
        s[4],
        s[5],
        s[6],
        s[7],
        s[8],
        s[9],
        s[10],
        s[11],
        s[12],
        s[13],
        s[14],
        s[15],
        s[16],
        s[17],
        s[18],
        s[19],
        s[20],
        s[21],
        s[22],
        s[23],
    ];
    proof {
        assert(r@ =~= s@);
    }
    r
}

/// Serialize an envelope.
pub fn serialize_envelope(ed: &EncryptedData) -> (r: Vec<u8>)
    ensures
        r@ == spec_envelope(ed@),
        r@.len() == 64 + ed@.data.ciphertext.len(),
{
    let mut bytes: Vec<u8> = Vec::new();
    bytes.extend_from_slice(ed.public_key.as_slice());
    bytes.extend_from_slice(ed.data.nonce().as_slice());
    let mut len_bytes = u64_to_le_bytes(ed.data.ciphertext().len() as u64);
    bytes.append(&mut len_bytes);
    bytes.extend_from_slice(ed.data.ciphertext().as_slice());
    proof {
        vstd::bytes::lemma_auto_spec_u64_to_from_le_bytes();
        assert(bytes@ =~= spec_envelope(ed@));
    }
    bytes
}

/// Deserialize an envelope; a shape mismatch is a serialization error.
pub fn parse_envelope(b: &[u8]) -> (r: Result<EncryptedData, Error>)
    ensures
        match spec_envelope_parse(b@) {
            Some(ed) => r matches Ok(e) && e@ == ed && e@.data.ciphertext.len() + 64 == b@.len(),
            None => r matches Err(e) && e.is_serialization(),
        },
    {
    if b.len() < 64 {
        return Err(Error::SerializationError(String::from_str("envelope is too short")));
    }
    let ct_len = u64_from_le_bytes(slice_subrange(b, 56, 64));
    if ct_len > (usize::MAX - 64) as u64 || b.len() != 64 + ct_len as usize {
        return Err(Error::SerializationError(String::from_str("envelope length mismatch")));
    }
    let public_key = array32_from_slice(slice_subrange(b, 0, 32));
    let nonce = array24_from_slice(slice_subrange(b, 32, 56));
    let ciphertext = slice_to_vec(slice_subrange(b, 64, b.len()));
    let e = EncryptedData { public_key, data: Encrypted::assemble(nonce, ciphertext) };
    proof {
        let ed = spec_envelope_parse(b@)->Some_0;
        assert(e@.public_key =~= ed.public_key);
        assert(e@.data.nonce =~= ed.data.nonce);
        assert(e@.data.ciphertext =~= ed.data.ciphertext);
    }
    Ok(e)
}

/// Serializing an envelope and parsing the bytes gives the envelope back.
pub proof fn lemma_envelope_round_trip(ed: EncryptedDataView)
    requires
        ed.public_key.len() == 32,
        ed.data.nonce.len() == 24,
        ed.data.ciphertext.len() <= u64::MAX,
    ensures
        spec_envelope_parse(spec_envelope(ed)) == Some(ed),
{
    let enc = spec_envelope(ed);
    vstd::bytes::lemma_auto_spec_u64_to_from_le_bytes();
    assert(spec_u64_to_le_bytes(ed.data.ciphertext.len() as u64).len() == 8);
    assert(enc.len() == 64 + ed.data.ciphertext.len());
    assert(enc.subrange(56, 64) =~= spec_u64_to_le_bytes(ed.data.ciphertext.len() as u64));
    let parsed = spec_envelope_parse(enc)->Some_0;
    assert(parsed.public_key =~= ed.public_key);
    assert(parsed.data.nonce =~= ed.data.nonce);
    assert(parsed.data.ciphertext =~= ed.data.ciphertext);
}

/// The byte sum of a string, as an unbounded integer.
pub open spec fn checksum_int(b: Seq<u8>) -> int
    decreases b.len(),
{
    if b.len() == 0 {
        0
    } else {
        checksum_int(b.drop_last()) + b.last()
    }
}

/// The framing checksum: the byte sum of the envelope modulo 2^32.
pub open spec fn spec_checksum(b: Seq<u8>) -> u32 {
    (checksum_int(b) % 0x1_0000_0000) as u32
}

/// Compute the framing checksum of a byte string.
pub fn checksum(b: &[u8]) -> (r: u32)
    ensures
        r == spec_checksum(b@),
{
    let n = b.len();
    let mut acc: u32 = 0;
    let mut i: usize = 0;
    proof {
        assert(b@.take(0) =~= Seq::<u8>::empty());
    }
    while i < n
        invariant
            n == b@.len(),
            i <= n,
            acc == checksum_int(b@.take(i as int)) % 0x1_0000_0000,
        decreases n - i,
    {
        proof {
            assert(b@.take(i + 1).drop_last() =~= b@.take(i as int));
            assert(b@.take(i + 1).last() == b@[i as int]);
            lemma_add_mod_noop(checksum_int(b@.take(i as int)), b@[i as int] as int, 0x1_0000_0000);
        }
        acc = ((acc as u64 + b[i] as u64) % 0x1_0000_0000) as u32;
        i += 1;
    }
    proof {
        assert(b@.take(n as int) =~= b@);
    }
    acc
}

/// The ghost value of a `Packet`.
pub struct PacketView {
    pub len: u16,
    pub chk: u32,
    pub val: EncryptedDataView,
}

/// One framed C2 unit: declared envelope length, checksum, envelope.
#[derive(Clone)]
pub struct Packet {
    pub len: u16,
    pub chk: u32,
    pub val: EncryptedData,
}

impl View for Packet {
    type V = PacketView;

    open spec fn view(&self) -> PacketView {
        PacketView { len: self.len, chk: self.chk, val: self.val@ }
    }
}

/// The wire bytes of a packet: length, checksum, envelope.
pub open spec fn spec_packet_bytes(p: PacketView) -> Seq<u8> {
    spec_u16_to_le_bytes(p.len) + spec_u32_to_le_bytes(p.chk) + spec_envelope(p.val)
}

impl Packet {
    /// A well-formed packet declares the envelope's true length and carries
    /// its checksum.
    pub open spec fn wf(&self) -> bool {
        &&& self@.len == spec_envelope(self@.val).len()
        &&& self@.chk == spec_checksum(spec_envelope(self@.val))
    }

    /// Frame an envelope, computing its length and checksum; an envelope too
    /// long for the 2-byte length field is a coding error.
    pub fn from_data(val: EncryptedData) -> (r: Result<Packet, Error>)
        ensures
            match r {
                Ok(p) => p.wf() && p@.val == val@ && 64 + val@.data.ciphertext.len()
                    <= u16::MAX,
                Err(e) => e.is_coding() && 64 + val@.data.ciphertext.len() > u16::MAX,
            },
    {
        let env = serialize_envelope(&val);
        if env.len() > u16::MAX as usize {
            return Err(Error::CodingError(String::from_str("envelope is too large to frame")));
        }
        let len = env.len() as u16;
        let chk = checksum(env.as_slice());
        Ok(Packet { len, chk, val })
    }

    pub fn len(&self) -> (r: u16)
        ensures
            r == self@.len,
    {
        self.len
    }

    pub fn chk(&self) -> (r: u32)
        ensures
            r == self@.chk,
    {
        self.chk
    }

    /// Serialize for the wire: `len:u16-LE | chk:u32-LE | envelope`.
    pub fn to_bytes(&self) -> (r: Result<Vec<u8>, Error>)
        ensures
            r matches Ok(b) && b@ == spec_packet_bytes(self@),
    {
        let mut bytes: Vec<u8> = Vec::new();
        let mut len_bytes = u16_to_le_bytes(self.len);
        bytes.append(&mut len_bytes);
        let mut chk_bytes = u32_to_le_bytes(self.chk);
        bytes.append(&mut chk_bytes);
        let mut env = serialize_envelope(&self.val);
        bytes.append(&mut env);
        proof {
            assert(bytes@ =~= spec_packet_bytes(self@));
        }
        Ok(bytes)
    }
}

} // verus!
