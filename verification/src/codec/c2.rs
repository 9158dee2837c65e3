//! Server <-> agent frame codec.
//!
//! Wire layout: `len:u16-LE | chk:u32-LE | envelope:len bytes`.  Same
//! progressive-availability discipline as the operator dialect, with a lower
//! ceiling.  The checksum covers the envelope and is verified on decode: a
//! mismatch is a coding error, and the bad frame is dropped whole.

use crate::error::Error;
use crate::packet::{
    parse_envelope, spec_checksum, spec_envelope, spec_envelope_parse, spec_packet_bytes, Packet,
    PacketView,
};
use vstd::bytes::{
    spec_u16_from_le_bytes, spec_u16_to_le_bytes, spec_u32_from_le_bytes, spec_u32_to_le_bytes,
    u16_from_le_bytes, u32_from_le_bytes,
};
use vstd::prelude::*;
use vstd::slice::slice_subrange;

verus! {

/// Ceiling on a declared envelope length: 8 MiB.  (With a 2-byte length field
/// the ceiling cannot actually be exceeded; the guard is kept because the
/// discipline asks for it on every dialect.)
pub const MAX_FRAME_SIZE: usize = 8 * 1024 * 1024;

/// What a buffer holds, as seen by the decoder.
pub enum C2Scan {
    /// No complete frame yet: wait for more bytes.
    Incomplete,
    /// The declared length exceeds the ceiling.
    TooLarge(u16),
    /// A complete frame whose checksum does not match its envelope.
    BadChecksum(u32, u32),
    /// A complete, checksummed frame whose envelope bytes do not deserialize.
    BadEnvelope,
    /// One complete frame, starting at the head of the buffer.
    Frame(PacketView),
}

/// The envelope length the buffered header declares.
pub open spec fn c2_declared_len(buf: Seq<u8>) -> u16 {
    spec_u16_from_le_bytes(buf.subrange(0, 2))
}

/// The decoder's verdict on a buffer: scan the header progressively, exactly
/// as the executable decoder does.
pub open spec fn c2_scan(buf: Seq<u8>) -> C2Scan {
    if buf.len() < 6 {
        C2Scan::Incomplete
    } else {
        let len = c2_declared_len(buf);
        let chk = spec_u32_from_le_bytes(buf.subrange(2, 6));
        if len as int > MAX_FRAME_SIZE as int {
            C2Scan::TooLarge(len)
        } else if buf.len() < 6 + len {
            C2Scan::Incomplete
        } else {
            let env = buf.subrange(6, 6 + len as int);
            if chk != spec_checksum(env) {
                C2Scan::BadChecksum(chk, spec_checksum(env))
            } else {
                match spec_envelope_parse(env) {
                    Some(ed) => C2Scan::Frame(PacketView { len, chk, val: ed }),
                    None => C2Scan::BadEnvelope,
                }
            }
        }
    }
}

/// Agent-side frame codec.
pub struct C2Codec {}

impl C2Codec {
    /// Append the wire bytes of `item` to `dst`; a packet whose declared
    /// length exceeds the ceiling is refused before anything is written.
    pub fn encode(&mut self, item: Packet, dst: &mut Vec<u8>) -> (r: Result<(), Error>)
        ensures
            item@.len as int > MAX_FRAME_SIZE as int ==> (r matches Err(e) && e.is_coding()
                && final(dst)@ == old(dst)@),
            item@.len as int <= MAX_FRAME_SIZE as int ==> r is Ok && final(dst)@ == old(dst)@
                + spec_packet_bytes(item@),
    {
        if item.len() as usize > MAX_FRAME_SIZE {
            return Err(Error::CodingError(String::from_str("frame is too large")));
        }
        let bytes = match item.to_bytes() {
            Ok(b) => b,
            Err(e) => {
                return Err(e);
            },
        };
        dst.extend_from_slice(bytes.as_slice());
        Ok(())
    }

    /// Try to take one frame off the head of `src`.
    ///
    /// Returns `Ok(None)` ("need more data") without consuming anything while
    /// the buffer holds less than a whole frame; fails without consuming
    /// anything on an oversized declared length; drops a complete frame whose
    /// checksum or envelope is bad, failing; and on success consumes exactly
    /// the frame's bytes.
    pub fn decode(&mut self, src: &mut Vec<u8>) -> (r: Result<Option<Packet>, Error>)
        ensures
            match c2_scan(old(src)@) {
                C2Scan::Incomplete => (r matches Ok(m) && m is None) && final(src)@ == old(src)@,
                C2Scan::TooLarge(_) => (r matches Err(e) && e.is_coding()) && final(src)@ == old(src)@,
                C2Scan::BadChecksum(_, _) => (r matches Err(e) && e.is_coding()) && final(src)@
                    == old(src)@.subrange(
                    6 + c2_declared_len(old(src)@) as int,
                    old(src)@.len() as int,
                ),
                C2Scan::BadEnvelope => (r matches Err(e) && e.is_serialization()) && final(src)@
                    == old(src)@.subrange(
                    6 + c2_declared_len(old(src)@) as int,
                    old(src)@.len() as int,
                ),
                C2Scan::Frame(pv) => (r matches Ok(m) && m matches Some(p) && p@ == pv)
                    && final(src)@ == old(src)@.subrange(6 + pv.len as int, old(src)@.len() as int),
            },
    {
        if src.len() < 6 {
            // not enough data to read the length and checksum
            return Ok(None);
        }
        let len = u16_from_le_bytes(slice_subrange(src.as_slice(), 0, 2));
        let chk = u32_from_le_bytes(slice_subrange(src.as_slice(), 2, 6));
        if len as usize > MAX_FRAME_SIZE {
            return Err(Error::CodingError(String::from_str("frame is too large")));
        }
        if src.len() < 6 + len as usize {
            // the full frame has not been received yet: reserve space for the
            // remainder and wait
            src.reserve(6 + len as usize - src.len());
            return Ok(None);
        }
        let env = slice_subrange(src.as_slice(), 6, 6 + len as usize);
        let actual = crate::packet::checksum(env);
        if chk != actual {
            // drop the bad frame whole
            let rest = src.split_off(6 + len as usize);
            *src = rest;
            return Err(Error::CodingError(String::from_str("checksum mismatch")));
        }
        let parsed = parse_envelope(env);
        let rest = src.split_off(6 + len as usize);
        *src = rest;
        match parsed {
            Ok(val) => Ok(Some(Packet { len, chk, val })),
            Err(e) => Err(e),
        }
    }
}

/// Round-trip: the wire bytes of any well-formed packet scan back to that
/// exact packet, with nothing left over.
pub proof fn lemma_c2_round_trip(p: PacketView)
    requires
        p.len == spec_envelope(p.val).len(),
        p.chk == spec_checksum(spec_envelope(p.val)),
        p.val.public_key.len() == 32,
        p.val.data.nonce.len() == 24,
    ensures
        c2_scan(spec_packet_bytes(p)) matches C2Scan::Frame(pv) && pv == p,
{
    let env = spec_envelope(p.val);
    let enc = spec_packet_bytes(p);
    vstd::bytes::lemma_auto_spec_u16_to_from_le_bytes();
    vstd::bytes::lemma_auto_spec_u32_to_from_le_bytes();
    vstd::bytes::lemma_auto_spec_u64_to_from_le_bytes();
    assert(spec_u16_to_le_bytes(p.len).len() == 2);
    assert(spec_u32_to_le_bytes(p.chk).len() == 4);
    assert(enc.len() == 6 + env.len());
    assert(enc.subrange(0, 2) =~= spec_u16_to_le_bytes(p.len));
    assert(enc.subrange(2, 6) =~= spec_u32_to_le_bytes(p.chk));
    assert(p.len as int <= MAX_FRAME_SIZE as int);
    assert(enc.subrange(6, 6 + p.len as int) =~= env);
    assert(env.len() == 64 + p.val.data.ciphertext.len());
    crate::packet::lemma_envelope_round_trip(p.val);
}

/// Fragmentation-independence: any strict prefix of a well-formed packet's
/// wire bytes scans to "need more data"; only the whole frame decodes.
pub proof fn lemma_c2_fragmentation(p: PacketView, i: int)
    requires
        p.len == spec_envelope(p.val).len(),
        p.chk == spec_checksum(spec_envelope(p.val)),
        0 <= i < spec_packet_bytes(p).len(),
    ensures
        c2_scan(spec_packet_bytes(p).take(i)) is Incomplete,
{
    let env = spec_envelope(p.val);
    let enc = spec_packet_bytes(p);
    let pre = enc.take(i);
    vstd::bytes::lemma_auto_spec_u16_to_from_le_bytes();
    vstd::bytes::lemma_auto_spec_u32_to_from_le_bytes();
    assert(spec_u16_to_le_bytes(p.len).len() == 2);
    assert(spec_u32_to_le_bytes(p.chk).len() == 4);
    assert(enc.len() == 6 + env.len());
    if i >= 6 {
        assert(pre.subrange(0, 2) =~= enc.subrange(0, 2));
        assert(enc.subrange(0, 2) =~= spec_u16_to_le_bytes(p.len));
        assert(c2_declared_len(pre) == p.len);
        assert(p.len as int <= MAX_FRAME_SIZE as int);
        assert(pre.len() < 6 + p.len);
    }
}

} // verus!
