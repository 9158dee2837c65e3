//! Operator <-> server frame codec.
//!
//! Wire layout: `opcode:1 byte | length:4 bytes little-endian |
//! payload:length bytes`.  The decoder never consumes input until a complete
//! frame is available, and rejects a declared length above the ceiling as
//! soon as the header is readable, however few payload bytes have arrived.

use crate::api::op::{opcode_byte, opcode_of_byte, spec_encode, Message, MessageView, OpCode};
use crate::error::Error;
use vstd::bytes::{spec_u32_from_le_bytes, spec_u32_to_le_bytes, u32_from_le_bytes};
use vstd::prelude::*;

verus! {

/// Ceiling on a declared payload length: 120 MiB.
pub const MAX_FRAME_SIZE: usize = 120 * 1024 * 1024;

/// What a buffer holds, as seen by the decoder.
pub enum OpScan {
    /// No complete frame yet: wait for more bytes.
    Incomplete,
    /// The first byte is not an assigned opcode.
    BadOp(u8),
    /// The declared length exceeds the ceiling.
    TooLarge(u32),
    /// One complete frame, starting at the head of the buffer.
    Frame(MessageView),
}

/// The payload length the buffered header declares.
pub open spec fn op_declared_len(buf: Seq<u8>) -> u32 {
    spec_u32_from_le_bytes(buf.subrange(1, 5))
}

/// The decoder's verdict on a buffer: scan the header progressively, exactly
/// as the executable decoder does.
pub open spec fn op_scan(buf: Seq<u8>) -> OpScan {
    if buf.len() < 1 {
        OpScan::Incomplete
    } else if opcode_of_byte(buf[0]) is None {
        OpScan::BadOp(buf[0])
    } else if buf.len() < 5 {
        OpScan::Incomplete
    } else {
        let len = op_declared_len(buf);
        if len > MAX_FRAME_SIZE as u32 {
            OpScan::TooLarge(len)
        } else if buf.len() < 5 + len {
            OpScan::Incomplete
        } else {
            OpScan::Frame(
                MessageView {
                    top: opcode_of_byte(buf[0])->Some_0,
                    len,
                    val: buf.subrange(5, 5 + len as int),
                },
            )
        }
    }
}

/// Operator-side frame codec.
#[derive(Copy, Clone, Debug)]
pub struct OpCodec {}

impl OpCodec {
    /// Append the wire bytes of `item` to `dst`; a message whose declared
    /// length exceeds the ceiling is refused before anything is written.
    pub fn encode(&mut self, item: Message, dst: &mut Vec<u8>) -> (r: Result<(), Error>)
        ensures
            item@.len > MAX_FRAME_SIZE as u32 ==> (r matches Err(e) && e.is_coding()
                && final(dst)@ == old(dst)@),
            item@.len <= MAX_FRAME_SIZE as u32 ==> r is Ok && final(dst)@ == old(dst)@
                + spec_encode(item@),
    {
        if item.len() as usize > MAX_FRAME_SIZE {
            return Err(Error::CodingError(String::from_str("frame is too large")));
        }
        let bytes = match item.to_bytes() {
            Ok(b) => b,
            Err(e) => {
                return Err(e);
            },
        };
        dst.extend_from_slice(bytes.as_slice());
        Ok(())
    }

    /// Try to take one frame off the head of `src`.
    ///
    /// Returns `Ok(None)` ("need more data") without consuming anything while
    /// the buffer holds less than a whole frame; fails without consuming
    /// anything on an unassigned opcode or an oversized declared length; and
    /// on success consumes exactly the frame's bytes.
    pub fn decode(&mut self, src: &mut Vec<u8>) -> (r: Result<Option<Message>, Error>)
        ensures
            match op_scan(old(src)@) {
                OpScan::Incomplete => (r matches Ok(m) && m is None) && final(src)@ == old(src)@,
                OpScan::BadOp(_) => (r matches Err(e) && e.is_coding()) && final(src)@ == old(src)@,
                OpScan::TooLarge(_) => (r matches Err(e) && e.is_coding()) && final(src)@ == old(src)@,
                OpScan::Frame(mv) => (r matches Ok(m) && m matches Some(m) && m@.top == mv.top
                    && m@.len == mv.len && m@.val == mv.val) && final(src)@
                    == old(src)@.subrange(5 + mv.len as int, old(src)@.len() as int),
            },
    {
        if src.len() < 1 {
            // not enough data to read the opcode
            return Ok(None);
        }
        let op_code = match OpCode::from_byte(src[0]) {
            Ok(op) => op,
            Err(e) => {
                return Err(e);
            },
        };
        if src.len() < 5 {
            // not enough data to read the length
            return Ok(None);
        }
        let len = u32_from_le_bytes(vstd::slice::slice_subrange(src.as_slice(), 1, 5));
        if len as usize > MAX_FRAME_SIZE {
            return Err(Error::CodingError(String::from_str("frame is too large")));
        }
        if src.len() < 5 + len as usize {
            // the full frame has not been received yet: reserve space for the
            // remainder and wait
            src.reserve(5 + len as usize - src.len());
            return Ok(None);
        }
        let payload = vstd::slice::slice_subrange(src.as_slice(), 5, 5 + len as usize);
        let m = Message::new(op_code, len, payload);
        let rest = src.split_off(5 + len as usize);
        *src = rest;
        Ok(Some(m))
    }
}

/// Round-trip: the wire bytes of any valid message scan back to that exact
/// message, with nothing left over.
pub proof fn lemma_op_round_trip(m: MessageView)
    requires
        m.len == m.val.len(),
        m.len <= MAX_FRAME_SIZE as u32,
    ensures
        op_scan(spec_encode(m)) matches OpScan::Frame(mv) && mv.top == m.top && mv.len == m.len
            && mv.val == m.val,
{
    let enc = spec_encode(m);
    vstd::bytes::lemma_auto_spec_u32_to_from_le_bytes();
    assert(spec_u32_to_le_bytes(m.len).len() == 4);
    assert(enc[0] == opcode_byte(m.top));
    crate::api::op::lemma_opcode_byte_inverse(m.top);
    assert(enc.subrange(1, 5) =~= spec_u32_to_le_bytes(m.len));
    assert(op_declared_len(enc) == m.len);
    assert(enc.len() == 5 + m.len);
    assert(enc.subrange(5, 5 + m.len as int) =~= m.val);
}

/// Fragmentation-independence: any strict prefix of a valid message's wire
/// bytes scans to "need more data"; only the whole frame decodes.
pub proof fn lemma_op_fragmentation(m: MessageView, i: int)
    requires
        m.len == m.val.len(),
        m.len <= MAX_FRAME_SIZE as u32,
        0 <= i < spec_encode(m).len(),
    ensures
        op_scan(spec_encode(m).take(i)) is Incomplete,
{
    let enc = spec_encode(m);
    let pre = enc.take(i);
    vstd::bytes::lemma_auto_spec_u32_to_from_le_bytes();
    assert(spec_u32_to_le_bytes(m.len).len() == 4);
    assert(enc.len() == 5 + m.len);
    if i >= 1 {
        assert(pre[0] == opcode_byte(m.top));
        crate::api::op::lemma_opcode_byte_inverse(m.top);
        if i >= 5 {
            assert(pre.subrange(1, 5) =~= spec_u32_to_le_bytes(m.len));
            assert(op_declared_len(pre) == m.len);
            assert(pre.len() < 5 + m.len);
        }
    }
}

/// Size bound: once five bytes of header declare a length above the ceiling,
/// the verdict is a coding error, and no amount of further data changes it.
pub proof fn lemma_op_size_bound(buf: Seq<u8>, ext: Seq<u8>)
    requires
        buf.len() >= 5,
        opcode_of_byte(buf[0]) is Some,
        op_declared_len(buf) > MAX_FRAME_SIZE as u32,
    ensures
        op_scan(buf) is TooLarge,
        op_scan(buf + ext) is TooLarge,
{
    let all = buf + ext;
    assert(all[0] == buf[0]);
    assert(all.subrange(1, 5) =~= buf.subrange(1, 5));
}

} // verus!
