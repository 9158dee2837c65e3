//! Operator <-> server ("Op") message model.
//!
//! A `Message` is one typed frame: an opcode, a declared payload length and
//! the payload bytes.  On the wire it is laid out as
//! `opcode:1 byte | length:4 bytes little-endian | payload:length bytes`.

use crate::error::Error;
use vstd::bytes::spec_u32_to_le_bytes;
use vstd::prelude::*;
use vstd::string::StringSliceAdditionalSpecFns;

verus! {

/// Opcodes, serialized as a single byte.
#[derive(Debug, Copy, Clone, PartialEq, Eq, Structural)]
pub enum OpCode {
    GET,
    SET,
    QUERY,
    START,
    STOP,
    SLEEP,
    SUGET,
    SUSET,
    SHUTDOWN,
}

/// The single byte that carries an opcode on the wire.
pub open spec fn opcode_byte(op: OpCode) -> u8 {
    match op {
        OpCode::GET => 0x00,
        OpCode::SET => 0x01,
        OpCode::QUERY => 0x10,
        OpCode::START => 0x20,
        OpCode::STOP => 0x21,
        OpCode::SLEEP => 0x22,
        OpCode::SUGET => 0xF0,
        OpCode::SUSET => 0xF1,
        OpCode::SHUTDOWN => 0xFF,
    }
}

/// The opcode a wire byte stands for, if any.
pub open spec fn opcode_of_byte(b: u8) -> Option<OpCode> {
    if b == 0x00 {
        Some(OpCode::GET)
    } else if b == 0x01 {
        Some(OpCode::SET)
    } else if b == 0x10 {
        Some(OpCode::QUERY)
    } else if b == 0x20 {
        Some(OpCode::START)
    } else if b == 0x21 {
        Some(OpCode::STOP)
    } else if b == 0x22 {
        Some(OpCode::SLEEP)
    } else if b == 0xF0 {
        Some(OpCode::SUGET)
    } else if b == 0xF1 {
        Some(OpCode::SUSET)
    } else if b == 0xFF {
        Some(OpCode::SHUTDOWN)
    } else {
        None
    }
}

/// Decoding a byte undoes encoding an opcode: the wire byte assignment is
/// injective.
pub proof fn lemma_opcode_byte_inverse(op: OpCode)
    ensures
        opcode_of_byte(opcode_byte(op)) == Some(op),
{
}

/// A byte uppercased as ASCII; other bytes are unchanged.
pub open spec fn upper_byte(b: u8) -> u8 {
    if 'a' as u8 <= b && b <= 'z' as u8 {
        (b - 32) as u8
    } else {
        b
    }
}

/// A byte string uppercased as ASCII.
pub open spec fn upper_bytes(s: Seq<u8>) -> Seq<u8> {
    s.map_values(|b: u8| upper_byte(b))
}

/// The canonical (upper-case) name of an opcode, as bytes.
pub open spec fn opcode_name(op: OpCode) -> Seq<u8> {
    match op {
        OpCode::GET => seq!['G' as u8, 'E' as u8, 'T' as u8],
        OpCode::SET => seq!['S' as u8, 'E' as u8, 'T' as u8],
        OpCode::QUERY => seq!['Q' as u8, 'U' as u8, 'E' as u8, 'R' as u8, 'Y' as u8],
        OpCode::START => seq!['S' as u8, 'T' as u8, 'A' as u8, 'R' as u8, 'T' as u8],
        OpCode::STOP => seq!['S' as u8, 'T' as u8, 'O' as u8, 'P' as u8],
        OpCode::SLEEP => seq!['S' as u8, 'L' as u8, 'E' as u8, 'E' as u8, 'P' as u8],
        OpCode::SUGET => seq!['S' as u8, 'U' as u8, 'G' as u8, 'E' as u8, 'T' as u8],
        OpCode::SUSET => seq!['S' as u8, 'U' as u8, 'S' as u8, 'E' as u8, 'T' as u8],
        OpCode::SHUTDOWN => seq![
            'S' as u8,
            'H' as u8,
            'U' as u8,
            'T' as u8,
            'D' as u8,
            'O' as u8,
            'W' as u8,
            'N' as u8,
        ],
    }
}

/// The opcode whose canonical name equals `n`, if any; `n` is expected
/// already uppercased.
pub open spec fn opcode_of_name(n: Seq<u8>) -> Option<OpCode> {
    if n == opcode_name(OpCode::GET) {
        Some(OpCode::GET)
    } else if n == opcode_name(OpCode::SET) {
        Some(OpCode::SET)
    } else if n == opcode_name(OpCode::QUERY) {
        Some(OpCode::QUERY)
    } else if n == opcode_name(OpCode::START) {
        Some(OpCode::START)
    } else if n == opcode_name(OpCode::STOP) {
        Some(OpCode::STOP)
    } else if n == opcode_name(OpCode::SLEEP) {
        Some(OpCode::SLEEP)
    } else if n == opcode_name(OpCode::SUGET) {
        Some(OpCode::SUGET)
    } else if n == opcode_name(OpCode::SUSET) {
        Some(OpCode::SUSET)
    } else if n == opcode_name(OpCode::SHUTDOWN) {
        Some(OpCode::SHUTDOWN)
    } else {
        None
    }
}

/// The canonical name of an opcode, as text.
pub open spec fn opcode_name_chars(op: OpCode) -> Seq<char> {
    match op {
        OpCode::GET => "GET"@,
        OpCode::SET => "SET"@,
        OpCode::QUERY => "QUERY"@,
        OpCode::START => "START"@,
        OpCode::STOP => "STOP"@,
        OpCode::SLEEP => "SLEEP"@,
        OpCode::SUGET => "SUGET"@,
        OpCode::SUSET => "SUSET"@,
        OpCode::SHUTDOWN => "SHUTDOWN"@,
    }
}

/// The canonical name of an opcode, as owned bytes.
fn name_vec(op: OpCode) -> (r: Vec<u8>)
    ensures
        r@ == opcode_name(op),
{
    let r: Vec<u8> = match op {
        OpCode::GET => vec!['G' as u8, 'E' as u8, 'T' as u8],
        OpCode::SET => vec!['S' as u8, 'E' as u8, 'T' as u8],
        OpCode::QUERY => vec!['Q' as u8, 'U' as u8, 'E' as u8, 'R' as u8, 'Y' as u8],
        OpCode::START => vec!['S' as u8, 'T' as u8, 'A' as u8, 'R' as u8, 'T' as u8],
        OpCode::STOP => vec!['S' as u8, 'T' as u8, 'O' as u8, 'P' as u8],
        OpCode::SLEEP => vec!['S' as u8, 'L' as u8, 'E' as u8, 'E' as u8, 'P' as u8],
        OpCode::SUGET => vec!['S' as u8, 'U' as u8, 'G' as u8, 'E' as u8, 'T' as u8],
        OpCode::SUSET => vec!['S' as u8, 'U' as u8, 'S' as u8, 'E' as u8, 'T' as u8],
        OpCode::SHUTDOWN => vec![
            'S' as u8,
            'H' as u8,
            'U' as u8,
            'T' as u8,
            'D' as u8,
            'O' as u8,
            'W' as u8,
            'N' as u8,
        ],
    };
    proof {
        assert(r@ =~= opcode_name(op));
    }
    r
}

/// Uppercase one byte as ASCII.
fn upper_byte_exec(b: u8) -> (r: u8)
    ensures
        r == upper_byte(b),
{
    if 'a' as u8 <= b && b <= 'z' as u8 {
        b - 32
    } else {
        b
    }
}

/// True exactly when `t`, uppercased as ASCII, equals `name`.
fn bytes_eq_upper(t: &[u8], name: &[u8]) -> (r: bool)
    ensures
        r == (upper_bytes(t@) == name@),
{
    if t.len() != name.len() {
        proof {
            assert(upper_bytes(t@).len() == t@.len());
        }
        return false;
    }
    let n = t.len();
    let mut i: usize = 0;
    while i < n
        invariant
            n == t@.len(),
            t@.len() == name@.len(),
            i <= n,
            forall|k: int| 0 <= k < i ==> upper_byte(t@[k]) == name@[k],
        decreases n - i,
    {
        let ti = upper_byte_exec(t[i]);
        if ti != name[i] {
            proof {
                assert(upper_bytes(t@)[i as int] != name@[i as int]);
            }
            return false;
        }
        i += 1;
    }
    proof {
        assert(upper_bytes(t@) =~= name@);
    }
    true
}

impl OpCode {
    /// The byte this opcode is serialized as.
    pub fn to_byte(&self) -> (r: u8)
        ensures
            r == opcode_byte(*self),
    {
        match self {
            OpCode::GET => 0x00,
            OpCode::SET => 0x01,
            OpCode::QUERY => 0x10,
            OpCode::START => 0x20,
            OpCode::STOP => 0x21,
            OpCode::SLEEP => 0x22,
            OpCode::SUGET => 0xF0,
            OpCode::SUSET => 0xF1,
            OpCode::SHUTDOWN => 0xFF,
        }
    }

    /// Parse a wire byte; an unassigned byte is a coding error.
    pub fn from_byte(b: u8) -> (r: Result<OpCode, Error>)
        ensures
            match r {
                Ok(op) => opcode_of_byte(b) == Some(op),
                Err(e) => opcode_of_byte(b) is None && e.is_coding(),
            },
    {
        if b == 0x00 {
            Ok(OpCode::GET)
        } else if b == 0x01 {
            Ok(OpCode::SET)
        } else if b == 0x10 {
            Ok(OpCode::QUERY)
        } else if b == 0x20 {
            Ok(OpCode::START)
        } else if b == 0x21 {
            Ok(OpCode::STOP)
        } else if b == 0x22 {
            Ok(OpCode::SLEEP)
        } else if b == 0xF0 {
            Ok(OpCode::SUGET)
        } else if b == 0xF1 {
            Ok(OpCode::SUSET)
        } else if b == 0xFF {
            Ok(OpCode::SHUTDOWN)
        } else {
            Err(Error::CodingError(String::from_str("invalid op_code")))
        }
    }

    /// The canonical name, for display.
    pub fn as_str(&self) -> (r: &'static str)
        ensures
            r@ == opcode_name_chars(*self),
    {
        match self {
            OpCode::GET => "GET",
            OpCode::SET => "SET",
            OpCode::QUERY => "QUERY",
            OpCode::START => "START",
            OpCode::STOP => "STOP",
            OpCode::SLEEP => "SLEEP",
            OpCode::SUGET => "SUGET",
            OpCode::SUSET => "SUSET",
            OpCode::SHUTDOWN => "SHUTDOWN",
        }
    }

    /// Parse a textual opcode name held in bytes, ASCII case-insensitively;
    /// anything else is a coding error.
    pub fn from_token(t: &[u8]) -> (r: Result<OpCode, Error>)
        ensures
            match r {
                Ok(op) => opcode_of_name(upper_bytes(t@)) == Some(op),
                Err(e) => opcode_of_name(upper_bytes(t@)) is None && e.is_coding(),
            },
    {
        if bytes_eq_upper(t, name_vec(OpCode::GET).as_slice()) {
            Ok(OpCode::GET)
        } else if bytes_eq_upper(t, name_vec(OpCode::SET).as_slice()) {
            Ok(OpCode::SET)
        } else if bytes_eq_upper(t, name_vec(OpCode::QUERY).as_slice()) {
            Ok(OpCode::QUERY)
        } else if bytes_eq_upper(t, name_vec(OpCode::START).as_slice()) {
            Ok(OpCode::START)
        } else if bytes_eq_upper(t, name_vec(OpCode::STOP).as_slice()) {
            Ok(OpCode::STOP)
        } else if bytes_eq_upper(t, name_vec(OpCode::SLEEP).as_slice()) {
            Ok(OpCode::SLEEP)
        } else if bytes_eq_upper(t, name_vec(OpCode::SUGET).as_slice()) {
            Ok(OpCode::SUGET)
        } else if bytes_eq_upper(t, name_vec(OpCode::SUSET).as_slice()) {
            Ok(OpCode::SUSET)
        } else if bytes_eq_upper(t, name_vec(OpCode::SHUTDOWN).as_slice()) {
            Ok(OpCode::SHUTDOWN)
        } else {
            Err(Error::CodingError(String::from_str("invalid op_code")))
        }
    }

    /// Parse a textual opcode name, ASCII case-insensitively; anything else
    /// is a coding error carrying the rejected text.
    pub fn from_str(s: &str) -> (r: Result<OpCode, Error>)
        ensures
            match r {
                Ok(op) => opcode_of_name(upper_bytes(s.spec_bytes())) == Some(op),
                Err(e) => opcode_of_name(upper_bytes(s.spec_bytes())) is None && e.is_coding(),
            },
    {
        match OpCode::from_token(s.as_bytes()) {
            Ok(op) => Ok(op),
            Err(_) => Err(Error::CodingError(s.to_owned())),
        }
    }
}

/// A typed payload: declared length plus raw bytes.
#[derive(Debug, Clone)]
pub struct Val {
    pub len: u32,
    pub val: Vec<u8>,
}

impl Val {
    /// Whether the declared length agrees with the payload.
    pub open spec fn valid(&self) -> bool {
        self.len == self.val@.len()
    }

    /// Wrap owned bytes, recording their length (truncated to 32 bits, as on
    /// the wire).
    pub fn from_vec(val: Vec<u8>) -> (r: Val)
        ensures
            r.len == val@.len() as u32,
            r.val == val,
            val@.len() <= u32::MAX ==> r.valid(),
    {
        let len = val.len() as u32;
        Val { len, val }
    }

    /// Wrap borrowed bytes, recording their length (truncated to 32 bits, as
    /// on the wire).
    pub fn from_slice(v: &[u8]) -> (r: Val)
        ensures
            r.len == v@.len() as u32,
            r.val@ == v@,
            v@.len() <= u32::MAX ==> r.valid(),
    {
        let val = vstd::slice::slice_to_vec(v);
        let len = val.len() as u32;
        Val { len, val }
    }
}

/// The ghost value of a `Message`.
pub struct MessageView {
    pub top: OpCode,
    pub len: u32,
    pub val: Seq<u8>,
}

/// One complete Op frame: opcode, declared payload length, payload.
#[derive(Debug)]
pub struct Message {
    top: OpCode,
    len: u32,
    val: Vec<u8>,
}

impl View for Message {
    type V = MessageView;

    closed spec fn view(&self) -> MessageView {
        MessageView { top: self.top, len: self.len, val: self.val@ }
    }
}

/// The wire bytes of a message: opcode byte, length little-endian, payload.
pub open spec fn spec_encode(m: MessageView) -> Seq<u8> {
    seq![opcode_byte(m.top)] + spec_u32_to_le_bytes(m.len) + m.val
}

impl Message {
    /// The declared length is owed to equal the payload length; frames on the
    /// wire always satisfy this.
    pub open spec fn valid(&self) -> bool {
        self@.len == self@.val.len()
    }

    pub fn new(top: OpCode, len: u32, val: &[u8]) -> (r: Message)
        ensures
            r@.top == top,
            r@.len == len,
            r@.val == val@,
    {
        Message { top, len, val: vstd::slice::slice_to_vec(val) }
    }

    /// Serialize for the wire: `opcode | len:u32-LE | payload`.
    pub fn to_bytes(&self) -> (r: Result<Vec<u8>, Error>)
        ensures
            r matches Ok(b) && b@ == spec_encode(self@),
    {
        let mut bytes: Vec<u8> = Vec::new();
        bytes.push(self.top.to_byte());
        let mut len_bytes = vstd::bytes::u32_to_le_bytes(self.len);
        bytes.append(&mut len_bytes);
        bytes.extend_from_slice(self.val.as_slice());
        proof {
            assert(bytes@ =~= spec_encode(self@));
        }
        Ok(bytes)
    }

    pub fn top(&self) -> (r: OpCode)
        ensures
            r == self@.top,
    {
        self.top
    }

    pub fn len(&self) -> (r: u32)
        ensures
            r == self@.len,
    {
        self.len
    }

    /// A copy of the payload bytes.
    pub fn val(&self) -> (r: Vec<u8>)
        ensures
            r@ == self@.val,
    {
        let mut r: Vec<u8> = Vec::new();
        r.extend_from_slice(self.val.as_slice());
        r
    }

    pub fn with_top(self, top: OpCode) -> (r: Self)
        ensures
            r@.top == top,
            r@.len == self@.len,
            r@.val == self@.val,
    {
        Message { top, ..self }
    }

    pub fn with_len(self, len: u32) -> (r: Self)
        ensures
            r@.top == self@.top,
            r@.len == len,
            r@.val == self@.val,
    {
        Message { len, ..self }
    }

    pub fn with_val(self, val: &[u8]) -> (r: Self)
        ensures
            r@.top == self@.top,
            r@.len == self@.len,
            r@.val == val@,
    {
        Message { val: vstd::slice::slice_to_vec(val), ..self }
    }
}

} // verus!
