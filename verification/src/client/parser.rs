//! The operator line parser: `<OPCODE> [ARG]` becomes one typed `Message`.

use crate::api::op::{opcode_of_name, upper_bytes, Message, OpCode};
use crate::client::error::Error;
use crate::server::handler::{first_token, is_space, skip_spaces, spec_first_token};
use vstd::prelude::*;
use vstd::slice::slice_subrange;
use vstd::string::StringSliceAdditionalSpecFns;

verus! {

/// A byte string with its trailing whitespace removed.
pub open spec fn skip_spaces_end(b: Seq<u8>) -> Seq<u8>
    decreases b.len(),
{
    if b.len() > 0 && is_space(b.last()) {
        skip_spaces_end(b.drop_last())
    } else {
        b
    }
}

/// A byte string trimmed of whitespace at both ends.
pub open spec fn trim_spaces(b: Seq<u8>) -> Seq<u8> {
    skip_spaces_end(skip_spaces(b))
}

/// The position of the first space byte, if any.
pub open spec fn space_pos(b: Seq<u8>) -> Option<int>
    decreases b.len(),
{
    if b.len() == 0 {
        None
    } else if b.first() == 32 {
        Some(0)
    } else {
        match space_pos(b.drop_first()) {
            Some(p) => Some(p + 1),
            None => None,
        }
    }
}

/// When the first `k` bytes are not spaces and byte `k` is one, the first
/// space stands at `k`.
proof fn lemma_space_pos_hit(b: Seq<u8>, k: int)
    requires
        0 <= k < b.len(),
        b[k] == 32,
        forall|m: int| 0 <= m < k ==> b[m] != 32,
    ensures
        space_pos(b) == Some(k),
    decreases k,
{
    if k > 0 {
        lemma_space_pos_hit(b.drop_first(), k - 1);
    }
}

/// When no byte is a space, there is no first space.
proof fn lemma_space_pos_miss(b: Seq<u8>)
    requires
        forall|m: int| 0 <= m < b.len() ==> b[m] != 32,
    ensures
        space_pos(b) is None,
    decreases b.len(),
{
    if b.len() > 0 {
        lemma_space_pos_miss(b.drop_first());
    }
}

/// What one input line means: nothing, a parsed message, or a rejection.
///
/// The line is trimmed of whitespace; an empty line carries no message.  If
/// the trimmed line splits at a space, the part before the space names the
/// opcode and everything after it is the payload.  Otherwise the line's first
/// whitespace-separated token names the opcode and the payload is empty.
pub open spec fn spec_parse_line(b: Seq<u8>) -> ParseOutcome {
    if b.len() == 0 {
        ParseOutcome::Nothing
    } else {
        let t = trim_spaces(b);
        match space_pos(t) {
            Some(k) => {
                match opcode_of_name(upper_bytes(t.subrange(0, k))) {
                    Some(op) => ParseOutcome::Parsed(op, t.subrange(k + 1, t.len() as int)),
                    None => ParseOutcome::Rejected,
                }
            },
            None => {
                match spec_first_token(t) {
                    None => ParseOutcome::Nothing,
                    Some(tok) => {
                        match opcode_of_name(upper_bytes(tok)) {
                            Some(op) => ParseOutcome::Parsed(op, Seq::empty()),
                            None => ParseOutcome::Rejected,
                        }
                    },
                }
            },
        }
    }
}

/// The meaning of one input line.
pub enum ParseOutcome {
    /// An empty or all-whitespace line: nothing to send.
    Nothing,
    /// An opcode and the payload bytes that follow it.
    Parsed(OpCode, Seq<u8>),
    /// The opcode is not recognised: the line is rejected with the usage
    /// text.
    Rejected,
}

/// Parse one operator line into a message.  The message's declared length
/// equals its payload length (truncated to 32 bits, as on the wire).
pub fn parse_line(line: &str) -> (r: Result<Option<Message>, Error>)
    ensures
        match spec_parse_line(line.spec_bytes()) {
            ParseOutcome::Nothing => r matches Ok(m) && m is None,
            ParseOutcome::Parsed(op, val) => r matches Ok(m) && m matches Some(m) && m@.top == op
                && m@.val == val && m@.len == val.len() as u32,
            ParseOutcome::Rejected => r matches Err(e) && e.is_invalid_value(),
        },
{
    let b = line.as_bytes();
    if b.len() == 0 {
        return Ok(None);
    }
    let n = b.len();
    // trim leading whitespace
    let mut start: usize = 0;
    proof {
        assert(b@.skip(0) =~= b@);
    }
    while start < n && is_space_at(b, start)
        invariant
            n == b@.len(),
            start <= n,
            skip_spaces(b@) == skip_spaces(b@.skip(start as int)),
        decreases n - start,
    {
        proof {
            assert(b@.skip(start as int).first() == b@[start as int]);
            assert(b@.skip(start as int).drop_first() =~= b@.skip(start + 1));
        }
        start += 1;
    }
    proof {
        if start < n {
            assert(b@.skip(start as int).first() == b@[start as int]);
        }
        assert(skip_spaces(b@.skip(start as int)) == b@.skip(start as int));
    }
    let ghost s0 = b@.skip(start as int);
    // trim trailing whitespace
    let mut end: usize = n;
    proof {
        assert(s0.take(n - start) =~= s0);
    }
    while end > start && is_space_at(b, end - 1)
        invariant
            n == b@.len(),
            start <= end <= n,
            s0 == b@.skip(start as int),
            skip_spaces_end(s0) == skip_spaces_end(s0.take(end - start)),
        decreases end,
    {
        proof {
            assert(s0.take(end - start).last() == b@[end - 1]);
            assert(s0.take(end - start).drop_last() =~= s0.take(end - 1 - start));
        }
        end -= 1;
    }
    proof {
        if end > start {
            assert(s0.take(end - start).last() == b@[end - 1]);
        }
        assert(skip_spaces_end(s0.take(end - start)) == s0.take(end - start));
        assert(trim_spaces(b@) == s0.take(end - start));
        assert(s0.take(end - start) =~= b@.subrange(start as int, end as int));
    }
    let t = slice_subrange(b, start, end);
    // split at the first space, if any
    let m = t.len();
    let mut k: usize = 0;
    let mut found = false;
    while k < m && !found
        invariant
            m == t@.len(),
            k <= m,
            found ==> k < m && t@[k as int] == 32,
            forall|j: int| 0 <= j < k ==> t@[j] != 32,
        decreases m - k + (if found { 0int } else { 1int }),
    {
        if t[k] == 32 {
            found = true;
        } else {
            k += 1;
        }
    }
    if found {
        proof {
            lemma_space_pos_hit(t@, k as int);
        }
        let op_tok = slice_subrange(t, 0, k);
        let val = slice_subrange(t, k + 1, t.len());
        let top = match OpCode::from_token(op_tok) {
            Ok(op) => op,
            Err(_) => {
                return Err(Error::InvalidValue(help_text()));
            },
        };
        let len = val.len() as u32;
        Ok(Some(Message::new(top, len, val)))
    } else {
        proof {
            lemma_space_pos_miss(t@);
        }
        match first_token(t) {
            None => Ok(None),
            Some(tok) => {
                let top = match OpCode::from_token(tok.as_slice()) {
                    Ok(op) => op,
                    Err(_) => {
                        return Err(Error::InvalidValue(help_text()));
                    },
                };
                let val: Vec<u8> = Vec::new();
                Ok(Some(Message::new(top, 0, val.as_slice())))
            },
        }
    }
}

/// The usage text shown when a line is rejected.
fn help_text() -> String {
    String::from_str(
        "
# data
get k
set k v
query 'select a from b order by c'
# proc
start id
stop id
sleep s
# unsafe
suget K
suset K V
shutdown",
    )
}

/// Whether the byte at `i` is ASCII whitespace.
fn is_space_at(b: &[u8], i: usize) -> (r: bool)
    requires
        i < b@.len(),
    ensures
        r == is_space(b@[i as int]),
{
    let c = b[i];
    c == 32 || c == 9 || c == 10 || c == 13 || c == 11 || c == 12
}

} // verus!
