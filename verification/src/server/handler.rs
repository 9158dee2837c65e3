//! The decision core of the serving loop.
//!
//! The transport loop reads bytes, decodes one operator message, and asks
//! this module what to do with it; it then performs the action (listing,
//! query passthrough, or a fixed reply) and sends the answer back to the
//! sender of the frame.  An unmatched opcode is a hard no-op, never silently
//! ignored.

use crate::api::op::{Message, OpCode};
use vstd::prelude::*;

verus! {

/// What the serving loop must do with one decoded operator message.
pub enum RxAction {
    /// Answer with the agents listing (masked key material).
    ListAgents,
    /// Answer with the jobs listing.
    ListJobs,
    /// Pass the query text through to the store, verbatim.  This is a
    /// deliberate trust boundary: only the authenticated operator channel
    /// reaches it.
    RunQuery(Vec<u8>),
    /// Answer "`val: invalid key".
    InvalidKey,
    /// Answer "`val: missing key".
    MissingKey,
    /// Answer "`nyi": the opcode is assigned but not served here.
    NotImplemented,
}

/// ASCII whitespace, as the tokenizer sees it.
pub open spec fn is_space(b: u8) -> bool {
    b == 32 || b == 9 || b == 10 || b == 13 || b == 11 || b == 12
}

/// A byte string with its leading whitespace removed.
pub open spec fn skip_spaces(b: Seq<u8>) -> Seq<u8>
    decreases b.len(),
{
    if b.len() > 0 && is_space(b.first()) {
        skip_spaces(b.drop_first())
    } else {
        b
    }
}

/// The longest whitespace-free prefix.
pub open spec fn take_until_space(b: Seq<u8>) -> Seq<u8>
    decreases b.len(),
{
    if b.len() > 0 && !is_space(b.first()) {
        seq![b.first()] + take_until_space(b.drop_first())
    } else {
        Seq::empty()
    }
}

/// The first whitespace-separated token, if the string holds one.
pub open spec fn spec_first_token(b: Seq<u8>) -> Option<Seq<u8>> {
    if skip_spaces(b).len() == 0 {
        None
    } else {
        Some(take_until_space(skip_spaces(b)))
    }
}

/// Whether a byte is ASCII whitespace.
fn is_space_exec(b: u8) -> (r: bool)
    ensures
        r == is_space(b),
{
    b == 32 || b == 9 || b == 10 || b == 13 || b == 11 || b == 12
}

/// Whether the byte at `i` is ASCII whitespace.
fn is_space_at(b: &[u8], i: usize) -> (r: bool)
    requires
        i < b@.len(),
    ensures
        r == is_space(b@[i as int]),
{
    is_space_exec(b[i])
}

/// Extract the first whitespace-separated token.
pub(crate) fn first_token(b: &[u8]) -> (r: Option<Vec<u8>>)
    ensures
        match (r, spec_first_token(b@)) {
            (Some(v), Some(t)) => v@ == t,
            (None, None) => true,
            _ => false,
        },
{
    let n = b.len();
    let mut i: usize = 0;
    proof {
        assert(b@.skip(0) =~= b@);
    }
    while i < n && is_space_at(b, i)
        invariant
            n == b@.len(),
            i <= n,
            skip_spaces(b@) == skip_spaces(b@.skip(i as int)),
        decreases n - i,
    {
        proof {
            assert(b@.skip(i as int).first() == b@[i as int]);
            assert(b@.skip(i as int).drop_first() =~= b@.skip(i + 1));
        }
        i += 1;
    }
    if i == n {
        proof {
            assert(b@.skip(n as int) =~= Seq::<u8>::empty());
        }
        return None;
    }
    proof {
        assert(b@.skip(i as int).first() == b@[i as int]);
        assert(skip_spaces(b@.skip(i as int)) == b@.skip(i as int));
    }
    let ghost start = i as int;
    let mut tok: Vec<u8> = Vec::new();
    while i < n && !is_space_at(b, i)
        invariant
            n == b@.len(),
            i <= n,
            0 <= start <= i,
            take_until_space(b@.skip(start)) == tok@ + take_until_space(b@.skip(i as int)),
        decreases n - i,
    {
        proof {
            assert(b@.skip(i as int).first() == b@[i as int]);
            assert(b@.skip(i as int).drop_first() =~= b@.skip(i + 1));
            assert(take_until_space(b@.skip(i as int)) == seq![b@[i as int]] + take_until_space(
                b@.skip(i + 1),
            ));
        }
        let c = b[i];
        tok.push(c);
        proof {
            assert(tok@ + take_until_space(b@.skip(i + 1)) =~= take_until_space(b@.skip(start)));
        }
        i += 1;
    }
    proof {
        if i == n {
            assert(b@.skip(n as int) =~= Seq::<u8>::empty());
        } else {
            assert(b@.skip(i as int).first() == b@[i as int]);
        }
        assert(take_until_space(b@.skip(i as int)) =~= Seq::<u8>::empty());
        assert(tok@ =~= take_until_space(b@.skip(start)));
    }
    Some(tok)
}

/// The end of the token that starts at `i`: the first whitespace position at
/// or after `i`, or the end of the string.
pub open spec fn token_end(b: Seq<u8>, i: int) -> int
    decreases b.len() - i,
{
    if !(0 <= i < b.len()) {
        i
    } else if is_space(b[i]) {
        i
    } else {
        token_end(b, i + 1)
    }
}

/// A token's end lies between its start and the end of the string.
proof fn lemma_token_end_bounds(b: Seq<u8>, i: int)
    requires
        0 <= i <= b.len(),
    ensures
        i <= token_end(b, i) <= b.len(),
    decreases b.len() - i,
{
    if i < b.len() && !is_space(b[i]) {
        lemma_token_end_bounds(b, i + 1);
    }
}

/// A run of non-space bytes from `s` that stops at `j` ends the token at `j`.
proof fn lemma_token_end_value(b: Seq<u8>, s: int, j: int)
    requires
        0 <= s <= j <= b.len(),
        forall|m: int| s <= m < j ==> !is_space(b[m]),
        j == b.len() || is_space(b[j]),
    ensures
        token_end(b, s) == j,
    decreases j - s,
{
    if s < j {
        lemma_token_end_value(b, s + 1, j);
    }
}

/// The whitespace-separated tokens of `b`, from position `i` on.
pub open spec fn spec_tokens(b: Seq<u8>, i: int) -> Seq<Seq<u8>>
    decreases b.len() - i,
    when 0 <= i <= b.len()
    via spec_tokens_decreases
{
    if i >= b.len() {
        Seq::empty()
    } else if is_space(b[i]) {
        spec_tokens(b, i + 1)
    } else {
        seq![b.subrange(i, token_end(b, i))] + spec_tokens(b, token_end(b, i))
    }
}

#[via_fn]
proof fn spec_tokens_decreases(b: Seq<u8>, i: int) {
    if 0 <= i < b.len() && !is_space(b[i]) {
        lemma_token_end_bounds(b, i + 1);
    }
}

/// Split a byte string into its whitespace-separated tokens, in order.
pub fn tokenize(b: &[u8]) -> (r: Vec<Vec<u8>>)
    ensures
        r.deep_view() == spec_tokens(b@, 0),
{
    let n = b.len();
    let mut out: Vec<Vec<u8>> = Vec::new();
    let mut i: usize = 0;
    while i < n
        invariant
            n == b@.len(),
            i <= n,
            spec_tokens(b@, 0) == out.deep_view() + spec_tokens(b@, i as int),
        decreases n - i,
    {
        if is_space_at(b, i) {
            i += 1;
        } else {
            let start = i;
            let mut j = i;
            while j < n && !is_space_at(b, j)
                invariant
                    n == b@.len(),
                    start <= j <= n,
                    forall|m: int| start <= m < j ==> !is_space(b@[m]),
                decreases n - j,
            {
                j += 1;
            }
            proof {
                lemma_token_end_value(b@, start as int, j as int);
            }
            let ghost before = out.deep_view();
            let token = vstd::slice::slice_to_vec(vstd::slice::slice_subrange(b, start, j));
            out.push(token);
            proof {
                assert(out.deep_view() =~~= before + seq![b@.subrange(start as int, j as int)]);
                assert(out.deep_view() + spec_tokens(b@, j as int) =~~= before + spec_tokens(
                    b@,
                    start as int,
                ));
            }
            i = j;
        }
    }
    proof {
        assert(out.deep_view() + spec_tokens(b@, n as int) =~~= out.deep_view());
    }
    out
}

/// The byte name of the agents listing key.
pub open spec fn agents_key() -> Seq<u8> {
    seq!['a' as u8, 'g' as u8, 'e' as u8, 'n' as u8, 't' as u8, 's' as u8]
}

/// The byte name of the jobs listing key.
pub open spec fn jobs_key() -> Seq<u8> {
    seq!['j' as u8, 'o' as u8, 'b' as u8, 's' as u8]
}

/// Decide what to do with one decoded operator message: `GET agents` and
/// `GET jobs` answer with listings, any other `GET` key is rejected, a `GET`
/// without a key is rejected, `QUERY` passes its text through verbatim, and
/// every other opcode is answered "`nyi".
pub fn route_message(m: &Message) -> (r: RxAction)
    ensures
        match m@.top {
            OpCode::GET => (match spec_first_token(m@.val) {
                None => r is MissingKey,
                Some(t) => (t == agents_key() ==> r is ListAgents) && (t == jobs_key()
                    ==> r is ListJobs) && (t != agents_key() && t != jobs_key()
                    ==> r is InvalidKey),
            }),
            OpCode::QUERY => r matches RxAction::RunQuery(q) && q@ == m@.val,
            _ => r is NotImplemented,
        },
{
    let val = m.val();
    match m.top() {
        OpCode::GET => {
            match first_token(val.as_slice()) {
                None => RxAction::MissingKey,
                Some(tok) => {
                    let agents: Vec<u8> =
                        vec!['a' as u8, 'g' as u8, 'e' as u8, 'n' as u8, 't' as u8, 's' as u8];
                    let jobs: Vec<u8> = vec!['j' as u8, 'o' as u8, 'b' as u8, 's' as u8];
                    proof {
                        assert(agents@ =~= agents_key());
                        assert(jobs@ =~= jobs_key());
                    }
                    if bytes_eq(tok.as_slice(), agents.as_slice()) {
                        RxAction::ListAgents
                    } else if bytes_eq(tok.as_slice(), jobs.as_slice()) {
                        RxAction::ListJobs
                    } else {
                        RxAction::InvalidKey
                    }
                },
            }
        },
        OpCode::QUERY => RxAction::RunQuery(val),
        _ => RxAction::NotImplemented,
    }
}

/// True exactly when the two byte strings are equal.
fn bytes_eq(t: &[u8], name: &[u8]) -> (r: bool)
    ensures
        r == (t@ == name@),
{
    if t.len() != name.len() {
        return false;
    }
    let n = t.len();
    let mut i: usize = 0;
    while i < n
        invariant
            n == t@.len(),
            t@.len() == name@.len(),
            i <= n,
            forall|k: int| 0 <= k < i ==> t@[k] == name@[k],
        decreases n - i,
    {
        if t[i] != name[i] {
            return false;
        }
        i += 1;
    }
    proof {
        assert(t@ =~= name@);
    }
    true
}

} // verus!
