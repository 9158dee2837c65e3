//! Server <-> agent ("C2") message model: agents, jobs, results.
//!
//! Identifiers are 128-bit values and timestamps are Unix milliseconds, so
//! the records are plain data the whole way down; the glue that speaks to a
//! particular store or clock lives outside the library.

pub use crate::packet::{EncryptedData, Packet};

use crate::error::Error;
use vstd::bytes::spec_u128_to_le_bytes;
use vstd::prelude::*;
use vstd::string::StringSliceAdditionalSpecFns;

verus! {

/// Session-open greeting.
#[derive(Debug, Clone)]
pub struct Syn;

/// Acknowledgement of seen packet numbers.
#[derive(Debug, Clone)]
pub struct Ack(pub Vec<u16>);

/// An agent's self-registration: its identity key, its key-agreement prekey,
/// and a signature over the prekey by the identity key.
#[derive(Debug, Clone)]
pub struct RegisterAgent {
    pub identity_public_key: [u8; 32],
    pub public_prekey: [u8; 32],
    pub public_prekey_signature: Vec<u8>,
}

/// The server's answer to a registration.
#[derive(Debug, Clone)]
pub struct AgentRegistered {
    pub id: u128,
}

/// What kind of work a job asks for.
#[derive(Debug, Copy, Clone, PartialEq, Eq, Structural)]
pub enum JobType {
    Task,
    Exit,
}

/// A byte lowercased as ASCII; other bytes are unchanged.
pub open spec fn lower_byte(b: u8) -> u8 {
    if 'A' as u8 <= b && b <= 'Z' as u8 {
        (b + 32) as u8
    } else {
        b
    }
}

/// A byte string lowercased as ASCII.
pub open spec fn lower_bytes(s: Seq<u8>) -> Seq<u8> {
    s.map_values(|b: u8| lower_byte(b))
}

/// The lower-case name of a job type.
pub open spec fn job_type_name(t: JobType) -> Seq<u8> {
    match t {
        JobType::Task => seq!['t' as u8, 'a' as u8, 's' as u8, 'k' as u8],
        JobType::Exit => seq!['e' as u8, 'x' as u8, 'i' as u8, 't' as u8],
    }
}

/// Lowercase one byte as ASCII.
fn lower_byte_exec(b: u8) -> (r: u8)
    ensures
        r == lower_byte(b),
{
    if 'A' as u8 <= b && b <= 'Z' as u8 {
        b + 32
    } else {
        b
    }
}

/// True exactly when `t`, lowercased as ASCII, equals `name`.
fn bytes_eq_lower(t: &[u8], name: &[u8]) -> (r: bool)
    ensures
        r == (lower_bytes(t@) == name@),
{
    if t.len() != name.len() {
        proof {
            assert(lower_bytes(t@).len() == t@.len());
        }
        return false;
    }
    let n = t.len();
    let mut i: usize = 0;
    while i < n
        invariant
            n == t@.len(),
            t@.len() == name@.len(),
            i <= n,
            forall|k: int| 0 <= k < i ==> lower_byte(t@[k]) == name@[k],
        decreases n - i,
    {
        let ti = lower_byte_exec(t[i]);
        if ti != name[i] {
            proof {
                assert(lower_bytes(t@)[i as int] != name@[i as int]);
            }
            return false;
        }
        i += 1;
    }
    proof {
        assert(lower_bytes(t@) =~= name@);
    }
    true
}

impl JobType {
    /// Parse a textual job type, ASCII case-insensitively.
    pub fn try_from(s: &str) -> (r: Result<JobType, ()>)
        ensures
            match r {
                Ok(t) => lower_bytes(s.spec_bytes()) == job_type_name(t),
                Err(_) => lower_bytes(s.spec_bytes()) != job_type_name(JobType::Task)
                    && lower_bytes(s.spec_bytes()) != job_type_name(JobType::Exit),
            },
    {
        let t = s.as_bytes();
        let task: Vec<u8> = vec!['t' as u8, 'a' as u8, 's' as u8, 'k' as u8];
        let exit: Vec<u8> = vec!['e' as u8, 'x' as u8, 'i' as u8, 't' as u8];
        proof {
            assert(task@ =~= job_type_name(JobType::Task));
            assert(exit@ =~= job_type_name(JobType::Exit));
        }
        if bytes_eq_lower(t, task.as_slice()) {
            Ok(JobType::Task)
        } else if bytes_eq_lower(t, exit.as_slice()) {
            Ok(JobType::Exit)
        } else {
            Err(())
        }
    }

    /// The canonical lower-case name.
    pub fn as_str(&self) -> (r: &'static str)
        ensures
            r@ == match self {
                JobType::Task => "task"@,
                JobType::Exit => "exit"@,
            },
    {
        match self {
            JobType::Task => "task",
            JobType::Exit => "exit",
        }
    }
}

/// A request to create a job targeting an agent.
#[derive(Debug, Clone)]
pub struct CreateJob {
    pub id: u128,
    pub agent_id: u128,
    pub encrypted_job: Vec<u8>,
    pub ephemeral_public_key: [u8; 32],
    pub nonce: [u8; 24],
    pub signature: Vec<u8>,
}

/// Where a job stands in its lifecycle.
#[derive(Debug, Copy, Clone, PartialEq, Eq, Structural)]
pub enum JobStatus {
    Todo,
    Scheduled,
    Pending,
    Done,
    Failed,
}

/// One unit of work, encrypted end-to-end between server and agent, together
/// with its lifecycle status and (once posted) its encrypted result.
#[derive(Debug)]
pub struct Job {
    pub id: u128,
    pub agent_id: u128,
    pub encrypted_job: Vec<u8>,
    pub ephemeral_public_key: [u8; 32],
    pub nonce: [u8; 24],
    pub signature: Vec<u8>,
    pub status: JobStatus,
    pub encrypted_result: Option<Vec<u8>>,
    pub result_ephemeral_public_key: Option<[u8; 32]>,
    pub result_nonce: Option<[u8; 24]>,
    pub result_signature: Option<Vec<u8>>,
}

impl Job {
    /// The four result fields are present together or absent together, and
    /// they are populated exactly when the job is done.
    pub open spec fn wf(&self) -> bool {
        &&& (self.encrypted_result is Some <==> self.result_ephemeral_public_key is Some)
        &&& (self.encrypted_result is Some <==> self.result_nonce is Some)
        &&& (self.encrypted_result is Some <==> self.result_signature is Some)
        &&& (self.encrypted_result is Some <==> self.status is Done)
    }
}

/// A listing of jobs.
#[derive(Debug, Clone)]
pub struct JobsList(pub Vec<Job>);

/// The plaintext a job's envelope seals: the command to run, its arguments,
/// and the key the agent must encrypt its result to.
#[derive(Debug, Clone)]
pub struct JobPayload {
    pub command: String,
    pub args: Vec<String>,
    pub result_ephemeral_public_key: [u8; 32],
}

/// An agent's report of a finished job: the sealed result and the material
/// needed to open and authenticate it.
#[derive(Debug, Clone)]
pub struct UpdateJobResult {
    pub job_id: u128,
    pub encrypted_job_result: Vec<u8>,
    pub ephemeral_public_key: [u8; 32],
    pub nonce: [u8; 24],
    pub signature: Vec<u8>,
}

/// The plaintext of a decrypted job result.
#[derive(Debug, Clone)]
pub struct JobResult {
    pub output: String,
}

/// A job as handed to an agent (no server-side bookkeeping).
#[derive(Debug, Clone)]
pub struct AgentJob {
    pub id: u128,
    pub encrypted_job: Vec<u8>,
    pub ephemeral_public_key: [u8; 32],
    pub nonce: [u8; 24],
    pub signature: Vec<u8>,
}

/// A managed remote endpoint.
#[derive(Debug)]
pub struct Agent {
    pub id: u128,
    pub created_at: i64,
    pub last_seen: i64,
    pub identity_public_key: [u8; 32],
    pub public_prekey: [u8; 32],
    pub public_prekey_signature: Vec<u8>,
}

/// A listing of agents.
#[derive(Debug, Clone)]
pub struct AgentsList(pub Vec<Agent>);

/// Whether two agent records carry the same data.
pub open spec fn agent_matches(a: Agent, b: Agent) -> bool {
    &&& a.id == b.id
    &&& a.created_at == b.created_at
    &&& a.last_seen == b.last_seen
    &&& a.identity_public_key@ == b.identity_public_key@
    &&& a.public_prekey@ == b.public_prekey@
    &&& a.public_prekey_signature@ == b.public_prekey_signature@
}

/// Whether two job records carry the same data.
pub open spec fn job_matches(a: Job, b: Job) -> bool {
    &&& a.id == b.id
    &&& a.agent_id == b.agent_id
    &&& a.encrypted_job@ == b.encrypted_job@
    &&& a.ephemeral_public_key@ == b.ephemeral_public_key@
    &&& a.nonce@ == b.nonce@
    &&& a.signature@ == b.signature@
    &&& a.status == b.status
    &&& (match (a.encrypted_result, b.encrypted_result) {
        (Some(x), Some(y)) => x@ == y@,
        (None, None) => true,
        _ => false,
    })
    &&& (match (a.result_ephemeral_public_key, b.result_ephemeral_public_key) {
        (Some(x), Some(y)) => x@ == y@,
        (None, None) => true,
        _ => false,
    })
    &&& (match (a.result_nonce, b.result_nonce) {
        (Some(x), Some(y)) => x@ == y@,
        (None, None) => true,
        _ => false,
    })
    &&& (match (a.result_signature, b.result_signature) {
        (Some(x), Some(y)) => x@ == y@,
        (None, None) => true,
        _ => false,
    })
}

/// Copy an optional byte vector, with the copy's contents known.
fn clone_opt_vec(v: &Option<Vec<u8>>) -> (r: Option<Vec<u8>>)
    ensures
        match (v, &r) {
            (Some(x), Some(y)) => x@ == y@,
            (None, None) => true,
            _ => false,
        },
{
    match v {
        Some(x) => {
            let y = x.clone();
            proof {
                assert(y@ =~= x@);
            }
            Some(y)
        },
        None => None,
    }
}

impl Clone for Agent {
    /// A clone carries exactly the same data.
    fn clone(&self) -> (r: Self)
        ensures
            agent_matches(r, *self),
    {
        let public_prekey_signature = self.public_prekey_signature.clone();
        proof {
            assert(public_prekey_signature@ =~= self.public_prekey_signature@);
        }
        Agent {
            id: self.id,
            created_at: self.created_at,
            last_seen: self.last_seen,
            identity_public_key: self.identity_public_key,
            public_prekey: self.public_prekey,
            public_prekey_signature,
        }
    }
}

impl Clone for Job {
    /// A clone carries exactly the same data.
    fn clone(&self) -> (r: Self)
        ensures
            job_matches(r, *self),
    {
        let encrypted_job = self.encrypted_job.clone();
        let signature = self.signature.clone();
        proof {
            assert(encrypted_job@ =~= self.encrypted_job@);
            assert(signature@ =~= self.signature@);
        }
        Job {
            id: self.id,
            agent_id: self.agent_id,
            encrypted_job,
            ephemeral_public_key: self.ephemeral_public_key,
            nonce: self.nonce,
            signature,
            status: self.status,
            encrypted_result: clone_opt_vec(&self.encrypted_result),
            result_ephemeral_public_key: match &self.result_ephemeral_public_key {
                Some(k) => Some(*k),
                None => None,
            },
            result_nonce: match &self.result_nonce {
                Some(n) => Some(*n),
                None => None,
            },
            result_signature: clone_opt_vec(&self.result_signature),
        }
    }
}

/// The lower-case hex digits.
pub open spec fn hex_digit(n: int) -> char {
    seq!['0', '1', '2', '3', '4', '5', '6', '7', '8', '9', 'a', 'b', 'c', 'd', 'e', 'f'][n]
}

/// Lower-case hex encoding: two digits per byte, high nibble first.
pub open spec fn hex_of(b: Seq<u8>) -> Seq<char>
    decreases b.len(),
{
    if b.len() == 0 {
        Seq::empty()
    } else {
        hex_of(b.drop_last()) + seq![
            hex_digit(b.last() as int / 16),
            hex_digit(b.last() as int % 16),
        ]
    }
}

/// Hex encoding writes two digits per byte.
pub proof fn lemma_hex_len(b: Seq<u8>)
    ensures
        hex_of(b).len() == 2 * b.len(),
    decreases b.len(),
{
    if b.len() > 0 {
        lemma_hex_len(b.drop_last());
    }
}

/// Relies on `hex::encode`: lower-case hex, two digits per byte, high nibble
/// first.
#[verifier::external_body]
fn hex_encode(b: &[u8]) -> (r: String)
    ensures
        r@ == hex_of(b@),
{
    hex::encode(b)
}

/// The first sixteen hex digits of a byte string — the masked form key
/// material is listed in — or empty if there are fewer than eight bytes.
pub open spec fn masked_hex(b: Seq<u8>) -> Seq<char> {
    if b.len() >= 8 {
        hex_of(b.take(8))
    } else {
        Seq::empty()
    }
}

/// Mask key material for listing: the first eight bytes in hex.
fn mask_bytes(b: &[u8]) -> (r: String)
    ensures
        r@ == masked_hex(b@),
        b@.len() >= 8 ==> r@.len() == 16,
{
    if b.len() >= 8 {
        let prefix = vstd::slice::slice_subrange(b, 0, 8);
        let r = hex_encode(prefix);
        proof {
            lemma_hex_len(b@.take(8));
        }
        r
    } else {
        String::new()
    }
}

/// An agent as listed to the operator: the id and timestamps in the clear,
/// every piece of key material masked down to sixteen hex digits.
pub struct MaskedAgent {
    pub id: u128,
    pub created_at: i64,
    pub last_seen: i64,
    pub identity_public_key: String,
    pub public_prekey: String,
    pub public_prekey_signature: String,
}

/// Whether one masked row faithfully lists one agent: ids and times carried
/// over, keys masked, never the raw material.
pub open spec fn masked_row_matches(m: MaskedAgent, a: Agent) -> bool {
    &&& m.id == a.id
    &&& m.created_at == a.created_at
    &&& m.last_seen == a.last_seen
    &&& m.identity_public_key@ == masked_hex(a.identity_public_key@)
    &&& m.public_prekey@ == masked_hex(a.public_prekey@)
    &&& m.public_prekey_signature@ == masked_hex(a.public_prekey_signature@)
}

impl Agent {
    /// The masked listing row for this agent.
    pub fn masked(&self) -> (r: MaskedAgent)
        ensures
            masked_row_matches(r, *self),
    {
        MaskedAgent {
            id: self.id,
            created_at: self.created_at,
            last_seen: self.last_seen,
            identity_public_key: mask_bytes(self.identity_public_key.as_slice()),
            public_prekey: mask_bytes(self.public_prekey.as_slice()),
            public_prekey_signature: mask_bytes(self.public_prekey_signature.as_slice()),
        }
    }
}

impl AgentsList {
    /// The operator-facing listing: every agent's id with masked key
    /// material, never the raw bytes.
    pub fn masked(&self) -> (r: Vec<MaskedAgent>)
        ensures
            r@.len() == self.0@.len(),
            forall|k: int| 0 <= k < r@.len() ==> masked_row_matches(r@[k], self.0@[k]),
    {
        let n = self.0.len();
        let mut rows: Vec<MaskedAgent> = Vec::new();
        let mut i: usize = 0;
        while i < n
            invariant
                n == self.0@.len(),
                i <= n,
                rows@.len() == i,
                forall|k: int| 0 <= k < i ==> masked_row_matches(rows@[k], self.0@[k]),
            decreases n - i,
        {
            rows.push(self.0[i].masked());
            i += 1;
        }
        rows
    }
}

/// An identifier rendered as hex: the sixteen little-endian bytes, two digits
/// each.
pub open spec fn id_hex(id: u128) -> Seq<char> {
    hex_of(spec_u128_to_le_bytes(id))
}

/// Render an identifier as 32 hex digits.
pub fn render_id(id: u128) -> (r: String)
    ensures
        r@ == id_hex(id),
{
    let bytes = vstd::bytes::u128_to_le_bytes(id);
    hex_encode(bytes.as_slice())
}

/// An optional byte field rendered as hex, or "nil" when absent.
pub open spec fn opt_hex(b: Option<Seq<u8>>) -> Seq<char> {
    match b {
        Some(s) => hex_of(s),
        None => "nil"@,
    }
}

/// Whether one listing row faithfully lists one job: every field hex-encoded,
/// absent result fields shown as "nil".
pub open spec fn job_row_matches(row: Seq<String>, j: Job) -> bool {
    &&& row.len() == 10
    &&& row[0]@ == id_hex(j.id)
    &&& row[1]@ == id_hex(j.agent_id)
    &&& row[2]@ == hex_of(j.encrypted_job@)
    &&& row[3]@ == hex_of(j.ephemeral_public_key@)
    &&& row[4]@ == hex_of(j.nonce@)
    &&& row[5]@ == hex_of(j.signature@)
    &&& row[6]@ == opt_hex(
        match j.encrypted_result {
            Some(v) => Some(v@),
            None => None,
        },
    )
    &&& row[7]@ == opt_hex(
        match j.result_ephemeral_public_key {
            Some(v) => Some(v@),
            None => None,
        },
    )
    &&& row[8]@ == opt_hex(
        match j.result_nonce {
            Some(v) => Some(v@),
            None => None,
        },
    )
    &&& row[9]@ == opt_hex(
        match j.result_signature {
            Some(v) => Some(v@),
            None => None,
        },
    )
}

impl Job {
    /// The listing row for this job.
    pub fn row(&self) -> (r: Vec<String>)
        ensures
            job_row_matches(r@, *self),
    {
        let mut row: Vec<String> = Vec::new();
        row.push(render_id(self.id));
        row.push(render_id(self.agent_id));
        row.push(hex_encode(self.encrypted_job.as_slice()));
        row.push(hex_encode(self.ephemeral_public_key.as_slice()));
        row.push(hex_encode(self.nonce.as_slice()));
        row.push(hex_encode(self.signature.as_slice()));
        row.push(
            match &self.encrypted_result {
                Some(v) => hex_encode(v.as_slice()),
                None => String::from_str("nil"),
            },
        );
        row.push(
            match &self.result_ephemeral_public_key {
                Some(v) => hex_encode(v.as_slice()),
                None => String::from_str("nil"),
            },
        );
        row.push(
            match &self.result_nonce {
                Some(v) => hex_encode(v.as_slice()),
                None => String::from_str("nil"),
            },
        );
        row.push(
            match &self.result_signature {
                Some(v) => hex_encode(v.as_slice()),
                None => String::from_str("nil"),
            },
        );
        row
    }
}

impl JobsList {
    /// The operator-facing listing: one row per job.
    pub fn rows(&self) -> (r: Vec<Vec<String>>)
        ensures
            r@.len() == self.0@.len(),
            forall|k: int| 0 <= k < r@.len() ==> job_row_matches(r@[k]@, self.0@[k]),
    {
        let n = self.0.len();
        let mut rows: Vec<Vec<String>> = Vec::new();
        let mut i: usize = 0;
        while i < n
            invariant
                n == self.0@.len(),
                i <= n,
                rows@.len() == i,
                forall|k: int| 0 <= k < i ==> job_row_matches(rows@[k]@, self.0@[k]),
            decreases n - i,
        {
            rows.push(self.0[i].row());
            i += 1;
        }
        rows
    }
}

} // verus!
