//! Record types of the persistence collaborator, and their conversions to the
//! wire-facing types.
//!
//! A store hands back rows whose key material is variable-length bytes; the
//! conversions fix the lengths.  As in the rest of the library, identifiers
//! are 128-bit values and timestamps are Unix milliseconds.

use crate::api::c2;
use crate::packet::{array24_from_slice, array32_from_slice};
use vstd::prelude::*;

verus! {

/// The answer to a table-existence probe.
#[derive(Debug, Clone)]
pub struct Exists {
    pub exists: bool,
}

/// A job row as a store returns it.
#[derive(Debug, Clone)]
pub struct Job {
    pub id: u128,
    pub agent_id: u128,
    pub encrypted_job: Vec<u8>,
    pub ephemeral_public_key: Vec<u8>,
    pub nonce: Vec<u8>,
    pub signature: Vec<u8>,
    pub status: c2::JobStatus,
    pub encrypted_result: Option<Vec<u8>>,
    pub result_ephemeral_public_key: Option<Vec<u8>>,
    pub result_nonce: Option<Vec<u8>>,
    pub result_signature: Option<Vec<u8>>,
}

impl Job {
    /// Whether the row's key material has the lengths the wire types fix.
    pub open spec fn lengths_ok(&self) -> bool {
        &&& self.ephemeral_public_key@.len() == 32
        &&& self.nonce@.len() == 24
        &&& (self.result_ephemeral_public_key matches Some(v) ==> v@.len() == 32)
        &&& (self.result_nonce matches Some(v) ==> v@.len() == 24)
    }

    /// Convert a row into the wire-facing job.  A row whose key material has
    /// the wrong length has no wire form.
    pub fn into_c2(self) -> (r: c2::Job)
        requires
            self.lengths_ok(),
        ensures
            r.id == self.id,
            r.agent_id == self.agent_id,
            r.encrypted_job == self.encrypted_job,
            r.ephemeral_public_key@ == self.ephemeral_public_key@,
            r.nonce@ == self.nonce@,
            r.signature == self.signature,
            r.status == self.status,
            (match (r.encrypted_result, self.encrypted_result) {
                (Some(x), Some(y)) => x == y,
                (None, None) => true,
                _ => false,
            }),
            (match (r.result_ephemeral_public_key, self.result_ephemeral_public_key) {
                (Some(x), Some(y)) => x@ == y@,
                (None, None) => true,
                _ => false,
            }),
            (match (r.result_nonce, self.result_nonce) {
                (Some(x), Some(y)) => x@ == y@,
                (None, None) => true,
                _ => false,
            }),
            (match (r.result_signature, self.result_signature) {
                (Some(x), Some(y)) => x == y,
                (None, None) => true,
                _ => false,
            }),
    {
        let ephemeral_public_key = array32_from_slice(self.ephemeral_public_key.as_slice());
        let nonce = array24_from_slice(self.nonce.as_slice());
        let result_ephemeral_public_key = match self.result_ephemeral_public_key {
            Some(v) => Some(array32_from_slice(v.as_slice())),
            None => None,
        };
        let result_nonce = match self.result_nonce {
            Some(v) => Some(array24_from_slice(v.as_slice())),
            None => None,
        };
        c2::Job {
            id: self.id,
            agent_id: self.agent_id,
            encrypted_job: self.encrypted_job,
            ephemeral_public_key,
            nonce,
            signature: self.signature,
            status: self.status,
            encrypted_result: self.encrypted_result,
            result_ephemeral_public_key,
            result_nonce,
            result_signature: self.result_signature,
        }
    }
}

/// An agent row as a store returns it.
#[derive(Debug, Clone)]
pub struct Agent {
    pub id: u128,
    pub created_at: i64,
    pub last_seen: i64,
    pub identity_public_key: Vec<u8>,
    pub public_prekey: Vec<u8>,
    pub public_prekey_signature: Vec<u8>,
}

/// A row's key bytes fixed to 32: kept when the length is right, zeroed
/// otherwise.
pub open spec fn fixed32_or_zero(v: Seq<u8>) -> Seq<u8> {
    if v.len() == 32 {
        v
    } else {
        Seq::new(32, |i: int| 0u8)
    }
}

impl Agent {
    /// Convert a row into the wire-facing agent.  A key of the wrong length
    /// is replaced by an all-zero key rather than rejected, so a damaged row
    /// still lists.
    pub fn into_c2(self) -> (r: c2::Agent)
        ensures
            r.id == self.id,
            r.created_at == self.created_at,
            r.last_seen == self.last_seen,
            r.identity_public_key@ == fixed32_or_zero(self.identity_public_key@),
            r.public_prekey@ == fixed32_or_zero(self.public_prekey@),
            r.public_prekey_signature == self.public_prekey_signature,
    {
        let identity_public_key = if self.identity_public_key.len() == 32 {
            array32_from_slice(self.identity_public_key.as_slice())
        } else {
            [0u8; 32]
        };
        let public_prekey = if self.public_prekey.len() == 32 {
            array32_from_slice(self.public_prekey.as_slice())
        } else {
            [0u8; 32]
        };
        proof {
            assert(identity_public_key@ =~= fixed32_or_zero(self.identity_public_key@));
            assert(public_prekey@ =~= fixed32_or_zero(self.public_prekey@));
        }
        c2::Agent {
            id: self.id,
            created_at: self.created_at,
            last_seen: self.last_seen,
            identity_public_key,
            public_prekey,
            public_prekey_signature: self.public_prekey_signature,
        }
    }
}

} // verus!
