//! Typed messages exchanged over the wire, and the roles that build them.
//!
//! - `op` holds the operator <-> server messages;
//! - `c2` holds the server <-> agent messages.

pub mod c2;
pub mod op;

use c2::{Ack, AgentRegistered, Job, JobPayload, JobResult, RegisterAgent, Syn, UpdateJobResult};
use op::{Message, OpCode, Val};
use vstd::prelude::*;
use vstd::slice::slice_to_vec;

verus! {

/// What an agent implementation provides to the protocol.
pub trait AgentExt {
    /// Open a session.
    fn syn() -> (r: Syn) {
        Syn
    }

    /// Acknowledge the given packet numbers.
    fn ack(acks: &[u16]) -> (r: Ack)
        ensures
            r.0@ == acks@,
    {
        Ack(slice_to_vec(acks))
    }

    /// Build this agent's registration message.
    fn register_agent(&self) -> RegisterAgent;

    /// Extract the payload from a job.
    fn get_payload(&self, job: Job) -> JobPayload;

    /// Build the result report for the server.
    fn update_job_result(&self) -> UpdateJobResult;
}

/// What a server implementation provides to the protocol.
pub trait ServerExt {
    /// Open a session.
    fn syn() -> (r: Syn) {
        Syn
    }

    /// Acknowledge the given packet numbers.
    fn ack(acks: &[u16]) -> (r: Ack)
        ensures
            r.0@ == acks@,
    {
        Ack(slice_to_vec(acks))
    }

    /// Turn a payload into a job.
    fn job(&self, payload: JobPayload) -> Job;

    /// Accept an agent registration.
    fn get_registered(&self, agent: RegisterAgent) -> AgentRegistered;

    /// Push an update into a borrowed job result.
    fn push_job_result(&self, result: &mut JobResult, update: UpdateJobResult);
}

/// What an operator-console implementation provides to the protocol.
pub trait ClientExt {
    /// Build a message.
    fn message(&self, top: OpCode, val: Val) -> Message;
}

} // verus!
