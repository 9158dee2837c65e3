//! The agent registry and job scheduler.
//!
//! The server's in-memory model of its agents and jobs: agent identifiers are
//! unique, job identifiers are unique, every job targets a registered agent,
//! and every job's result fields obey the lifecycle invariant.  Status only
//! ever advances, through the transitions of `crate::jobs`.

use crate::api::c2::{
    agent_matches, Agent, AgentsList, CreateJob, Job, JobStatus, JobsList, UpdateJobResult,
};
use crate::jobs::{spec_step, JobEvent};
use crate::server::error::Error;
use vstd::prelude::*;

verus! {

/// The ghost value of a `Registry`.
pub struct RegistryView {
    pub agents: Seq<Agent>,
    pub jobs: Seq<Job>,
}

/// The server's registry of agents and jobs.
pub struct Registry {
    agents: Vec<Agent>,
    jobs: Vec<Job>,
}

impl View for Registry {
    type V = RegistryView;

    closed spec fn view(&self) -> RegistryView {
        RegistryView { agents: self.agents@, jobs: self.jobs@ }
    }
}

/// An agent after a liveness contact at `now`: `last_seen` never decreases.
pub open spec fn touched(a: Agent, now: i64) -> Agent {
    Agent {
        last_seen: if now >= a.last_seen {
            now
        } else {
            a.last_seen
        },
        ..a
    }
}

/// A job with its status advanced.
pub open spec fn with_status(j: Job, s: JobStatus) -> Job {
    Job { status: s, ..j }
}

/// A job with a posted result: status `Done` and all four result fields
/// populated.
pub open spec fn with_result(j: Job, upd: UpdateJobResult) -> Job {
    Job {
        status: JobStatus::Done,
        encrypted_result: Some(upd.encrypted_job_result),
        result_ephemeral_public_key: Some(upd.ephemeral_public_key),
        result_nonce: Some(upd.nonce),
        result_signature: Some(upd.signature),
        ..j
    }
}

impl Registry {
    /// Whether an agent with this id is registered.
    pub open spec fn has_agent(&self, id: u128) -> bool {
        exists|k: int| 0 <= k < self@.agents.len() && self@.agents[k].id == id
    }

    /// Whether a job with this id exists.
    pub open spec fn has_job(&self, id: u128) -> bool {
        exists|k: int| 0 <= k < self@.jobs.len() && self@.jobs[k].id == id
    }

    /// The registry's invariant: unique agent ids, unique job ids, every job
    /// bound to a registered agent, every job's result fields coherent with
    /// its status.
    pub open spec fn wf(&self) -> bool {
        &&& forall|i: int, j: int|
            0 <= i < j < self@.agents.len() ==> self@.agents[i].id != self@.agents[j].id
        &&& forall|i: int, j: int|
            0 <= i < j < self@.jobs.len() ==> self@.jobs[i].id != self@.jobs[j].id
        &&& forall|i: int| 0 <= i < self@.jobs.len() ==> self.has_agent(#[trigger] self@.jobs[i].agent_id)
        &&& forall|i: int| 0 <= i < self@.jobs.len() ==> (#[trigger] self@.jobs[i]).wf()
    }

    /// An empty registry.
    pub fn new() -> (r: Registry)
        ensures
            r.wf(),
            r@.agents.len() == 0,
            r@.jobs.len() == 0,
    {
        Registry { agents: Vec::new(), jobs: Vec::new() }
    }

    /// The index of the agent with this id, if any.
    fn find_agent_index(&self, id: u128) -> (r: Option<usize>)
        ensures
            match r {
                Some(k) => k < self@.agents.len() && self@.agents[k as int].id == id,
                None => !self.has_agent(id),
            },
    {
        let n = self.agents.len();
        let mut i: usize = 0;
        while i < n
            invariant
                n == self@.agents.len(),
                i <= n,
                forall|k: int| 0 <= k < i ==> self@.agents[k].id != id,
            decreases n - i,
        {
            if self.agents[i].id == id {
                return Some(i);
            }
            i += 1;
        }
        None
    }

    /// The index of the job with this id, if any.
    fn find_job_index(&self, id: u128) -> (r: Option<usize>)
        ensures
            match r {
                Some(k) => k < self@.jobs.len() && self@.jobs[k as int].id == id,
                None => !self.has_job(id),
            },
    {
        let n = self.jobs.len();
        let mut i: usize = 0;
        while i < n
            invariant
                n == self@.jobs.len(),
                i <= n,
                forall|k: int| 0 <= k < i ==> self@.jobs[k].id != id,
            decreases n - i,
        {
            if self.jobs[i].id == id {
                return Some(i);
            }
            i += 1;
        }
        None
    }

    /// Register an agent.  An agent must be registered before any job may
    /// target it; registering an id twice is a conflict.
    pub fn register(&mut self, agent: Agent) -> (r: Result<u128, Error>)
        requires
            old(self).wf(),
        ensures
            final(self).wf(),
            match r {
                Ok(id) => id == agent.id && !old(self).has_agent(agent.id) && final(self)@.agents
                    == old(self)@.agents.push(agent) && final(self)@.jobs == old(self)@.jobs,
                Err(e) => e.is_conflict() && old(self).has_agent(agent.id) && final(self)@.agents
                    == old(self)@.agents && final(self)@.jobs == old(self)@.jobs,
            },
    {
        match self.find_agent_index(agent.id) {
            Some(_) => Err(Error::Conflict(String::from_str("agent is already registered"))),
            None => {
                let id = agent.id;
                self.agents.push(agent);
                proof {
                    assert forall|i: int, j: int|
                        0 <= i < j < self@.agents.len() implies self@.agents[i].id
                        != self@.agents[j].id by {
                        assert(self@.agents[i] == old(self)@.agents[i]);
                        if j == old(self)@.agents.len() {
                            assert(self@.agents[j] == agent);
                            assert(old(self)@.agents[i].id != agent.id);
                        } else {
                            assert(self@.agents[j] == old(self)@.agents[j]);
                        }
                    }
                    assert forall|i: int|
                        0 <= i < self@.jobs.len() implies self.has_agent(
                        #[trigger] self@.jobs[i].agent_id,
                    ) by {
                        assert(self@.jobs[i] == old(self)@.jobs[i]);
                        assert(old(self).has_agent(old(self)@.jobs[i].agent_id));
                        let k = choose|k: int|
                            0 <= k < old(self)@.agents.len() && old(self)@.agents[k].id
                                == old(self)@.jobs[i].agent_id;
                        assert(self@.agents[k] == old(self)@.agents[k]);
                        assert(self@.agents[k].id == self@.jobs[i].agent_id);
                    }
                }
                Ok(id)
            },
        }
    }

    /// Record a liveness contact: advance the agent's `last_seen`, which
    /// never decreases.  An unknown agent is not found.
    pub fn touch(&mut self, agent_id: u128, now: i64) -> (r: Result<(), Error>)
        requires
            old(self).wf(),
        ensures
            final(self).wf(),
            final(self)@.jobs == old(self)@.jobs,
            final(self)@.agents.len() == old(self)@.agents.len(),
            match r {
                Ok(_) => old(self).has_agent(agent_id) && forall|i: int|
                    0 <= i < old(self)@.agents.len() ==> #[trigger] final(self)@.agents[i] == (
                    if old(self)@.agents[i].id == agent_id {
                        touched(old(self)@.agents[i], now)
                    } else {
                        old(self)@.agents[i]
                    }),
                Err(e) => e.is_not_found() && !old(self).has_agent(agent_id) && final(self)@.agents
                    == old(self)@.agents,
            },
    {
        match self.find_agent_index(agent_id) {
            Some(k) => {
                let current = self.agents[k].last_seen;
                if now >= current {
                    let a = vstd::std_specs::vec::vec_index_mut(&mut self.agents, k);
                    a.last_seen = now;
                }
                proof {
                    assert forall|i: int, j: int|
                        0 <= i < j < self@.agents.len() implies self@.agents[i].id
                        != self@.agents[j].id by {
                        assert(self@.agents[i].id == old(self)@.agents[i].id);
                        assert(self@.agents[j].id == old(self)@.agents[j].id);
                    }
                    assert forall|i: int|
                        0 <= i < self@.jobs.len() implies self.has_agent(
                        #[trigger] self@.jobs[i].agent_id,
                    ) by {
                        let w = choose|w: int|
                            0 <= w < old(self)@.agents.len() && old(self)@.agents[w].id
                                == self@.jobs[i].agent_id;
                        assert(self@.agents[w].id == old(self)@.agents[w].id);
                    }
                }
                Ok(())
            },
            None => Err(Error::NotFound(String::from_str("agent is not registered"))),
        }
    }

    /// List the registered agents, in registration order.
    pub fn list_agents(&self) -> (r: AgentsList)
        ensures
            r.0@.len() == self@.agents.len(),
            forall|k: int| 0 <= k < r.0@.len() ==> agent_matches(r.0@[k], self@.agents[k]),
    {
        let n = self.agents.len();
        let mut out: Vec<Agent> = Vec::new();
        let mut i: usize = 0;
        while i < n
            invariant
                n == self@.agents.len(),
                i <= n,
                out@.len() == i,
                forall|k: int| 0 <= k < i ==> agent_matches(out@[k], self@.agents[k]),
            decreases n - i,
        {
            out.push(self.agents[i].clone());
            i += 1;
        }
        AgentsList(out)
    }

    /// List the jobs, in creation order.
    pub fn list_jobs(&self) -> (r: JobsList)
        ensures
            r.0@.len() == self@.jobs.len(),
            forall|k: int|
                0 <= k < r.0@.len() ==> crate::api::c2::job_matches(r.0@[k], self@.jobs[k]),
    {
        let n = self.jobs.len();
        let mut out: Vec<Job> = Vec::new();
        let mut i: usize = 0;
        while i < n
            invariant
                n == self@.jobs.len(),
                i <= n,
                out@.len() == i,
                forall|k: int| 0 <= k < i ==> crate::api::c2::job_matches(out@[k], self@.jobs[k]),
            decreases n - i,
        {
            out.push(self.jobs[i].clone());
            i += 1;
        }
        JobsList(out)
    }

    /// Create a job in state `Todo` with no result.  The target agent must be
    /// registered (else not found); a duplicate job id is a conflict.
    pub fn create_job(&mut self, req: CreateJob) -> (r: Result<(), Error>)
        requires
            old(self).wf(),
        ensures
            final(self).wf(),
            final(self)@.agents == old(self)@.agents,
            match r {
                Ok(_) => old(self).has_agent(req.agent_id) && !old(self).has_job(req.id) && final(self)@.jobs == old(self)@.jobs.push(
                    Job {
                        id: req.id,
                        agent_id: req.agent_id,
                        encrypted_job: req.encrypted_job,
                        ephemeral_public_key: req.ephemeral_public_key,
                        nonce: req.nonce,
                        signature: req.signature,
                        status: JobStatus::Todo,
                        encrypted_result: None,
                        result_ephemeral_public_key: None,
                        result_nonce: None,
                        result_signature: None,
                    },
                ),
                Err(e) => final(self)@.jobs == old(self)@.jobs && (e.is_not_found() ==> !old(self).has_agent(req.agent_id)) && (e.is_conflict() ==> old(self).has_job(req.id))
                    && (e.is_not_found() || e.is_conflict()),
            },
    {
        if self.find_agent_index(req.agent_id).is_none() {
            return Err(Error::NotFound(String::from_str("agent is not registered")));
        }
        if self.find_job_index(req.id).is_some() {
            return Err(Error::Conflict(String::from_str("job id is already in use")));
        }
        let job = Job {
            id: req.id,
            agent_id: req.agent_id,
            encrypted_job: req.encrypted_job,
            ephemeral_public_key: req.ephemeral_public_key,
            nonce: req.nonce,
            signature: req.signature,
            status: JobStatus::Todo,
            encrypted_result: None,
            result_ephemeral_public_key: None,
            result_nonce: None,
            result_signature: None,
        };
        self.jobs.push(job);
        proof {
            assert forall|i: int|
                0 <= i < self@.jobs.len() implies self.has_agent(
                #[trigger] self@.jobs[i].agent_id,
            ) by {
                if i < old(self)@.jobs.len() {
                    let w = choose|w: int|
                        0 <= w < old(self)@.agents.len() && old(self)@.agents[w].id
                            == self@.jobs[i].agent_id;
                    assert(self@.agents[w].id == self@.jobs[i].agent_id);
                } else {
                    let w = choose|w: int|
                        0 <= w < old(self)@.agents.len() && old(self)@.agents[w].id == req.agent_id;
                    assert(self@.agents[w].id == self@.jobs[i].agent_id);
                }
            }
        }
        Ok(())
    }

    /// Advance the status of the job with this id by one lifecycle event.
    /// An event that does not apply in the job's current status is a
    /// conflict; an unknown job is not found.
    fn advance_job(&mut self, id: u128, event: JobEvent) -> (r: Result<JobStatus, Error>)
        requires
            old(self).wf(),
            !(event is ResultOk),
        ensures
            final(self).wf(),
            final(self)@.agents == old(self)@.agents,
            final(self)@.jobs.len() == old(self)@.jobs.len(),
            match r {
                Ok(s) => old(self).has_job(id) && (forall|i: int|
                    0 <= i < old(self)@.jobs.len() ==> #[trigger] final(self)@.jobs[i] == (
                    if old(self)@.jobs[i].id == id {
                        with_status(old(self)@.jobs[i], spec_step(old(self)@.jobs[i].status, event))
                    } else {
                        old(self)@.jobs[i]
                    })) && (forall|i: int|
                    0 <= i < old(self)@.jobs.len() && old(self)@.jobs[i].id == id ==> s
                        == spec_step(#[trigger] old(self)@.jobs[i].status, event) && spec_step(
                        old(self)@.jobs[i].status,
                        event,
                    ) != old(self)@.jobs[i].status),
                Err(e) => final(self)@.jobs == old(self)@.jobs && (e.is_not_found() <==> !old(self).has_job(id)) && (e.is_conflict() ==> exists|i: int|
                    0 <= i < old(self)@.jobs.len() && #[trigger] old(self)@.jobs[i].id == id
                        && spec_step(old(self)@.jobs[i].status, event) == old(self)@.jobs[i].status)
                    && (e.is_not_found() || e.is_conflict()),
            },
    {
        let k = match self.find_job_index(id) {
            Some(k) => k,
            None => {
                return Err(Error::NotFound(String::from_str("job is not known")));
            },
        };
        let current = self.jobs[k].status;
        let next = crate::jobs::step(current, event);
        if next == current {
            return Err(Error::Conflict(String::from_str("event does not apply to job status")));
        }
        let j = vstd::std_specs::vec::vec_index_mut(&mut self.jobs, k);
        j.status = next;
        proof {
            assert(old(self).has_agent(old(self)@.jobs[k as int].agent_id));
            let w = choose|w: int|
                0 <= w < old(self)@.agents.len() && old(self)@.agents[w].id == old(
                    self,
                )@.jobs[k as int].agent_id;
            assert(self@.agents[w].id == self@.jobs[k as int].agent_id);
            lemma_jobs_pointwise_update_wf(old(self)@, self@, k as int);
        }
        Ok(next)
    }

    /// Hand the job to the transport loop: `Todo` becomes `Scheduled`.
    pub fn dispatch_job(&mut self, id: u128) -> (r: Result<JobStatus, Error>)
        requires
            old(self).wf(),
        ensures
            final(self).wf(),
            final(self)@.agents == old(self)@.agents,
            final(self)@.jobs.len() == old(self)@.jobs.len(),
            match r {
                Ok(s) => s == JobStatus::Scheduled && old(self).has_job(id) && forall|i: int|
                    0 <= i < old(self)@.jobs.len() ==> #[trigger] final(self)@.jobs[i] == (
                    if old(self)@.jobs[i].id == id {
                        with_status(old(self)@.jobs[i], JobStatus::Scheduled)
                    } else {
                        old(self)@.jobs[i]
                    }),
                Err(e) => final(self)@.jobs == old(self)@.jobs && (e.is_not_found() <==> !old(self).has_job(id)) && (e.is_conflict() ==> exists|i: int|
                    0 <= i < old(self)@.jobs.len() && #[trigger] old(self)@.jobs[i].id == id && !(
                    old(self)@.jobs[i].status is Todo)) && (e.is_not_found() || e.is_conflict()),
            },
    {
        let r = self.advance_job(id, JobEvent::Dispatch);
        match r {
            Ok(s) => Ok(s),
            Err(e) => Err(e),
        }
    }

    /// Record the agent's delivery acknowledgement: `Scheduled` becomes
    /// `Pending`.
    pub fn deliver_job(&mut self, id: u128) -> (r: Result<JobStatus, Error>)
        requires
            old(self).wf(),
        ensures
            final(self).wf(),
            final(self)@.agents == old(self)@.agents,
            final(self)@.jobs.len() == old(self)@.jobs.len(),
            match r {
                Ok(s) => s == JobStatus::Pending && old(self).has_job(id) && forall|i: int|
                    0 <= i < old(self)@.jobs.len() ==> #[trigger] final(self)@.jobs[i] == (
                    if old(self)@.jobs[i].id == id {
                        with_status(old(self)@.jobs[i], JobStatus::Pending)
                    } else {
                        old(self)@.jobs[i]
                    }),
                Err(e) => final(self)@.jobs == old(self)@.jobs && (e.is_not_found() <==> !old(self).has_job(id)) && (e.is_conflict() ==> exists|i: int|
                    0 <= i < old(self)@.jobs.len() && #[trigger] old(self)@.jobs[i].id == id && !(
                    old(self)@.jobs[i].status is Scheduled)) && (e.is_not_found()
                    || e.is_conflict()),
            },
    {
        let r = self.advance_job(id, JobEvent::DeliveryAck);
        match r {
            Ok(s) => Ok(s),
            Err(e) => Err(e),
        }
    }

    /// Record the agent's explicit failure signal, or a result that failed
    /// authentication: `Pending` becomes `Failed`.
    pub fn fail_job(&mut self, id: u128) -> (r: Result<JobStatus, Error>)
        requires
            old(self).wf(),
        ensures
            final(self).wf(),
            final(self)@.agents == old(self)@.agents,
            final(self)@.jobs.len() == old(self)@.jobs.len(),
            match r {
                Ok(s) => s == JobStatus::Failed && old(self).has_job(id) && forall|i: int|
                    0 <= i < old(self)@.jobs.len() ==> #[trigger] final(self)@.jobs[i] == (
                    if old(self)@.jobs[i].id == id {
                        with_status(old(self)@.jobs[i], JobStatus::Failed)
                    } else {
                        old(self)@.jobs[i]
                    }),
                Err(e) => final(self)@.jobs == old(self)@.jobs && (e.is_not_found() <==> !old(self).has_job(id)) && (e.is_conflict() ==> exists|i: int|
                    0 <= i < old(self)@.jobs.len() && #[trigger] old(self)@.jobs[i].id == id && !(
                    old(self)@.jobs[i].status is Pending)) && (e.is_not_found() || e.is_conflict()),
            },
    {
        let r = self.advance_job(id, JobEvent::ResultFail);
        match r {
            Ok(s) => Ok(s),
            Err(e) => Err(e),
        }
    }

    /// Record a successfully authenticated result: `Pending` becomes `Done`
    /// and all four result fields are populated together.
    pub fn complete_job(&mut self, upd: UpdateJobResult) -> (r: Result<JobStatus, Error>)
        requires
            old(self).wf(),
        ensures
            final(self).wf(),
            final(self)@.agents == old(self)@.agents,
            final(self)@.jobs.len() == old(self)@.jobs.len(),
            match r {
                Ok(s) => s == JobStatus::Done && old(self).has_job(upd.job_id) && forall|i: int|
                    0 <= i < old(self)@.jobs.len() ==> #[trigger] final(self)@.jobs[i] == (
                    if old(self)@.jobs[i].id == upd.job_id {
                        with_result(old(self)@.jobs[i], upd)
                    } else {
                        old(self)@.jobs[i]
                    }),
                Err(e) => final(self)@.jobs == old(self)@.jobs && (e.is_not_found() <==> !old(self).has_job(upd.job_id)) && (e.is_conflict() ==> exists|i: int|
                    0 <= i < old(self)@.jobs.len() && #[trigger] old(self)@.jobs[i].id == upd.job_id
                        && !(old(self)@.jobs[i].status is Pending)) && (e.is_not_found()
                    || e.is_conflict()),
            },
    {
        let k = match self.find_job_index(upd.job_id) {
            Some(k) => k,
            None => {
                return Err(Error::NotFound(String::from_str("job is not known")));
            },
        };
        let pending = match self.jobs[k].status {
            JobStatus::Pending => true,
            _ => false,
        };
        if !pending {
            return Err(Error::Conflict(String::from_str("job is not awaiting a result")));
        }
        let j = vstd::std_specs::vec::vec_index_mut(&mut self.jobs, k);
        j.status = JobStatus::Done;
        j.encrypted_result = Some(upd.encrypted_job_result);
        j.result_ephemeral_public_key = Some(upd.ephemeral_public_key);
        j.result_nonce = Some(upd.nonce);
        j.result_signature = Some(upd.signature);
        proof {
            assert(old(self).has_agent(old(self)@.jobs[k as int].agent_id));
            let w = choose|w: int|
                0 <= w < old(self)@.agents.len() && old(self)@.agents[w].id == old(
                    self,
                )@.jobs[k as int].agent_id;
            assert(self@.agents[w].id == self@.jobs[k as int].agent_id);
            lemma_jobs_pointwise_update_wf(old(self)@, self@, k as int);
        }
        Ok(JobStatus::Done)
    }

    /// Replace the payload fields of the job with this id (its agent binding,
    /// ciphertext and envelope material); status and result are untouched.
    pub fn update_job(&mut self, job: Job) -> (r: Result<(), Error>)
        requires
            old(self).wf(),
        ensures
            final(self).wf(),
            final(self)@.agents == old(self)@.agents,
            final(self)@.jobs.len() == old(self)@.jobs.len(),
            match r {
                Ok(_) => old(self).has_job(job.id) && old(self).has_agent(job.agent_id)
                    && forall|i: int|
                    0 <= i < old(self)@.jobs.len() ==> #[trigger] final(self)@.jobs[i] == (
                    if old(self)@.jobs[i].id == job.id {
                        Job {
                            agent_id: job.agent_id,
                            encrypted_job: job.encrypted_job,
                            ephemeral_public_key: job.ephemeral_public_key,
                            nonce: job.nonce,
                            signature: job.signature,
                            ..old(self)@.jobs[i]
                        }
                    } else {
                        old(self)@.jobs[i]
                    }),
                Err(e) => final(self)@.jobs == old(self)@.jobs && (e.is_not_found() ==> !old(self).has_job(job.id) || !old(self).has_agent(job.agent_id)) && e.is_not_found(),
            },
    {
        let wa = match self.find_agent_index(job.agent_id) {
            Some(w) => w,
            None => {
                return Err(Error::NotFound(String::from_str("agent is not registered")));
            },
        };
        let k = match self.find_job_index(job.id) {
            Some(k) => k,
            None => {
                return Err(Error::NotFound(String::from_str("job is not known")));
            },
        };
        let j = vstd::std_specs::vec::vec_index_mut(&mut self.jobs, k);
        j.agent_id = job.agent_id;
        j.encrypted_job = job.encrypted_job;
        j.ephemeral_public_key = job.ephemeral_public_key;
        j.nonce = job.nonce;
        j.signature = job.signature;
        proof {
            assert(self@.agents[wa as int].id == self@.jobs[k as int].agent_id);
            lemma_jobs_pointwise_update_wf(old(self)@, self@, k as int);
        }
        Ok(())
    }
}

/// After updating one job in place — without changing its id, and keeping the
/// job well-formed and bound to a registered agent — the registry invariant
/// still holds.
proof fn lemma_jobs_pointwise_update_wf(pre: RegistryView, post: RegistryView, k: int)
    requires
        0 <= k < pre.jobs.len(),
        post.agents == pre.agents,
        post.jobs.len() == pre.jobs.len(),
        forall|i: int| 0 <= i < pre.jobs.len() && i != k ==> post.jobs[i] == pre.jobs[i],
        post.jobs[k].id == pre.jobs[k].id,
        exists|w: int| 0 <= w < post.agents.len() && post.agents[w].id == post.jobs[k].agent_id,
        post.jobs[k].wf(),
        forall|i: int, j: int| 0 <= i < j < pre.agents.len() ==> pre.agents[i].id != pre.agents[j].id,
        forall|i: int, j: int| 0 <= i < j < pre.jobs.len() ==> pre.jobs[i].id != pre.jobs[j].id,
        forall|i: int|
            0 <= i < pre.jobs.len() ==> exists|w: int|
                0 <= w < pre.agents.len() && pre.agents[w].id == #[trigger] pre.jobs[i].agent_id,
        forall|i: int| 0 <= i < pre.jobs.len() ==> (#[trigger] pre.jobs[i]).wf(),
    ensures
        forall|i: int, j: int|
            0 <= i < j < post.jobs.len() ==> post.jobs[i].id != post.jobs[j].id,
        forall|i: int|
            0 <= i < post.jobs.len() ==> exists|w: int|
                0 <= w < post.agents.len() && post.agents[w].id == #[trigger] post.jobs[i].agent_id,
        forall|i: int| 0 <= i < post.jobs.len() ==> (#[trigger] post.jobs[i]).wf(),
{
    assert forall|i: int, j: int|
        0 <= i < j < post.jobs.len() implies post.jobs[i].id != post.jobs[j].id by {
        assert(post.jobs[i].id == pre.jobs[i].id);
        assert(post.jobs[j].id == pre.jobs[j].id);
    }
    assert forall|i: int|
        0 <= i < post.jobs.len() implies exists|w: int|
        0 <= w < post.agents.len() && post.agents[w].id == #[trigger] post.jobs[i].agent_id by {
        if i != k {
            assert(post.jobs[i].agent_id == pre.jobs[i].agent_id);
            let w = choose|w: int|
                0 <= w < pre.agents.len() && pre.agents[w].id == pre.jobs[i].agent_id;
            assert(post.agents[w].id == post.jobs[i].agent_id);
        }
    }
    assert forall|i: int| 0 <= i < post.jobs.len() implies (#[trigger] post.jobs[i]).wf() by {
        if i != k {
            assert(post.jobs[i] == pre.jobs[i]);
        }
    }
}

} // verus!
