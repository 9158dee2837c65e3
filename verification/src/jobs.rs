//! The job lifecycle state machine.
//!
//! A job starts at `Todo`, is handed to the transport for delivery
//! (`Scheduled`), is confirmed delivered to its agent (`Pending`), and ends
//! `Done` on a successfully authenticated result or `Failed` on an
//! authentication failure or an explicit failure signal.  No transition
//! retreats to an earlier state, and the two terminal states are absorbing.

use crate::api::c2::JobStatus;
use vstd::prelude::*;

verus! {

/// The events that drive a job's status.
#[derive(Debug, Copy, Clone, PartialEq, Eq, Structural)]
pub enum JobEvent {
    /// The job was handed to the transport loop for delivery.
    Dispatch,
    /// The agent confirmed delivery.
    DeliveryAck,
    /// A validly signed, validly encrypted result arrived.
    ResultOk,
    /// The result failed authentication, or the agent signalled failure.
    ResultFail,
}

/// The transition function: where a valid event takes a status.  An event
/// that does not apply in the current status leaves it unchanged.
pub open spec fn spec_step(s: JobStatus, e: JobEvent) -> JobStatus {
    match (s, e) {
        (JobStatus::Todo, JobEvent::Dispatch) => JobStatus::Scheduled,
        (JobStatus::Scheduled, JobEvent::DeliveryAck) => JobStatus::Pending,
        (JobStatus::Pending, JobEvent::ResultOk) => JobStatus::Done,
        (JobStatus::Pending, JobEvent::ResultFail) => JobStatus::Failed,
        (s, _) => s,
    }
}

/// How far along its lifecycle a status is.
pub open spec fn rank(s: JobStatus) -> int {
    match s {
        JobStatus::Todo => 0,
        JobStatus::Scheduled => 1,
        JobStatus::Pending => 2,
        JobStatus::Done => 3,
        JobStatus::Failed => 3,
    }
}

/// Advance a status by one event.
pub fn step(s: JobStatus, e: JobEvent) -> (r: JobStatus)
    ensures
        r == spec_step(s, e),
{
    match (s, e) {
        (JobStatus::Todo, JobEvent::Dispatch) => JobStatus::Scheduled,
        (JobStatus::Scheduled, JobEvent::DeliveryAck) => JobStatus::Pending,
        (JobStatus::Pending, JobEvent::ResultOk) => JobStatus::Done,
        (JobStatus::Pending, JobEvent::ResultFail) => JobStatus::Failed,
        (s, _) => s,
    }
}

/// The status after a whole sequence of events.
pub open spec fn spec_run(s: JobStatus, events: Seq<JobEvent>) -> JobStatus
    decreases events.len(),
{
    if events.len() == 0 {
        s
    } else {
        spec_run(spec_step(s, events.first()), events.drop_first())
    }
}

/// One step never moves a status backwards, and the terminal states are
/// absorbing.
pub proof fn lemma_step_monotone(s: JobStatus, e: JobEvent)
    ensures
        rank(spec_step(s, e)) >= rank(s),
        s is Done ==> spec_step(s, e) == s,
        s is Failed ==> spec_step(s, e) == s,
{
}

/// Lifecycle monotonicity: starting anywhere, no sequence of valid events
/// lowers a job's progress; in particular, once a job is `Done` or `Failed`
/// it never returns to `Todo` or `Scheduled` (it never changes again at all).
pub proof fn lemma_run_monotone(s: JobStatus, events: Seq<JobEvent>)
    ensures
        rank(spec_run(s, events)) >= rank(s),
        s is Done ==> spec_run(s, events) == s,
        s is Failed ==> spec_run(s, events) == s,
    decreases events.len(),
{
    if events.len() > 0 {
        lemma_step_monotone(s, events.first());
        lemma_run_monotone(spec_step(s, events.first()), events.drop_first());
    }
}

} // verus!
