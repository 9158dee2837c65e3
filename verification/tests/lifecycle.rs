//! Job lifecycle and registry behaviour.

use pr2::api::c2::{Agent, CreateJob, JobStatus, UpdateJobResult};
use pr2::jobs::{step, JobEvent};
use pr2::server::error::Error;
use pr2::server::registry::Registry;

#[test]
fn step_follows_the_lifecycle() {
    assert!(matches!(step(JobStatus::Todo, JobEvent::Dispatch), JobStatus::Scheduled));
    assert!(matches!(step(JobStatus::Scheduled, JobEvent::DeliveryAck), JobStatus::Pending));
    assert!(matches!(step(JobStatus::Pending, JobEvent::ResultOk), JobStatus::Done));
    assert!(matches!(step(JobStatus::Pending, JobEvent::ResultFail), JobStatus::Failed));
}

#[test]
fn inapplicable_events_change_nothing() {
    assert!(matches!(step(JobStatus::Todo, JobEvent::ResultOk), JobStatus::Todo));
    assert!(matches!(step(JobStatus::Scheduled, JobEvent::Dispatch), JobStatus::Scheduled));
    assert!(matches!(step(JobStatus::Pending, JobEvent::Dispatch), JobStatus::Pending));
}

#[test]
fn terminal_states_are_absorbing() {
    for e in [JobEvent::Dispatch, JobEvent::DeliveryAck, JobEvent::ResultOk, JobEvent::ResultFail] {
        assert!(matches!(step(JobStatus::Done, e), JobStatus::Done));
        assert!(matches!(step(JobStatus::Failed, e), JobStatus::Failed));
    }
}

fn sample_agent(id: u128) -> Agent {
    Agent {
        id,
        created_at: 1_000,
        last_seen: 1_000,
        identity_public_key: [0xaa; 32],
        public_prekey: [0xbb; 32],
        public_prekey_signature: vec![0xcc; 64],
    }
}

fn sample_create_job(id: u128, agent_id: u128) -> CreateJob {
    CreateJob {
        id,
        agent_id,
        encrypted_job: vec![1, 2, 3],
        ephemeral_public_key: [0x01; 32],
        nonce: [0x02; 24],
        signature: vec![0x03; 64],
    }
}

#[test]
fn job_runs_its_whole_lifecycle() {
    // register agent A1 with a given prekey, then walk job J1 from creation
    // to a posted result
    let mut reg = Registry::new();
    let a1: u128 = 100;
    let j1: u128 = 200;
    assert_eq!(reg.register(sample_agent(a1)).unwrap(), a1);
    reg.create_job(sample_create_job(j1, a1)).unwrap();
    assert!(matches!(reg.list_jobs().0[0].status, JobStatus::Todo));
    assert!(reg.list_jobs().0[0].encrypted_result.is_none());

    assert!(matches!(reg.dispatch_job(j1).unwrap(), JobStatus::Scheduled));
    assert!(matches!(reg.list_jobs().0[0].status, JobStatus::Scheduled));

    assert!(matches!(reg.deliver_job(j1).unwrap(), JobStatus::Pending));
    assert!(matches!(reg.list_jobs().0[0].status, JobStatus::Pending));

    let upd = UpdateJobResult {
        job_id: j1,
        encrypted_job_result: vec![9, 9, 9],
        ephemeral_public_key: [0x0d; 32],
        nonce: [0x0e; 24],
        signature: vec![0x0f; 64],
    };
    assert!(matches!(reg.complete_job(upd).unwrap(), JobStatus::Done));
    let done = &reg.list_jobs().0[0];
    assert!(matches!(done.status, JobStatus::Done));
    assert_eq!(done.encrypted_result.as_ref().unwrap(), &vec![9, 9, 9]);
    assert!(done.result_ephemeral_public_key.is_some());
    assert!(done.result_nonce.is_some());
    assert!(done.result_signature.is_some());
}

#[test]
fn no_event_retreats_a_finished_job() {
    let mut reg = Registry::new();
    let a1: u128 = 1;
    let j1: u128 = 2;
    reg.register(sample_agent(a1)).unwrap();
    reg.create_job(sample_create_job(j1, a1)).unwrap();
    reg.dispatch_job(j1).unwrap();
    reg.deliver_job(j1).unwrap();
    reg.fail_job(j1).unwrap();
    // a failed job accepts no further lifecycle event
    assert!(matches!(reg.dispatch_job(j1), Err(Error::Conflict(_))));
    assert!(matches!(reg.deliver_job(j1), Err(Error::Conflict(_))));
    assert!(matches!(reg.fail_job(j1), Err(Error::Conflict(_))));
    assert!(matches!(reg.list_jobs().0[0].status, JobStatus::Failed));
}

#[test]
fn jobs_must_target_registered_agents() {
    let mut reg = Registry::new();
    let r = reg.create_job(sample_create_job(2, 1));
    assert!(matches!(r, Err(Error::NotFound(_))));
}

#[test]
fn duplicate_registration_conflicts() {
    let mut reg = Registry::new();
    reg.register(sample_agent(1)).unwrap();
    assert!(matches!(reg.register(sample_agent(1)), Err(Error::Conflict(_))));
}

#[test]
fn duplicate_job_id_conflicts() {
    let mut reg = Registry::new();
    reg.register(sample_agent(1)).unwrap();
    reg.create_job(sample_create_job(2, 1)).unwrap();
    assert!(matches!(reg.create_job(sample_create_job(2, 1)), Err(Error::Conflict(_))));
}

#[test]
fn touch_never_decreases_last_seen() {
    let mut reg = Registry::new();
    reg.register(sample_agent(1)).unwrap();
    reg.touch(1, 5_000).unwrap();
    assert_eq!(reg.list_agents().0[0].last_seen, 5_000);
    // a stale clock reading does not move the timestamp backwards
    reg.touch(1, 4_000).unwrap();
    assert_eq!(reg.list_agents().0[0].last_seen, 5_000);
}

#[test]
fn touch_of_unknown_agent_is_not_found() {
    let mut reg = Registry::new();
    assert!(matches!(reg.touch(7, 1_000), Err(Error::NotFound(_))));
}

#[test]
fn lifecycle_events_on_unknown_jobs_are_not_found() {
    let mut reg = Registry::new();
    assert!(matches!(reg.dispatch_job(9), Err(Error::NotFound(_))));
    assert!(matches!(reg.deliver_job(9), Err(Error::NotFound(_))));
    assert!(matches!(reg.fail_job(9), Err(Error::NotFound(_))));
}

#[test]
fn update_job_replaces_payload_but_not_status() {
    let mut reg = Registry::new();
    reg.register(sample_agent(1)).unwrap();
    reg.create_job(sample_create_job(2, 1)).unwrap();
    reg.dispatch_job(2).unwrap();
    let mut replacement = reg.list_jobs().0[0].clone();
    replacement.encrypted_job = vec![42];
    reg.update_job(replacement).unwrap();
    let j = &reg.list_jobs().0[0];
    assert_eq!(j.encrypted_job, vec![42]);
    assert!(matches!(j.status, JobStatus::Scheduled));
}

#[test]
fn http_status_mapping() {
    assert_eq!(Error::InvalidArgument(String::from("x")).http_status(), 400);
    assert_eq!(Error::AuthenticationRequired.http_status(), 401);
    assert_eq!(Error::PermissionDenied(String::from("x")).http_status(), 403);
    assert_eq!(Error::NotFound(String::from("x")).http_status(), 404);
    assert_eq!(Error::Conflict(String::from("x")).http_status(), 409);
    assert_eq!(Error::Internal(String::from("x")).http_status(), 500);
}
