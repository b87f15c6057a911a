//! Recording a background job and starting it.
use vstd::prelude::*;
use crate::domain::job;

pub mod repository;
pub mod validation;

verus! {

/// Create a background job.
pub struct Request<'a> {
    pub job_type: &'a job::JobType,
    pub job_args: &'a serde_json::Value,
    pub description: &'a str,
    pub created_by_id: i64,
}

pub struct Response {
    pub id: i64,
}

#[derive(Debug)]
pub enum Error {
    ValidationError(validation::Error),
    RepositoryError(repository::Error),
}

pub enum Action<'a> {
    CreateJob { job_type: &'a job::JobType, job_args: &'a serde_json::Value, description: &'a str, created_by_id: i64 },
    /// Start the stored job in the background, without waiting for it.
    SpawnJob { kind: job::JobType },
    Finish(Result<Response, Error>),
}

pub enum Event {
    JobCreated(Result<job::Model, repository::Error>),
    JobSpawned,
}

#[derive(Debug, Clone, Copy, PartialEq, Eq, Structural)]
pub enum Phase {
    Creating,
    Spawning,
    Finished,
}

pub struct Handler {
    pub phase: Phase,
    pub job_id: i64,
}

impl Handler {
    pub open spec fn accepts_spec(&self, event: &Event) -> bool {
        match event {
            Event::JobCreated(_) => self.phase == Phase::Creating,
            Event::JobSpawned => self.phase == Phase::Spawning,
        }
    }

    pub fn accepts(&self, event: &Event) -> (r: bool)
        ensures
            r == self.accepts_spec(event),
    {
        match event {
            Event::JobCreated(_) => self.phase == Phase::Creating,
            Event::JobSpawned => self.phase == Phase::Spawning,
        }
    }

    /// A description that is too long is refused before anything is stored.
    pub fn start<'a>(request: Request<'a>) -> (r: (Handler, Action<'a>))
        ensures
            request.description@.len() <= validation::DESCRIPTION_MAX_CHARS ==> r.0.phase == Phase::Creating
                && r.1 == (Action::CreateJob {
                job_type: request.job_type,
                job_args: request.job_args,
                description: request.description,
                created_by_id: request.created_by_id,
            }),
            request.description@.len() > validation::DESCRIPTION_MAX_CHARS ==> r.0.phase == Phase::Finished
                && r.1 == Action::Finish(Err(Error::ValidationError(validation::Error::DescriptionTooLong))),
    {
        match validation::validate(&request) {
            Err(e) => (Handler { phase: Phase::Finished, job_id: 0 }, Action::Finish(Err(Error::ValidationError(e)))),
            Ok(()) => (
                Handler { phase: Phase::Creating, job_id: 0 },
                Action::CreateJob {
                    job_type: request.job_type,
                    job_args: request.job_args,
                    description: request.description,
                    created_by_id: request.created_by_id,
                },
            ),
        }
    }

    pub fn on_event<'a>(&mut self, event: Event) -> (action: Action<'a>)
        requires
            old(self).accepts_spec(&event),
        ensures
            match event {
                Event::JobCreated(Ok(j)) => final(self).phase == Phase::Spawning && final(self).job_id == j.id
                    && action == (Action::SpawnJob { kind: j.job_type }),
                Event::JobCreated(Err(e)) => final(self).phase == Phase::Finished && action == Action::Finish(
                    Err(Error::RepositoryError(e)),
                ),
                Event::JobSpawned => final(self).phase == Phase::Finished && action == Action::Finish(
                    Ok(Response { id: old(self).job_id }),
                ),
            },
    {
        match event {
            Event::JobCreated(Ok(j)) => {
                self.phase = Phase::Spawning;
                self.job_id = j.id;
                Action::SpawnJob { kind: j.job_type }
            },
            Event::JobCreated(Err(e)) => {
                self.phase = Phase::Finished;
                Action::Finish(Err(Error::RepositoryError(e)))
            },
            Event::JobSpawned => {
                self.phase = Phase::Finished;
                Action::Finish(Ok(Response { id: self.job_id }))
            },
        }
    }
}

} // verus!
