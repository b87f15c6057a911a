//! Reading one background job.
use vstd::prelude::*;
use crate::domain::job;
use crate::time::Timestamp;

pub mod repository;

verus! {

pub struct Request {
    pub id: i64,
}

pub struct Response {
    pub id: i64,
    pub job_type: job::JobType,
    pub job_args: serde_json::Value,
    pub status: job::JobStatus,
    pub description: String,
    pub error_message: String,
    pub success: bool,
    pub created_by_id: i64,
    pub created_at: Timestamp,
    pub completed_at: Option<Timestamp>,
}

#[derive(Debug)]
pub enum Error {
    RepositoryError(repository::Error),
}

pub open spec fn response_of(j: job::Model) -> Response {
    Response {
        id: j.id,
        job_type: j.job_type,
        job_args: j.job_args,
        status: j.status,
        description: j.description,
        error_message: j.error_message,
        success: j.success,
        created_by_id: j.created_by_id,
        created_at: j.created_at,
        completed_at: j.completed_at,
    }
}

/// The job read is answered as it is stored, field by field.
pub proof fn lemma_response_shows_the_stored_job(j: job::Model)
    ensures
        response_of(j).id == j.id,
        response_of(j).job_type == j.job_type,
        response_of(j).job_args == j.job_args,
        response_of(j).status == j.status,
        response_of(j).description == j.description,
        response_of(j).error_message == j.error_message,
        response_of(j).success == j.success,
        response_of(j).created_by_id == j.created_by_id,
        response_of(j).created_at == j.created_at,
        response_of(j).completed_at == j.completed_at,
{
}

pub enum Action {
    ReadJob { id: i64 },
    Finish(Result<Response, Error>),
}

pub enum Event {
    JobRead(Result<job::Model, repository::Error>),
}

#[derive(Debug, Clone, Copy, PartialEq, Eq, Structural)]
pub enum Phase {
    Reading,
    Finished,
}

pub struct Handler {
    pub phase: Phase,
}

impl Handler {
    pub open spec fn accepts_spec(&self, event: &Event) -> bool {
        self.phase == Phase::Reading
    }

    pub fn accepts(&self, event: &Event) -> (r: bool)
        ensures
            r == self.accepts_spec(event),
    {
        self.phase == Phase::Reading
    }

    pub fn start(request: Request) -> (r: (Handler, Action))
        ensures
            r.0.phase == Phase::Reading,
            r.1 == (Action::ReadJob { id: request.id }),
    {
        (Handler { phase: Phase::Reading }, Action::ReadJob { id: request.id })
    }

    pub fn on_event(&mut self, event: Event) -> (action: Action)
        requires
            old(self).accepts_spec(&event),
        ensures
            final(self).phase == Phase::Finished,
            match event {
                Event::JobRead(Ok(j)) => action == Action::Finish(Ok(response_of(j))) && (action matches Action::Finish(
                    Ok(resp),
                ) && resp.id == j.id && resp.description == j.description && resp.error_message == j.error_message
                    && resp.job_type == j.job_type && resp.status == j.status && resp.success == j.success
                    && resp.created_by_id == j.created_by_id && resp.created_at == j.created_at
                    && resp.completed_at == j.completed_at && resp.job_args == j.job_args),
                Event::JobRead(Err(e)) => action == Action::Finish(Err(Error::RepositoryError(e))),
            },
    {
        self.phase = Phase::Finished;
        match event {
            Event::JobRead(Ok(j)) => Action::Finish(Ok(Response {
                id: j.id,
                job_type: j.job_type,
                job_args: j.job_args,
                status: j.status,
                description: j.description,
                error_message: j.error_message,
                success: j.success,
                created_by_id: j.created_by_id,
                created_at: j.created_at,
                completed_at: j.completed_at,
            })),
            Event::JobRead(Err(e)) => Action::Finish(Err(Error::RepositoryError(e))),
        }
    }
}

} // verus!
