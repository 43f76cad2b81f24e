//! Jobs: identity-bearing units of work, and the texts they produce.

use crate::model::{distinct, job_ids};
use crate::text::{decimal, push_decimal};
use vstd::prelude::*;
use vstd::string::*;

verus! {

/// How long a job's simulated work lasts, in milliseconds.
pub const WORK_MILLIS: u32 = 5000;

/// How many jobs a default run supervises.
pub const DEFAULT_JOB_COUNT: u32 = 10;

/// An independently schedulable unit of work. The identity is chosen by the
/// caller and must be unique within one supervisor run; the payload is an
/// opaque description that never changes after creation.
#[derive(Debug, PartialEq, Eq)]
pub struct Job {
    pub id: u32,
    pub payload: String,
}

/// The mathematical content of a [`Job`].
pub struct JobView {
    pub id: u32,
    pub payload: Seq<char>,
}

impl View for Job {
    type V = JobView;

    open spec fn view(&self) -> JobView {
        JobView { id: self.id, payload: self.payload@ }
    }
}

/// The mathematical contents of a sequence of jobs, in the same order.
pub open spec fn job_views(jobs: Seq<Job>) -> Seq<JobView> {
    Seq::new(jobs.len(), |i: int| jobs[i]@)
}

impl Clone for Job {
    fn clone(&self) -> (copy: Job)
        ensures
            copy == *self,
    {
        Job { id: self.id, payload: self.payload.clone() }
    }
}

/// The result text of the job with identity `id`.
pub open spec fn outcome_text(id: u32) -> Seq<char> {
    "Job "@ + decimal(id as nat) + " ran for "@ + decimal(WORK_MILLIS as nat) + "ms"@
}

/// The one-line description of a job.
pub open spec fn description(job: JobView) -> Seq<char> {
    "Job { id: "@ + decimal(job.id as nat) + ", payload: "@ + job.payload + " }"@
}

/// The payload that a default run gives to the job with identity `id`.
pub open spec fn numbered_payload(id: u32) -> Seq<char> {
    "job "@ + decimal(id as nat)
}

/// The job that a default run creates for identity `id`.
pub open spec fn numbered_job(id: u32) -> JobView {
    JobView { id, payload: numbered_payload(id) }
}

impl Job {
    /// Creates a job. Pure construction: nothing is scheduled yet.
    pub fn new(id: u32, payload: String) -> (job: Job)
        ensures
            job.id == id,
            job.payload == payload,
            job@ == (JobView { id, payload: payload@ }),
    {
        Job { id, payload }
    }

    /// The value that the job's execution returns once its work is over.
    pub fn outcome(&self) -> (text: String)
        ensures
            text@ == outcome_text(self.id),
    {
        let mut text = String::from_str("Job ");
        push_decimal(&mut text, self.id);
        text.append(" ran for ");
        push_decimal(&mut text, WORK_MILLIS);
        text.append("ms");
        text
    }

    /// A one-line description of the job, for display.
    pub fn describe(&self) -> (text: String)
        ensures
            text@ == description(self@),
    {
        let mut text = String::from_str("Job { id: ");
        push_decimal(&mut text, self.id);
        text.append(", payload: ");
        text.append(self.payload.as_str());
        text.append(" }");
        text
    }

    /// The job of a default run with identity `id`: its payload names it.
    pub fn numbered(id: u32) -> (job: Job)
        ensures
            job@ == numbered_job(id),
    {
        let mut payload = String::from_str("job ");
        push_decimal(&mut payload, id);
        Job { id, payload }
    }
}

/// The jobs of a default run: identities `0..count` in ascending order, so
/// that no two of them share one.
pub fn numbered_jobs(count: u32) -> (jobs: Vec<Job>)
    ensures
        jobs@.len() == count,
        forall|i: int| 0 <= i < count ==> (#[trigger] jobs@[i])@ == numbered_job(i as u32),
        distinct(job_ids(job_views(jobs@))),
{
    let mut jobs: Vec<Job> = Vec::new();
    let mut id: u32 = 0;
    while id < count
        invariant
            id <= count,
            jobs@.len() == id,
            forall|i: int| 0 <= i < id ==> (#[trigger] jobs@[i])@ == numbered_job(i as u32),
        decreases count - id,
    {
        jobs.push(Job::numbered(id));
        id = id + 1;
    }
    jobs
}

} // verus!
