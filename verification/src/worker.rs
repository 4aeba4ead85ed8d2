//! The worker loop's verified core: the single consumer's phase machine
//! and the finalization of each job. The loop itself — receiving from the
//! job channel and invoking the external fetch collaborator — is the
//! caller's; every decision it takes between those suspension points is
//! here.

use vstd::prelude::*;
use crate::correlate::{send_result, DownloadJob};
use crate::models::{FetchOutcome, JobResult};
use crate::store::{jobs_contain, without_id, QueueStore};

verus! {

/// Where the single consumer stands with the job in flight. There is at
/// most one: a job must reach `Idle` again before the next is dequeued.
pub enum WorkerPhase {
    /// Waiting on the job channel.
    Idle,
    /// The fetch collaborator is running this job.
    Executing { id: u64 },
    /// The fetch completed; the record and the result remain to be settled.
    Finalizing { id: u64 },
}

/// The single long-lived consumer of the job channel.
pub struct Worker {
    pub phase: WorkerPhase,
}

impl Worker {
    pub fn new() -> (w: Worker)
        ensures
            w.phase is Idle,
    {
        Worker { phase: WorkerPhase::Idle }
    }

    /// A job was dequeued: execution begins.
    pub fn begin_job(&mut self, job_id: u64)
        requires
            old(self).phase is Idle,
        ensures
            final(self).phase == (WorkerPhase::Executing { id: job_id }),
    {
        self.phase = WorkerPhase::Executing { id: job_id };
    }

    /// The fetch collaborator returned, with whatever outcome: the job
    /// moves to finalization.
    pub fn fetch_completed(&mut self)
        requires
            old(self).phase matches WorkerPhase::Executing { .. },
        ensures
            final(self).phase == (WorkerPhase::Finalizing {
                id: old(self).phase->Executing_id,
            }),
    {
        let id = match self.phase {
            WorkerPhase::Executing { id } => id,
            _ => 0,
        };
        self.phase = WorkerPhase::Finalizing { id };
    }

    /// Settles a finalizing job: removes its record from the queue store —
    /// rewriting the durable mirror in the same step — delivers the result
    /// through the job's correlator, and returns to `Idle`. The removal
    /// and the return to `Idle` hold whether or not a receiver was still
    /// listening: a submitter that stopped waiting never stalls the
    /// worker.
    pub fn finalize_job(&mut self, store: &mut QueueStore, job: DownloadJob, res: JobResult)
        -> (delivered: bool)
        requires
            old(self).phase == (WorkerPhase::Finalizing { id: job.id }),
            old(store).wf(),
        ensures
            final(self).phase is Idle,
            final(store).wf(),
            final(store).jobs() == without_id(old(store).jobs(), job.id),
            !jobs_contain(final(store).jobs(), job.id),
    {
        store.remove_id(job.id);
        let delivered = send_result(job.resp_tx, res);
        self.phase = WorkerPhase::Idle;
        delivered
    }
}

/// Translates the fetch collaborator's report into the job's result: a
/// success keeps its message and output path; any failure becomes an
/// unsuccessful result carrying the diagnostic text and the collaborator's
/// outcome code. It is never retried.
pub fn translate_outcome(outcome: FetchOutcome) -> (r: JobResult)
    ensures
        r.success == outcome.success,
        r.message == outcome.message,
        r.output_path == outcome.output_path,
        outcome.success ==> r.error is None && r.http_status == 200,
        !outcome.success ==> r.error == outcome.error && r.http_status == outcome.code,
{
    if outcome.success {
        JobResult {
            success: true,
            message: outcome.message,
            error: None,
            output_path: outcome.output_path,
            http_status: 200,
        }
    } else {
        JobResult {
            success: false,
            message: outcome.message,
            error: outcome.error,
            output_path: outcome.output_path,
            http_status: outcome.code,
        }
    }
}

} // verus!
