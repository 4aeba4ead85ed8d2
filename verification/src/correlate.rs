//! The result correlator: the per-job, single-use channel that carries one
//! job's outcome from the worker back to the submitter that created it.
//! The channel itself is tokio's oneshot primitive; this module declares it
//! and wraps the calls the queue logic makes.

use vstd::prelude::*;
use crate::models::{JobParams, JobResult};

verus! {

#[verifier::external_type_specification]
#[verifier::external_body]
#[verifier::reject_recursive_types(T)]
pub struct ExOneshotSender<T>(tokio::sync::oneshot::Sender<T>);

#[verifier::external_type_specification]
#[verifier::external_body]
#[verifier::reject_recursive_types(T)]
pub struct ExOneshotReceiver<T>(tokio::sync::oneshot::Receiver<T>);

#[verifier::external_type_specification]
#[verifier::external_body]
pub struct ExOneshotRecvError(tokio::sync::oneshot::error::RecvError);

/// The unit transported over the job channel: a job's identifier, its
/// execution parameters, and the sending half of its result correlator.
pub struct DownloadJob {
    pub id: u64,
    pub params: JobParams,
    pub resp_tx: tokio::sync::oneshot::Sender<JobResult>,
}

/// Relies on tokio::sync::oneshot::channel: a fresh single-use channel
/// whose sender delivers at most one value to this receiver.
#[verifier::external_body]
pub(crate) fn correlator_pair() -> (r: (
    tokio::sync::oneshot::Sender<JobResult>,
    tokio::sync::oneshot::Receiver<JobResult>,
))
{
    tokio::sync::oneshot::channel()
}

/// Discards the receiving half of a correlator, as the fire-and-forget
/// mode does at admission; the paired sender then observes a closed
/// channel and its send is a safe no-op.
pub(crate) fn drop_receiver(rx: tokio::sync::oneshot::Receiver<JobResult>) {
    let _ = rx;
}

/// Relies on tokio::sync::oneshot::Sender::send: consumes the sender,
/// never blocks, and returns Err exactly when the receiver is already
/// gone — which the worker tolerates silently. The returned flag says
/// whether a receiver was still listening.
#[verifier::external_body]
pub(crate) fn send_result(
    tx: tokio::sync::oneshot::Sender<JobResult>,
    res: JobResult,
) -> (delivered: bool) {
    tx.send(res).is_ok()
}

} // verus!
