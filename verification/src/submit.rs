//! The submission coordinator: validates a request before any state is
//! touched, normalizes its optional fields, and then — for a request that
//! passed validation and whose output directory exists — draws an
//! identifier, persists the queue record together with its mirror, and
//! builds the envelope handed to the job channel.
//!
//! Two modes share that sequence: the synchronous mode keeps the receiving
//! half of the result correlator and awaits it; the fire-and-forget mode
//! discards the receiver at once and acknowledges acceptance immediately.

use vstd::prelude::*;
use crate::correlate::{correlator_pair, drop_receiver, DownloadJob};
use crate::gauge::{wrap_dec, PendingGauge};
use crate::ids::{nth_id, wrap_inc, IdGenerator};
use crate::models::{
    copy_opt_string, copy_string, opt_view, DownloadRequest, DownloadResponse, JobModel,
    JobParams, JobResult, QueuedJob, SubmitError,
};
use crate::store::{jobs_contain, QueueStore};
use crate::validate::{is_blank, joined_path, join_under, str_is_blank, subfolder_is_safe,
    subfolder_ok};

verus! {

/// A submission that passed validation: every optional field resolved to
/// its documented default, and the output path already joined.
pub struct PreparedSubmission {
    pub url: String,
    pub quality: String,
    pub format_selector: String,
    pub subfolder: String,
    pub title: Option<String>,
    pub username: Option<String>,
    pub password: Option<String>,
    pub output_path: String,
}

/// The requested quality, defaulting to "best".
pub open spec fn req_quality(r: DownloadRequest) -> Seq<char> {
    match r.quality {
        Some(q) => q@,
        None => "best"@,
    }
}

/// The requested container format, defaulting to "mp4".
pub open spec fn req_format(r: DownloadRequest) -> Seq<char> {
    match r.format {
        Some(f) => f@,
        None => "mp4"@,
    }
}

/// The requested subfolder, defaulting to the empty path.
pub open spec fn req_subfolder(r: DownloadRequest) -> Seq<char> {
    match r.subfolder {
        Some(s) => s@,
        None => Seq::<char>::empty(),
    }
}

/// The queue record a prepared submission produces under a given
/// identifier and stored title.
pub open spec fn record_model(p: PreparedSubmission, id: u64, title: Option<Seq<char>>)
    -> JobModel {
    JobModel {
        id,
        url: p.url@,
        quality: p.quality@,
        format_selector: p.format_selector@,
        subfolder: p.subfolder@,
        title,
        username: opt_view(p.username),
        password: opt_view(p.password),
    }
}

/// The title stored by the fire-and-forget mode: the requested one, or a
/// placeholder.
pub open spec fn detached_title(p: PreparedSubmission) -> Seq<char> {
    match p.title {
        Some(t) => t@,
        None => "Unknown Title"@,
    }
}

/// The execution parameters carry the prepared fields and the resolved
/// output path.
pub open spec fn params_match(params: JobParams, p: PreparedSubmission) -> bool {
    &&& params.url@ == p.url@
    &&& params.quality@ == p.quality@
    &&& params.format_selector@ == p.format_selector@
    &&& params.output_path@ == p.output_path@
    &&& opt_view(params.custom_title) == opt_view(p.title)
    &&& opt_view(params.username) == opt_view(p.username)
    &&& opt_view(params.password) == opt_view(p.password)
}

/// Law: when every live entry's identifier came from an earlier draw of
/// the same generator, and fewer than 2^64 identifiers have been drawn,
/// the next draw cannot collide with a live entry — admission is never
/// refused, and a removed identifier never reappears.
pub proof fn law_next_id_fresh(base: u64, issued: nat, s: Seq<JobModel>)
    requires
        issued < 0x1_0000_0000_0000_0000,
        forall|i: int|
            0 <= i < s.len() ==> exists|k: nat|
                1 <= k <= issued && (#[trigger] s[i]).id == nth_id(base, k),
    ensures
        !jobs_contain(s, nth_id(base, issued + 1)),
{
    if jobs_contain(s, nth_id(base, issued + 1)) {
        let i = choose|i: int| 0 <= i < s.len() && s[i].id == nth_id(base, issued + 1);
        let k = choose|k: nat| 1 <= k <= issued && s[i].id == nth_id(base, k);
        crate::ids::lemma_ids_distinct(base, k, issued + 1);
    }
}

/// Validates a submission and resolves its defaults. Nothing is mutated
/// here: a blank URL or an unsafe subfolder is refused before the queue
/// store or the filesystem is touched.
pub fn prepare_submission(req: DownloadRequest, downloads_folder: &str) -> (r: Result<
    PreparedSubmission,
    SubmitError,
>)
    ensures
        is_blank(req.url@) ==> r matches Err(SubmitError::EmptyUrl),
        !is_blank(req.url@) && !subfolder_ok(req_subfolder(req)) ==> r matches Err(
            SubmitError::UnsafeSubfolder,
        ),
        !is_blank(req.url@) && subfolder_ok(req_subfolder(req)) ==> (r matches Ok(p)
            && p.url@ == req.url@
            && p.quality@ == req_quality(req)
            && p.format_selector@ == req_format(req)
            && p.subfolder@ == req_subfolder(req)
            && opt_view(p.title) == opt_view(req.title)
            && opt_view(p.username) == opt_view(req.username)
            && opt_view(p.password) == opt_view(req.password)
            && p.output_path@ == joined_path(downloads_folder@, req_subfolder(req))),
{
    if str_is_blank(req.url.as_str()) {
        return Err(SubmitError::EmptyUrl);
    }
    let subfolder = match req.subfolder {
        Some(s) => s,
        None => {
            let empty = String::from_str("");
            proof {
                reveal_strlit("");
                assert(empty@ =~= Seq::<char>::empty());
            }
            empty
        },
    };
    if !subfolder_is_safe(subfolder.as_str()) {
        return Err(SubmitError::UnsafeSubfolder);
    }
    let quality = match req.quality {
        Some(q) => q,
        None => String::from_str("best"),
    };
    let format_selector = match req.format {
        Some(f) => f,
        None => String::from_str("mp4"),
    };
    let output_path = join_under(downloads_folder, subfolder.as_str());
    Ok(PreparedSubmission {
        url: req.url,
        quality,
        format_selector,
        subfolder,
        title: req.title,
        username: req.username,
        password: req.password,
        output_path,
    })
}

/// Admits a prepared submission in synchronous mode: draws the identifier,
/// appends the record and its mirror, and builds the envelope together
/// with the receiving half of the result correlator, which the caller
/// awaits. Refused, with nothing mutated, only if the drawn identifier
/// already names a live entry — impossible while fewer than 2^64
/// submissions have been admitted.
pub fn admit_sync(store: &mut QueueStore, ids: &mut IdGenerator, prepared: PreparedSubmission)
    -> (r: Result<
    (u64, DownloadJob, tokio::sync::oneshot::Receiver<JobResult>),
    SubmitError,
>)
    requires
        old(store).wf(),
        old(ids).wf(),
    ensures
        jobs_contain(old(store).jobs(), wrap_inc(old(ids).counter)) ==> (r matches Err(
            SubmitError::DuplicateId,
        ) && *final(store) == *old(store) && *final(ids) == *old(ids)),
        !jobs_contain(old(store).jobs(), wrap_inc(old(ids).counter)) ==> (r matches Ok(t)
            && t.0 == wrap_inc(old(ids).counter)
            && final(ids).wf()
            && final(ids).base == old(ids).base
            && final(ids).issued@ == old(ids).issued@ + 1
            && final(ids).counter == t.0
            && final(store).wf()
            && final(store).jobs() == old(store).jobs().push(
                record_model(prepared, t.0, opt_view(prepared.title)),
            )
            && t.1.id == t.0
            && params_match(t.1.params, prepared)),
{
    let id = ids.peek_next();
    if store.contains_id(id) {
        return Err(SubmitError::DuplicateId);
    }
    let drawn = ids.next();
    let params = JobParams {
        url: copy_string(&prepared.url),
        quality: copy_string(&prepared.quality),
        format_selector: copy_string(&prepared.format_selector),
        output_path: prepared.output_path,
        custom_title: copy_opt_string(&prepared.title),
        username: copy_opt_string(&prepared.username),
        password: copy_opt_string(&prepared.password),
    };
    let record = QueuedJob {
        id: drawn,
        url: prepared.url,
        quality: prepared.quality,
        format_selector: prepared.format_selector,
        subfolder: prepared.subfolder,
        title: prepared.title,
        username: prepared.username,
        password: prepared.password,
    };
    proof {
        assert(record@ =~= record_model(prepared, drawn, opt_view(prepared.title)));
    }
    store.append(record);
    let (tx, rx) = correlator_pair();
    let job = DownloadJob { id: drawn, params, resp_tx: tx };
    Ok((drawn, job, rx))
}

/// Admits a prepared submission in fire-and-forget mode: as `admit_sync`,
/// but the receiving half of the correlator is discarded at once, and the
/// stored title falls back to a placeholder when none was requested.
pub fn admit_detached(store: &mut QueueStore, ids: &mut IdGenerator, prepared: PreparedSubmission)
    -> (r: Result<(u64, DownloadJob), SubmitError>)
    requires
        old(store).wf(),
        old(ids).wf(),
    ensures
        jobs_contain(old(store).jobs(), wrap_inc(old(ids).counter)) ==> (r matches Err(
            SubmitError::DuplicateId,
        ) && *final(store) == *old(store) && *final(ids) == *old(ids)),
        !jobs_contain(old(store).jobs(), wrap_inc(old(ids).counter)) ==> (r matches Ok(t)
            && t.0 == wrap_inc(old(ids).counter)
            && final(ids).wf()
            && final(ids).base == old(ids).base
            && final(ids).issued@ == old(ids).issued@ + 1
            && final(ids).counter == t.0
            && final(store).wf()
            && final(store).jobs() == old(store).jobs().push(
                record_model(prepared, t.0, Some(detached_title(prepared))),
            )
            && t.1.id == t.0
            && params_match(t.1.params, prepared)),
{
    let id = ids.peek_next();
    if store.contains_id(id) {
        return Err(SubmitError::DuplicateId);
    }
    let drawn = ids.next();
    let params = JobParams {
        url: copy_string(&prepared.url),
        quality: copy_string(&prepared.quality),
        format_selector: copy_string(&prepared.format_selector),
        output_path: prepared.output_path,
        custom_title: copy_opt_string(&prepared.title),
        username: copy_opt_string(&prepared.username),
        password: copy_opt_string(&prepared.password),
    };
    let stored_title = match prepared.title {
        Some(t) => t,
        None => String::from_str("Unknown Title"),
    };
    let record = QueuedJob {
        id: drawn,
        url: prepared.url,
        quality: prepared.quality,
        format_selector: prepared.format_selector,
        subfolder: prepared.subfolder,
        title: Some(stored_title),
        username: prepared.username,
        password: prepared.password,
    };
    proof {
        assert(record@ =~= record_model(prepared, drawn, Some(detached_title(prepared))));
    }
    store.append(record);
    let (tx, rx) = correlator_pair();
    drop_receiver(rx);
    let job = DownloadJob { id: drawn, params, resp_tx: tx };
    Ok((drawn, job))
}

/// The client or server error answered when validation or admission
/// refused the submission, with its HTTP-like status: 400 for a rejected
/// request, 500 for an identifier collision.
pub fn refusal_response(e: &SubmitError) -> (r: (DownloadResponse, u16))
    ensures
        !r.0.success,
        r.0.error is Some,
        r.0.message is None,
        r.0.output_path is None,
        r.0.id is None,
        r.1 == match e {
            SubmitError::EmptyUrl => 400u16,
            SubmitError::UnsafeSubfolder => 400u16,
            SubmitError::DuplicateId => 500u16,
        },
{
    let (detail, status) = match e {
        SubmitError::EmptyUrl => (String::from_str("URL is required"), 400u16),
        SubmitError::UnsafeSubfolder => (String::from_str("Invalid subfolder name"), 400u16),
        SubmitError::DuplicateId => (
            String::from_str("Identifier already queued"),
            500u16,
        ),
    };
    (
        DownloadResponse {
            success: false,
            message: None,
            error: Some(detail),
            output_path: None,
            id: None,
        },
        status,
    )
}

/// The server error answered when the output directory could not be
/// created; no job was enqueued.
pub fn directory_error_response(detail: String) -> (r: (DownloadResponse, u16))
    ensures
        !r.0.success,
        r.0.error == Some(detail),
        r.0.message is None,
        r.0.output_path is None,
        r.0.id is None,
        r.1 == 500,
{
    (
        DownloadResponse {
            success: false,
            message: None,
            error: Some(detail),
            output_path: None,
            id: None,
        },
        500,
    )
}

/// The server error answered when the job channel refused the envelope.
/// The record was already persisted: a dangling entry remains until a
/// recovery pass reconciles it, an accepted inconsistency window.
pub fn enqueue_failed_response() -> (r: (DownloadResponse, u16))
    ensures
        !r.0.success,
        r.0.error is Some,
        r.0.message is None,
        r.0.output_path is None,
        r.0.id is None,
        r.1 == 500,
{
    (
        DownloadResponse {
            success: false,
            message: None,
            error: Some(String::from_str("Could not add the job to the queue")),
            output_path: None,
            id: None,
        },
        500,
    )
}

/// The immediate acknowledgment of a fire-and-forget submission: success
/// and the assigned identifier, before any execution outcome exists.
pub fn accept_response(job_id: u64) -> (r: (DownloadResponse, u16))
    ensures
        r.0.success,
        r.0.id == Some(job_id),
        r.0.message is Some,
        r.0.error is None,
        r.0.output_path is None,
        r.1 == 200,
{
    (
        DownloadResponse {
            success: true,
            message: Some(String::from_str("Added to the queue")),
            error: None,
            output_path: None,
            id: Some(job_id),
        },
        200,
    )
}

/// Resolves a synchronous submitter's wait: decrements the pending-count
/// gauge exactly once, whatever arrived, and maps the awaited outcome — a
/// delivered result or a closed correlator — to the response body and its
/// HTTP-like status. A failed job answers with the collaborator's outcome
/// code when it is a valid status, 500 otherwise; a closed correlator is
/// the fatal queue error.
pub fn sync_outcome_response(gauge: &mut PendingGauge, job_id: u64, outcome: Option<JobResult>)
    -> (r: (DownloadResponse, u16))
    ensures
        final(gauge).count == wrap_dec(old(gauge).count),
        outcome is None ==> (!r.0.success && r.0.error is Some && r.0.id is None && r.1 == 500),
        outcome matches Some(res) ==> (if res.success {
            r.0.success
                && r.0.id == Some(job_id)
                && r.0.message == res.message
                && r.0.output_path == res.output_path
                && r.0.error is None
                && r.1 == 200
        } else {
            !r.0.success
                && r.0.id is None
                && r.0.message == res.message
                && r.0.error == res.error
                && r.0.output_path == res.output_path
                && r.1 == if 100 <= res.http_status <= 999 {
                    res.http_status
                } else {
                    500u16
                }
        }),
{
    gauge.record_resolved();
    match outcome {
        Some(res) => {
            if res.success {
                (
                    DownloadResponse {
                        success: true,
                        message: res.message,
                        error: None,
                        output_path: res.output_path,
                        id: Some(job_id),
                    },
                    200,
                )
            } else {
                let status: u16 = if 100 <= res.http_status && res.http_status <= 999 {
                    res.http_status
                } else {
                    500
                };
                (
                    DownloadResponse {
                        success: false,
                        message: res.message,
                        error: res.error,
                        output_path: res.output_path,
                        id: None,
                    },
                    status,
                )
            }
        },
        None => (
            DownloadResponse {
                success: false,
                message: None,
                error: Some(String::from_str("Download queue error (channel closed)")),
                output_path: None,
                id: None,
            },
            500,
        ),
    }
}

} // verus!
