//! The data carried through the queue: submission requests, queued-job
//! records, execution parameters, job results, and the response shapes
//! returned to callers.

use vstd::prelude::*;

verus! {

/// An incoming download submission, already decoded from the transport
/// layer into plain optional fields.
pub struct DownloadRequest {
    pub url: String,
    pub quality: Option<String>,
    pub format: Option<String>,
    pub subfolder: Option<String>,
    pub title: Option<String>,
    pub username: Option<String>,
    pub password: Option<String>,
}

/// A job record as it sits in the queue store and its durable mirror.
#[derive(Debug, PartialEq, Eq)]
pub struct QueuedJob {
    pub id: u64,
    pub url: String,
    pub quality: String,
    pub format_selector: String,
    pub subfolder: String,
    pub title: Option<String>,
    pub username: Option<String>,
    pub password: Option<String>,
}

/// Everything the external fetch collaborator needs to run one job; the
/// subfolder has been resolved to an output path.
pub struct JobParams {
    pub url: String,
    pub quality: String,
    pub format_selector: String,
    pub output_path: String,
    pub custom_title: Option<String>,
    pub username: Option<String>,
    pub password: Option<String>,
}

/// The outcome delivered once per job through its result correlator.
/// `http_status` is meaningful only when `success` is false.
pub struct JobResult {
    pub success: bool,
    pub message: Option<String>,
    pub error: Option<String>,
    pub output_path: Option<String>,
    pub http_status: u16,
}

/// What the external fetch collaborator reported for one job.
pub struct FetchOutcome {
    pub success: bool,
    pub message: Option<String>,
    pub error: Option<String>,
    pub output_path: Option<String>,
    pub code: u16,
}

/// The body answered to a download submission.
pub struct DownloadResponse {
    pub success: bool,
    pub message: Option<String>,
    pub error: Option<String>,
    pub output_path: Option<String>,
    pub id: Option<u64>,
}

/// A credential-verification request.
pub struct VerifyPremiumRequest {
    pub username: Option<String>,
    pub password: Option<String>,
}

/// The body answered to a credential-verification request.
pub struct VerifyPremiumResponse {
    pub success: bool,
    pub is_premium: Option<bool>,
    pub message: Option<String>,
    pub error: Option<String>,
}

/// Why a submission was refused before or while entering the queue.
pub enum SubmitError {
    /// The target URL was empty or whitespace only.
    EmptyUrl,
    /// The subfolder was absolute or contained a parent-directory component.
    UnsafeSubfolder,
    /// The identifier drawn for the job already names a live queue entry.
    DuplicateId,
}

/// The mathematical image of a queued-job record.
#[verifier::ext_equal]
pub struct JobModel {
    pub id: u64,
    pub url: Seq<char>,
    pub quality: Seq<char>,
    pub format_selector: Seq<char>,
    pub subfolder: Seq<char>,
    pub title: Option<Seq<char>>,
    pub username: Option<Seq<char>>,
    pub password: Option<Seq<char>>,
}

pub open spec fn opt_view(o: Option<String>) -> Option<Seq<char>> {
    match o {
        Some(s) => Some(s@),
        None => None,
    }
}

impl View for QueuedJob {
    type V = JobModel;

    open spec fn view(&self) -> JobModel {
        JobModel {
            id: self.id,
            url: self.url@,
            quality: self.quality@,
            format_selector: self.format_selector@,
            subfolder: self.subfolder@,
            title: opt_view(self.title),
            username: opt_view(self.username),
            password: opt_view(self.password),
        }
    }
}

/// A one-for-one copy of a string, equal in content.
pub fn copy_string(s: &String) -> (r: String)
    ensures
        r@ == s@,
{
    String::from_str(s.as_str())
}

/// A one-for-one copy of an optional string, equal in content.
pub fn copy_opt_string(o: &Option<String>) -> (r: Option<String>)
    ensures
        opt_view(r) == opt_view(*o),
{
    match o {
        Some(s) => Some(copy_string(s)),
        None => None,
    }
}

impl QueuedJob {
    /// A record with the same identifier and the same field contents.
    pub fn copy_of(&self) -> (r: QueuedJob)
        ensures
            r@ == self@,
    {
        let r = QueuedJob {
            id: self.id,
            url: copy_string(&self.url),
            quality: copy_string(&self.quality),
            format_selector: copy_string(&self.format_selector),
            subfolder: copy_string(&self.subfolder),
            title: copy_opt_string(&self.title),
            username: copy_opt_string(&self.username),
            password: copy_opt_string(&self.password),
        };
        proof {
            assert(r@ =~= self@);
        }
        r
    }
}

} // verus!
