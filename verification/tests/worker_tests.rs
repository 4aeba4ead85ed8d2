use download_queue::gauge::PendingGauge;
use download_queue::ids::IdGenerator;
use download_queue::models::{DownloadRequest, FetchOutcome};
use download_queue::store::QueueStore;
use download_queue::submit::{
    accept_response, admit_detached, admit_sync, prepare_submission, sync_outcome_response,
};
use download_queue::worker::{translate_outcome, Worker, WorkerPhase};

fn request(url: &str) -> DownloadRequest {
    DownloadRequest {
        url: url.to_string(),
        quality: None,
        format: None,
        subfolder: None,
        title: None,
        username: None,
        password: None,
    }
}

fn failed_fetch(code: u16) -> FetchOutcome {
    FetchOutcome {
        success: false,
        message: Some("download failed".to_string()),
        error: Some("collaborator diagnostic".to_string()),
        output_path: None,
        code,
    }
}

#[test]
fn translation_keeps_the_collaborator_outcome() {
    let ok = translate_outcome(FetchOutcome {
        success: true,
        message: Some("saved".to_string()),
        error: None,
        output_path: Some("downloads/a.mp4".to_string()),
        code: 0,
    });
    assert!(ok.success);
    assert_eq!(ok.http_status, 200);
    assert_eq!(ok.message.as_deref(), Some("saved"));
    assert_eq!(ok.output_path.as_deref(), Some("downloads/a.mp4"));
    assert!(ok.error.is_none());

    let failed = translate_outcome(failed_fetch(404));
    assert!(!failed.success);
    assert_eq!(failed.http_status, 404);
    assert_eq!(failed.error.as_deref(), Some("collaborator diagnostic"));
}

#[test]
fn failed_synchronous_job_answers_its_outcome_code_and_leaves_the_queue() {
    let mut store = QueueStore::new();
    let mut ids = IdGenerator::new(0);
    let mut gauge = PendingGauge::new();
    let mut worker = Worker::new();

    let p = prepare_submission(request("http://example/video"), "downloads")
        .unwrap_or_else(|_| panic!());
    let (id, job, mut rx) = match admit_sync(&mut store, &mut ids, p) {
        Ok(t) => t,
        Err(_) => panic!("admission refused"),
    };
    gauge.record_enqueued();
    assert!(store.contains_id(id));

    worker.begin_job(job.id);
    worker.fetch_completed();
    let res = translate_outcome(failed_fetch(404));
    let delivered = worker.finalize_job(&mut store, job, res);
    assert!(delivered);
    assert!(!store.contains_id(id));
    assert_eq!(store.snapshot(), store.mirror_image());

    let awaited = rx.try_recv().ok();
    let (resp, status) = sync_outcome_response(&mut gauge, id, awaited);
    assert!(!resp.success);
    assert_eq!(status, 404);
    assert_eq!(resp.error.as_deref(), Some("collaborator diagnostic"));
    assert!(resp.id.is_none());
    assert_eq!(gauge.count, 0);
}

#[test]
fn fire_and_forget_job_still_executes_exactly_once() {
    let mut store = QueueStore::new();
    let mut ids = IdGenerator::new(0);
    let mut worker = Worker::new();

    let p = prepare_submission(request("http://example/video"), "downloads")
        .unwrap_or_else(|_| panic!());
    let (id, job) = match admit_detached(&mut store, &mut ids, p) {
        Ok(t) => t,
        Err(_) => panic!("admission refused"),
    };

    // The acknowledgment exists before the worker has touched the job.
    let (resp, status) = accept_response(id);
    assert!(resp.success);
    assert_eq!(resp.id, Some(id));
    assert_eq!(status, 200);
    assert!(store.contains_id(id));
    assert!(matches!(worker.phase, WorkerPhase::Idle));

    worker.begin_job(job.id);
    assert!(matches!(worker.phase, WorkerPhase::Executing { id: 1 }));
    worker.fetch_completed();
    assert!(matches!(worker.phase, WorkerPhase::Finalizing { id: 1 }));
    let res = translate_outcome(failed_fetch(500));
    // The receiver was discarded at admission: delivery is a silent no-op.
    let delivered = worker.finalize_job(&mut store, job, res);
    assert!(!delivered);
    assert!(matches!(worker.phase, WorkerPhase::Idle));
    assert!(!store.contains_id(id));
}

#[test]
fn a_dropped_wait_does_not_stop_the_worker() {
    let mut store = QueueStore::new();
    let mut ids = IdGenerator::new(0);
    let mut worker = Worker::new();

    let p = prepare_submission(request("http://example/video"), "downloads")
        .unwrap_or_else(|_| panic!());
    let (id, job, rx) = match admit_sync(&mut store, &mut ids, p) {
        Ok(t) => t,
        Err(_) => panic!("admission refused"),
    };
    drop(rx);

    worker.begin_job(job.id);
    worker.fetch_completed();
    let res = translate_outcome(FetchOutcome {
        success: true,
        message: Some("saved".to_string()),
        error: None,
        output_path: Some("downloads/a.mp4".to_string()),
        code: 0,
    });
    let delivered = worker.finalize_job(&mut store, job, res);
    assert!(!delivered);
    assert!(matches!(worker.phase, WorkerPhase::Idle));
    assert!(!store.contains_id(id));
    assert_eq!(store.len(), 0);
    assert_eq!(store.snapshot(), store.mirror_image());
}
