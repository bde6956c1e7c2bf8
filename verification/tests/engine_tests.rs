//! The transfer engine: builder defaults, the retry policy, and the
//! executor and scheduler driven through whole scenarios.

use startmc::download::Download;
use startmc::download::Status;
use startmc::download::TransferError;
use startmc::downloader::Downloader;
use startmc::downloader::DownloaderBuilder;
use startmc::executor::Executor;
use startmc::executor::ResponseAction;
use startmc::retry::backoff_delay_ms;
use startmc::retry::is_error_status;
use startmc::retry::is_transient_status;
use startmc::scheduler::Scheduler;
use startmc::scheduler::SlotState;

fn dl(url: &str, file: &str) -> Download {
    Download::new(url, file, None)
}

#[test]
fn test_builder_defaults() {
    let d = DownloaderBuilder::new().build();
    assert_eq!(d.retries, Downloader::DEFAULT_RETRIES);
    assert_eq!(d.concurrent_downloads, Downloader::DEFAULT_CONCURRENT_DOWNLOADS);
}

#[test]
fn builder_options_and_headers() {
    let b = DownloaderBuilder::new()
        .retries(5)
        .concurrent_downloads(7)
        .header("user-agent", "a")
        .header("accept", "b");
    let d = b.build();
    assert_eq!(d.retries, 5);
    assert_eq!(d.concurrent_downloads, 7);
    assert!(d.resumable);
    let hs = d.headers.expect("headers kept");
    assert_eq!(
        hs,
        vec![
            ("user-agent".to_string(), "a".to_string()),
            ("accept".to_string(), "b".to_string())
        ]
    );
}

#[test]
fn retry_classification() {
    assert!(is_transient_status(500));
    assert!(is_transient_status(503));
    assert!(!is_transient_status(404));
    assert!(!is_transient_status(200));
    assert!(is_error_status(404));
    assert!(is_error_status(500));
    assert!(!is_error_status(206));
}

#[test]
fn backoff_grows_and_caps() {
    assert_eq!(backoff_delay_ms(500, 0, 10_000), 500);
    assert_eq!(backoff_delay_ms(500, 1, 10_000), 1_000);
    assert_eq!(backoff_delay_ms(500, 2, 10_000), 2_000);
    assert_eq!(backoff_delay_ms(500, 10, 10_000), 10_000);
    assert_eq!(backoff_delay_ms(20_000, 3, 10_000), 10_000);
}

/// A destination already holding exactly the remote's declared length
/// is skipped during negotiation: no request is sent and nothing is
/// written.
#[test]
fn complete_file_is_skipped() {
    let mut ex = Executor::new(dl("http://example/f", "f"), true, 3);
    assert!(ex.start(true));
    assert!(ex.on_probe(Some(true), true));
    ex.on_sizes(Some((100, Some(100))));
    assert!(ex.finished());
    let s = ex.summarize();
    assert!(matches!(s.status, Status::Skipped(_)));
    assert_eq!(ex.written, 0);
    assert_eq!(s.size, 100);
}

/// A destination already longer than the remote declares cannot be
/// resumed: the transfer falls back to a full, truncating download, so
/// the file ends within the declared length.
#[test]
fn oversized_file_falls_back_to_full_download() {
    let mut ex = Executor::new(dl("http://example/f", "f"), true, 3);
    assert!(ex.start(true));
    assert!(ex.on_probe(Some(true), true));
    // The file holds more than the remote declares.
    ex.on_sizes(Some((150, Some(100))));
    assert!(!ex.finished());
    let req = ex.request_plan();
    assert_eq!(req.range_from, None);
    let act = ex.on_response(200);
    let plan = match act {
        ResponseAction::Open(p) => p,
        _ => panic!("expected streaming"),
    };
    assert!(plan.truncate);
    assert!(!plan.append);
    assert_eq!(plan.start_offset, 0);
}

/// A body that runs past the remote's declared length is cut off: the
/// overrunning chunk is never written, and the transfer fails as a
/// malformed stream with the file still within the declared length.
#[test]
fn body_overrun_is_never_written() {
    let mut ex = Executor::new(dl("http://example/f", "f"), true, 3);
    assert!(ex.start(true));
    assert!(ex.on_probe(Some(true), true));
    ex.on_sizes(Some((10, Some(100))));
    let act = ex.on_response(206);
    assert!(matches!(act, ResponseAction::Open(_)));
    assert!(ex.chunk_fits(90));
    ex.on_chunk_written(90);
    // The server keeps sending past its declared 100 bytes.
    assert!(!ex.chunk_fits(1));
    ex.on_overrun();
    let s = ex.summarize();
    assert!(matches!(s.status, Status::Failed(TransferError::StreamReadFailed)));
    assert_eq!(s.size, 100);
}

/// A resumed transfer asks only for the missing bytes and ends at the
/// remote size: across both runs exactly the remote size is written.
#[test]
fn resume_downloads_only_missing_bytes() {
    // First run: 40 of 100 bytes arrive, then the stream breaks.
    let mut first = Executor::new(dl("http://example/f", "f"), true, 0);
    assert!(first.start(true));
    assert!(!first.on_probe(Some(true), false));
    let act = first.on_response(200);
    let plan = match act {
        ResponseAction::Open(p) => p,
        _ => panic!("expected streaming"),
    };
    assert_eq!(plan.start_offset, 0);
    first.on_chunk_written(40);
    first.on_read_failed();
    let s1 = first.summarize();
    assert!(matches!(s1.status, Status::Failed(TransferError::StreamReadFailed)));
    assert_eq!(s1.size, 40);

    // Second run: 40 bytes are on disk, the remote declares 100.
    let mut second = Executor::new(dl("http://example/f", "f"), true, 0);
    assert!(second.start(true));
    assert!(second.on_probe(Some(true), true));
    second.on_sizes(Some((40, Some(100))));
    let req = second.request_plan();
    assert_eq!(req.range_from, Some(40));
    let act = second.on_response(206);
    let plan = match act {
        ResponseAction::Open(p) => p,
        _ => panic!("expected streaming"),
    };
    assert!(plan.append);
    assert!(!plan.truncate);
    assert_eq!(plan.start_offset, 40);
    second.on_chunk_written(30);
    second.on_chunk_written(30);
    second.on_body_end();
    let s2 = second.summarize();
    assert!(matches!(s2.status, Status::Success));
    // The file ends at the remote size; only 60 bytes crossed the wire.
    assert_eq!(s2.size, 100);
    assert_eq!(second.written, 60);
    assert!(s2.resumable);
}

/// A successful transfer reports exactly the destination's final size.
#[test]
fn success_size_matches_chunks() {
    let mut ex = Executor::new(dl("http://example/f", "f"), false, 3);
    assert!(!ex.start(true));
    let act = ex.on_response(200);
    assert!(matches!(act, ResponseAction::Open(_)));
    ex.on_chunk_written(10);
    ex.on_chunk_written(20);
    ex.on_chunk_written(5);
    ex.on_body_end();
    let s = ex.summarize();
    assert!(matches!(s.status, Status::Success));
    assert_eq!(s.size, 35);
    assert_eq!(s.statuscode, 200);
}

/// A remote that ignores range requests is detected by the probe: the
/// transfer falls back to a full, truncating download instead of
/// appending a second full body to the partial file.
#[test]
fn no_range_support_falls_back_to_full_download() {
    let mut ex = Executor::new(dl("http://example/f", "f"), true, 3);
    assert!(ex.start(true));
    // The probe says the remote does not accept ranges, though a
    // partial file exists.
    assert!(!ex.on_probe(Some(false), true));
    let req = ex.request_plan();
    assert_eq!(req.range_from, None);
    let act = ex.on_response(200);
    let plan = match act {
        ResponseAction::Open(p) => p,
        _ => panic!("expected streaming"),
    };
    assert!(plan.truncate);
    assert!(!plan.append);
    assert_eq!(plan.start_offset, 0);
}

/// A failed probe fails the transfer rather than silently downgrading
/// it, and each failure stage is reported as its own kind.
#[test]
fn error_kinds() {
    let mut a = Executor::new(dl("u", "f"), true, 3);
    assert!(!a.start(false));
    assert!(matches!(a.summarize().status, Status::Failed(TransferError::DirectoryCreationFailed)));

    let mut b = Executor::new(dl("u", "f"), true, 3);
    b.start(true);
    b.on_probe(None, false);
    assert!(matches!(b.summarize().status, Status::Failed(TransferError::ProbeFailed)));

    let mut c = Executor::new(dl("u", "f"), false, 0);
    c.start(true);
    c.on_response(404);
    let s = c.summarize();
    assert!(matches!(s.status, Status::Failed(TransferError::RequestFailed)));
    assert_eq!(s.statuscode, 404);

    let mut d = Executor::new(dl("u", "f"), false, 0);
    d.start(true);
    d.on_response(200);
    d.on_chunk_written(3);
    d.on_write_failed();
    assert!(matches!(d.summarize().status, Status::Failed(TransferError::FileWriteFailed)));
}

/// Transient failures are retried at most `retries` times: with 2
/// retries the third send failure is terminal, so at most 3 attempts
/// are ever made.
#[test]
fn retries_are_bounded() {
    let mut ex = Executor::new(dl("u", "f"), false, 2);
    ex.start(true);
    assert!(ex.on_send_failed());
    assert!(ex.on_send_failed());
    assert!(!ex.on_send_failed());
    assert!(matches!(ex.summarize().status, Status::Failed(TransferError::RequestFailed)));

    // A 5xx response consumes the retry budget the same way.
    let mut sx = Executor::new(dl("u", "f"), false, 1);
    sx.start(true);
    assert!(matches!(sx.on_response(503), ResponseAction::Retry));
    assert!(matches!(sx.on_response(503), ResponseAction::Finished));
    assert!(matches!(sx.summarize().status, Status::Failed(TransferError::RequestFailed)));
}

/// Batch of 3 descriptors at concurrency 1: the executors run strictly
/// one at a time and the aggregate progress counter advances 0, 1, 2, 3.
#[test]
fn sequential_batch_progress() {
    let mut sched = Scheduler::new(3, 1);
    assert_eq!(sched.completed, 0);
    let mut progress = vec![sched.completed];
    for _ in 0..3 {
        assert!(sched.can_start());
        let i = sched.next_pending().expect("one pending");
        sched.start(i);
        // With concurrency 1, no second transfer may start now.
        assert!(!sched.can_start());
        let mut ex = Executor::new(dl("u", &format!("f{i}")), false, 0);
        ex.start(true);
        ex.on_response(200);
        ex.on_chunk_written(1);
        ex.on_body_end();
        sched.finish(i, ex.summarize());
        progress.push(sched.completed);
    }
    assert_eq!(progress, vec![0, 1, 2, 3]);
    assert!(sched.all_done());
}

/// One 404 in a batch of 5 fails only its own outcome; the other four
/// still succeed, and the outcomes stay index-aligned even though the
/// transfers finish out of order.
#[test]
fn partial_failure_leaves_siblings_alone() {
    let descriptors: Vec<Download> =
        (0..5).map(|i| dl(&format!("http://example/{i}"), &format!("f{i}"))).collect();
    let mut sched = Scheduler::new(5, 4);
    // Start four transfers, then finish them out of order.
    for _ in 0..4 {
        let i = sched.next_pending().unwrap();
        sched.start(i);
    }
    assert!(!sched.can_start());
    let mut finish = |sched: &mut Scheduler, i: usize, status: u16| {
        let mut ex = Executor::new(descriptors[i].clone(), false, 0);
        ex.start(true);
        match ex.on_response(status) {
            ResponseAction::Open(_) => {
                ex.on_chunk_written(8);
                ex.on_body_end();
            }
            _ => {}
        }
        sched.finish(i, ex.summarize());
    };
    finish(&mut sched, 2, 404);
    finish(&mut sched, 0, 200);
    finish(&mut sched, 3, 200);
    let i = sched.next_pending().unwrap();
    sched.start(i);
    finish(&mut sched, 4, 200);
    finish(&mut sched, 1, 200);
    assert!(sched.all_done());
    let outcomes = sched.outcomes();
    assert_eq!(outcomes.len(), 5);
    for (i, o) in outcomes.iter().enumerate() {
        assert_eq!(o.download.filename, format!("f{i}"));
        if i == 2 {
            assert!(matches!(o.status, Status::Failed(TransferError::RequestFailed)));
            assert_eq!(o.statuscode, 404);
        } else {
            assert!(matches!(o.status, Status::Success));
        }
    }
}

/// An empty batch completes immediately with an empty outcome list.
#[test]
fn empty_batch() {
    let sched = Scheduler::new(0, 4);
    assert!(sched.all_done());
    assert!(sched.next_pending().is_none());
    assert!(sched.outcomes().is_empty());
}

/// Byte counters hold up to the largest file sizes.
#[test]
fn large_transfer_sizes() {
    let mut ex = Executor::new(dl("u", "f"), false, 0);
    ex.start(true);
    ex.on_response(200);
    ex.on_chunk_written(u64::MAX - 1);
    ex.on_chunk_written(1);
    ex.on_body_end();
    assert_eq!(ex.summarize().size, u64::MAX);
}

#[test]
fn scheduler_slots_track_state() {
    let sched = Scheduler::new(2, 8);
    assert_eq!(sched.len(), 2);
    assert!(matches!(sched.slots[0], SlotState::Pending));
    assert!(matches!(sched.slots[1], SlotState::Pending));
}
