//! The engine's guarantees, stated and proved over the executor model:
//! what gets skipped, what a resumed transfer downloads, what the
//! reported sizes mean, and how a remote that rejects ranges is handled.

use vstd::prelude::*;

use crate::download::Download;
use crate::executor::Executor;
use crate::executor::TransferResult;
use crate::retry::spec_error_status;

verus! {

/// The sum of a sequence of chunk lengths.
pub open spec fn sum_lens(chunks: Seq<u64>) -> int
    decreases chunks.len(),
{
    if chunks.len() == 0 {
        0
    } else {
        chunks.first() + sum_lens(chunks.drop_first())
    }
}

/// Every chunk length is non-negative, so the sum dominates each prefix.
pub proof fn lemma_sum_lens_nonneg(chunks: Seq<u64>)
    ensures
        sum_lens(chunks) >= 0,
    decreases chunks.len(),
{
    if chunks.len() > 0 {
        lemma_sum_lens_nonneg(chunks.drop_first());
    }
}

/// Streaming a sequence of chunks adds exactly their total length to the
/// written counter (and to the destination file), and changes nothing
/// else about the transfer's state.
pub proof fn lemma_stream_accumulates(ex: Executor, chunks: Seq<u64>)
    requires
        ex.size_on_disk + ex.written + sum_lens(chunks) <= u64::MAX,
    ensures
        ex.spec_stream(chunks).written == ex.written + sum_lens(chunks),
        ex.spec_stream(chunks) == (Executor {
            written: (ex.written + sum_lens(chunks)) as u64,
            ..ex
        }),
    decreases chunks.len(),
{
    if chunks.len() > 0 {
        lemma_sum_lens_nonneg(chunks.drop_first());
        lemma_stream_accumulates(ex.spec_chunk(chunks.first()), chunks.drop_first());
    }
}

/// A destination that already holds exactly the remote's declared length
/// is always skipped, with nothing written and no request sent: for
/// every descriptor and retry budget, a negotiation that reports the
/// same number of bytes on disk and remotely ends in a `Skipped`
/// outcome, terminal before any transfer, with zero bytes written.
pub proof fn law_complete_file_is_skipped(d: Download, retries: u32, on_disk: u64)
    ensures
        ({
            let ex = Executor::spec_new(d, true, retries)
                .spec_start(true)
                .spec_probe(Some(true), true)
                .spec_sizes(Some((on_disk, Some(on_disk))));
            ex.result == Some(TransferResult::Skipped) && ex.written == 0 && ex.file_length()
                == on_disk && ex.phase is Terminal
        }),
{
}

/// Resuming a partial file never re-downloads the bytes already on
/// disk: the request is ranged from exactly the partial length, and when
/// the remote then serves the missing tail, the bytes transferred in the
/// second run are the remote size minus the partial length — not the
/// remote size plus it — while the file ends at exactly the remote size.
pub proof fn law_resume_downloads_only_missing_bytes(
    d: Download,
    retries: u32,
    on_disk: u64,
    total: u64,
    status: u16,
    chunks: Seq<u64>,
)
    requires
        0 < on_disk < total,
        total + on_disk <= u64::MAX,
        !spec_error_status(status),
        sum_lens(chunks) == total - on_disk,
    ensures
        ({
            let ready = Executor::spec_new(d, true, retries)
                .spec_start(true)
                .spec_probe(Some(true), true)
                .spec_sizes(Some((on_disk, Some(total))));
            let finished = ready.spec_response(status).spec_stream(chunks).spec_finish(
                TransferResult::Success,
            );
            &&& ready.spec_range() == Some(on_disk)
            &&& finished.written == total - on_disk
            &&& finished.file_length() == total
            &&& on_disk + finished.written == total
        }),
{
    let ready = Executor::spec_new(d, true, retries)
        .spec_start(true)
        .spec_probe(Some(true), true)
        .spec_sizes(Some((on_disk, Some(total))));
    let streaming = ready.spec_response(status);
    lemma_stream_accumulates(streaming, chunks);
}

/// A successful transfer's outcome reports the destination's final
/// length: the bytes that were already there plus every chunk written —
/// and when the remote declared its total size and served exactly the
/// missing bytes, that final length is the declared size.
pub proof fn law_success_size_is_file_length(ex: Executor, chunks: Seq<u64>)
    requires
        ex.wf(),
        ex.phase is Streaming,
        ex.file_length() + sum_lens(chunks) <= u64::MAX,
    ensures
        ({
            let finished = ex.spec_stream(chunks).spec_finish(TransferResult::Success);
            &&& finished.file_length() == ex.file_length() + sum_lens(chunks)
            &&& (ex.content_length == Some((ex.size_on_disk + sum_lens(chunks)) as u64)
                && ex.written == 0 ==> finished.file_length() == ex.content_length->0)
        }),
{
    lemma_stream_accumulates(ex, chunks);
}

/// The destination never outgrows what the remote declared: at every
/// reachable executor state where the negotiation learned the remote's
/// total length, the file's length — the bytes already there plus the
/// bytes written — is at most that declared length.
pub proof fn law_never_past_declared_length(ex: Executor)
    requires
        ex.wf(),
    ensures
        (ex.content_length matches Some(t) ==> ex.file_length() <= t),
{
}

/// With resuming disabled no range is ever requested, and an existing
/// destination file is truncated and fully overwritten, never appended
/// to: this holds of every reachable executor state under such a
/// configuration.
pub proof fn law_resumable_off_never_ranges(ex: Executor)
    requires
        ex.wf(),
        !ex.resumable_cfg,
    ensures
        ex.spec_range() is None,
        ex.spec_open_plan().truncate,
        !ex.spec_open_plan().append,
{
}

/// A remote that does not honor range requests is detected by the probe
/// and the transfer falls back to a full download: no range is ever
/// requested, and the destination is opened truncating, never appending,
/// so a stale partial file cannot be extended with a full body.
pub proof fn law_no_ranges_means_full_rewrite(
    d: Download,
    retries: u32,
    file_exists: bool,
    status: u16,
)
    requires
        !spec_error_status(status),
    ensures
        ({
            let ready = Executor::spec_new(d, true, retries)
                .spec_start(true)
                .spec_probe(Some(false), file_exists);
            let streaming = ready.spec_response(status);
            &&& ready.spec_range() is None
            &&& streaming.phase is Streaming
            &&& ready.spec_open_plan().truncate
            &&& !ready.spec_open_plan().append
        }),
{
}

} // verus!
