//! The single-transfer executor: a state machine that drives one
//! descriptor through negotiation, request issuance, body streaming and
//! disk writes, and produces one outcome.
//!
//! The executor decides; it performs no I/O itself.  A driver performs
//! each returned action (probe the server, send the request, open the
//! file, write a chunk) and reports what happened through the `on_*`
//! methods.  Every decision the engine makes — when a transfer may be
//! resumed, when it is skipped, when a failed request is retried, what
//! the outcome records — is therefore verified here, for every possible
//! sequence of I/O results.

use vstd::prelude::*;

use crate::download::Download;
use crate::download::Status;
use crate::download::Summary;
use crate::download::TransferError;
use crate::download::SENTINEL_STATUS_CODE;
use crate::retry::is_transient_status;
use crate::retry::is_error_status;

verus! {

/// Where one transfer stands.  Externally only `Pending`, `Transferring`
/// and the terminal results matter; the negotiation sub-steps exist so
/// that each I/O result has exactly one legal entry point.
#[derive(Debug, Clone, Copy, PartialEq, Eq, Structural)]
pub enum Phase {
    /// Created; the destination directory has not been prepared yet.
    Created,
    /// Waiting for the resumability probe's result.
    Probing,
    /// Waiting for the local file length and the remote content length.
    Sizing,
    /// Ready to issue (or re-issue) the GET request.
    Ready,
    /// The body stream is open; chunks are being written.
    Streaming,
    /// Finished; the outcome is available.
    Terminal,
}

/// Terminal result of a transfer, without the display text that the
/// outcome record carries.
#[derive(Debug, Clone, Copy, PartialEq, Eq, Structural)]
pub enum TransferResult {
    /// The body was streamed to disk completely.
    Success,
    /// The destination already held the whole file; nothing was written.
    Skipped,
    /// The transfer ended at the stage the error names.
    Failed(TransferError),
}

/// What the driver must do after the response headers arrived.
#[derive(Debug, Clone, Copy, PartialEq, Eq, Structural)]
pub enum ResponseAction {
    /// Transient server failure and retries remain: wait the backoff
    /// delay, then send the request again.
    Retry,
    /// The transfer is over (skipped or failed); collect the outcome.
    Finished,
    /// Open the destination file as planned and start streaming.
    Open(OpenPlan),
}

/// How to open the destination file.
#[derive(Debug, Clone, Copy, PartialEq, Eq, Structural)]
pub struct OpenPlan {
    /// Append to the existing file (a resumed transfer).
    pub append: bool,
    /// Truncate the existing file (a fresh transfer).
    pub truncate: bool,
    /// How many bytes the destination already holds.
    pub start_offset: u64,
    /// The expected total size, for progress display.
    pub expected_total: u64,
}

/// The ranged (or plain) GET request to issue.
#[derive(Debug)]
pub struct RequestPlan {
    /// The URL to request.
    pub url: String,
    /// `Some(offset)`: request only the bytes from `offset` on.
    /// `None`: request the whole body.
    pub range_from: Option<u64>,
}

/// Drives one `Download` to one outcome.
#[derive(Debug)]
pub struct Executor {
    /// The descriptor being transferred.
    pub download: Download,
    /// Whether the engine configuration allows resuming at all.
    pub resumable_cfg: bool,
    /// How many times a transient request failure is retried.
    pub retries: u32,
    /// Where the transfer stands.
    pub phase: Phase,
    /// Whether the remote accepted range requests for this URL.
    pub can_resume: bool,
    /// Bytes already present at the destination when the transfer began.
    pub size_on_disk: u64,
    /// The remote's declared total size, when the negotiation learned it.
    pub content_length: Option<u64>,
    /// Transient request failures seen so far; never exceeds `retries`.
    pub attempts: u32,
    /// The HTTP status observed, or the sentinel before any response.
    pub status_code: u16,
    /// The recomputed expected total size, set when streaming starts.
    pub expected_size: u64,
    /// Bytes written to the destination during this run.
    pub written: u64,
    /// The terminal result, once the phase is `Terminal`.
    pub result: Option<TransferResult>,
}

impl Executor {
    /// The state invariant: every reachable executor state satisfies it.
    pub open spec fn wf(self) -> bool {
        &&& (self.can_resume ==> self.resumable_cfg)
        &&& (self.size_on_disk > 0 ==> self.can_resume)
        &&& (self.phase is Sizing ==> self.can_resume)
        &&& (self.phase is Probing ==> self.resumable_cfg && self.size_on_disk == 0)
        &&& (self.phase is Created ==> self.size_on_disk == 0 && !self.can_resume)
        &&& self.attempts <= self.retries
        &&& (self.phase is Terminal <==> self.result is Some)
        &&& (self.written > 0 ==> self.phase is Streaming || self.phase is Terminal)
        &&& self.size_on_disk + self.written <= u64::MAX
        &&& (self.content_length matches Some(t) ==> self.file_length() <= t)
    }

    /// The destination file's length, under chunk-atomic writes: the
    /// bytes that were already there plus the bytes written this run.
    pub open spec fn file_length(self) -> int {
        self.size_on_disk + self.written
    }

    /// State after a terminal result.
    pub open spec fn spec_finish(self, r: TransferResult) -> Executor {
        Executor { phase: Phase::Terminal, result: Some(r), ..self }
    }

    /// State of a freshly created executor.
    pub open spec fn spec_new(download: Download, resumable: bool, retries: u32) -> Executor {
        Executor {
            download,
            resumable_cfg: resumable,
            retries,
            phase: Phase::Created,
            can_resume: false,
            size_on_disk: 0,
            content_length: None,
            attempts: 0,
            status_code: SENTINEL_STATUS_CODE,
            expected_size: 0,
            written: 0,
            result: None,
        }
    }

    /// State after the destination directory was prepared (or not).
    pub open spec fn spec_start(self, dir_ok: bool) -> Executor {
        if !dir_ok {
            self.spec_finish(TransferResult::Failed(TransferError::DirectoryCreationFailed))
        } else if self.resumable_cfg {
            Executor { phase: Phase::Probing, ..self }
        } else {
            Executor { phase: Phase::Ready, ..self }
        }
    }

    /// State after the resumability probe: `None` when the probe itself
    /// failed, `Some(r)` when the remote answered and `r` says whether it
    /// accepts range requests.
    pub open spec fn spec_probe(self, probe: Option<bool>, file_exists: bool) -> Executor {
        match probe {
            Option::None => self.spec_finish(TransferResult::Failed(TransferError::ProbeFailed)),
            Option::Some(cr) => if cr && file_exists {
                Executor { can_resume: cr, phase: Phase::Sizing, ..self }
            } else {
                Executor { can_resume: cr, phase: Phase::Ready, ..self }
            },
        }
    }

    /// State after reading the local file length and the remote's
    /// declared size: `None` when either read failed.  A destination
    /// that already holds exactly the remote's declared length is
    /// skipped here, before any request is sent; one that already holds
    /// more than the remote declares cannot be resumed without ending
    /// longer than the declared length, so the transfer falls back to a
    /// full, truncating download.
    pub open spec fn spec_sizes(self, sizes: Option<(u64, Option<u64>)>) -> Executor {
        match sizes {
            Option::None => self.spec_finish(TransferResult::Failed(TransferError::ProbeFailed)),
            Option::Some((on_disk, remote)) => if remote == Some(on_disk) {
                Executor {
                    size_on_disk: on_disk,
                    content_length: remote,
                    ..self.spec_finish(TransferResult::Skipped)
                }
            } else if (remote matches Some(t) && on_disk > t) {
                Executor {
                    size_on_disk: 0,
                    can_resume: false,
                    content_length: remote,
                    phase: Phase::Ready,
                    ..self
                }
            } else {
                Executor { size_on_disk: on_disk, content_length: remote, phase: Phase::Ready, ..self }
            },
        }
    }

    /// State after a request attempt ended in a connection error.
    pub open spec fn spec_send_failed(self) -> Executor {
        if self.attempts < self.retries {
            Executor { attempts: (self.attempts + 1) as u32, ..self }
        } else {
            self.spec_finish(TransferResult::Failed(TransferError::RequestFailed))
        }
    }

    /// The expected total size once the response is in: the remote's
    /// declared length (zero when unknown) plus the bytes already on disk.
    pub open spec fn spec_expected(self) -> int {
        (match self.content_length {
            Option::Some(l) => l as int,
            Option::None => 0,
        }) + self.size_on_disk
    }

    /// State after the response headers arrived with the given status.
    pub open spec fn spec_response(self, status: u16) -> Executor {
        if is_transient_status(status) {
            if self.attempts < self.retries {
                Executor { attempts: (self.attempts + 1) as u32, ..self }
            } else {
                Executor {
                    status_code: status,
                    ..self.spec_finish(TransferResult::Failed(TransferError::RequestFailed))
                }
            }
        } else if is_error_status(status) {
            Executor {
                status_code: status,
                ..self.spec_finish(TransferResult::Failed(TransferError::RequestFailed))
            }
        } else if self.content_length is Some && self.size_on_disk > 0 && self.spec_expected()
            == self.size_on_disk {
            Executor {
                status_code: status,
                expected_size: self.spec_expected() as u64,
                ..self.spec_finish(TransferResult::Skipped)
            }
        } else {
            Executor {
                status_code: status,
                expected_size: self.spec_expected() as u64,
                phase: Phase::Streaming,
                ..self
            }
        }
    }

    /// State after one chunk was written to disk.
    pub open spec fn spec_chunk(self, len: u64) -> Executor {
        Executor { written: (self.written + len) as u64, ..self }
    }

    /// State after a whole sequence of chunks was written, first first.
    pub open spec fn spec_stream(self, chunks: Seq<u64>) -> Executor
        decreases chunks.len(),
    {
        if chunks.len() == 0 {
            self
        } else {
            self.spec_chunk(chunks.first()).spec_stream(chunks.drop_first())
        }
    }

    /// The range the request asks for: from the bytes already on disk
    /// when the transfer may resume, the whole body otherwise.
    pub open spec fn spec_range(self) -> Option<u64> {
        if self.can_resume {
            Some(self.size_on_disk)
        } else {
            None
        }
    }

    /// How the destination file is opened once streaming starts:
    /// appending exactly when the transfer resumes, truncating otherwise.
    pub open spec fn spec_open_plan(self) -> OpenPlan {
        OpenPlan {
            append: self.can_resume,
            truncate: !self.can_resume,
            start_offset: self.size_on_disk,
            expected_total: self.spec_expected() as u64,
        }
    }

    /// Create the executor for one descriptor under the given
    /// configuration.
    pub fn new(download: Download, resumable: bool, retries: u32) -> (r: Executor)
        ensures
            r == Executor::spec_new(download, resumable, retries),
            r.wf(),
    {
        Executor {
            download,
            resumable_cfg: resumable,
            retries,
            phase: Phase::Created,
            can_resume: false,
            size_on_disk: 0,
            content_length: None,
            attempts: 0,
            status_code: SENTINEL_STATUS_CODE,
            expected_size: 0,
            written: 0,
            result: None,
        }
    }

    /// Report whether the destination's parent directories could be
    /// prepared.  Returns `true` when the driver must now probe the
    /// remote for range support; `false` when it must not (either the
    /// transfer already failed, or resuming is disabled and the request
    /// can be sent at once).
    pub fn start(&mut self, dir_ok: bool) -> (probe: bool)
        requires
            old(self).wf(),
            old(self).phase is Created,
        ensures
            *final(self) == old(self).spec_start(dir_ok),
            final(self).wf(),
            probe == (dir_ok && old(self).resumable_cfg),
    {
        if !dir_ok {
            self.phase = Phase::Terminal;
            self.result = Some(TransferResult::Failed(TransferError::DirectoryCreationFailed));
            false
        } else if self.resumable_cfg {
            self.phase = Phase::Probing;
            true
        } else {
            self.phase = Phase::Ready;
            false
        }
    }

    /// Report the probe's result: `None` when the probe failed (which
    /// fails the whole transfer rather than silently downgrading it),
    /// `Some(r)` when the remote said whether it accepts ranges, together
    /// with whether the destination file already exists.  Returns `true`
    /// when the driver must now read the local and remote sizes.
    pub fn on_probe(&mut self, probe: Option<bool>, file_exists: bool) -> (need_sizes: bool)
        requires
            old(self).wf(),
            old(self).phase is Probing,
        ensures
            *final(self) == old(self).spec_probe(probe, file_exists),
            final(self).wf(),
            need_sizes == (probe == Some(true) && file_exists),
            (probe == Some(false) ==> !final(self).can_resume),
    {
        match probe {
            None => {
                self.phase = Phase::Terminal;
                self.result = Some(TransferResult::Failed(TransferError::ProbeFailed));
                false
            },
            Some(cr) => {
                self.can_resume = cr;
                if cr && file_exists {
                    self.phase = Phase::Sizing;
                    true
                } else {
                    self.phase = Phase::Ready;
                    false
                }
            },
        }
    }

    /// Report the local file length and the remote's declared total
    /// size, or `None` when either could not be read.
    ///
    /// A destination that already holds exactly the remote's declared
    /// length ends the transfer as skipped right here: no request is
    /// sent and nothing is written for such a descriptor.  One that
    /// already holds more than the remote declares falls back to a
    /// full, truncating download: appending could only leave the file
    /// longer than the declared length.
    pub fn on_sizes(&mut self, sizes: Option<(u64, Option<u64>)>)
        requires
            old(self).wf(),
            old(self).phase is Sizing,
        ensures
            *final(self) == old(self).spec_sizes(sizes),
            final(self).wf(),
            (sizes matches Some((on_disk, remote)) && remote == Some(on_disk) ==> {
                &&& final(self).result == Some(TransferResult::Skipped)
                &&& final(self).written == 0
            }),
            (sizes matches Some((on_disk, remote)) && (remote matches Some(t) && on_disk > t)
                ==> !final(self).can_resume && final(self).spec_range() is None),
    {
        match sizes {
            None => {
                self.phase = Phase::Terminal;
                self.result = Some(TransferResult::Failed(TransferError::ProbeFailed));
            },
            Some((on_disk, remote)) => {
                let same = match &remote {
                    Some(r) => *r == on_disk,
                    None => false,
                };
                let longer = match &remote {
                    Some(r) => on_disk > *r,
                    None => false,
                };
                self.content_length = remote;
                if same {
                    self.size_on_disk = on_disk;
                    self.phase = Phase::Terminal;
                    self.result = Some(TransferResult::Skipped);
                } else if longer {
                    self.size_on_disk = 0;
                    self.can_resume = false;
                    self.phase = Phase::Ready;
                } else {
                    self.size_on_disk = on_disk;
                    self.phase = Phase::Ready;
                }
            },
        }
    }

    /// The request to issue: the descriptor's URL, ranged from the bytes
    /// already on disk exactly when the transfer may resume.  When
    /// resuming is off or the remote rejected ranges, no range is ever
    /// requested.
    pub fn request_plan(&self) -> (r: RequestPlan)
        requires
            self.phase is Ready,
        ensures
            r.url@ == self.download.url@,
            r.range_from == self.spec_range(),
            (!self.can_resume ==> r.range_from is None),
    {
        RequestPlan {
            url: self.download.url.clone(),
            range_from: if self.can_resume { Some(self.size_on_disk) } else { None },
        }
    }

    /// Report that sending the request failed with a connection error.
    /// Returns `true` when a retry is left: the driver waits the backoff
    /// delay and sends again.  After `retries` such failures the transfer
    /// fails, so a request is attempted at most `retries + 1` times.
    pub fn on_send_failed(&mut self) -> (retry: bool)
        requires
            old(self).wf(),
            old(self).phase is Ready,
        ensures
            *final(self) == old(self).spec_send_failed(),
            final(self).wf(),
            retry == (old(self).attempts < old(self).retries),
            final(self).attempts <= final(self).retries,
    {
        if self.attempts < self.retries {
            self.attempts = self.attempts + 1;
            true
        } else {
            self.phase = Phase::Terminal;
            self.result = Some(TransferResult::Failed(TransferError::RequestFailed));
            false
        }
    }

    /// Report the response's HTTP status and decide what happens next.
    ///
    /// In order: a server-side (5xx) status is retried while retries
    /// remain and fails the transfer after that; any other error status
    /// (4xx) fails it at once, without retrying; a destination that
    /// already holds the whole recomputed expected size is skipped — a
    /// second checkpoint, covering the remote's size changing between
    /// the probe and this request; otherwise the destination file is
    /// opened — appending when the transfer resumes, truncating when it
    /// does not — and streaming begins.
    pub fn on_response(&mut self, status: u16) -> (act: ResponseAction)
        requires
            old(self).wf(),
            old(self).phase is Ready,
            old(self).spec_expected() <= u64::MAX,
        ensures
            *final(self) == old(self).spec_response(status),
            final(self).wf(),
            (act is Open <==> final(self).phase is Streaming),
            (act matches ResponseAction::Open(p) ==> {
                &&& p == old(self).spec_open_plan()
                &&& p.append == old(self).can_resume
                &&& p.truncate == !old(self).can_resume
                &&& p.start_offset == old(self).size_on_disk
                &&& p.expected_total == old(self).spec_expected()
            }),
            (act is Retry <==> (is_transient_status(status) && old(self).attempts < old(
                self,
            ).retries)),
    {
        if is_transient_status(status) {
            if self.attempts < self.retries {
                self.attempts = self.attempts + 1;
                ResponseAction::Retry
            } else {
                self.status_code = status;
                self.phase = Phase::Terminal;
                self.result = Some(TransferResult::Failed(TransferError::RequestFailed));
                ResponseAction::Finished
            }
        } else if is_error_status(status) {
            self.status_code = status;
            self.phase = Phase::Terminal;
            self.result = Some(TransferResult::Failed(TransferError::RequestFailed));
            ResponseAction::Finished
        } else {
            let known = self.content_length.is_some();
            let expected = match self.content_length {
                Some(l) => l,
                None => 0,
            } + self.size_on_disk;
            self.status_code = status;
            self.expected_size = expected;
            if known && self.size_on_disk > 0 && expected == self.size_on_disk {
                self.phase = Phase::Terminal;
                self.result = Some(TransferResult::Skipped);
                ResponseAction::Finished
            } else {
                self.phase = Phase::Streaming;
                ResponseAction::Open(OpenPlan {
                    append: self.can_resume,
                    truncate: !self.can_resume,
                    start_offset: self.size_on_disk,
                    expected_total: expected,
                })
            }
        }
    }

    /// Whether a chunk of `len` bytes may still be written: the file
    /// must not outgrow the largest representable size, nor — when the
    /// remote declared its total length — that declared length.  The
    /// driver asks before each write and reports an overrun instead of
    /// writing when the answer is no.
    pub fn chunk_fits(&self, len: u64) -> (r: bool)
        ensures
            r == (self.file_length() + len <= u64::MAX && (match self.content_length {
                Option::Some(t) => self.file_length() + len <= t,
                Option::None => true,
            })),
    {
        let total = match self.size_on_disk.checked_add(self.written) {
            Some(total) => total,
            None => {
                return false;
            },
        };
        let grown = match total.checked_add(len) {
            Some(grown) => grown,
            None => {
                return false;
            },
        };
        match self.content_length {
            Some(t) => grown <= t,
            None => true,
        }
    }

    /// Report that the body ran past the remote's declared length: the
    /// next chunk will not be written, and the transfer fails as a
    /// malformed stream.  The destination keeps what it holds, which
    /// never exceeds the declared length.
    pub fn on_overrun(&mut self)
        requires
            old(self).wf(),
            old(self).phase is Streaming,
        ensures
            *final(self) == old(self).spec_finish(TransferResult::Failed(TransferError::StreamReadFailed)),
            final(self).wf(),
            final(self).file_length() == old(self).file_length(),
    {
        self.phase = Phase::Terminal;
        self.result = Some(TransferResult::Failed(TransferError::StreamReadFailed));
    }

    /// Report that one chunk of `len` bytes was received and fully
    /// written to the destination.  The running total only ever grows by
    /// exactly the chunk's length — and, when the remote declared its
    /// total length, never past it; the driver emits the same `len` as
    /// the byte-delta progress event.
    pub fn on_chunk_written(&mut self, len: u64)
        requires
            old(self).wf(),
            old(self).phase is Streaming,
            old(self).file_length() + len <= u64::MAX,
            (old(self).content_length matches Some(t) ==> old(self).file_length() + len <= t),
        ensures
            *final(self) == old(self).spec_chunk(len),
            final(self).wf(),
            final(self).written == old(self).written + len,
            final(self).file_length() == old(self).file_length() + len,
    {
        self.written = self.written + len;
    }

    /// Report that reading the next chunk from the body failed.  The
    /// partial file stays on disk and remains resumable.
    pub fn on_read_failed(&mut self)
        requires
            old(self).wf(),
            old(self).phase is Streaming,
        ensures
            *final(self) == old(self).spec_finish(TransferResult::Failed(TransferError::StreamReadFailed)),
            final(self).wf(),
            final(self).file_length() == old(self).file_length(),
    {
        self.phase = Phase::Terminal;
        self.result = Some(TransferResult::Failed(TransferError::StreamReadFailed));
    }

    /// Report that writing a chunk to the destination failed.  The
    /// partial file stays on disk and remains resumable.
    pub fn on_write_failed(&mut self)
        requires
            old(self).wf(),
            old(self).phase is Streaming,
        ensures
            *final(self) == old(self).spec_finish(TransferResult::Failed(TransferError::FileWriteFailed)),
            final(self).wf(),
            final(self).file_length() == old(self).file_length(),
    {
        self.phase = Phase::Terminal;
        self.result = Some(TransferResult::Failed(TransferError::FileWriteFailed));
    }

    /// Report that the body stream ended without error: the transfer
    /// succeeded, and the outcome will carry the destination's final
    /// length.
    pub fn on_body_end(&mut self)
        requires
            old(self).wf(),
            old(self).phase is Streaming,
        ensures
            *final(self) == old(self).spec_finish(TransferResult::Success),
            final(self).wf(),
            final(self).file_length() == old(self).file_length(),
    {
        self.phase = Phase::Terminal;
        self.result = Some(TransferResult::Success);
    }

    /// Whether the transfer has reached a terminal state.
    pub fn finished(&self) -> (r: bool)
        ensures
            r == (self.phase is Terminal),
    {
        match self.phase {
            Phase::Terminal => true,
            _ => false,
        }
    }

    /// The outcome record of a finished transfer: it points back to the
    /// descriptor, carries the terminal status, the destination's final
    /// byte size, the HTTP status observed (or the sentinel when no
    /// response ever arrived) and whether the transfer was resumed.
    pub fn summarize(&self) -> (r: Summary)
        requires
            self.wf(),
            self.phase is Terminal,
        ensures
            r.download == self.download,
            r.resumable == self.can_resume,
            r.statuscode == self.status_code,
            r.size == self.file_length(),
            (self.result == Some(TransferResult::Success) ==> r.status == Status::Success),
            (forall|e: TransferError|
                self.result == Some(TransferResult::Failed(e)) ==> r.status == Status::Failed(e)),
            (self.result == Some(TransferResult::Skipped) ==> (r.status matches Status::Skipped(
                m,
            ) && m@ == "the file was already fully downloaded"@)),
    {
        let status = match self.result {
            Some(TransferResult::Success) => Status::Success,
            Some(TransferResult::Skipped) => Status::Skipped(
                String::from_str("the file was already fully downloaded"),
            ),
            Some(TransferResult::Failed(e)) => Status::Failed(e),
            None => unreached(),
        };
        Summary {
            download: self.download.clone(),
            status,
            statuscode: self.status_code,
            size: self.size_on_disk + self.written,
            resumable: self.can_resume,
        }
    }
}

} // verus!
