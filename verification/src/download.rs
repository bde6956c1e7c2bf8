//! One unit of transfer work (a descriptor) and its terminal result record.

use vstd::prelude::*;

verus! {

/// Describes one file to transfer: a source URL and a destination path,
/// with an optional display label.
#[derive(Debug)]
pub struct Download {
    /// The URL of the file to be transferred.
    pub url: String,
    /// The destination path of the transferred file.
    pub filename: String,
    /// Optional display label, shown instead of the destination base name.
    pub name: Option<String>,
}

impl Clone for Download {
    /// A clone is equal to the original, so contracts can speak of the
    /// copied descriptor inside an outcome.
    fn clone(&self) -> (r: Self)
        ensures
            r == *self,
    {
        Download {
            url: self.url.clone(),
            filename: self.filename.clone(),
            name: match &self.name {
                Some(n) => Some(n.clone()),
                None => None,
            },
        }
    }
}

impl Download {
    /// The descriptor's contents as plain character sequences: URL,
    /// destination path and optional label.
    pub open spec fn spec_view(self) -> (Seq<char>, Seq<char>, Option<Seq<char>>) {
        (
            self.url@,
            self.filename@,
            match self.name {
                Option::Some(n) => Some(n@),
                Option::None => None,
            },
        )
    }

    /// Create a descriptor from a source URL and a destination path.
    pub fn new(url: &str, filename: &str, name: Option<String>) -> (r: Download)
        ensures
            r.url@ == url@,
            r.filename@ == filename@,
            r.name == name,
    {
        Download { url: url.to_owned(), filename: filename.to_owned(), name }
    }
}

/// Why a transfer failed: each variant names the stage that went wrong.
#[derive(Debug, Clone, Copy, PartialEq, Eq, Structural)]
pub enum TransferError {
    /// The destination's parent directories could not be created.
    DirectoryCreationFailed,
    /// The resumability probe could not complete.
    ProbeFailed,
    /// The request failed after all retries, or came back with an
    /// unsuccessful HTTP status.
    RequestFailed,
    /// Reading a chunk of the response body failed mid-transfer.
    StreamReadFailed,
    /// Writing a chunk to the destination file failed mid-transfer.
    FileWriteFailed,
}

/// Terminal state of one transfer.
#[derive(Debug, PartialEq, Eq)]
pub enum Status {
    /// The whole body was streamed to disk without error.
    Success,
    /// Nothing was transferred; the reason says why.
    Skipped(String),
    /// The transfer ended early at the stage the error names.
    Failed(TransferError),
}

impl Clone for Status {
    /// A clone is equal to the original.
    fn clone(&self) -> (r: Self)
        ensures
            r == *self,
    {
        match self {
            Status::Success => Status::Success,
            Status::Skipped(reason) => Status::Skipped(reason.clone()),
            Status::Failed(error) => Status::Failed(*error),
        }
    }
}

impl Status {
    /// True for the `Success` variant.
    pub fn is_success(&self) -> (r: bool)
        ensures
            r == (self is Success),
    {
        match self {
            Status::Success => true,
            _ => false,
        }
    }
}

/// The result record of one transfer: the descriptor it belongs to, the
/// terminal status, the final byte size on disk, the HTTP status code
/// observed (or the sentinel when no response was ever received) and
/// whether the transfer was resumed from a prior partial file.
#[derive(Debug)]
pub struct Summary {
    /// The descriptor this outcome belongs to.
    pub download: Download,
    /// Terminal status of the transfer.
    pub status: Status,
    /// HTTP status code observed; `SENTINEL_STATUS_CODE` when the request
    /// never completed.
    pub statuscode: u16,
    /// Final size of the destination file in bytes.
    pub size: u64,
    /// Whether the transfer continued from bytes already on disk.
    pub resumable: bool,
}

/// Status code recorded before any response has been observed.
pub const SENTINEL_STATUS_CODE: u16 = 400;

impl Clone for Summary {
    /// A clone is equal to the original.
    fn clone(&self) -> (r: Self)
        ensures
            r == *self,
    {
        Summary {
            download: self.download.clone(),
            status: self.status.clone(),
            statuscode: self.statuscode,
            size: self.size,
            resumable: self.resumable,
        }
    }
}

impl Summary {
    /// Create a fresh record for `download` with the given status code,
    /// size and resumed flag; the status starts out as a failure that the
    /// caller overwrites on a normal ending.
    pub fn new(download: Download, statuscode: u16, size: u64, resumable: bool) -> (r: Summary)
        ensures
            r.download == download,
            r.statuscode == statuscode,
            r.size == size,
            r.resumable == resumable,
            r.status == Status::Failed(TransferError::RequestFailed),
    {
        Summary {
            download,
            status: Status::Failed(TransferError::RequestFailed),
            statuscode,
            size,
            resumable,
        }
    }

    /// The same record with the terminal status replaced.
    pub fn with_status(self, status: Status) -> (r: Summary)
        ensures
            r.download == self.download,
            r.statuscode == self.statuscode,
            r.size == self.size,
            r.resumable == self.resumable,
            r.status == status,
    {
        Summary { status, ..self }
    }

    /// The same record marked as failed at the given stage.
    pub fn fail(self, error: TransferError) -> (r: Summary)
        ensures
            r.download == self.download,
            r.statuscode == self.statuscode,
            r.size == self.size,
            r.resumable == self.resumable,
            r.status == Status::Failed(error),
    {
        Summary { status: Status::Failed(error), ..self }
    }

    /// Record whether the transfer continues from bytes already on disk.
    pub fn set_resumable(&mut self, resumable: bool)
        ensures
            *final(self) == (Summary { resumable, ..*old(self) }),
    {
        self.resumable = resumable;
    }
}

} // verus!
