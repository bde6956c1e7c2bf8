//! The download controller's configuration: how many retries, how many
//! concurrent transfers, whether resuming is allowed, which extra HTTP
//! headers to send, and how progress is styled.  Built through
//! `DownloaderBuilder` and immutable afterwards; the whole configuration
//! is shared read-only by every executor of one batch.

use vstd::prelude::*;

use crate::style::StyleOptions;

verus! {

/// Marker for tracing spans around a batch download.
#[derive(Debug)]
pub struct TimeTrace;

/// The download controller: an immutable engine configuration.
#[derive(Debug)]
pub struct Downloader {
    /// Number of retries per downloaded file.
    pub retries: u32,
    /// Number of maximum concurrent downloads.
    pub concurrent_downloads: usize,
    /// Downloader style options.
    pub style_options: StyleOptions,
    /// Resume the download if necessary and possible.
    pub resumable: bool,
    /// Custom HTTP headers, merged into every outbound request; a later
    /// pair with the same name takes precedence.
    pub headers: Option<Vec<(String, String)>>,
}

impl Downloader {
    /// The default retry count.
    pub const DEFAULT_RETRIES: u32 = 3;

    /// The default bound on concurrent downloads.
    pub const DEFAULT_CONCURRENT_DOWNLOADS: usize = 32;
}

/// A builder used to create a `Downloader`.
#[derive(Debug)]
pub struct DownloaderBuilder(pub Downloader);

impl DownloaderBuilder {
    /// A builder with the default options.
    pub fn new() -> (r: Self)
        ensures
            r.0.retries == Downloader::DEFAULT_RETRIES,
            r.0.concurrent_downloads == Downloader::DEFAULT_CONCURRENT_DOWNLOADS,
            r.0.resumable,
            r.0.headers is None,
    {
        DownloaderBuilder::default()
    }

    /// A builder with the default options and all progress bars hidden.
    pub fn hidden() -> (r: Self)
        ensures
            r.0.retries == Downloader::DEFAULT_RETRIES,
            r.0.concurrent_downloads == Downloader::DEFAULT_CONCURRENT_DOWNLOADS,
            r.0.resumable,
            r.0.headers is None,
            !r.0.style_options.main.enabled,
            !r.0.style_options.child.enabled,
    {
        let d = DownloaderBuilder::default();
        d.style_options(
            StyleOptions::new(
                crate::style::ProgressBarOpts::hidden(),
                crate::style::ProgressBarOpts::hidden(),
            ),
        )
    }

    /// Set the number of retries per download.
    pub fn retries(self, retries: u32) -> (r: Self)
        ensures
            r.0 == (Downloader { retries, ..self.0 }),
    {
        DownloaderBuilder(Downloader { retries, ..self.0 })
    }

    /// Set the number of concurrent downloads.
    pub fn concurrent_downloads(self, concurrent_downloads: usize) -> (r: Self)
        ensures
            r.0 == (Downloader { concurrent_downloads, ..self.0 }),
    {
        DownloaderBuilder(Downloader { concurrent_downloads, ..self.0 })
    }

    /// Set the downloader style options.
    pub fn style_options(self, style_options: StyleOptions) -> (r: Self)
        ensures
            r.0 == (Downloader { style_options, ..self.0 }),
    {
        DownloaderBuilder(Downloader { style_options, ..self.0 })
    }

    /// The headers collected so far, or none yet.
    fn take_headers(self) -> (r: (Self, Vec<(String, String)>))
        ensures
            r.0.0 == (Downloader { headers: None, ..self.0 }),
            (match self.0.headers {
                Some(h) => r.1 == h,
                None => r.1@.len() == 0,
            }),
    {
        let DownloaderBuilder(d) = self;
        let Downloader { retries, concurrent_downloads, style_options, resumable, headers } = d;
        let list = match headers {
            Some(h) => h,
            None => Vec::new(),
        };
        (
            DownloaderBuilder(
                Downloader {
                    retries,
                    concurrent_downloads,
                    style_options,
                    resumable,
                    headers: None,
                },
            ),
            list,
        )
    }

    /// Merge a whole set of headers into the configuration.  Repeated
    /// calls accumulate: the pairs are appended in order, and a later
    /// pair with the same name takes precedence when the request is
    /// assembled.
    pub fn headers(self, headers: Vec<(String, String)>) -> (r: Self)
        ensures
            (match self.0.headers {
                Some(h) => r.0.headers matches Some(all) && all@ == h@ + headers@,
                None => r.0.headers matches Some(all) && all@ == headers@,
            }),
            r.0.retries == self.0.retries,
            r.0.concurrent_downloads == self.0.concurrent_downloads,
            r.0.resumable == self.0.resumable,
    {
        let (b, mut list) = self.take_headers();
        let mut rest = headers;
        list.append(&mut rest);
        let DownloaderBuilder(d) = b;
        DownloaderBuilder(Downloader { headers: Some(list), ..d })
    }

    /// Add one HTTP header pair.  A later pair with the same name takes
    /// precedence when the request is assembled.
    pub fn header(self, name: &str, value: &str) -> (r: Self)
        ensures
            (match self.0.headers {
                Some(h) => r.0.headers matches Some(all) && all@.len() == h@.len() + 1 && all@.drop_last() == h@ && all@.last().0@ == name@ && all@.last().1@ == value@,
                None => r.0.headers matches Some(all) && all@.len() == 1 && all@.last().0@ == name@ && all@.last().1@ == value@,
            }),
            r.0.retries == self.0.retries,
            r.0.concurrent_downloads == self.0.concurrent_downloads,
            r.0.resumable == self.0.resumable,
    {
        let (b, mut list) = self.take_headers();
        list.push((name.to_owned(), value.to_owned()));
        let DownloaderBuilder(d) = b;
        DownloaderBuilder(Downloader { headers: Some(list), ..d })
    }

    /// Create the `Downloader` with the specified options.  A concurrency
    /// bound of zero is an invalid configuration and is rejected here,
    /// rather than silently clamped.
    pub fn build(self) -> (r: Downloader)
        requires
            self.0.concurrent_downloads >= 1,
        ensures
            r == self.0,
    {
        self.0
    }
}

impl Default for DownloaderBuilder {
    /// A builder holding the default configuration.
    fn default() -> (r: Self)
        ensures
            r.0.retries == Downloader::DEFAULT_RETRIES,
            r.0.concurrent_downloads == Downloader::DEFAULT_CONCURRENT_DOWNLOADS,
            r.0.resumable,
            r.0.headers is None,
    {
        DownloaderBuilder(
            Downloader {
                retries: Downloader::DEFAULT_RETRIES,
                concurrent_downloads: Downloader::DEFAULT_CONCURRENT_DOWNLOADS,
                style_options: StyleOptions::default(),
                resumable: true,
                headers: None,
            },
        )
    }
}

} // verus!
