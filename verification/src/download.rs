use crate::cache::spec_status_success;
use crate::cache::status_success;
use crate::errors::PipelineError;
use vstd::prelude::*;

verus! {

/// How a finished download ended well.
pub enum DownloadOutcome {
    /// The target file already existed; nothing was fetched or written.
    Skipped,
    /// The audio payload was fetched and written to the target file.
    Downloaded,
}

/// What a download asks its driver to do next.
pub enum DownloadAction {
    /// Ask whether a file exists at `path`.
    CheckFile { path: String },
    /// Issue an HTTP GET for `url`.
    HttpGet { url: String },
    /// Write `body` to `path` in one full-buffer operation.
    WriteFile { path: String, body: Vec<u8> },
}

/// The driver's answer to the matching `DownloadAction`.
pub enum DownloadEvent {
    FileChecked { exists: bool },
    /// `None`: the transport failed before any status arrived.
    HttpFetched { response: Option<(u16, Vec<u8>)> },
    FileWritten { ok: bool },
}

/// The download of one resolved episode, as a state machine: when the target
/// file already exists the download is skipped whole — no fetch, no write,
/// reported as a success; otherwise the stream URL is fetched, a non-success
/// status is a hard failure, and the payload is written to the target file
/// in one operation.
pub enum Download {
    /// Asking whether the target file exists.
    CheckingTarget { url: String, path: String },
    /// Target absent: fetching the audio payload.
    Fetching { url: String, path: String },
    /// Fetched: writing the payload to the target file.
    Writing { path: String },
    Done { outcome: DownloadOutcome },
    Failed { error: PipelineError },
}

impl Download {
    pub open spec fn in_progress(self) -> bool {
        !(self is Done || self is Failed)
    }

    /// The event kinds a state can be answered with: exactly the answer to
    /// the action the state emitted.
    pub open spec fn accepts(self, event: DownloadEvent) -> bool {
        match (self, event) {
            (Download::CheckingTarget { .. }, DownloadEvent::FileChecked { .. }) => true,
            (Download::Fetching { .. }, DownloadEvent::HttpFetched { .. }) => true,
            (Download::Writing { .. }, DownloadEvent::FileWritten { .. }) => true,
            _ => false,
        }
    }

    /// The transition function: the next state and the action the driver
    /// must perform next, `None` when the download has ended.
    pub open spec fn spec_step(self, event: DownloadEvent) -> (Download, Option<DownloadAction>) {
        match (self, event) {
            (Download::CheckingTarget { url, path }, DownloadEvent::FileChecked { exists }) => {
                if exists {
                    (Download::Done { outcome: DownloadOutcome::Skipped }, None)
                } else {
                    (Download::Fetching { url, path }, Some(DownloadAction::HttpGet { url }))
                }
            },
            (Download::Fetching { url, path }, DownloadEvent::HttpFetched { response }) => {
                match response {
                    Some((status, body)) => {
                        if spec_status_success(status) {
                            (
                                Download::Writing { path },
                                Some(DownloadAction::WriteFile { path, body }),
                            )
                        } else {
                            (
                                Download::Failed {
                                    error: PipelineError::Download { url, status: Some(status) },
                                },
                                None,
                            )
                        }
                    },
                    None => (
                        Download::Failed {
                            error: PipelineError::Download { url, status: None },
                        },
                        None,
                    ),
                }
            },
            (Download::Writing { path }, DownloadEvent::FileWritten { ok }) => {
                if ok {
                    (Download::Done { outcome: DownloadOutcome::Downloaded }, None)
                } else {
                    (Download::Failed { error: PipelineError::Io { path } }, None)
                }
            },
            (s, _) => (s, None),
        }
    }

    /// Begins the download of `url` to the target file `path`: the first
    /// action asks whether the target file already exists.
    pub fn start(url: String, path: String) -> (r: (Download, DownloadAction))
        ensures
            r.0 == (Download::CheckingTarget { url, path }),
            r.1 == (DownloadAction::CheckFile { path }),
    {
        let p = path.clone();
        (Download::CheckingTarget { url, path }, DownloadAction::CheckFile { path: p })
    }

    /// One transition; the driver must answer the pending action with an
    /// event of the matching kind.
    pub fn step(self, event: DownloadEvent) -> (r: (Download, Option<DownloadAction>))
        requires
            self.in_progress(),
            self.accepts(event),
        ensures
            r == self.spec_step(event),
    {
        match (self, event) {
            (Download::CheckingTarget { url, path }, DownloadEvent::FileChecked { exists }) => {
                if exists {
                    (Download::Done { outcome: DownloadOutcome::Skipped }, None)
                } else {
                    let u = url.clone();
                    (Download::Fetching { url, path }, Some(DownloadAction::HttpGet { url: u }))
                }
            },
            (Download::Fetching { url, path }, DownloadEvent::HttpFetched { response }) => {
                match response {
                    Some((status, body)) => {
                        if status_success(status) {
                            let p = path.clone();
                            (
                                Download::Writing { path: p },
                                Some(DownloadAction::WriteFile { path, body }),
                            )
                        } else {
                            (
                                Download::Failed {
                                    error: PipelineError::Download { url, status: Some(status) },
                                },
                                None,
                            )
                        }
                    },
                    None => (
                        Download::Failed {
                            error: PipelineError::Download { url, status: None },
                        },
                        None,
                    ),
                }
            },
            (Download::Writing { path }, DownloadEvent::FileWritten { ok }) => {
                if ok {
                    (Download::Done { outcome: DownloadOutcome::Downloaded }, None)
                } else {
                    (Download::Failed { error: PipelineError::Io { path } }, None)
                }
            },
            (s, _) => (s, None),
        }
    }
}

/// Skip-on-exists: when the target file already exists, the download ends at
/// once as a success with the `Skipped` outcome and no further action — in
/// particular no network request and no write, whatever the file holds.
pub proof fn lemma_skip_on_exists(url: String, path: String)
    ensures
        ({
            let (s, a) = (Download::CheckingTarget { url, path }).spec_step(
                DownloadEvent::FileChecked { exists: true },
            );
            &&& s == (Download::Done { outcome: DownloadOutcome::Skipped })
            &&& a is None
        }),
{
}

} // verus!
