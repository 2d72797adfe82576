use crate::errors::PipelineError;
use vstd::prelude::*;

verus! {

/// An HTTP status code in the success range.
pub open spec fn spec_status_success(status: u16) -> bool {
    200 <= status < 300
}

pub fn status_success(status: u16) -> (r: bool)
    ensures
        r == spec_status_success(status),
{
    200 <= status && status < 300
}

/// What a cache lookup asks its driver to do next. The driver performs the
/// I/O and answers with the matching `CacheEvent`.
pub enum CacheAction {
    /// Ask whether a file exists at `path`.
    CheckFile { path: String },
    /// Read the whole file at `path`.
    ReadFile { path: String },
    /// Issue an HTTP GET for `url`.
    HttpGet { url: String },
    /// Write `body` to `path` in one full-buffer operation.
    WriteFile { path: String, body: String },
}

/// The driver's answer to the matching `CacheAction`.
pub enum CacheEvent {
    FileChecked { exists: bool },
    /// `None`: the read failed.
    FileRead { content: Option<String> },
    /// `None`: the transport failed before any status arrived.
    HttpFetched { response: Option<(u16, String)> },
    FileWritten { ok: bool },
}

/// The read-through cache lookup for one URL, as a state machine: on a hit
/// the cached file is read and returned with no network access; on a miss
/// the URL is fetched, a non-success status is a hard failure, and the body
/// is written to the cache in full before it is handed out.
pub enum CacheFetch {
    /// Asking whether the cache file exists.
    Checking { url: String, path: String },
    /// Hit: reading the cache file.
    Reading { url: String, path: String },
    /// Miss: fetching the URL.
    Fetching { url: String, path: String },
    /// Fetched: writing the body to the cache file.
    Writing { url: String, path: String, body: String },
    /// The content, from cache or freshly fetched and cached.
    Done { content: String },
    Failed { error: PipelineError },
}

impl CacheFetch {
    pub open spec fn in_progress(self) -> bool {
        !(self is Done || self is Failed)
    }

    /// The event kinds a state can be answered with: exactly the answer to
    /// the action the state emitted.
    pub open spec fn accepts(self, event: CacheEvent) -> bool {
        match (self, event) {
            (CacheFetch::Checking { .. }, CacheEvent::FileChecked { .. }) => true,
            (CacheFetch::Reading { .. }, CacheEvent::FileRead { .. }) => true,
            (CacheFetch::Fetching { .. }, CacheEvent::HttpFetched { .. }) => true,
            (CacheFetch::Writing { .. }, CacheEvent::FileWritten { .. }) => true,
            _ => false,
        }
    }

    /// The transition function: the next state and the action the driver
    /// must perform next, `None` when the lookup has ended.
    pub open spec fn spec_step(self, event: CacheEvent) -> (CacheFetch, Option<CacheAction>) {
        match (self, event) {
            (CacheFetch::Checking { url, path }, CacheEvent::FileChecked { exists }) => {
                if exists {
                    (
                        CacheFetch::Reading { url, path },
                        Some(CacheAction::ReadFile { path }),
                    )
                } else {
                    (
                        CacheFetch::Fetching { url, path },
                        Some(CacheAction::HttpGet { url }),
                    )
                }
            },
            (CacheFetch::Reading { url, path }, CacheEvent::FileRead { content }) => {
                match content {
                    Some(c) => (CacheFetch::Done { content: c }, None),
                    None => (
                        CacheFetch::Failed { error: PipelineError::Io { path } },
                        None,
                    ),
                }
            },
            (CacheFetch::Fetching { url, path }, CacheEvent::HttpFetched { response }) => {
                match response {
                    Some((status, body)) => {
                        if spec_status_success(status) {
                            (
                                CacheFetch::Writing { url, path, body },
                                Some(CacheAction::WriteFile { path, body }),
                            )
                        } else {
                            (
                                CacheFetch::Failed {
                                    error: PipelineError::Fetch { url, status: Some(status) },
                                },
                                None,
                            )
                        }
                    },
                    None => (
                        CacheFetch::Failed {
                            error: PipelineError::Fetch { url, status: None },
                        },
                        None,
                    ),
                }
            },
            (CacheFetch::Writing { url, path, body }, CacheEvent::FileWritten { ok }) => {
                if ok {
                    (CacheFetch::Done { content: body }, None)
                } else {
                    (CacheFetch::Failed { error: PipelineError::Io { path } }, None)
                }
            },
            (s, _) => (s, None),
        }
    }

    /// Begins a lookup of `url` whose cache file is `path`: the first action
    /// asks whether the cache file exists.
    pub fn start(url: String, path: String) -> (r: (CacheFetch, CacheAction))
        ensures
            r.0 == (CacheFetch::Checking { url, path }),
            r.1 == (CacheAction::CheckFile { path }),
    {
        let p = path.clone();
        (CacheFetch::Checking { url, path }, CacheAction::CheckFile { path: p })
    }

    /// One transition; the driver must answer the pending action with an
    /// event of the matching kind.
    pub fn step(self, event: CacheEvent) -> (r: (CacheFetch, Option<CacheAction>))
        requires
            self.in_progress(),
            self.accepts(event),
        ensures
            r == self.spec_step(event),
    {
        match (self, event) {
            (CacheFetch::Checking { url, path }, CacheEvent::FileChecked { exists }) => {
                if exists {
                    let p = path.clone();
                    (
                        CacheFetch::Reading { url, path },
                        Some(CacheAction::ReadFile { path: p }),
                    )
                } else {
                    let u = url.clone();
                    (
                        CacheFetch::Fetching { url, path },
                        Some(CacheAction::HttpGet { url: u }),
                    )
                }
            },
            (CacheFetch::Reading { url: _, path }, CacheEvent::FileRead { content }) => {
                match content {
                    Some(c) => (CacheFetch::Done { content: c }, None),
                    None => (
                        CacheFetch::Failed { error: PipelineError::Io { path } },
                        None,
                    ),
                }
            },
            (CacheFetch::Fetching { url, path }, CacheEvent::HttpFetched { response }) => {
                match response {
                    Some((status, body)) => {
                        if status_success(status) {
                            let p = path.clone();
                            let b = body.clone();
                            (
                                CacheFetch::Writing { url, path, body },
                                Some(CacheAction::WriteFile { path: p, body: b }),
                            )
                        } else {
                            (
                                CacheFetch::Failed {
                                    error: PipelineError::Fetch { url, status: Some(status) },
                                },
                                None,
                            )
                        }
                    },
                    None => (
                        CacheFetch::Failed {
                            error: PipelineError::Fetch { url, status: None },
                        },
                        None,
                    ),
                }
            },
            (CacheFetch::Writing { url: _, path, body }, CacheEvent::FileWritten { ok }) => {
                if ok {
                    (CacheFetch::Done { content: body }, None)
                } else {
                    (CacheFetch::Failed { error: PipelineError::Io { path } }, None)
                }
            },
            (s, _) => (s, None),
        }
    }
}

/// A cache hit issues no network fetch: when the cache file exists, the
/// lookup reads it and ends with its content, and neither step emits an
/// `HttpGet` action. With the deterministic cache keys this is the
/// re-run half of idempotence: content fetched once is never fetched again.
pub proof fn lemma_cache_hit_no_fetch(url: String, path: String, content: String)
    ensures
        ({
            let (s1, a1) = (CacheFetch::Checking { url, path }).spec_step(
                CacheEvent::FileChecked { exists: true },
            );
            let (s2, a2) = s1.spec_step(CacheEvent::FileRead { content: Some(content) });
            &&& a1 == Some(CacheAction::ReadFile { path })
            &&& !(a1 matches Some(CacheAction::HttpGet { .. }))
            &&& s2 == (CacheFetch::Done { content })
            &&& a2 is None
        }),
{
}

/// On a miss, fetched content is cached in full before it is handed out:
/// from a successful fetch the lookup first demands the cache write, and
/// only a confirmed write ends it with the content.
pub proof fn lemma_cache_miss_writes_before_done(
    url: String,
    path: String,
    status: u16,
    body: String,
)
    requires
        spec_status_success(status),
    ensures
        ({
            let (s1, a1) = (CacheFetch::Fetching { url, path }).spec_step(
                CacheEvent::HttpFetched { response: Some((status, body)) },
            );
            let (s2, a2) = s1.spec_step(CacheEvent::FileWritten { ok: true });
            &&& a1 == Some(CacheAction::WriteFile { path, body })
            &&& !(s1 is Done)
            &&& s2 == (CacheFetch::Done { content: body })
            &&& a2 is None
        }),
{
}

} // verus!
