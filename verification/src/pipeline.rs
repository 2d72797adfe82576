use crate::errors::PipelineError;
use crate::extract::extract_options;
use crate::extract::extracted_refs;
use crate::extract::options_attrs;
use crate::metadata::AudioMetadata;
use vstd::prelude::*;

verus! {

/// What the run asks its driver to do next. The driver performs the work —
/// through the cache lookup and download machines and the metadata resolver
/// — and answers with the matching `RunEvent`.
pub enum RunAction {
    /// Fetch the catalog page at `url` through the content cache.
    FetchPage { url: String },
    /// Resolve the metadata document of `episode_ref` through the content
    /// cache into a stream URL and title.
    ResolveEpisode { episode_ref: String },
    /// Download the resolved episode; `index` is its 1-based position in
    /// extraction order and fixes the output file name.
    DownloadEpisode { metadata: AudioMetadata, index: usize },
}

/// The driver's answer to the matching `RunAction`.
pub enum RunEvent {
    PageFetched { outcome: Result<String, PipelineError> },
    EpisodeResolved { outcome: Result<AudioMetadata, PipelineError> },
    /// `Ok(true)`: the payload was written; `Ok(false)`: the target file
    /// already existed and the download was skipped.
    EpisodeDownloaded { outcome: Result<bool, PipelineError> },
}

/// One run of the pipeline, as a state machine: fetch the catalog page,
/// extract the episode references, then resolve and download each episode in
/// document order. Only a page failure (or a malformed `options` attribute)
/// aborts the run; a failure while resolving or downloading one episode is
/// counted and the run proceeds with the next episode.
pub enum Run {
    /// Fetching the catalog page.
    FetchingPage { url: String },
    /// Resolving the metadata of episode `next` (0-based; `failures` counts
    /// the episodes among the first `next` that failed).
    Resolving { episodes: Vec<String>, next: usize, failures: usize },
    /// Downloading episode `next`, already resolved to `metadata`.
    Downloading { episodes: Vec<String>, next: usize, failures: usize, metadata: AudioMetadata },
    /// All episodes were attempted; `failures` of `episodes_total` failed.
    Finished { episodes_total: usize, failures: usize },
    /// The page could not be fetched or its markup could not be read.
    Aborted { error: PipelineError },
}

impl Run {
    pub open spec fn in_progress(self) -> bool {
        !(self is Finished || self is Aborted)
    }

    pub open spec fn wf(self) -> bool {
        match self {
            Run::Resolving { episodes, next, failures } => next < episodes.len() && failures
                <= next,
            Run::Downloading { episodes, next, failures, .. } => next < episodes.len() && failures
                <= next,
            _ => true,
        }
    }

    /// The event kinds a state can be answered with: exactly the answer to
    /// the action the state emitted.
    pub open spec fn accepts(self, event: RunEvent) -> bool {
        match (self, event) {
            (Run::FetchingPage { .. }, RunEvent::PageFetched { .. }) => true,
            (Run::Resolving { .. }, RunEvent::EpisodeResolved { .. }) => true,
            (Run::Downloading { .. }, RunEvent::EpisodeDownloaded { .. }) => true,
            _ => false,
        }
    }

    /// Begins a run against the catalog page at `url`.
    pub fn start(url: String) -> (r: (Run, RunAction))
        ensures
            r.0 == (Run::FetchingPage { url }),
            r.0.wf(),
            r.1 == (RunAction::FetchPage { url }),
    {
        let u = url.clone();
        (Run::FetchingPage { url }, RunAction::FetchPage { url: u })
    }

    /// One transition; the driver must answer the pending action with an
    /// event of the matching kind.
    pub fn step(self, event: RunEvent) -> (r: (Run, Option<RunAction>))
        requires
            self.wf(),
            self.in_progress(),
            self.accepts(event),
        ensures
            step_relation(self, event, r.0, r.1),
            r.0.wf(),
    {
        match (self, event) {
            (Run::FetchingPage { url }, RunEvent::PageFetched { outcome }) => {
                match outcome {
                    Err(e) => (Run::Aborted { error: e }, None),
                    Ok(html) => {
                        match extract_options(html.as_str()) {
                            None => (Run::Aborted { error: PipelineError::Parse { url } }, None),
                            Some(refs) => {
                                if refs.len() == 0 {
                                    (Run::Finished { episodes_total: 0, failures: 0 }, None)
                                } else {
                                    let first = refs[0].clone();
                                    proof {
                                        assert(refs.deep_view()[0] == refs@[0]@);
                                    }
                                    (
                                        Run::Resolving { episodes: refs, next: 0, failures: 0 },
                                        Some(RunAction::ResolveEpisode { episode_ref: first }),
                                    )
                                }
                            },
                        }
                    },
                }
            },
            (Run::Resolving { episodes, next, failures }, RunEvent::EpisodeResolved { outcome }) => {
                match outcome {
                    Ok(meta) => {
                        let m = meta.duplicate();
                        (
                            Run::Downloading { episodes, next, failures, metadata: meta },
                            Some(RunAction::DownloadEpisode { metadata: m, index: next + 1 }),
                        )
                    },
                    Err(_) => advance(episodes, next, failures + 1),
                }
            },
            (
                Run::Downloading { episodes, next, failures, metadata: _ },
                RunEvent::EpisodeDownloaded { outcome },
            ) => {
                match outcome {
                    Ok(_) => advance(episodes, next, failures),
                    Err(_) => advance(episodes, next, failures + 1),
                }
            },
            (s, _) => (s, None),
        }
    }
}

/// Moves the run past episode `next`: to the resolution of the episode after
/// it when one remains, else to `Finished`.
fn advance(episodes: Vec<String>, next: usize, failures: usize) -> (r: (Run, Option<RunAction>))
    requires
        next < episodes.len(),
        failures <= next + 1,
    ensures
        advance_relation(episodes, next, failures, r.0, r.1),
        r.0.wf(),
{
    if next + 1 < episodes.len() {
        let episode_ref = episodes[next + 1].clone();
        proof {
            assert(episodes.deep_view()[next + 1] == episodes@[next + 1]@);
        }
        (
            Run::Resolving { episodes, next: next + 1, failures },
            Some(RunAction::ResolveEpisode { episode_ref }),
        )
    } else {
        (Run::Finished { episodes_total: episodes.len(), failures }, None)
    }
}

/// How the run proceeds past episode `next` with the failure count
/// `failures`: when an episode after `next` remains, the run turns to
/// resolving it and nothing else; otherwise the run is finished, with every
/// episode attempted and `failures` of them failed.
pub open spec fn advance_relation(
    episodes: Vec<String>,
    next: usize,
    failures: usize,
    s2: Run,
    a: Option<RunAction>,
) -> bool {
    if next + 1 < episodes.len() {
        &&& s2 matches Run::Resolving { episodes: e2, next: n2, failures: f2 } && e2 == episodes
            && n2 == next + 1 && f2 == failures
        &&& a matches Some(RunAction::ResolveEpisode { episode_ref }) && episode_ref@
            == episodes.deep_view()[next + 1]
    } else {
        &&& s2 == (Run::Finished { episodes_total: episodes.len(), failures })
        &&& a is None
    }
}

/// The transition relation of `Run::step`: what the next state and action
/// are for each state and answer.
pub open spec fn step_relation(s: Run, event: RunEvent, s2: Run, a: Option<RunAction>) -> bool {
    match (s, event) {
        (Run::FetchingPage { url }, RunEvent::PageFetched { outcome }) => {
            match outcome {
                Err(e) => s2 == (Run::Aborted { error: e }) && a is None,
                Ok(html) => {
                    match extracted_refs(options_attrs(html@), "url"@) {
                        Err(_) => s2 == (Run::Aborted { error: PipelineError::Parse { url } })
                            && a is None,
                        Ok(refs) => {
                            if refs.len() == 0 {
                                s2 == (Run::Finished { episodes_total: 0, failures: 0 }) && a
                                    is None
                            } else {
                                &&& s2 matches Run::Resolving { episodes, next: 0, failures: 0 }
                                    && episodes.deep_view() == refs
                                &&& a matches Some(RunAction::ResolveEpisode { episode_ref })
                                    && episode_ref@ == refs[0]
                            }
                        },
                    }
                },
            }
        },
        (Run::Resolving { episodes, next, failures }, RunEvent::EpisodeResolved { outcome }) => {
            match outcome {
                Ok(meta) => {
                    &&& s2 == (Run::Downloading { episodes, next, failures, metadata: meta })
                    &&& a == Some(
                        RunAction::DownloadEpisode { metadata: meta, index: (next + 1) as usize },
                    )
                },
                Err(_) => advance_relation(episodes, next, (failures + 1) as usize, s2, a),
            }
        },
        (Run::Downloading { episodes, next, failures, .. }, RunEvent::EpisodeDownloaded {
            outcome,
        }) => {
            match outcome {
                Ok(_) => advance_relation(episodes, next, failures, s2, a),
                Err(_) => advance_relation(episodes, next, (failures + 1) as usize, s2, a),
            }
        },
        _ => s2 == s && a is None,
    }
}

/// Per-episode isolation: once episodes are being processed, no outcome —
/// however an episode's resolution or download failed — aborts the run. The
/// run proceeds to the next episode (the very next action resolves it) or
/// finishes with every episode attempted; and exactly the failed outcomes
/// are counted, one per failed episode.
pub proof fn lemma_episode_isolation(s: Run, event: RunEvent, s2: Run, a: Option<RunAction>)
    requires
        s matches Run::Resolving { .. } || s matches Run::Downloading { .. },
        s.wf(),
        s.accepts(event),
        step_relation(s, event, s2, a),
    ensures
        !(s2 is Aborted),
        !(s2 is FetchingPage),
        s2 matches Run::Resolving { episodes, next, .. } ==> a matches Some(
            RunAction::ResolveEpisode { episode_ref },
        ) && episode_ref@ == episodes.deep_view()[next as int],
        (event matches RunEvent::EpisodeResolved { outcome: Err(_) } || event matches
            RunEvent::EpisodeDownloaded { outcome: Err(_) }) ==> run_failures(s2) == run_failures(
            s,
        ) + 1,
        (event matches RunEvent::EpisodeDownloaded { outcome: Ok(_) }) ==> run_failures(s2)
            == run_failures(s),
{
}

/// The spec-level successor of an episode-phase state: from `Resolving` and
/// `Downloading` the next state is a function of the answer alone.
pub open spec fn episode_next(s: Run, event: RunEvent) -> Run {
    match (s, event) {
        (Run::Resolving { episodes, next, failures }, RunEvent::EpisodeResolved { outcome }) => {
            match outcome {
                Ok(meta) => Run::Downloading { episodes, next, failures, metadata: meta },
                Err(_) => spec_advance(episodes, next, (failures + 1) as usize),
            }
        },
        (Run::Downloading { episodes, next, failures, .. }, RunEvent::EpisodeDownloaded {
            outcome,
        }) => {
            match outcome {
                Ok(_) => spec_advance(episodes, next, failures),
                Err(_) => spec_advance(episodes, next, (failures + 1) as usize),
            }
        },
        _ => s,
    }
}

pub open spec fn spec_advance(episodes: Vec<String>, next: usize, failures: usize) -> Run {
    if next + 1 < episodes.len() {
        Run::Resolving { episodes, next: (next + 1) as usize, failures }
    } else {
        Run::Finished { episodes_total: episodes.len(), failures }
    }
}

/// In the episode phase the step relation pins the next state down to the
/// successor function `episode_next`.
pub proof fn lemma_step_matches_episode_next(s: Run, event: RunEvent, s2: Run, a: Option<
    RunAction,
>)
    requires
        s matches Run::Resolving { .. } || s matches Run::Downloading { .. },
        s.wf(),
        s.accepts(event),
        step_relation(s, event, s2, a),
    ensures
        s2 == episode_next(s, event),
{
}

/// The end state of the episode phase after a sequence of answers.
pub open spec fn run_events(s: Run, events: Seq<RunEvent>) -> Run
    decreases events.len(),
{
    if events.len() == 0 {
        s
    } else {
        run_events(episode_next(s, events.first()), events.drop_first())
    }
}

/// Whether each answer of the sequence is of the kind the state it answers
/// expects.
pub open spec fn all_accepted(s: Run, events: Seq<RunEvent>) -> bool
    decreases events.len(),
{
    events.len() == 0 || (s.accepts(events.first()) && all_accepted(
        episode_next(s, events.first()),
        events.drop_first(),
    ))
}

/// The failed per-episode outcomes among a sequence of answers.
pub open spec fn failed_outcomes(events: Seq<RunEvent>) -> int
    decreases events.len(),
{
    if events.len() == 0 {
        0
    } else {
        (match events.first() {
            RunEvent::EpisodeResolved { outcome: Err(_) } => 1int,
            RunEvent::EpisodeDownloaded { outcome: Err(_) } => 1int,
            _ => 0int,
        }) + failed_outcomes(events.drop_first())
    }
}

/// The episodes a run is processing, or was processing when it finished.
pub open spec fn run_total(s: Run) -> int {
    match s {
        Run::Resolving { episodes, .. } => episodes.len() as int,
        Run::Downloading { episodes, .. } => episodes.len() as int,
        Run::Finished { episodes_total, .. } => episodes_total as int,
        _ => 0,
    }
}

/// Per-episode isolation over whole runs: once the episode phase has begun,
/// no sequence of answers — however many episodes fail, at resolution or at
/// download — ever aborts the run or loses an episode. The set being
/// processed keeps its size all the way into `Finished`, and the failure
/// count grows by exactly one per failed outcome, so a finished run reports
/// exactly the episodes that failed.
pub proof fn lemma_trace_isolation(s: Run, events: Seq<RunEvent>)
    requires
        s.wf(),
        s matches Run::Resolving { .. } || s matches Run::Downloading { .. } || s matches
            Run::Finished { .. },
        all_accepted(s, events),
    ensures
        !(run_events(s, events) is Aborted),
        !(run_events(s, events) is FetchingPage),
        run_events(s, events).wf(),
        run_total(run_events(s, events)) == run_total(s),
        run_failures(run_events(s, events)) == run_failures(s) + failed_outcomes(events),
    decreases events.len(),
{
    if events.len() > 0 {
        lemma_trace_isolation(episode_next(s, events.first()), events.drop_first());
    }
}

/// The episode failures a state has recorded so far.
pub open spec fn run_failures(s: Run) -> int {
    match s {
        Run::Resolving { failures, .. } => failures as int,
        Run::Downloading { failures, .. } => failures as int,
        Run::Finished { failures, .. } => failures as int,
        _ => 0,
    }
}

/// A failed resolution never leads to a download: the episode's download is
/// not attempted, and no download of any other episode is issued either —
/// the run moves straight to resolving the next episode or to the end.
pub proof fn lemma_no_download_after_failed_resolution(
    s: Run,
    event: RunEvent,
    s2: Run,
    a: Option<RunAction>,
)
    requires
        s matches Run::Resolving { .. },
        s.wf(),
        event matches RunEvent::EpisodeResolved { outcome: Err(_) },
        step_relation(s, event, s2, a),
    ensures
        !(a matches Some(RunAction::DownloadEpisode { .. })),
        !(s2 is Downloading),
{
}

/// The output index is positional: the download of the episode at 0-based
/// position `next` is always issued with the 1-based index `next + 1`,
/// whatever was resolved — the index follows extraction order, never
/// completion order.
pub proof fn lemma_index_is_positional(s: Run, event: RunEvent, s2: Run, a: Option<RunAction>)
    requires
        s.wf(),
        s.accepts(event),
        step_relation(s, event, s2, a),
        a matches Some(RunAction::DownloadEpisode { .. }),
    ensures
        s matches Run::Resolving { next, .. } && a matches Some(
            RunAction::DownloadEpisode { index, .. },
        ) && index == next + 1,
{
}

} // verus!
