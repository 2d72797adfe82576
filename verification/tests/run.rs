use std::collections::HashMap;
use std::collections::HashSet;

use audiofetch::cache::CacheAction;
use audiofetch::cache::CacheEvent;
use audiofetch::cache::CacheFetch;
use audiofetch::download::Download;
use audiofetch::download::DownloadAction;
use audiofetch::download::DownloadEvent;
use audiofetch::download::DownloadOutcome;
use audiofetch::errors::PipelineError;
use audiofetch::metadata::full_metadata_url;
use audiofetch::metadata::resolve_metadata;
use audiofetch::pipeline::Run;
use audiofetch::pipeline::RunAction;
use audiofetch::pipeline::RunEvent;
use audiofetch::sanitize::sanitize;
use audiofetch::text::cache_key;
use audiofetch::text::output_filename;
use audiofetch::text::page_cache_key;

const BASE: &str = "https://platform.example";

/// An in-memory stand-in for the network and the two directories, so the
/// machines can be driven through whole runs.
struct World {
    remote_text: HashMap<String, String>,
    remote_bytes: HashMap<String, Vec<u8>>,
    cache_dir: HashMap<String, String>,
    out_dir: HashSet<String>,
    gets: Vec<String>,
}

impl World {
    fn new() -> World {
        World {
            remote_text: HashMap::new(),
            remote_bytes: HashMap::new(),
            cache_dir: HashMap::new(),
            out_dir: HashSet::new(),
            gets: Vec::new(),
        }
    }

    fn get_text(&mut self, url: &str) -> Option<(u16, String)> {
        self.gets.push(url.to_string());
        match self.remote_text.get(url) {
            Some(body) => Some((200, body.clone())),
            None => Some((404, String::new())),
        }
    }

    fn get_bytes(&mut self, url: &str) -> Option<(u16, Vec<u8>)> {
        self.gets.push(url.to_string());
        match self.remote_bytes.get(url) {
            Some(body) => Some((200, body.clone())),
            None => Some((404, Vec::new())),
        }
    }
}

fn drive_cache(world: &mut World, url: String, path: String) -> Result<String, PipelineError> {
    let (mut state, first) = CacheFetch::start(url, path);
    let mut pending = Some(first);
    loop {
        match state {
            CacheFetch::Done { content } => return Ok(content),
            CacheFetch::Failed { error } => return Err(error),
            other => state = other,
        }
        let event = match pending.take().expect("an unfinished lookup has an action") {
            CacheAction::CheckFile { path } => CacheEvent::FileChecked {
                exists: world.cache_dir.contains_key(&path),
            },
            CacheAction::ReadFile { path } => CacheEvent::FileRead {
                content: world.cache_dir.get(&path).cloned(),
            },
            CacheAction::HttpGet { url } => CacheEvent::HttpFetched {
                response: world.get_text(&url),
            },
            CacheAction::WriteFile { path, body } => {
                world.cache_dir.insert(path, body);
                CacheEvent::FileWritten { ok: true }
            }
        };
        let (next, action) = state.step(event);
        state = next;
        pending = action;
    }
}

fn drive_download(world: &mut World, url: String, path: String) -> Result<bool, PipelineError> {
    let (mut state, first) = Download::start(url, path);
    let mut pending = Some(first);
    loop {
        match state {
            Download::Done { outcome } => {
                return Ok(matches!(outcome, DownloadOutcome::Downloaded))
            }
            Download::Failed { error } => return Err(error),
            other => state = other,
        }
        let event = match pending.take().expect("an unfinished download has an action") {
            DownloadAction::CheckFile { path } => DownloadEvent::FileChecked {
                exists: world.out_dir.contains(&path),
            },
            DownloadAction::HttpGet { url } => DownloadEvent::HttpFetched {
                response: world.get_bytes(&url),
            },
            DownloadAction::WriteFile { path, body } => {
                let _ = body;
                world.out_dir.insert(path);
                DownloadEvent::FileWritten { ok: true }
            }
        };
        let (next, action) = state.step(event);
        state = next;
        pending = action;
    }
}

/// Runs the whole pipeline against the in-memory world; returns
/// `(episodes_total, failures)` of the finished run.
fn drive_run(world: &mut World, catalog_url: &str) -> (usize, usize) {
    let (mut state, first) = Run::start(catalog_url.to_string());
    let mut pending = Some(first);
    loop {
        match state {
            Run::Finished { episodes_total, failures } => return (episodes_total, failures),
            Run::Aborted { error } => panic!("the run aborted: {:?}", error),
            other => state = other,
        }
        let event = match pending.take().expect("an unfinished run has an action") {
            RunAction::FetchPage { url } => {
                let key = page_cache_key(&url).expect("the catalog URL holds a slash");
                RunEvent::PageFetched {
                    outcome: drive_cache(world, url, key),
                }
            }
            RunAction::ResolveEpisode { episode_ref } => {
                let full = full_metadata_url(BASE, &episode_ref);
                let key = cache_key(&full).expect("the metadata URL holds a slash");
                let outcome = match drive_cache(world, full.clone(), key) {
                    Err(e) => Err(e),
                    Ok(doc) => resolve_metadata(&doc, &full),
                };
                RunEvent::EpisodeResolved { outcome }
            }
            RunAction::DownloadEpisode { metadata, index } => {
                let name = output_filename(index, &sanitize(&metadata.title));
                RunEvent::EpisodeDownloaded {
                    outcome: drive_download(world, metadata.url, name),
                }
            }
        };
        let (next, action) = state.step(event);
        state = next;
        pending = action;
    }
}

fn catalog_page(refs: &[&str]) -> String {
    let mut page = String::from("<html><body>");
    for r in refs {
        page.push_str("<rps-play-with-labels options='{\"url\": \"");
        page.push_str(r);
        page.push_str("\"}'></rps-play-with-labels>");
    }
    page.push_str("</body></html>");
    page
}

fn metadata_doc(url: &str, title: &str) -> String {
    let mut doc = String::from("{\"audio\": {\"url\": \"");
    doc.push_str(url);
    doc.push_str("\", \"title\": \"");
    doc.push_str(title);
    doc.push_str("\"}}");
    doc
}

#[test]
fn second_run_hits_cache_and_skips_every_download() {
    let catalog = "https://platform.example/audiolibri/moschettieri";
    let mut world = World::new();
    world.remote_text.insert(
        catalog.to_string(),
        catalog_page(&["/audio/ep1.json", "/audio/ep2.json"]),
    );
    world.remote_text.insert(
        format!("{}{}", BASE, "/audio/ep1.json"),
        metadata_doc("https://stream.example/one.mp3", "Episode One"),
    );
    world.remote_text.insert(
        format!("{}{}", BASE, "/audio/ep2.json"),
        metadata_doc("https://stream.example/two.mp3", "Episode Two"),
    );
    world
        .remote_bytes
        .insert("https://stream.example/one.mp3".to_string(), vec![1]);
    world
        .remote_bytes
        .insert("https://stream.example/two.mp3".to_string(), vec![2]);

    let (total, failures) = drive_run(&mut world, catalog);
    assert_eq!((total, failures), (2, 0));
    assert_eq!(world.gets.len(), 5);
    let first_outputs: Vec<String> = {
        let mut v: Vec<String> = world.out_dir.iter().cloned().collect();
        v.sort();
        v
    };
    assert_eq!(
        first_outputs,
        vec![
            "001 - episode one.mp3".to_string(),
            "002 - episode two.mp3".to_string()
        ]
    );

    world.gets.clear();
    let (total, failures) = drive_run(&mut world, catalog);
    assert_eq!((total, failures), (2, 0));
    assert!(
        world.gets.is_empty(),
        "the second run must fetch nothing: {:?}",
        world.gets
    );
    let second_outputs: Vec<String> = {
        let mut v: Vec<String> = world.out_dir.iter().cloned().collect();
        v.sort();
        v
    };
    assert_eq!(second_outputs, first_outputs);
}

#[test]
fn one_bad_episode_never_stops_the_others() {
    let catalog = "https://platform.example/audiolibri/threeparts";
    let mut world = World::new();
    world.remote_text.insert(
        catalog.to_string(),
        catalog_page(&["/audio/a.json", "/audio/b.json", "/audio/c.json"]),
    );
    world.remote_text.insert(
        format!("{}{}", BASE, "/audio/a.json"),
        metadata_doc("https://stream.example/a.mp3", "Part A"),
    );
    // The second episode's document lacks `audio.title`: resolution fails.
    world.remote_text.insert(
        format!("{}{}", BASE, "/audio/b.json"),
        "{\"audio\": {\"url\": \"https://stream.example/b.mp3\"}}".to_string(),
    );
    world.remote_text.insert(
        format!("{}{}", BASE, "/audio/c.json"),
        metadata_doc("https://stream.example/c.mp3", "Part C"),
    );
    world
        .remote_bytes
        .insert("https://stream.example/a.mp3".to_string(), vec![1]);
    world
        .remote_bytes
        .insert("https://stream.example/c.mp3".to_string(), vec![3]);

    let (total, failures) = drive_run(&mut world, catalog);
    assert_eq!(total, 3);
    assert_eq!(failures, 1, "exactly one episode-level failure is reported");
    assert!(world.out_dir.contains("001 - part a.mp3"));
    assert!(world.out_dir.contains("003 - part c.mp3"));
    assert_eq!(world.out_dir.len(), 2, "the failed episode produced no file");
    // The failed episode's stream was never requested.
    assert!(world
        .gets
        .iter()
        .all(|u| u != "https://stream.example/b.mp3"));
}

#[test]
fn empty_catalog_finishes_with_zero_downloads() {
    let catalog = "https://platform.example/audiolibri/empty";
    let mut world = World::new();
    world.remote_text.insert(
        catalog.to_string(),
        "<html><body><p>no episodes</p></body></html>".to_string(),
    );
    let (total, failures) = drive_run(&mut world, catalog);
    assert_eq!((total, failures), (0, 0));
    assert!(world.out_dir.is_empty());
}

#[test]
fn page_failure_aborts_the_whole_run() {
    let (state, _) = Run::start("https://platform.example/audiolibri/gone".to_string());
    let (state, action) = state.step(RunEvent::PageFetched {
        outcome: Err(PipelineError::Fetch {
            url: "https://platform.example/audiolibri/gone".to_string(),
            status: Some(404),
        }),
    });
    assert!(action.is_none());
    assert!(matches!(
        state,
        Run::Aborted { error: PipelineError::Fetch { status: Some(404), .. } }
    ));
}

#[test]
fn malformed_markup_json_aborts_the_whole_run() {
    let url = "https://platform.example/audiolibri/badmarkup";
    let (state, _) = Run::start(url.to_string());
    let page =
        "<rps-play-with-labels options='definitely not json'></rps-play-with-labels>".to_string();
    let (state, action) = state.step(RunEvent::PageFetched { outcome: Ok(page) });
    assert!(action.is_none());
    assert!(matches!(
        state,
        Run::Aborted { error: PipelineError::Parse { url: ref u } } if u == url
    ));
}

#[test]
fn failed_download_is_isolated_like_failed_resolution() {
    let catalog = "https://platform.example/audiolibri/missingstream";
    let mut world = World::new();
    world.remote_text.insert(
        catalog.to_string(),
        catalog_page(&["/audio/a.json", "/audio/b.json", "/audio/c.json"]),
    );
    for (r, title, stream) in [
        ("/audio/a.json", "Part A", "https://stream.example/a.mp3"),
        ("/audio/b.json", "Part B", "https://stream.example/b.mp3"),
        ("/audio/c.json", "Part C", "https://stream.example/c.mp3"),
    ] {
        world
            .remote_text
            .insert(format!("{}{}", BASE, r), metadata_doc(stream, title));
    }
    // The second stream is absent: its download fails with a 404 status.
    world
        .remote_bytes
        .insert("https://stream.example/a.mp3".to_string(), vec![1]);
    world
        .remote_bytes
        .insert("https://stream.example/c.mp3".to_string(), vec![3]);

    let (total, failures) = drive_run(&mut world, catalog);
    assert_eq!((total, failures), (3, 1));
    assert!(world.out_dir.contains("001 - part a.mp3"));
    assert!(world.out_dir.contains("003 - part c.mp3"));
    assert_eq!(world.out_dir.len(), 2);
}
