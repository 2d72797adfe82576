//! A verified core for an audio-on-demand catalog downloader.
//!
//! The pipeline fetches a catalog page through a read-through content cache,
//! extracts the ordered episode references from the page's markup, resolves
//! each reference's metadata document into a stream URL and title, and
//! downloads each episode to a deterministically named file, skipping files
//! that already exist. One episode's failure never stops the others; only a
//! page failure aborts a run.
//!
//! All I/O is driven from outside: the state machines in `cache`, `download`
//! and `pipeline` emit actions (check a file, read, write, HTTP GET) and
//! consume the driver's answers, so every decision the pipeline takes is
//! verified here while the driver stays a thin shell.

pub mod cache;
pub mod download;
pub mod errors;
pub mod extract;
pub mod metadata;
pub mod pipeline;
pub mod sanitize;
pub mod text;
