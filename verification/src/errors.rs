use vstd::prelude::*;

verus! {

/// Everything that can go wrong in one run of the pipeline.
///
/// `Fetch` and `Download` carry the HTTP status of a non-success response,
/// or `None` when the transport itself failed before any status arrived.
#[derive(Debug)]
pub enum PipelineError {
    /// Fetching a page or metadata document failed.
    Fetch { url: String, status: Option<u16> },
    /// A document that had to be JSON (a metadata document, or the JSON held
    /// in a markup attribute) could not be parsed.
    Parse { url: String },
    /// A required field of a metadata document is missing or not a string.
    Metadata { field: String, url: String },
    /// Fetching the audio payload failed.
    Download { url: String, status: Option<u16> },
    /// A filesystem read or write failed.
    Io { path: String },
}

} // verus!
