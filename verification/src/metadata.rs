use crate::errors::PipelineError;
use vstd::prelude::*;

verus! {

/// A resolved episode: the absolute stream URL and the human-readable title
/// read from the episode's metadata document. Both fields are required;
/// resolution fails rather than producing a partial record.
#[derive(Debug)]
pub struct AudioMetadata {
    pub url: String,
    pub title: String,
}

impl AudioMetadata {
    /// A copy with equal fields.
    pub fn duplicate(&self) -> (r: AudioMetadata)
        ensures
            r == *self,
    {
        AudioMetadata { url: self.url.clone(), title: self.title.clone() }
    }
}

/// Joins a platform base URL and a relative episode reference into the
/// absolute URL of the episode's metadata document.
pub fn full_metadata_url(base: &str, episode_ref: &str) -> (r: String)
    ensures
        r@ == base@ + episode_ref@,
{
    let mut s = String::new();
    s.append(base);
    s.append(episode_ref);
    s
}

/// The string at the path `outer.inner` of the JSON document `doc`:
/// `Err` when `doc` is not well-formed JSON; `Ok(None)` when the path is
/// absent or its value is not a string; `Ok(Some(s))` when it is the string
/// `s`.
pub uninterp spec fn json_string_path2(
    doc: Seq<char>,
    outer: Seq<char>,
    inner: Seq<char>,
) -> Result<Option<Seq<char>>, ()>;

pub open spec fn path_lookup_view(r: Result<Option<String>, ()>) -> Result<Option<Seq<char>>, ()> {
    match r {
        Ok(Some(s)) => Ok(Some(s@)),
        Ok(None) => Ok(None),
        Err(e) => Err(e),
    }
}

/// Relies on serde_json::from_str, serde_json::Value::get and
/// serde_json::Value::as_str: parses `doc` as JSON and looks up the string
/// two levels down, at `inner` inside the object at `outer`. `Err` means
/// malformed JSON; `Ok(None)` that some step of the path is absent or that
/// the value there is not a string. The result depends on the arguments
/// alone.
#[verifier::external_body]
fn json_string_at_path2(doc: &str, outer: &str, inner: &str) -> (r: Result<Option<String>, ()>)
    ensures
        path_lookup_view(r) == json_string_path2(doc@, outer@, inner@),
{
    match serde_json::from_str::<serde_json::Value>(doc) {
        Err(_) => Err(()),
        Ok(value) => Ok(
            value
                .get(outer)
                .and_then(|o| o.get(inner))
                .and_then(|v| v.as_str())
                .map(str::to_string),
        ),
    }
}

/// Resolves a fetched metadata document into an `AudioMetadata` record.
///
/// The document must carry the string fields `audio.url` and `audio.title`.
/// Malformed JSON fails with a parse error naming `source_url`; a missing or
/// non-string field fails with a metadata error naming the field (`url` is
/// checked first) and `source_url`. Exactly the documents with both fields
/// resolve.
pub fn resolve_metadata(doc: &str, source_url: &str) -> (r: Result<AudioMetadata, PipelineError>)
    ensures
        ({
            let u = json_string_path2(doc@, "audio"@, "url"@);
            let t = json_string_path2(doc@, "audio"@, "title"@);
            match (u, t) {
                (Err(_), _) => r matches Err(PipelineError::Parse { url }) && url@ == source_url@,
                (Ok(None), _) => r matches Err(PipelineError::Metadata { field, url })
                    && field@ == "url"@ && url@ == source_url@,
                (Ok(Some(_)), Err(_)) => r matches Err(PipelineError::Parse { url }) && url@
                    == source_url@,
                (Ok(Some(_)), Ok(None)) => r matches Err(PipelineError::Metadata { field, url })
                    && field@ == "title"@ && url@ == source_url@,
                (Ok(Some(su)), Ok(Some(st))) => r matches Ok(m) && m.url@ == su && m.title@ == st,
            }
        }),
{
    let url_field = match json_string_at_path2(doc, "audio", "url") {
        Err(_) => {
            return Err(PipelineError::Parse { url: String::from_str(source_url) });
        },
        Ok(None) => {
            return Err(
                PipelineError::Metadata {
                    field: String::from_str("url"),
                    url: String::from_str(source_url),
                },
            );
        },
        Ok(Some(u)) => u,
    };
    let title_field = match json_string_at_path2(doc, "audio", "title") {
        Err(_) => {
            return Err(PipelineError::Parse { url: String::from_str(source_url) });
        },
        Ok(None) => {
            return Err(
                PipelineError::Metadata {
                    field: String::from_str("title"),
                    url: String::from_str(source_url),
                },
            );
        },
        Ok(Some(t)) => t,
    };
    Ok(AudioMetadata { url: url_field, title: title_field })
}

} // verus!
