use audiofetch::errors::PipelineError;
use audiofetch::metadata::full_metadata_url;
use audiofetch::metadata::resolve_metadata;

const SOURCE: &str =
    "https://www.raiplaysound.it/audio/2015/06/I-tre-moschettieri---Lettura-I-2c45793e-a289-42a8-97ae-656a2a94a71f.json";

#[test]
fn resolve_reads_url_and_title() {
    let doc = r#"
    {
        "audio": {
            "title": "I tre moschettieri - Lettura I",
            "url": "https://mediapolisvod.rai.it/relinker/relinkerServlet.htm?cont=jmC2BrdAhSIeeqqEEqual",
            "type": "audio",
            "duration": "00:19:15"
        }
    }
    "#;
    let metadata = resolve_metadata(doc, SOURCE).unwrap();
    assert_eq!(
        metadata.url,
        "https://mediapolisvod.rai.it/relinker/relinkerServlet.htm?cont=jmC2BrdAhSIeeqqEEqual"
    );
    assert_eq!(metadata.title, "I tre moschettieri - Lettura I");
}

#[test]
fn resolve_fails_naming_missing_title() {
    let doc = r#"{"audio": {"url": "https://stream.example/a.mp3"}}"#;
    match resolve_metadata(doc, SOURCE) {
        Err(PipelineError::Metadata { field, url }) => {
            assert_eq!(field, "title");
            assert_eq!(url, SOURCE);
        }
        other => panic!("expected a metadata error naming `title`, got {:?}", other),
    }
}

#[test]
fn resolve_fails_naming_missing_url() {
    let doc = r#"{"audio": {"title": "only a title"}}"#;
    match resolve_metadata(doc, SOURCE) {
        Err(PipelineError::Metadata { field, url }) => {
            assert_eq!(field, "url");
            assert_eq!(url, SOURCE);
        }
        other => panic!("expected a metadata error naming `url`, got {:?}", other),
    }
}

#[test]
fn resolve_rejects_non_string_field() {
    let doc = r#"{"audio": {"url": "https://stream.example/a.mp3", "title": 7}}"#;
    match resolve_metadata(doc, SOURCE) {
        Err(PipelineError::Metadata { field, .. }) => assert_eq!(field, "title"),
        other => panic!("expected a metadata error naming `title`, got {:?}", other),
    }
}

#[test]
fn resolve_rejects_malformed_json() {
    match resolve_metadata("{ not json", SOURCE) {
        Err(PipelineError::Parse { url }) => assert_eq!(url, SOURCE),
        other => panic!("expected a parse error, got {:?}", other),
    }
}

#[test]
fn full_url_prefixes_the_base() {
    assert_eq!(
        full_metadata_url("https://www.raiplaysound.it", "/audio/2015/06/x.json"),
        "https://www.raiplaysound.it/audio/2015/06/x.json"
    );
}
