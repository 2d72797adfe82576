use audiofetch::extract::extract_options;

#[test]
fn test_extract_options() {
    let html = r#"<rps-play-with-labels options='{"url": "audio/2015/06/I-tre-moschettieri---Lettura-I-2c45793e-a289-42a8-97ae-656a2a94a71f.json"}'></rps-play-with-labels>"#;
    let options = extract_options(html).unwrap();
    assert_eq!(options.len(), 1);
    assert_eq!(
        options[0],
        "audio/2015/06/I-tre-moschettieri---Lettura-I-2c45793e-a289-42a8-97ae-656a2a94a71f.json"
    );
}

#[test]
fn extract_single_element_literal() {
    let html = r#"<rps-play-with-labels options='{"url": "audio/x.json"}'></rps-play-with-labels>"#;
    let options = extract_options(html).unwrap();
    assert_eq!(options, vec!["audio/x.json".to_string()]);
}

#[test]
fn extract_no_matching_elements_yields_empty() {
    let html = "<html><body><p>nothing to play here</p></body></html>";
    let options = extract_options(html).unwrap();
    assert!(options.is_empty());
}

#[test]
fn extract_keeps_document_order_and_duplicates() {
    let html = r#"<rps-play-with-labels options='{"url": "audio/a.json"}'></rps-play-with-labels><rps-play-with-labels options='{"url": "audio/b.json"}'></rps-play-with-labels><rps-play-with-labels options='{"url": "audio/a.json"}'></rps-play-with-labels>"#;
    let options = extract_options(html).unwrap();
    assert_eq!(
        options,
        vec![
            "audio/a.json".to_string(),
            "audio/b.json".to_string(),
            "audio/a.json".to_string()
        ]
    );
}

#[test]
fn extract_skips_elements_without_options_or_url() {
    let html = r#"<rps-play-with-labels></rps-play-with-labels><rps-play-with-labels options='{"label": "no url here"}'></rps-play-with-labels><rps-play-with-labels options='{"url": "audio/only.json"}'></rps-play-with-labels>"#;
    let options = extract_options(html).unwrap();
    assert_eq!(options, vec!["audio/only.json".to_string()]);
}

#[test]
fn extract_malformed_options_json_is_fatal() {
    let html = r#"<rps-play-with-labels options='{"url": "audio/good.json"}'></rps-play-with-labels><rps-play-with-labels options='not json at all'></rps-play-with-labels>"#;
    assert!(extract_options(html).is_none());
}

#[test]
fn extract_non_string_url_is_fatal() {
    let html = r#"<rps-play-with-labels options='{"url": 17}'></rps-play-with-labels>"#;
    assert!(extract_options(html).is_none());
}
