use localforge::models::download::{
    download_ok, range_header, range_request, resume_decision, resumed_total, starting_offset, ResumeDecision,
};
use localforge::error::LocalForgeError;
use localforge::models::huggingface::{
    download_url, gguf_files, gguf_files_from_body, repo_info_url, search_result_from,
    search_results_from_body, search_url,
};

#[test]
fn resume_decisions() {
    assert_eq!(resume_decision(206, 1000), ResumeDecision::Continue);
    assert_eq!(resume_decision(200, 1000), ResumeDecision::Restart);
    assert_eq!(resume_decision(200, 0), ResumeDecision::Continue);
    assert_eq!(resume_decision(404, 0), ResumeDecision::Fail);
    assert_eq!(resume_decision(416, 1000), ResumeDecision::Fail);
    assert_eq!(starting_offset(ResumeDecision::Restart, 1000), 0);
    assert_eq!(starting_offset(ResumeDecision::Continue, 1000), 1000);
    assert!(download_ok(204));
    assert!(!download_ok(302));
}

#[test]
fn range_and_totals() {
    assert_eq!(range_header(12345), "bytes=12345-");
    assert_eq!(range_header(0), "bytes=0-");
    assert_eq!(resumed_total(ResumeDecision::Continue, Some(500), 100), Some(600));
    assert_eq!(resumed_total(ResumeDecision::Continue, None, 100), None);
    // the server ignored the range: the whole file is sent again
    assert_eq!(resumed_total(ResumeDecision::Restart, Some(500), 100), Some(500));
    assert_eq!(resumed_total(ResumeDecision::Fail, Some(500), 100), None);
}

#[test]
fn huggingface_urls() {
    assert_eq!(
        search_url("qwen"),
        "https://huggingface.co/api/models?search=qwen&filter=gguf&sort=downloads&direction=-1&limit=20"
    );
    assert_eq!(repo_info_url("a/b"), "https://huggingface.co/api/models/a/b");
    assert_eq!(
        download_url("a/b", "m.gguf"),
        "https://huggingface.co/a/b/resolve/main/m.gguf"
    );
}

#[test]
fn only_gguf_files_in_order() {
    let names: Vec<String> =
        vec!["README.md".into(), "a.gguf".into(), "b.bin".into(), "c.gguf".into()];
    assert_eq!(gguf_files(&names), vec!["a.gguf", "c.gguf"]);
    assert!(gguf_files(&[]).is_empty());
}

#[test]
fn search_hits() {
    let r = search_result_from(Some("org/model".into()), Some(Some(42))).unwrap();
    assert_eq!(r.id, "org/model");
    assert_eq!(r.downloads, 42);
    assert_eq!(search_result_from(Some("x".into()), Some(None)).unwrap().downloads, 0);
    assert!(search_result_from(None, Some(Some(1))).is_none());
    assert!(search_result_from(Some("x".into()), None).is_none());
}

#[test]
fn search_answer_parsing() {
    let body = r#"[{"id":"a/b-GGUF","downloads":12},{"id":"c/d","downloads":"x"},{"downloads":3},{"id":"e/f"}]"#;
    let hits = search_results_from_body(body);
    assert_eq!(hits.len(), 2);
    assert_eq!(hits[0].id, "a/b-GGUF");
    assert_eq!(hits[0].downloads, 12);
    assert_eq!(hits[1].id, "c/d");
    assert_eq!(hits[1].downloads, 0);
    assert!(search_results_from_body("not json").is_empty());
    assert!(search_results_from_body(r#"{"id":"x"}"#).is_empty());
}

#[test]
fn repo_answer_parsing() {
    let body = r#"{"siblings":[{"rfilename":"README.md"},{"rfilename":"m-Q4_K_M.gguf"},{"size":1},{"rfilename":"m-Q8_0.gguf"}]}"#;
    assert_eq!(gguf_files_from_body(body).unwrap(), vec!["m-Q4_K_M.gguf", "m-Q8_0.gguf"]);
    assert!(gguf_files_from_body(r#"{"id":"x"}"#).unwrap().is_empty());
    assert!(matches!(gguf_files_from_body("{oops"), Err(LocalForgeError::Serialization(_))));
}

#[test]
fn range_only_when_resuming() {
    assert_eq!(range_request(0), None);
    assert_eq!(range_request(1000), Some("bytes=1000-".to_string()));
    assert_eq!(range_request(1), Some(range_header(1)));
}
