use necd_core::title::{title_from_output, title_spawn_failure_message};

#[test]
fn title_of_valid_document() {
    let out = br#"{"title": "A Video Title", "id": "abc123"}"#;
    let r = title_from_output(true, out, "");
    assert_eq!(r.unwrap(), "A Video Title");
}

#[test]
fn missing_title_field() {
    let out = br#"{"id": "abc123"}"#;
    let r = title_from_output(true, out, "");
    assert_eq!(r.unwrap_err(), "タイトルが取得できませんでした");
}

#[test]
fn non_string_title_field() {
    let out = br#"{"title": 42}"#;
    let r = title_from_output(true, out, "");
    assert_eq!(r.unwrap_err(), "タイトルが取得できませんでした");
}

#[test]
fn malformed_document() {
    let out = b"not json at all";
    let r = title_from_output(true, out, "");
    let m = r.unwrap_err();
    assert!(m.starts_with("JSONパースエラー: "));
    assert!(m.len() > "JSONパースエラー: ".len());
}

#[test]
fn spawn_failure_message_keeps_detail_verbatim() {
    assert_eq!(
        title_spawn_failure_message("No such file or directory"),
        "yt-dlp実行エラー: No such file or directory"
    );
}

#[test]
fn failed_tool_run_reports_stderr() {
    let r = title_from_output(false, b"", "ERROR: unsupported URL");
    assert_eq!(r.unwrap_err(), "yt-dlpエラー: ERROR: unsupported URL");
}
