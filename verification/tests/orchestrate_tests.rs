use necd_core::orchestrate::{
    final_log, final_outcome, launch_failure_message, log_for_line, run_transcript, stream_logs,
};

#[test]
fn log_for_line_carries_progress() {
    let ev = log_for_line("[DOWNLOADING]:  50.0%".to_string(), false);
    assert_eq!(ev.message, "[DOWNLOADING]:  50.0%");
    assert!(!ev.is_error);
    assert_eq!(ev.progress, Some("50.0".to_string()));
}

#[test]
fn log_for_line_keeps_malformed_lines() {
    let ev = log_for_line("warning: something odd".to_string(), true);
    assert_eq!(ev.message, "warning: something odd");
    assert!(ev.is_error);
    assert_eq!(ev.progress, None);
}

#[test]
fn stream_order_is_preserved() {
    let lines = vec!["one".to_string(), "two".to_string(), "three".to_string()];
    let evs = stream_logs(&lines, true);
    assert_eq!(evs.len(), 3);
    for (ev, line) in evs.iter().zip(lines.iter()) {
        assert_eq!(&ev.message, line);
        assert!(ev.is_error);
    }
}

#[test]
fn successful_run_emits_events_then_one_success_outcome() {
    let stdout_lines = vec![
        "starting".to_string(),
        "[DOWNLOADING]:  50.0%".to_string(),
        "merging".to_string(),
    ];
    let stderr_lines: Vec<String> = vec![];
    let (logs, outcome) = run_transcript(None, &stdout_lines, &stderr_lines, true);
    assert!(logs.len() >= 3);
    assert_eq!(logs.len(), 4);
    assert_eq!(logs[0].message, "starting");
    assert_eq!(logs[1].message, "[DOWNLOADING]:  50.0%");
    assert_eq!(logs[1].progress, Some("50.0".to_string()));
    assert_eq!(logs[2].message, "merging");
    assert_eq!(logs[3].message, "✅ ダウンロードが完了しました");
    assert_eq!(logs[3].progress, Some("100".to_string()));
    let out = outcome.unwrap();
    assert!(!out.is_error);
    assert_eq!(out.message, "✅ 正常に完了しました");
    assert_eq!(out.progress.as_deref().map(|p| p.parse::<f64>().unwrap()), Some(1.0));
}

#[test]
fn failed_launch_emits_no_events() {
    let (logs, outcome) = run_transcript(
        Some("No such file or directory".to_string()),
        &vec![],
        &vec![],
        false,
    );
    assert_eq!(logs.len(), 0);
    assert_eq!(
        outcome.unwrap_err(),
        "コマンド実行エラー: No such file or directory"
    );
}

#[test]
fn failed_exit_is_a_normal_failure_outcome() {
    let stdout_lines = vec!["partial".to_string()];
    let stderr_lines = vec!["ERROR: no formats".to_string()];
    let (logs, outcome) = run_transcript(None, &stdout_lines, &stderr_lines, false);
    assert_eq!(logs.len(), 3);
    assert_eq!(logs[0].message, "partial");
    assert!(!logs[0].is_error);
    assert_eq!(logs[1].message, "ERROR: no formats");
    assert!(logs[1].is_error);
    assert_eq!(logs[2].message, "❌ ダウンロードに失敗しました");
    assert_eq!(logs[2].progress, Some("0".to_string()));
    assert!(logs[2].is_error);
    let out = outcome.unwrap();
    assert!(out.is_error);
    assert_eq!(out.message, "❌ エラーが発生しました");
    assert_eq!(out.progress.as_deref().map(|p| p.parse::<f64>().unwrap()), Some(0.0));
}

#[test]
fn final_events_match_the_two_scales() {
    let ok_log = final_log(true);
    assert_eq!(ok_log.progress.as_deref().map(|p| p.parse::<f64>().unwrap()), Some(100.0));
    let ok_out = final_outcome(true);
    assert_eq!(ok_out.progress.as_deref().map(|p| p.parse::<f64>().unwrap()), Some(1.0));
    let bad_log = final_log(false);
    assert_eq!(bad_log.progress.as_deref().map(|p| p.parse::<f64>().unwrap()), Some(0.0));
    let bad_out = final_outcome(false);
    assert_eq!(bad_out.progress.as_deref().map(|p| p.parse::<f64>().unwrap()), Some(0.0));
}

#[test]
fn launch_failure_message_keeps_detail_verbatim() {
    assert_eq!(
        launch_failure_message("permission denied"),
        "コマンド実行エラー: permission denied"
    );
}
