use necd_core::launcher::{
    default_download_directory, install_report, launch_env, resolve_executable, PathCandidate,
};
use necd_core::text::trimmed;

fn cand(path: &str, exists: bool) -> PathCandidate {
    PathCandidate { path: path.to_string(), exists }
}

#[test]
fn first_existing_candidate_wins() {
    let cands = vec![
        cand("/home/u/.pyenv/shims/yt-dlp", false),
        cand("/opt/homebrew/bin/yt-dlp", true),
        cand("/usr/local/bin/yt-dlp", true),
    ];
    let r = resolve_executable(&cands, &Some("/elsewhere/yt-dlp\n".to_string()));
    assert_eq!(r, "/opt/homebrew/bin/yt-dlp");
}

#[test]
fn which_output_is_trimmed_fallback() {
    let cands = vec![cand("/opt/homebrew/bin/yt-dlp", false)];
    let r = resolve_executable(&cands, &Some("  /usr/bin/yt-dlp\n".to_string()));
    assert_eq!(r, "/usr/bin/yt-dlp");
}

#[test]
fn blank_which_output_degrades_to_bare_name() {
    let r = resolve_executable(&vec![], &Some("   \n".to_string()));
    assert_eq!(r, "yt-dlp");
}

#[test]
fn no_candidates_and_no_lookup_degrades_to_bare_name() {
    let r = resolve_executable(&vec![], &None);
    assert_eq!(r, "yt-dlp");
}

#[test]
fn launch_env_sets_utf8_decoding() {
    let base = launch_env(false);
    assert_eq!(base.len(), 2);
    assert_eq!(base[0].name, "PYTHONIOENCODING");
    assert_eq!(base[0].value, "utf-8");
    assert_eq!(base[1].name, "PYTHONLEGACYWINDOWSSTDIO");
    assert_eq!(base[1].value, "utf-8");
    let win = launch_env(true);
    assert_eq!(win.len(), 3);
    assert_eq!(win[2].name, "PYTHONUTF8");
    assert_eq!(win[2].value, "1");
}

#[test]
fn default_directory_under_profile() {
    assert_eq!(
        default_download_directory(Some("C:\\Users\\mimi".to_string()), true),
        "C:\\Users\\mimi\\Downloads"
    );
    assert_eq!(
        default_download_directory(Some("/home/mimi".to_string()), false),
        "/home/mimi/Downloads"
    );
    assert_eq!(default_download_directory(None, false), ".");
    assert_eq!(default_download_directory(None, true), ".");
}

#[test]
fn install_report_cases() {
    assert_eq!(
        install_report(None, true, "", false).unwrap(),
        "yt-dlpのインストールが完了しました"
    );
    assert_eq!(
        install_report(None, false, "network unreachable", false).unwrap_err(),
        "yt-dlpのインストールに失敗しました: network unreachable"
    );
    assert_eq!(
        install_report(Some("program not found".to_string()), false, "", true).unwrap_err(),
        "pipコマンドの実行に失敗しました: program not found"
    );
    assert_eq!(
        install_report(Some("program not found".to_string()), false, "", false).unwrap_err(),
        "インストールスクリプトの実行に失敗しました: program not found"
    );
}

#[test]
fn trimming_removes_unicode_whitespace() {
    assert_eq!(trimmed("  clipboard text \t\n"), "clipboard text");
    assert_eq!(trimmed("\u{3000}道\u{00A0}"), "道");
    assert_eq!(trimmed("   "), "");
    assert_eq!(trimmed(""), "");
}
