use necd_core::settings::{default_settings, settings_or_default, Settings};

#[test]
fn defaults_are_the_documented_object() {
    let s = default_settings();
    assert_eq!(s.output_directory, "");
    assert_eq!(s.format, "mp4");
    assert_eq!(s.quality, "auto");
    assert_eq!(s.cookie_source, "none");
    assert_eq!(s.cookie_file_path, "");
    assert_eq!(s.concurrent_connections, "3");
    assert!(!s.chapter_embed);
    assert!(!s.playlist_mode);
    assert!(!s.thumbnail_embed);
    assert!(!s.thumbnail_crop);
    assert!(!s.compatibility_mode);
    assert!(!s.hdr_mode);
}

#[test]
fn loading_without_a_stored_file_is_idempotent() {
    let first = settings_or_default(None);
    let second = settings_or_default(None);
    assert_eq!(first, second);
    assert_eq!(first, default_settings());
}

#[test]
fn stored_settings_are_returned_unchanged() {
    let stored = Settings {
        output_directory: "/data".to_string(),
        format: "mkv".to_string(),
        quality: "720".to_string(),
        cookie_source: "firefox".to_string(),
        cookie_file_path: "".to_string(),
        concurrent_connections: "8".to_string(),
        chapter_embed: true,
        playlist_mode: false,
        thumbnail_embed: true,
        thumbnail_crop: true,
        compatibility_mode: false,
        hdr_mode: true,
    };
    let r = settings_or_default(Some(stored.clone()));
    assert_eq!(r, stored);
}
