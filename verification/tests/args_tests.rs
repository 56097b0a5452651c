use necd_core::args::compile_download_args;
use necd_core::options::DownloadOptions;

fn base_options() -> DownloadOptions {
    DownloadOptions {
        url: "https://example.com/watch?v=abc".to_string(),
        format: "mp4".to_string(),
        quality: "auto".to_string(),
        output_directory: "/tmp/out".to_string(),
        cookie_source: "none".to_string(),
        cookie_file_path: None,
        concurrent_connections: "".to_string(),
        playlist_mode: false,
        thumbnail_embed: false,
        thumbnail_crop: false,
        chapter_embed: false,
        compatibility_mode: false,
        hdr_mode: false,
    }
}

fn count(args: &[String], x: &str) -> usize {
    args.iter().filter(|a| a.as_str() == x).count()
}

#[test]
fn prefix_block_is_fixed() {
    let args = compile_download_args(&base_options());
    let expected_prefix = vec![
        "--newline",
        "https://example.com/watch?v=abc",
        "--embed-metadata",
        "--add-metadata",
        "--default-search",
        "ytsearch",
        "--progress-template",
        "[DOWNLOADING]:%(progress._percent_str)s",
        "--add-header",
        "Accept-Language:ja-JP",
        "--extractor-args",
        "youtube:lang=ja",
        "--no-warnings",
        "--encoding",
        "utf-8",
    ];
    assert_eq!(&args[..15], &expected_prefix[..]);
}

#[test]
fn exactly_one_output_path_argument() {
    let mut o = base_options();
    let args = compile_download_args(&o);
    assert_eq!(count(&args, "-o"), 1);
    assert_eq!(count(&args, "--merge-output-format"), 1);

    o.format = "flac".to_string();
    o.hdr_mode = true;
    o.chapter_embed = true;
    o.playlist_mode = true;
    o.thumbnail_embed = true;
    o.thumbnail_crop = true;
    let args = compile_download_args(&o);
    assert_eq!(count(&args, "-o"), 1);
    assert_eq!(count(&args, "--merge-output-format"), 0);
}

#[test]
fn mp4_auto_plain_full_vector() {
    let args = compile_download_args(&base_options());
    let expected = vec![
        "--newline",
        "https://example.com/watch?v=abc",
        "--embed-metadata",
        "--add-metadata",
        "--default-search",
        "ytsearch",
        "--progress-template",
        "[DOWNLOADING]:%(progress._percent_str)s",
        "--add-header",
        "Accept-Language:ja-JP",
        "--extractor-args",
        "youtube:lang=ja",
        "--no-warnings",
        "--encoding",
        "utf-8",
        "--merge-output-format",
        "mp4",
        "-f",
        "bestvideo+bestaudio[ext=m4a]/best",
        "-o",
        "/tmp/out/%(title).100s.%(ext)s",
    ];
    assert_eq!(args, expected);
}

#[test]
fn mp4_bounded_compat_selector() {
    let mut o = base_options();
    o.quality = "1080".to_string();
    o.compatibility_mode = true;
    let args = compile_download_args(&o);
    let i = args.iter().position(|a| a == "-f").unwrap();
    assert_eq!(
        args[i + 1],
        "bestvideo[height<=1080][vcodec^=avc1]+bestaudio[ext=m4a]/best[height<=1080][vcodec^=avc1]/best[height<=1080]"
    );
}

#[test]
fn mkv_bounded_plain_selector() {
    let mut o = base_options();
    o.format = "mkv".to_string();
    o.quality = "720".to_string();
    let args = compile_download_args(&o);
    assert_eq!(count(&args, "--merge-output-format"), 1);
    let i = args.iter().position(|a| a == "--merge-output-format").unwrap();
    assert_eq!(args[i + 1], "mkv");
    let f = args.iter().position(|a| a == "-f").unwrap();
    assert_eq!(args[f + 1], "bestvideo[height<=720]+bestaudio[ext=m4a]/best[height<=720]");
}

#[test]
fn auto_compat_selector_filters_video_not_audio() {
    let mut o = base_options();
    o.compatibility_mode = true;
    let args = compile_download_args(&o);
    let f = args.iter().position(|a| a == "-f").unwrap();
    let sel = &args[f + 1];
    assert_eq!(sel, "bestvideo[vcodec^=avc1]+bestaudio[ext=m4a]/best[vcodec^=avc1]/best");
    assert!(sel.starts_with("bestvideo[vcodec^=avc1]"));
    assert!(sel.contains("+bestaudio[ext=m4a]/"));
    assert!(!sel.contains("bestaudio[ext=m4a][vcodec^=avc1]"));
}

#[test]
fn mp3_with_quality_bound() {
    let mut o = base_options();
    o.format = "mp3".to_string();
    o.quality = "192".to_string();
    let args = compile_download_args(&o);
    let tail: Vec<&str> = args[15..].iter().map(|s| s.as_str()).collect();
    assert_eq!(
        tail,
        vec![
            "-f",
            "bestaudio",
            "-x",
            "--audio-format",
            "mp3",
            "--audio-quality",
            "192",
            "-o",
            "/tmp/out/%(title).100s.%(ext)s",
        ]
    );
}

#[test]
fn mp3_auto_uses_best_quality_sentinel() {
    let mut o = base_options();
    o.format = "mp3".to_string();
    let args = compile_download_args(&o);
    let q = args.iter().position(|a| a == "--audio-quality").unwrap();
    assert_eq!(args[q + 1], "0");
}

#[test]
fn unknown_format_extracts_audio_verbatim() {
    let mut o = base_options();
    o.format = "flac".to_string();
    o.quality = "320".to_string();
    let args = compile_download_args(&o);
    let tail: Vec<&str> = args[15..].iter().map(|s| s.as_str()).collect();
    assert_eq!(
        tail,
        vec![
            "-f",
            "bestaudio",
            "-x",
            "--audio-format",
            "flac",
            "--audio-quality",
            "0",
            "-o",
            "/tmp/out/%(title).100s.%(ext)s",
        ]
    );
}

#[test]
fn cookie_file_with_path() {
    let mut o = base_options();
    o.cookie_source = "file".to_string();
    o.cookie_file_path = Some("/home/u/cookies.txt".to_string());
    let args = compile_download_args(&o);
    let i = args.iter().position(|a| a == "--cookies").unwrap();
    assert_eq!(args[i + 1], "/home/u/cookies.txt");
}

#[test]
fn cookie_file_without_path_emits_nothing() {
    let mut o = base_options();
    o.cookie_source = "file".to_string();
    o.cookie_file_path = None;
    let args = compile_download_args(&o);
    assert!(!args.iter().any(|a| a == "--cookies"));
    assert!(!args.iter().any(|a| a == "--cookies-from-browser"));
    let mut none = base_options();
    none.cookie_source = "none".to_string();
    assert_eq!(args, compile_download_args(&none));
}

#[test]
fn cookie_firefox_names_the_browser() {
    let mut o = base_options();
    o.cookie_source = "firefox".to_string();
    let args = compile_download_args(&o);
    let i = args.iter().position(|a| a == "--cookies-from-browser").unwrap();
    assert_eq!(args[i + 1], "firefox");
}

#[test]
fn crop_without_embed_is_ignored() {
    let mut o = base_options();
    o.thumbnail_embed = false;
    o.thumbnail_crop = true;
    let args = compile_download_args(&o);
    assert!(!args.iter().any(|a| a == "--ppa"));
    assert!(!args.iter().any(|a| a.contains("crop")));
    let mut plain = base_options();
    plain.thumbnail_crop = false;
    assert_eq!(args, compile_download_args(&plain));
}

#[test]
fn thumbnail_embed_with_crop() {
    let mut o = base_options();
    o.thumbnail_embed = true;
    o.thumbnail_crop = true;
    let args = compile_download_args(&o);
    let i = args.iter().position(|a| a == "--embed-thumbnail").unwrap();
    assert_eq!(args[i + 1], "--convert-thumbnails");
    assert_eq!(args[i + 2], "jpg");
    assert_eq!(args[i + 3], "--ppa");
    assert_eq!(
        args[i + 4],
        "ThumbnailsConvertor:-qmin 1 -q:v 1 -vf crop=\"'if(gt(ih,iw),iw,ih)':'if(gt(iw,ih),ih,iw)'\""
    );
}

#[test]
fn hdr_mode_adds_format_sort() {
    let mut o = base_options();
    o.hdr_mode = true;
    let args = compile_download_args(&o);
    let i = args.iter().position(|a| a == "--format-sort").unwrap();
    assert_eq!(args[i + 1], "hdr,res,codec,ext,size");
}

#[test]
fn chapter_flags_travel_together() {
    let mut o = base_options();
    o.chapter_embed = true;
    let args = compile_download_args(&o);
    let i = args.iter().position(|a| a == "--embed-chapters").unwrap();
    assert_eq!(args[i + 1], "--add-chapters");
}

#[test]
fn concurrency_passed_verbatim_or_dropped() {
    let mut o = base_options();
    o.concurrent_connections = "5".to_string();
    let args = compile_download_args(&o);
    let i = args.iter().position(|a| a == "-N").unwrap();
    assert_eq!(args[i + 1], "5");

    o.concurrent_connections = "0".to_string();
    assert!(!compile_download_args(&o).iter().any(|a| a == "-N"));
    o.concurrent_connections = "".to_string();
    assert!(!compile_download_args(&o).iter().any(|a| a == "-N"));
    o.concurrent_connections = "abc".to_string();
    let args = compile_download_args(&o);
    let i = args.iter().position(|a| a == "-N").unwrap();
    assert_eq!(args[i + 1], "abc");
}

#[test]
fn playlist_output_template() {
    let mut o = base_options();
    o.playlist_mode = true;
    let args = compile_download_args(&o);
    let i = args.iter().position(|a| a == "-o").unwrap();
    assert_eq!(
        args[i + 1],
        "/tmp/out/%(playlist_title)s/%(playlist_index)03d_%(title).100s.%(ext)s"
    );
}
