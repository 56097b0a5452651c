//! The argument compiler: from one download request to the exact, ordered
//! argument list for the external downloader.
//!
//! Compilation is a pure function and never fails: an unknown format string
//! falls back to the audio-extraction branch, a missing cookie path emits
//! no cookie arguments at all. The list always opens with a fixed prefix
//! block; in particular the progress-marker template must be reproduced
//! exactly, since the output parser recognises progress lines by it.

use vstd::prelude::*;
use crate::options::{DownloadOptions, OptionsV};
use crate::text::str_eq;

verus! {

/// The post-processing argument that crops an embedded thumbnail to a
/// square whose side is the smaller of the image's width and height.
pub open spec fn spec_crop_filter() -> Seq<char> {
    "ThumbnailsConvertor:-qmin 1 -q:v 1 -vf crop=\"'if(gt(ih,iw),iw,ih)':'if(gt(iw,ih),ih,iw)'\""@
}

/// The fixed prefix block: line-buffered output, the source itself,
/// metadata embedding, the search fallback, the progress-marker template,
/// a language preference header and extractor hint, warning suppression,
/// and forced UTF-8 output.
pub open spec fn spec_prefix_args(o: OptionsV) -> Seq<Seq<char>> {
    seq![
        "--newline"@,
        o.url,
        "--embed-metadata"@,
        "--add-metadata"@,
        "--default-search"@,
        "ytsearch"@,
        "--progress-template"@,
        "[DOWNLOADING]:%(progress._percent_str)s"@,
        "--add-header"@,
        "Accept-Language:ja-JP"@,
        "--extractor-args"@,
        "youtube:lang=ja"@,
        "--no-warnings"@,
        "--encoding"@,
        "utf-8"@,
    ]
}

/// Cookie arguments: a cookie file when one was named, Firefox's browser
/// store when asked for, and nothing otherwise — also nothing when the
/// file source was chosen but no path supplied.
pub open spec fn spec_cookie_args(o: OptionsV) -> Seq<Seq<char>> {
    if o.cookie_source == "file"@ {
        match o.cookie_file_path {
            Some(p) => seq!["--cookies"@, p],
            None => Seq::<Seq<char>>::empty(),
        }
    } else if o.cookie_source == "firefox"@ {
        seq!["--cookies-from-browser"@, "firefox"@]
    } else {
        Seq::<Seq<char>>::empty()
    }
}

/// Selector for a bounded quality without the compatibility filter:
/// best video under the bound plus best m4a audio, else best under the
/// bound.
pub open spec fn spec_bounded_selector(q: Seq<char>) -> Seq<char> {
    "bestvideo[height<="@ + q + "]+bestaudio[ext=m4a]/best[height<="@ + q + "]"@
}

/// Selector for a bounded quality in compatibility mode: the video
/// candidates additionally filtered to the avc1 codec family, with the
/// unfiltered bounded fallback appended last.
pub open spec fn spec_bounded_compat_selector(q: Seq<char>) -> Seq<char> {
    "bestvideo[height<="@ + q + "][vcodec^=avc1]+bestaudio[ext=m4a]/best[height<="@ + q
        + "][vcodec^=avc1]/best[height<="@ + q + "]"@
}

/// Selector for automatic quality without the compatibility filter.
pub open spec fn spec_auto_selector() -> Seq<char> {
    "bestvideo+bestaudio[ext=m4a]/best"@
}

/// Selector for automatic quality in compatibility mode: only the video
/// term carries the codec-family filter, the audio term stays unfiltered.
pub open spec fn spec_auto_compat_selector() -> Seq<char> {
    "bestvideo[vcodec^=avc1]+bestaudio[ext=m4a]/best[vcodec^=avc1]/best"@
}

/// The format-selector expression for a container format, as a 2x2 choice
/// over {bounded quality vs automatic} and {compatibility mode on vs off}.
pub open spec fn spec_container_selector(o: OptionsV) -> Seq<char> {
    if o.quality != "auto"@ {
        if o.compatibility_mode {
            spec_bounded_compat_selector(o.quality)
        } else {
            spec_bounded_selector(o.quality)
        }
    } else {
        if o.compatibility_mode {
            spec_auto_compat_selector()
        } else {
            spec_auto_selector()
        }
    }
}

/// Format and quality arguments. The two container formats get a merge
/// target and a selector; the named audio format extracts to mp3 with the
/// requested quality, or the best-quality sentinel `0` under automatic
/// quality; any other format string extracts audio to that format at the
/// best-quality sentinel.
pub open spec fn spec_format_args(o: OptionsV) -> Seq<Seq<char>> {
    if o.format == "mp4"@ {
        seq!["--merge-output-format"@, "mp4"@, "-f"@, spec_container_selector(o)]
    } else if o.format == "mkv"@ {
        seq!["--merge-output-format"@, "mkv"@, "-f"@, spec_container_selector(o)]
    } else if o.format == "mp3"@ {
        seq![
            "-f"@,
            "bestaudio"@,
            "-x"@,
            "--audio-format"@,
            "mp3"@,
            "--audio-quality"@,
            if o.quality != "auto"@ {
                o.quality
            } else {
                "0"@
            },
        ]
    } else {
        seq!["-f"@, "bestaudio"@, "-x"@, "--audio-format"@, o.format, "--audio-quality"@, "0"@]
    }
}

/// The HDR preference: sort candidate formats by HDR capability, then
/// resolution, codec, container and size, in that priority order.
pub open spec fn spec_hdr_args(o: OptionsV) -> Seq<Seq<char>> {
    if o.hdr_mode {
        seq!["--format-sort"@, "hdr,res,codec,ext,size"@]
    } else {
        Seq::<Seq<char>>::empty()
    }
}

/// Chapter embedding: the two chapter flags always travel together.
pub open spec fn spec_chapter_args(o: OptionsV) -> Seq<Seq<char>> {
    if o.chapter_embed {
        seq!["--embed-chapters"@, "--add-chapters"@]
    } else {
        Seq::<Seq<char>>::empty()
    }
}

/// The connection count, passed through verbatim when it is neither empty
/// nor the literal `0`; no numeric validation happens at this layer.
pub open spec fn spec_concurrency_args(o: OptionsV) -> Seq<Seq<char>> {
    if o.concurrent_connections != ""@ && o.concurrent_connections != "0"@ {
        seq!["-N"@, o.concurrent_connections]
    } else {
        Seq::<Seq<char>>::empty()
    }
}

/// The output template: under playlist mode files nest in a directory
/// named after the playlist, with a zero-padded three-digit index and the
/// title truncated to 100 characters; otherwise a flat truncated-title
/// template. The truncation length is a fixed contract with the external
/// tool's templating syntax.
pub open spec fn spec_output_template(o: OptionsV) -> Seq<char> {
    if o.playlist_mode {
        o.output_directory + "/%(playlist_title)s/%(playlist_index)03d_%(title).100s.%(ext)s"@
    } else {
        o.output_directory + "/%(title).100s.%(ext)s"@
    }
}

/// The single output-path argument pair.
pub open spec fn spec_output_args(o: OptionsV) -> Seq<Seq<char>> {
    seq!["-o"@, spec_output_template(o)]
}

/// Thumbnail arguments: embedding converts the thumbnail to jpg; the crop
/// filter is added only on top of embedding, so a crop request without
/// embedding is silently ignored.
pub open spec fn spec_thumbnail_args(o: OptionsV) -> Seq<Seq<char>> {
    if o.thumbnail_embed {
        seq!["--embed-thumbnail"@, "--convert-thumbnails"@, "jpg"@] + if o.thumbnail_crop {
            seq!["--ppa"@, spec_crop_filter()]
        } else {
            Seq::<Seq<char>>::empty()
        }
    } else {
        Seq::<Seq<char>>::empty()
    }
}

/// The whole compiled argument list, in order.
pub open spec fn spec_download_args(o: OptionsV) -> Seq<Seq<char>> {
    spec_prefix_args(o) + spec_cookie_args(o) + spec_format_args(o) + spec_hdr_args(o)
        + spec_chapter_args(o) + spec_concurrency_args(o) + spec_output_args(o)
        + spec_thumbnail_args(o)
}

/// Appends one already-built argument.
fn push_arg(args: &mut Vec<String>, s: String)
    ensures
        final(args).deep_view() == old(args).deep_view().push(s@),
{
    let ghost pre = args.deep_view();
    let ghost sv = s@;
    args.push(s);
    proof {
        assert(args.deep_view() =~= pre.push(sv));
    }
}

/// Appends one literal argument.
fn push_lit(args: &mut Vec<String>, s: &str)
    ensures
        final(args).deep_view() == old(args).deep_view().push(s@),
{
    push_arg(args, String::from_str(s));
}

fn push_prefix_args(args: &mut Vec<String>, o: &DownloadOptions)
    ensures
        final(args).deep_view() == old(args).deep_view() + spec_prefix_args(o@),
{
    let ghost pre = args.deep_view();
    push_lit(args, "--newline");
    push_arg(args, o.url.clone());
    push_lit(args, "--embed-metadata");
    push_lit(args, "--add-metadata");
    push_lit(args, "--default-search");
    push_lit(args, "ytsearch");
    push_lit(args, "--progress-template");
    push_lit(args, "[DOWNLOADING]:%(progress._percent_str)s");
    push_lit(args, "--add-header");
    push_lit(args, "Accept-Language:ja-JP");
    push_lit(args, "--extractor-args");
    push_lit(args, "youtube:lang=ja");
    push_lit(args, "--no-warnings");
    push_lit(args, "--encoding");
    push_lit(args, "utf-8");
    proof {
        assert(args.deep_view() =~= pre + spec_prefix_args(o@));
    }
}

fn push_cookie_args(args: &mut Vec<String>, o: &DownloadOptions)
    ensures
        final(args).deep_view() == old(args).deep_view() + spec_cookie_args(o@),
{
    let ghost pre = args.deep_view();
    if str_eq(o.cookie_source.as_str(), "file") {
        match &o.cookie_file_path {
            Some(p) => {
                push_lit(args, "--cookies");
                push_arg(args, p.clone());
            },
            None => {},
        }
    } else if str_eq(o.cookie_source.as_str(), "firefox") {
        push_lit(args, "--cookies-from-browser");
        push_lit(args, "firefox");
    }
    proof {
        assert(args.deep_view() =~= pre + spec_cookie_args(o@));
    }
}

/// Builds the format-selector expression for a container format.
fn container_selector(o: &DownloadOptions) -> (s: String)
    ensures
        s@ == spec_container_selector(o@),
{
    if !str_eq(o.quality.as_str(), "auto") {
        if o.compatibility_mode {
            let mut s = String::from_str("bestvideo[height<=");
            s.append(o.quality.as_str());
            s.append("][vcodec^=avc1]+bestaudio[ext=m4a]/best[height<=");
            s.append(o.quality.as_str());
            s.append("][vcodec^=avc1]/best[height<=");
            s.append(o.quality.as_str());
            s.append("]");
            s
        } else {
            let mut s = String::from_str("bestvideo[height<=");
            s.append(o.quality.as_str());
            s.append("]+bestaudio[ext=m4a]/best[height<=");
            s.append(o.quality.as_str());
            s.append("]");
            s
        }
    } else {
        if o.compatibility_mode {
            String::from_str("bestvideo[vcodec^=avc1]+bestaudio[ext=m4a]/best[vcodec^=avc1]/best")
        } else {
            String::from_str("bestvideo+bestaudio[ext=m4a]/best")
        }
    }
}

fn push_format_args(args: &mut Vec<String>, o: &DownloadOptions)
    ensures
        final(args).deep_view() == old(args).deep_view() + spec_format_args(o@),
{
    let ghost pre = args.deep_view();
    if str_eq(o.format.as_str(), "mp4") {
        push_lit(args, "--merge-output-format");
        push_lit(args, "mp4");
        push_lit(args, "-f");
        push_arg(args, container_selector(o));
    } else if str_eq(o.format.as_str(), "mkv") {
        push_lit(args, "--merge-output-format");
        push_lit(args, "mkv");
        push_lit(args, "-f");
        push_arg(args, container_selector(o));
    } else if str_eq(o.format.as_str(), "mp3") {
        push_lit(args, "-f");
        push_lit(args, "bestaudio");
        push_lit(args, "-x");
        push_lit(args, "--audio-format");
        push_lit(args, "mp3");
        push_lit(args, "--audio-quality");
        if !str_eq(o.quality.as_str(), "auto") {
            push_arg(args, o.quality.clone());
        } else {
            push_lit(args, "0");
        }
    } else {
        push_lit(args, "-f");
        push_lit(args, "bestaudio");
        push_lit(args, "-x");
        push_lit(args, "--audio-format");
        push_arg(args, o.format.clone());
        push_lit(args, "--audio-quality");
        push_lit(args, "0");
    }
    proof {
        assert(args.deep_view() =~= pre + spec_format_args(o@));
    }
}

fn push_hdr_args(args: &mut Vec<String>, o: &DownloadOptions)
    ensures
        final(args).deep_view() == old(args).deep_view() + spec_hdr_args(o@),
{
    let ghost pre = args.deep_view();
    if o.hdr_mode {
        push_lit(args, "--format-sort");
        push_lit(args, "hdr,res,codec,ext,size");
    }
    proof {
        assert(args.deep_view() =~= pre + spec_hdr_args(o@));
    }
}

fn push_chapter_args(args: &mut Vec<String>, o: &DownloadOptions)
    ensures
        final(args).deep_view() == old(args).deep_view() + spec_chapter_args(o@),
{
    let ghost pre = args.deep_view();
    if o.chapter_embed {
        push_lit(args, "--embed-chapters");
        push_lit(args, "--add-chapters");
    }
    proof {
        assert(args.deep_view() =~= pre + spec_chapter_args(o@));
    }
}

fn push_concurrency_args(args: &mut Vec<String>, o: &DownloadOptions)
    ensures
        final(args).deep_view() == old(args).deep_view() + spec_concurrency_args(o@),
{
    let ghost pre = args.deep_view();
    if !str_eq(o.concurrent_connections.as_str(), "") && !str_eq(
        o.concurrent_connections.as_str(),
        "0",
    ) {
        push_lit(args, "-N");
        push_arg(args, o.concurrent_connections.clone());
    }
    proof {
        assert(args.deep_view() =~= pre + spec_concurrency_args(o@));
    }
}

/// Builds the output template for the chosen directory and playlist mode.
fn output_template(o: &DownloadOptions) -> (t: String)
    ensures
        t@ == spec_output_template(o@),
{
    let mut t = o.output_directory.clone();
    if o.playlist_mode {
        t.append("/%(playlist_title)s/%(playlist_index)03d_%(title).100s.%(ext)s");
    } else {
        t.append("/%(title).100s.%(ext)s");
    }
    t
}

fn push_output_args(args: &mut Vec<String>, o: &DownloadOptions)
    ensures
        final(args).deep_view() == old(args).deep_view() + spec_output_args(o@),
{
    let ghost pre = args.deep_view();
    push_lit(args, "-o");
    push_arg(args, output_template(o));
    proof {
        assert(args.deep_view() =~= pre + spec_output_args(o@));
    }
}

fn push_thumbnail_args(args: &mut Vec<String>, o: &DownloadOptions)
    ensures
        final(args).deep_view() == old(args).deep_view() + spec_thumbnail_args(o@),
{
    let ghost pre = args.deep_view();
    if o.thumbnail_embed {
        push_lit(args, "--embed-thumbnail");
        push_lit(args, "--convert-thumbnails");
        push_lit(args, "jpg");
        if o.thumbnail_crop {
            push_lit(args, "--ppa");
            push_lit(
                args,
                "ThumbnailsConvertor:-qmin 1 -q:v 1 -vf crop=\"'if(gt(ih,iw),iw,ih)':'if(gt(iw,ih),ih,iw)'\"",
            );
        }
    }
    proof {
        assert(args.deep_view() =~= pre + spec_thumbnail_args(o@));
    }
}

/// Compiles one download request into the complete argument list for the
/// external tool. Deterministic, side-effect free, and total: every
/// request, including one with an unknown format string or a missing
/// cookie path, compiles to a well-defined list.
pub fn compile_download_args(o: &DownloadOptions) -> (args: Vec<String>)
    ensures
        args.deep_view() == spec_download_args(o@),
{
    let mut args: Vec<String> = Vec::new();
    proof {
        assert(args.deep_view() =~= Seq::<Seq<char>>::empty());
    }
    push_prefix_args(&mut args, o);
    push_cookie_args(&mut args, o);
    push_format_args(&mut args, o);
    push_hdr_args(&mut args, o);
    push_chapter_args(&mut args, o);
    push_concurrency_args(&mut args, o);
    push_output_args(&mut args, o);
    push_thumbnail_args(&mut args, o);
    proof {
        assert(args.deep_view() =~= spec_download_args(o@));
    }
    args
}

/// Law: a crop request without thumbnail embedding is silently ignored —
/// the compiled arguments are exactly those of the same request with the
/// crop flag cleared, so no crop filter argument can appear.
pub proof fn lemma_crop_ignored_without_embed(o: OptionsV)
    requires
        !o.thumbnail_embed,
    ensures
        spec_thumbnail_args(o) == Seq::<Seq<char>>::empty(),
        spec_download_args(o) == spec_download_args(OptionsV { thumbnail_crop: false, ..o }),
{
    let o2 = OptionsV { thumbnail_crop: false, ..o };
    assert(spec_prefix_args(o) =~= spec_prefix_args(o2));
    assert(spec_cookie_args(o) =~= spec_cookie_args(o2));
    assert(spec_format_args(o) =~= spec_format_args(o2));
    assert(spec_hdr_args(o) =~= spec_hdr_args(o2));
    assert(spec_chapter_args(o) =~= spec_chapter_args(o2));
    assert(spec_concurrency_args(o) =~= spec_concurrency_args(o2));
    assert(spec_output_args(o) =~= spec_output_args(o2));
    assert(spec_thumbnail_args(o) =~= spec_thumbnail_args(o2));
}

/// Law: a file cookie source without a cookie path emits no cookie
/// arguments at all — neither an error nor a panic; the compiled list is
/// the same as with no cookie request, the cookie segment being empty.
pub proof fn lemma_missing_cookie_path_is_no_cookie(o: OptionsV)
    requires
        o.cookie_source == "file"@,
        o.cookie_file_path is None,
    ensures
        spec_cookie_args(o) == Seq::<Seq<char>>::empty(),
        spec_download_args(o) == spec_prefix_args(o) + spec_format_args(o) + spec_hdr_args(o)
            + spec_chapter_args(o) + spec_concurrency_args(o) + spec_output_args(o)
            + spec_thumbnail_args(o),
{
    assert(spec_download_args(o) =~= spec_prefix_args(o) + spec_format_args(o) + spec_hdr_args(o)
        + spec_chapter_args(o) + spec_concurrency_args(o) + spec_output_args(o)
        + spec_thumbnail_args(o));
}

/// Law: under automatic quality with compatibility mode, a container
/// format's selector is the fixed expression whose video term carries the
/// codec-family filter immediately after it, and whose audio term is the
/// bare `bestaudio[ext=m4a]`, ended by the alternative separator with no
/// filter of its own; the codec filter occurs nowhere inside the audio
/// term.
pub proof fn lemma_auto_compat_selector_shape(o: OptionsV)
    requires
        o.format == "mp4"@ || o.format == "mkv"@,
        o.quality == "auto"@,
        o.compatibility_mode,
    ensures
        spec_format_args(o)[3] == spec_auto_compat_selector(),
        spec_auto_compat_selector().subrange(0, 9) == "bestvideo"@,
        spec_auto_compat_selector().subrange(9, 23) == "[vcodec^=avc1]"@,
        spec_auto_compat_selector().subrange(24, 43) == "bestaudio[ext=m4a]/"@,
        forall|i: int|
            24 <= i && i + 14 <= 43 ==> #[trigger] spec_auto_compat_selector().subrange(i, i + 14)
                != "[vcodec^=avc1]"@,
{
    reveal_strlit("bestvideo[vcodec^=avc1]+bestaudio[ext=m4a]/best[vcodec^=avc1]/best");
    reveal_strlit("bestvideo");
    reveal_strlit("[vcodec^=avc1]");
    reveal_strlit("bestaudio[ext=m4a]/");
    let sel = spec_auto_compat_selector();
    assert(sel.subrange(0, 9) =~= "bestvideo"@);
    assert(sel.subrange(9, 23) =~= "[vcodec^=avc1]"@);
    assert(sel.subrange(24, 43) =~= "bestaudio[ext=m4a]/"@);
    assert forall|i: int| 24 <= i && i + 14 <= 43 implies #[trigger] sel.subrange(i, i + 14)
        != "[vcodec^=avc1]"@ by {
        assert(sel.subrange(i, i + 14)[0] == sel[i]);
        assert(sel[i] != '[');
    }
}


/// Law: the progress template handed to the external tool opens with the
/// exact marker the output parser recognises, character for character, so
/// every progress line the template produces is one the parser accepts.
pub proof fn lemma_template_matches_parser_marker(o: OptionsV)
    ensures
        spec_prefix_args(o)[7].subrange(0, 14) == crate::progress::spec_marker(),
{
    reveal_strlit("[DOWNLOADING]:%(progress._percent_str)s");
    reveal_strlit("[DOWNLOADING]:");
    assert(spec_prefix_args(o)[7].subrange(0, 14) =~= crate::progress::spec_marker());
}

/// How many of the arguments are exactly `x`.
pub open spec fn count_matches(s: Seq<Seq<char>>, x: Seq<char>) -> nat
    decreases s.len(),
{
    if s.len() == 0 {
        0
    } else {
        count_matches(s.drop_last(), x) + if s.last() == x {
            1nat
        } else {
            0nat
        }
    }
}

proof fn lemma_count_concat(a: Seq<Seq<char>>, b: Seq<Seq<char>>, x: Seq<char>)
    ensures
        count_matches(a + b, x) == count_matches(a, x) + count_matches(b, x),
    decreases b.len(),
{
    if b.len() == 0 {
        assert(a + b =~= a);
    } else {
        lemma_count_concat(a, b.drop_last(), x);
        assert((a + b).drop_last() =~= a + b.drop_last());
        assert((a + b).last() == b.last());
    }
}

proof fn lemma_count_none(s: Seq<Seq<char>>, x: Seq<char>)
    requires
        forall|i: int| 0 <= i < s.len() ==> s[i] != x,
    ensures
        count_matches(s, x) == 0,
    decreases s.len(),
{
    if s.len() > 0 {
        lemma_count_none(s.drop_last(), x);
    }
}

proof fn lemma_count_single(s: Seq<Seq<char>>, x: Seq<char>, k: int)
    requires
        0 <= k < s.len(),
        s[k] == x,
        forall|i: int| 0 <= i < s.len() && i != k ==> s[i] != x,
    ensures
        count_matches(s, x) == 1,
    decreases s.len(),
{
    if k == s.len() - 1 {
        lemma_count_none(s.drop_last(), x);
    } else {
        lemma_count_single(s.drop_last(), x, k);
    }
}

/// Two sequences that differ at one index differ.
proof fn lemma_ne_at(a: Seq<char>, b: Seq<char>, i: int)
    requires
        a[i] != b[i],
    ensures
        a != b,
{
}

/// The request's free strings stay clear of the two flag literals whose
/// multiplicity the shape law counts, on exactly the branches where each
/// of them becomes an argument of its own. A request whose source,
/// connection count, audio format, audio quality or used cookie path is
/// itself one of those flag strings would add a literal collision to the
/// count.
pub open spec fn no_flag_collisions(o: OptionsV) -> bool {
    o.url != "-o"@ && o.url != "--merge-output-format"@ && o.format != "-o"@ && o.format
        != "--merge-output-format"@ && o.concurrent_connections != "-o"@
        && o.concurrent_connections != "--merge-output-format"@ && (o.format == "mp3"@
        ==> o.quality != "-o"@ && o.quality != "--merge-output-format"@) && (o.cookie_source
        == "file"@ ==> match o.cookie_file_path {
        Some(p) => p != "-o"@ && p != "--merge-output-format"@,
        None => true,
    })
}

proof fn lemma_prefix_counts(o: OptionsV)
    requires
        no_flag_collisions(o),
    ensures
        count_matches(spec_prefix_args(o), "-o"@) == 0,
        count_matches(spec_prefix_args(o), "--merge-output-format"@) == 0,
{
    reveal_strlit("-o");
    reveal_strlit("--merge-output-format");
    reveal_strlit("--newline");
    reveal_strlit("--embed-metadata");
    reveal_strlit("--add-metadata");
    reveal_strlit("--default-search");
    reveal_strlit("ytsearch");
    reveal_strlit("--progress-template");
    reveal_strlit("[DOWNLOADING]:%(progress._percent_str)s");
    reveal_strlit("--add-header");
    reveal_strlit("Accept-Language:ja-JP");
    reveal_strlit("--extractor-args");
    reveal_strlit("youtube:lang=ja");
    reveal_strlit("--no-warnings");
    reveal_strlit("--encoding");
    reveal_strlit("utf-8");
    lemma_ne_at("--newline"@, "-o"@, 1);
    lemma_ne_at("--embed-metadata"@, "-o"@, 1);
    lemma_ne_at("--add-metadata"@, "-o"@, 1);
    lemma_ne_at("--default-search"@, "-o"@, 1);
    lemma_ne_at("ytsearch"@, "-o"@, 0);
    lemma_ne_at("--progress-template"@, "-o"@, 1);
    lemma_ne_at("[DOWNLOADING]:%(progress._percent_str)s"@, "-o"@, 0);
    lemma_ne_at("--add-header"@, "-o"@, 1);
    lemma_ne_at("Accept-Language:ja-JP"@, "-o"@, 0);
    lemma_ne_at("--extractor-args"@, "-o"@, 1);
    lemma_ne_at("youtube:lang=ja"@, "-o"@, 0);
    lemma_ne_at("--no-warnings"@, "-o"@, 1);
    lemma_ne_at("--encoding"@, "-o"@, 1);
    lemma_ne_at("utf-8"@, "-o"@, 0);
    lemma_ne_at("--newline"@, "--merge-output-format"@, 2);
    lemma_ne_at("--embed-metadata"@, "--merge-output-format"@, 2);
    lemma_ne_at("--add-metadata"@, "--merge-output-format"@, 2);
    lemma_ne_at("--default-search"@, "--merge-output-format"@, 2);
    lemma_ne_at("ytsearch"@, "--merge-output-format"@, 0);
    lemma_ne_at("--progress-template"@, "--merge-output-format"@, 2);
    lemma_ne_at("[DOWNLOADING]:%(progress._percent_str)s"@, "--merge-output-format"@, 0);
    lemma_ne_at("--add-header"@, "--merge-output-format"@, 2);
    lemma_ne_at("Accept-Language:ja-JP"@, "--merge-output-format"@, 0);
    lemma_ne_at("--extractor-args"@, "--merge-output-format"@, 2);
    lemma_ne_at("youtube:lang=ja"@, "--merge-output-format"@, 0);
    lemma_ne_at("--no-warnings"@, "--merge-output-format"@, 2);
    lemma_ne_at("--encoding"@, "--merge-output-format"@, 2);
    lemma_ne_at("utf-8"@, "--merge-output-format"@, 0);
    lemma_count_none(spec_prefix_args(o), "-o"@);
    lemma_count_none(spec_prefix_args(o), "--merge-output-format"@);
}

proof fn lemma_cookie_counts(o: OptionsV)
    requires
        no_flag_collisions(o),
    ensures
        count_matches(spec_cookie_args(o), "-o"@) == 0,
        count_matches(spec_cookie_args(o), "--merge-output-format"@) == 0,
{
    reveal_strlit("-o");
    reveal_strlit("--merge-output-format");
    reveal_strlit("--cookies");
    reveal_strlit("--cookies-from-browser");
    reveal_strlit("firefox");
    lemma_ne_at("--cookies"@, "-o"@, 1);
    lemma_ne_at("--cookies-from-browser"@, "-o"@, 1);
    lemma_ne_at("firefox"@, "-o"@, 0);
    lemma_ne_at("--cookies"@, "--merge-output-format"@, 2);
    lemma_ne_at("--cookies-from-browser"@, "--merge-output-format"@, 2);
    lemma_ne_at("firefox"@, "--merge-output-format"@, 0);
    lemma_count_none(spec_cookie_args(o), "-o"@);
    lemma_count_none(spec_cookie_args(o), "--merge-output-format"@);
}

proof fn lemma_selector_not_flag(o: OptionsV)
    ensures
        spec_container_selector(o) != "-o"@,
        spec_container_selector(o) != "--merge-output-format"@,
{
    reveal_strlit("-o");
    reveal_strlit("--merge-output-format");
    reveal_strlit("bestvideo[height<=");
    reveal_strlit("bestvideo+bestaudio[ext=m4a]/best");
    reveal_strlit("bestvideo[vcodec^=avc1]+bestaudio[ext=m4a]/best[vcodec^=avc1]/best");
    let sel = spec_container_selector(o);
    assert("bestvideo[height<="@.len() > 0);
    assert("bestvideo[height<="@[0] == 'b');
    assert("bestvideo+bestaudio[ext=m4a]/best"@[0] == 'b');
    assert("bestvideo[vcodec^=avc1]+bestaudio[ext=m4a]/best[vcodec^=avc1]/best"@[0] == 'b');
    assert(sel[0] == 'b');
    lemma_ne_at(sel, "-o"@, 0);
    lemma_ne_at(sel, "--merge-output-format"@, 0);
}

proof fn lemma_format_counts(o: OptionsV)
    requires
        no_flag_collisions(o),
    ensures
        count_matches(spec_format_args(o), "-o"@) == 0,
        count_matches(spec_format_args(o), "--merge-output-format"@) <= 1,
{
    reveal_strlit("-o");
    reveal_strlit("--merge-output-format");
    reveal_strlit("mp4");
    reveal_strlit("mkv");
    reveal_strlit("mp3");
    reveal_strlit("-f");
    reveal_strlit("bestaudio");
    reveal_strlit("-x");
    reveal_strlit("--audio-format");
    reveal_strlit("--audio-quality");
    reveal_strlit("0");
    lemma_selector_not_flag(o);
    lemma_ne_at("mp4"@, "-o"@, 0);
    lemma_ne_at("mkv"@, "-o"@, 0);
    lemma_ne_at("mp3"@, "-o"@, 0);
    lemma_ne_at("-f"@, "-o"@, 1);
    lemma_ne_at("bestaudio"@, "-o"@, 0);
    lemma_ne_at("-x"@, "-o"@, 1);
    lemma_ne_at("--audio-format"@, "-o"@, 1);
    lemma_ne_at("--audio-quality"@, "-o"@, 1);
    lemma_ne_at("0"@, "-o"@, 0);
    lemma_ne_at("--merge-output-format"@, "-o"@, 1);
    lemma_ne_at("mp4"@, "--merge-output-format"@, 0);
    lemma_ne_at("mkv"@, "--merge-output-format"@, 0);
    lemma_ne_at("mp3"@, "--merge-output-format"@, 0);
    lemma_ne_at("-f"@, "--merge-output-format"@, 1);
    lemma_ne_at("bestaudio"@, "--merge-output-format"@, 0);
    lemma_ne_at("-x"@, "--merge-output-format"@, 1);
    lemma_ne_at("--audio-format"@, "--merge-output-format"@, 2);
    lemma_ne_at("--audio-quality"@, "--merge-output-format"@, 2);
    lemma_ne_at("0"@, "--merge-output-format"@, 0);
    let f = spec_format_args(o);
    lemma_count_none(f, "-o"@);
    if o.format == "mp4"@ || o.format == "mkv"@ {
        lemma_count_single(f, "--merge-output-format"@, 0);
    } else {
        lemma_count_none(f, "--merge-output-format"@);
    }
}

proof fn lemma_hdr_counts(o: OptionsV)
    ensures
        count_matches(spec_hdr_args(o), "-o"@) == 0,
        count_matches(spec_hdr_args(o), "--merge-output-format"@) == 0,
{
    reveal_strlit("-o");
    reveal_strlit("--merge-output-format");
    reveal_strlit("--format-sort");
    reveal_strlit("hdr,res,codec,ext,size");
    lemma_ne_at("--format-sort"@, "-o"@, 1);
    lemma_ne_at("hdr,res,codec,ext,size"@, "-o"@, 0);
    lemma_ne_at("--format-sort"@, "--merge-output-format"@, 2);
    lemma_ne_at("hdr,res,codec,ext,size"@, "--merge-output-format"@, 0);
    lemma_count_none(spec_hdr_args(o), "-o"@);
    lemma_count_none(spec_hdr_args(o), "--merge-output-format"@);
}

proof fn lemma_chapter_counts(o: OptionsV)
    ensures
        count_matches(spec_chapter_args(o), "-o"@) == 0,
        count_matches(spec_chapter_args(o), "--merge-output-format"@) == 0,
{
    reveal_strlit("-o");
    reveal_strlit("--merge-output-format");
    reveal_strlit("--embed-chapters");
    reveal_strlit("--add-chapters");
    lemma_ne_at("--embed-chapters"@, "-o"@, 1);
    lemma_ne_at("--add-chapters"@, "-o"@, 1);
    lemma_ne_at("--embed-chapters"@, "--merge-output-format"@, 2);
    lemma_ne_at("--add-chapters"@, "--merge-output-format"@, 2);
    lemma_count_none(spec_chapter_args(o), "-o"@);
    lemma_count_none(spec_chapter_args(o), "--merge-output-format"@);
}

proof fn lemma_concurrency_counts(o: OptionsV)
    requires
        no_flag_collisions(o),
    ensures
        count_matches(spec_concurrency_args(o), "-o"@) == 0,
        count_matches(spec_concurrency_args(o), "--merge-output-format"@) == 0,
{
    reveal_strlit("-o");
    reveal_strlit("--merge-output-format");
    reveal_strlit("-N");
    lemma_ne_at("-N"@, "-o"@, 1);
    lemma_ne_at("-N"@, "--merge-output-format"@, 1);
    lemma_count_none(spec_concurrency_args(o), "-o"@);
    lemma_count_none(spec_concurrency_args(o), "--merge-output-format"@);
}

proof fn lemma_thumbnail_counts(o: OptionsV)
    ensures
        count_matches(spec_thumbnail_args(o), "-o"@) == 0,
        count_matches(spec_thumbnail_args(o), "--merge-output-format"@) == 0,
{
    reveal_strlit("-o");
    reveal_strlit("--merge-output-format");
    reveal_strlit("--embed-thumbnail");
    reveal_strlit("--convert-thumbnails");
    reveal_strlit("jpg");
    reveal_strlit("--ppa");
    reveal_strlit(
        "ThumbnailsConvertor:-qmin 1 -q:v 1 -vf crop=\"'if(gt(ih,iw),iw,ih)':'if(gt(iw,ih),ih,iw)'\"",
    );
    lemma_ne_at("--embed-thumbnail"@, "-o"@, 1);
    lemma_ne_at("--convert-thumbnails"@, "-o"@, 1);
    lemma_ne_at("jpg"@, "-o"@, 0);
    lemma_ne_at("--ppa"@, "-o"@, 1);
    lemma_ne_at(spec_crop_filter(), "-o"@, 0);
    lemma_ne_at("--embed-thumbnail"@, "--merge-output-format"@, 2);
    lemma_ne_at("--convert-thumbnails"@, "--merge-output-format"@, 2);
    lemma_ne_at("jpg"@, "--merge-output-format"@, 0);
    lemma_ne_at("--ppa"@, "--merge-output-format"@, 2);
    lemma_ne_at(spec_crop_filter(), "--merge-output-format"@, 0);
    lemma_count_none(spec_thumbnail_args(o), "-o"@);
    lemma_count_none(spec_thumbnail_args(o), "--merge-output-format"@);
}

proof fn lemma_output_counts(o: OptionsV)
    ensures
        count_matches(spec_output_args(o), "-o"@) == 1,
        count_matches(spec_output_args(o), "--merge-output-format"@) == 0,
{
    reveal_strlit("-o");
    reveal_strlit("--merge-output-format");
    reveal_strlit("/%(playlist_title)s/%(playlist_index)03d_%(title).100s.%(ext)s");
    reveal_strlit("/%(title).100s.%(ext)s");
    assert("-o"@.len() == 2);
    assert("--merge-output-format"@.len() == 21);
    assert("/%(playlist_title)s/%(playlist_index)03d_%(title).100s.%(ext)s"@.len() > 21);
    assert("/%(title).100s.%(ext)s"@.len() > 21);
    let tpl = spec_output_template(o);
    assert(tpl.len() > 21);
    lemma_count_single(spec_output_args(o), "-o"@, 0);
    lemma_count_none(spec_output_args(o), "--merge-output-format"@);
}

/// Law: for every request whose free strings are none of the two counted
/// flag literals, the compiled list begins with the fixed prefix block,
/// holds exactly one output-path flag, and holds at most one
/// merge-output-format flag.
pub proof fn lemma_compiled_args_shape(o: OptionsV)
    requires
        no_flag_collisions(o),
    ensures
        spec_download_args(o).take(15) == spec_prefix_args(o),
        count_matches(spec_download_args(o), "-o"@) == 1,
        count_matches(spec_download_args(o), "--merge-output-format"@) <= 1,
{
    let p = spec_prefix_args(o);
    let c = spec_cookie_args(o);
    let f = spec_format_args(o);
    let h = spec_hdr_args(o);
    let ch = spec_chapter_args(o);
    let n = spec_concurrency_args(o);
    let out = spec_output_args(o);
    let t = spec_thumbnail_args(o);
    assert(spec_download_args(o).take(15) =~= p);
    lemma_prefix_counts(o);
    lemma_cookie_counts(o);
    lemma_format_counts(o);
    lemma_hdr_counts(o);
    lemma_chapter_counts(o);
    lemma_concurrency_counts(o);
    lemma_thumbnail_counts(o);
    lemma_output_counts(o);
    lemma_count_concat(p, c, "-o"@);
    lemma_count_concat(p + c, f, "-o"@);
    lemma_count_concat(p + c + f, h, "-o"@);
    lemma_count_concat(p + c + f + h, ch, "-o"@);
    lemma_count_concat(p + c + f + h + ch, n, "-o"@);
    lemma_count_concat(p + c + f + h + ch + n, out, "-o"@);
    lemma_count_concat(p + c + f + h + ch + n + out, t, "-o"@);
    lemma_count_concat(p, c, "--merge-output-format"@);
    lemma_count_concat(p + c, f, "--merge-output-format"@);
    lemma_count_concat(p + c + f, h, "--merge-output-format"@);
    lemma_count_concat(p + c + f + h, ch, "--merge-output-format"@);
    lemma_count_concat(p + c + f + h + ch, n, "--merge-output-format"@);
    lemma_count_concat(p + c + f + h + ch + n, out, "--merge-output-format"@);
    lemma_count_concat(p + c + f + h + ch + n + out, t, "--merge-output-format"@);
}

} // verus!
