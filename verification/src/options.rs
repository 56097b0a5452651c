//! The immutable description of one download request, and the file-picker
//! filter shape that the surrounding shell exchanges with its dialogs.

use vstd::prelude::*;

verus! {

/// Everything the user chose for a single download, as plain values.
///
/// `format` selects the compilation branch: one of the two container
/// formats, the named audio codec, or any other string, which is treated
/// as an audio format to extract to. `quality` is either the sentinel
/// `"auto"` or a numeric bound, passed through verbatim. `thumbnail_crop`
/// is meaningful only while `thumbnail_embed` is set; with embedding off
/// it is silently ignored rather than rejected.
#[derive(Clone, Debug, PartialEq)]
pub struct DownloadOptions {
    pub url: String,
    pub format: String,
    pub quality: String,
    pub output_directory: String,
    pub cookie_source: String,
    pub cookie_file_path: Option<String>,
    pub concurrent_connections: String,
    pub playlist_mode: bool,
    pub thumbnail_embed: bool,
    pub thumbnail_crop: bool,
    pub chapter_embed: bool,
    pub compatibility_mode: bool,
    pub hdr_mode: bool,
}

/// Mathematical image of `DownloadOptions`: strings as char sequences.
pub struct OptionsV {
    pub url: Seq<char>,
    pub format: Seq<char>,
    pub quality: Seq<char>,
    pub output_directory: Seq<char>,
    pub cookie_source: Seq<char>,
    pub cookie_file_path: Option<Seq<char>>,
    pub concurrent_connections: Seq<char>,
    pub playlist_mode: bool,
    pub thumbnail_embed: bool,
    pub thumbnail_crop: bool,
    pub chapter_embed: bool,
    pub compatibility_mode: bool,
    pub hdr_mode: bool,
}

impl View for DownloadOptions {
    type V = OptionsV;

    open spec fn view(&self) -> OptionsV {
        OptionsV {
            url: self.url@,
            format: self.format@,
            quality: self.quality@,
            output_directory: self.output_directory@,
            cookie_source: self.cookie_source@,
            cookie_file_path: match self.cookie_file_path {
                Some(p) => Some(p@),
                None => None,
            },
            concurrent_connections: self.concurrent_connections@,
            playlist_mode: self.playlist_mode,
            thumbnail_embed: self.thumbnail_embed,
            thumbnail_crop: self.thumbnail_crop,
            chapter_embed: self.chapter_embed,
            compatibility_mode: self.compatibility_mode,
            hdr_mode: self.hdr_mode,
        }
    }
}

/// One named group of file extensions for a file-picker dialog.
#[derive(Clone, Debug, PartialEq)]
pub struct FileFilter {
    pub name: String,
    pub extensions: Vec<String>,
}

} // verus!
