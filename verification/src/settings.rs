//! The persisted user settings and their documented defaults.
//!
//! The settings file itself is read and written outside the library; the
//! library fixes what the settings are as a value, and what a caller gets
//! when no stored settings exist yet.

use vstd::prelude::*;

verus! {

/// One saved configuration of the download front-end, as plain values.
#[derive(Clone, Debug, PartialEq)]
pub struct Settings {
    pub output_directory: String,
    pub format: String,
    pub quality: String,
    pub cookie_source: String,
    pub cookie_file_path: String,
    pub concurrent_connections: String,
    pub chapter_embed: bool,
    pub playlist_mode: bool,
    pub thumbnail_embed: bool,
    pub thumbnail_crop: bool,
    pub compatibility_mode: bool,
    pub hdr_mode: bool,
}

/// Mathematical image of `Settings`: every string as a sequence of chars.
pub struct SettingsV {
    pub output_directory: Seq<char>,
    pub format: Seq<char>,
    pub quality: Seq<char>,
    pub cookie_source: Seq<char>,
    pub cookie_file_path: Seq<char>,
    pub concurrent_connections: Seq<char>,
    pub chapter_embed: bool,
    pub playlist_mode: bool,
    pub thumbnail_embed: bool,
    pub thumbnail_crop: bool,
    pub compatibility_mode: bool,
    pub hdr_mode: bool,
}

impl View for Settings {
    type V = SettingsV;

    open spec fn view(&self) -> SettingsV {
        SettingsV {
            output_directory: self.output_directory@,
            format: self.format@,
            quality: self.quality@,
            cookie_source: self.cookie_source@,
            cookie_file_path: self.cookie_file_path@,
            concurrent_connections: self.concurrent_connections@,
            chapter_embed: self.chapter_embed,
            playlist_mode: self.playlist_mode,
            thumbnail_embed: self.thumbnail_embed,
            thumbnail_crop: self.thumbnail_crop,
            compatibility_mode: self.compatibility_mode,
            hdr_mode: self.hdr_mode,
        }
    }
}

/// The documented default settings: video container output, automatic
/// quality, no cookies, three concurrent connections, every extra switched
/// off.
pub open spec fn spec_default_settings() -> SettingsV {
    SettingsV {
        output_directory: ""@,
        format: "mp4"@,
        quality: "auto"@,
        cookie_source: "none"@,
        cookie_file_path: ""@,
        concurrent_connections: "3"@,
        chapter_embed: false,
        playlist_mode: false,
        thumbnail_embed: false,
        thumbnail_crop: false,
        compatibility_mode: false,
        hdr_mode: false,
    }
}

/// Builds the default settings value; two calls always agree, since the
/// result is pinned field by field.
pub fn default_settings() -> (s: Settings)
    ensures
        s@ == spec_default_settings(),
{
    Settings {
        output_directory: String::from_str(""),
        format: String::from_str("mp4"),
        quality: String::from_str("auto"),
        cookie_source: String::from_str("none"),
        cookie_file_path: String::from_str(""),
        concurrent_connections: String::from_str("3"),
        chapter_embed: false,
        playlist_mode: false,
        thumbnail_embed: false,
        thumbnail_crop: false,
        compatibility_mode: false,
        hdr_mode: false,
    }
}

/// What loading the settings returns: the stored value when one exists,
/// and exactly the documented defaults when none does.
pub fn settings_or_default(stored: Option<Settings>) -> (s: Settings)
    ensures
        stored matches Some(v) ==> s == v,
        stored is None ==> s@ == spec_default_settings(),
{
    match stored {
        Some(v) => v,
        None => default_settings(),
    }
}

} // verus!
