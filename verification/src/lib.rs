//! Core of a desktop front-end for a command-line media downloader.
//!
//! The library turns a validated download request into the exact argument
//! list for the external tool, parses the tool's line-oriented output into
//! structured progress events, decides which executable path to launch, and
//! models the whole run from launch to the single terminal outcome. All of
//! it is pure logic over plain values; the process, file and UI plumbing
//! around it lives outside the library.

pub mod args;
pub mod launcher;
pub mod options;
pub mod orchestrate;
pub mod progress;
pub mod settings;
pub mod text;
pub mod title;
