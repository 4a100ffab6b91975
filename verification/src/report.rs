//! What a command shows once a run has ended, and the small choices a
//! command makes from its arguments and the settings.

use crate::config::{Config, ConfigView, DisplayMode};
use crate::text::str_eq;
use vstd::prelude::*;

verus! {

/// What is shown of a run that has ended.
#[derive(Clone, Copy, Debug, PartialEq, Eq, Structural)]
pub enum Report {
    /// Nothing.
    Silent,
    /// The job as JSON.
    Json,
    /// The error, as a line of text.
    Error,
    /// The places of the saved images, one on each line.
    Paths,
    /// The job and the places of its saved images, and the first image
    /// itself where `show_image` is set.
    Summary { show_image: bool },
}

/// What is shown of a run, by the output format asked for. A failed run
/// shows the job as JSON for the format `json`, nothing for `quiet`, and
/// the error for any other. A run that saved its images shows the job as
/// JSON for `json`, the places for `quiet`, and a summary for any other,
/// with the first image where images are shown in the terminal and one was
/// saved. A run that saved nothing shows the job as JSON for `json` and
/// nothing for any other.
pub open spec fn report_of(
    format: Seq<char>,
    failed: bool,
    download: bool,
    display: DisplayMode,
    saved: nat,
) -> Report {
    if failed {
        if format == "json"@ {
            Report::Json
        } else if format == "quiet"@ {
            Report::Silent
        } else {
            Report::Error
        }
    } else if download {
        if format == "json"@ {
            Report::Json
        } else if format == "quiet"@ {
            Report::Paths
        } else {
            Report::Summary { show_image: display == DisplayMode::Terminal && saved > 0 }
        }
    } else {
        if format == "json"@ {
            Report::Json
        } else {
            Report::Silent
        }
    }
}

/// What is shown of a run that has ended.
pub fn report_for(format: &str, failed: bool, download: bool, display: DisplayMode, saved: usize) -> (r:
    Report)
    ensures
        r == report_of(format@, failed, download, display, saved as nat),
{
    let json = str_eq(format, "json");
    let quiet = str_eq(format, "quiet");
    if failed {
        if json {
            Report::Json
        } else if quiet {
            Report::Silent
        } else {
            Report::Error
        }
    } else if download {
        if json {
            Report::Json
        } else if quiet {
            Report::Paths
        } else {
            let terminal = match display {
                DisplayMode::Terminal => true,
                _ => false,
            };
            Report::Summary { show_image: terminal && saved > 0 }
        }
    } else {
        if json {
            Report::Json
        } else {
            Report::Silent
        }
    }
}

/// Whether a run shows its progress while it lasts: only for the format
/// `text`.
pub fn shows_progress(format: &str) -> (r: bool)
    ensures
        r == (format@ == "text"@),
{
    str_eq(format, "text")
}

/// Whether the images of a run are saved: unless the command forbids it or
/// the settings have it switched off.
pub open spec fn download_wanted(config: ConfigView, no_download: bool) -> bool {
    !no_download && config.output.auto_download
}

/// Whether the images of a run are saved.
pub fn wants_download(config: &Config, no_download: bool) -> (r: bool)
    ensures
        r == download_wanted(config@, no_download),
{
    !no_download && config.output.auto_download
}

/// The directory that images are saved to: the one the command names, or
/// the one of the settings.
pub fn output_directory(config: &Config, output: Option<&str>) -> (r: String)
    ensures
        r@ == match output {
            Some(directory) => directory@,
            None => config@.output.directory,
        },
{
    match output {
        Some(directory) => directory.to_owned(),
        None => config.output.directory.clone(),
    }
}

/// Whether the store holds more jobs than a list of at most `limit` shows.
pub fn more_than_shown(count: i64, limit: u32) -> (r: bool)
    ensures
        r == (count > limit),
{
    count > limit as i64
}

/// How many jobs to ask the store for so that all `count` of them are
/// listed: as many as it holds, and none for a count that is no count.
pub fn limit_for_all(count: i64) -> (r: u32)
    ensures
        r == if count <= 0 {
            0
        } else if count > u32::MAX {
            u32::MAX as int
        } else {
            count as int
        },
{
    if count <= 0 {
        0
    } else if count > u32::MAX as i64 {
        u32::MAX
    } else {
        count as u32
    }
}

} // verus!
