//! The library's record of one torrent as the daemon reports it.
//!
//! Floating-point values from the daemon are carried as their IEEE 754 bit
//! patterns (`f64::to_bits`), which the list orders by; values that are only
//! ever displayed are carried as the text that is shown.

use vstd::prelude::*;

use crate::text::{decimal, push_text, u64_to_text};

verus! {

/// Per-file state of a torrent.
#[derive(Debug, Clone, Default)]
pub struct FileStat {
    /// Whether the file is marked for download.
    pub wanted: bool,
}

/// One torrent of the daemon's list.
#[derive(Debug, Clone, Default)]
pub struct TorrentData {
    pub id: i64,
    pub name: String,
    /// Transmission status code: 0 stopped, 1 queued for check, 2 checking,
    /// 3 queued for download, 4 downloading, 5 queued for seeding, 6 seeding.
    pub status: i32,
    pub total_size: i64,
    pub rate_download: i64,
    pub rate_upload: i64,
    /// Seconds left; negative when unknown.
    pub eta: i64,
    /// `uploadRatio` as `f64` bits.
    pub upload_ratio_bits: u64,
    /// `percentDone` as `f64` bits.
    pub percent_done_bits: u64,
    pub download_dir: String,
    pub file_stats: Vec<FileStat>,
    pub download_limited: bool,
    pub download_limit: i64,
    pub upload_limited: bool,
    pub upload_limit: i64,
    /// 0 = follow the global setting, 1 = custom limit, 2 = unlimited.
    pub seed_ratio_mode: u8,
    /// The seed-ratio limit rendered with two decimals, as the options form
    /// shows it.
    pub seed_ratio_limit_text: String,
    pub honors_session_limits: bool,
}

/// The label shown for a Transmission status code.
pub open spec fn status_text(status: i32) -> Seq<char> {
    if status == 0 {
        "Stopped"@
    } else if status == 1 {
        "Queued (check)"@
    } else if status == 2 {
        "Checking"@
    } else if status == 3 {
        "Queued"@
    } else if status == 4 {
        "Downloading"@
    } else if status == 5 {
        "Queued (seed)"@
    } else if status == 6 {
        "Seeding"@
    } else {
        "Unknown"@
    }
}

/// The label shown for a Transmission status code.
pub fn status_label(status: i32) -> (s: &'static str)
    ensures
        s@ == status_text(status),
{
    match status {
        0 => "Stopped",
        1 => "Queued (check)",
        2 => "Checking",
        3 => "Queued",
        4 => "Downloading",
        5 => "Queued (seed)",
        6 => "Seeding",
        _ => "Unknown",
    }
}

/// The unit a file size is shown in.
#[derive(Debug, Clone, Copy, PartialEq, Eq, Structural)]
pub enum SizeUnit {
    /// GiB, shown with one decimal.
    Gigabytes,
    /// MiB, shown with no decimal.
    Megabytes,
    /// KiB, shown with no decimal.
    Kilobytes,
    /// Plain bytes.
    Bytes,
}

/// The unit for `bytes`: the largest of GiB, MiB and KiB that `bytes`
/// reaches, else bytes.
pub fn size_unit(bytes: u64) -> (u: SizeUnit)
    ensures
        u == (if bytes >= 0x4000_0000 {
            SizeUnit::Gigabytes
        } else if bytes >= 0x10_0000 {
            SizeUnit::Megabytes
        } else if bytes >= 0x400 {
            SizeUnit::Kilobytes
        } else {
            SizeUnit::Bytes
        }),
{
    if bytes >= 0x4000_0000 {
        SizeUnit::Gigabytes
    } else if bytes >= 0x10_0000 {
        SizeUnit::Megabytes
    } else if bytes >= 0x400 {
        SizeUnit::Kilobytes
    } else {
        SizeUnit::Bytes
    }
}

/// A size below one KiB: the byte count and `" B"`.
pub fn byte_count_label(bytes: u64) -> (s: String)
    ensures
        s@ == decimal(bytes as nat) + " B"@,
{
    let mut s = u64_to_text(bytes);
    push_text(&mut s, " B");
    s
}

} // verus!
