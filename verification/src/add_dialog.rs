//! State of the add-torrent dialog.

use std::collections::VecDeque;

use vstd::prelude::*;

use crate::text::{decimal, push_text, u64_to_text};

verus! {

/// A single file entry parsed from a `.torrent` file, shown in the add dialog.
#[derive(Debug, Clone)]
pub struct TorrentFileInfo {
    pub path: String,
    pub size_bytes: u64,
}

/// Result of reading and parsing a `.torrent` file.
#[derive(Debug, Clone)]
pub struct FileReadResult {
    pub metainfo_b64: String,
    pub files: Vec<TorrentFileInfo>,
}

/// State of the add-torrent modal dialog.
#[derive(Debug, Clone)]
pub enum AddDialogState {
    Hidden,
    AddLink { magnet: String, destination: String, error: Option<String> },
    AddFile {
        metainfo_b64: String,
        files: Vec<TorrentFileInfo>,
        selected: Vec<bool>,
        destination: String,
        error: Option<String>,
        /// Remaining torrents yet to be shown (FIFO queue).
        pending_torrents: VecDeque<FileReadResult>,
        /// Whether the recent-paths dropdown overlay is open.
        is_dropdown_open: bool,
        /// Total number of torrents in the whole batch (for N-of-M display).
        total_count: usize,
    },
}

/// The title of the shown dialog: "Add Link", or "Add Torrent" with the
/// position in the batch ("k of n") when several files were picked.
pub fn add_dialog_title(d: &AddDialogState) -> (s: String)
    requires
        !(*d is Hidden),
        *d matches AddDialogState::AddFile { pending_torrents, total_count, .. } ==> pending_torrents@.len()
            <= total_count,
    ensures
        s@ == match *d {
            AddDialogState::AddFile { pending_torrents, total_count, .. } => if total_count > 1 {
                "Add Torrent ("@ + decimal((total_count - pending_torrents@.len()) as nat) + " of "@
                    + decimal(total_count as nat) + ")"@
            } else {
                "Add Torrent"@
            },
            _ => "Add Link"@,
        },
{
    match d {
        AddDialogState::AddFile { pending_torrents, total_count, .. } => {
            if *total_count > 1 {
                let current = *total_count - pending_torrents.len();
                let mut s = String::new();
                push_text(&mut s, "Add Torrent (");
                assert(Seq::<char>::empty() + "Add Torrent ("@ == "Add Torrent ("@);
                let c = u64_to_text(current as u64);
                push_text(&mut s, c.as_str());
                push_text(&mut s, " of ");
                let t = u64_to_text(*total_count as u64);
                push_text(&mut s, t.as_str());
                push_text(&mut s, ")");
                s
            } else {
                proof {
                    reveal_strlit("Add Torrent");
                }
                String::from_str("Add Torrent")
            }
        },
        _ => {
            proof {
                reveal_strlit("Add Link");
            }
            String::from_str("Add Link")
        },
    }
}

/// Whether the dialog offers "cancel this" and "cancel all": more picked
/// torrents wait behind the shown one.
pub fn has_pending_torrents(d: &AddDialogState) -> (b: bool)
    ensures
        b == (*d matches AddDialogState::AddFile { pending_torrents, .. } && pending_torrents@.len()
            > 0),
{
    match d {
        AddDialogState::AddFile { pending_torrents, .. } => pending_torrents.len() > 0,
        _ => false,
    }
}

} // verus!
