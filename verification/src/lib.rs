//! Verified decision logic of a desktop client for a Transmission daemon.
pub mod add_dialog;
pub mod connection;
pub mod filters;
pub mod inspector;
pub mod laws;
pub mod main_screen;
pub mod nesting;
pub mod profile;
pub mod rpc;
pub mod settings;
pub mod sort;
pub mod text;
pub mod theme;
pub mod torrent;
pub mod torrent_file;
pub mod torrent_list;
pub mod tray;
