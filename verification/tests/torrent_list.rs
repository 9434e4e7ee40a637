use std::collections::VecDeque;

use clutch::add_dialog::{
    add_dialog_title, has_pending_torrents, AddDialogState, FileReadResult, TorrentFileInfo,
};
use clutch::filters::{FilterSet, StatusFilter};
use clutch::rpc::{RpcWork, TransmissionCredentials};
use clutch::sort::{SortColumn, SortDir};
use clutch::torrent::TorrentData;
use clutch::torrent_list::{
    dialog_key_message, is_row_highlighted, is_select_all_key, list_body, toolbar_actions, update,
    Effect, KeyModifiers, KeyPress, ListBody,
    Message, SetLocationDialog, TorrentListScreen,
};

fn make_screen() -> TorrentListScreen {
    TorrentListScreen::new(
        TransmissionCredentials {
            host: "localhost".to_owned(),
            port: 9091,
            username: None,
            password: None,
        },
        "test-session-id".to_owned(),
    )
}

fn make_torrent(id: i64, name: &str) -> TorrentData {
    TorrentData {
        id,
        name: name.to_owned(),
        status: 6,
        percent_done_bits: 1.0f64.to_bits(),
        ..Default::default()
    }
}

fn with_status(id: i64, name: &str, status: i32) -> TorrentData {
    TorrentData { id, name: name.to_owned(), status, ..Default::default() }
}

fn command() -> KeyModifiers {
    KeyModifiers { command: true, ..KeyModifiers::default() }
}

fn shift() -> KeyModifiers {
    KeyModifiers { shift: true, ..KeyModifiers::default() }
}

fn add_link(magnet: &str) -> AddDialogState {
    AddDialogState::AddLink { magnet: magnet.to_owned(), destination: String::new(), error: None }
}

fn add_file(metainfo: &str, selected: Vec<bool>, destination: &str) -> AddDialogState {
    AddDialogState::AddFile {
        metainfo_b64: metainfo.to_owned(),
        files: vec![],
        selected,
        destination: destination.to_owned(),
        error: None,
        pending_torrents: VecDeque::new(),
        is_dropdown_open: false,
        total_count: 1,
    }
}

#[test]
fn mod_tick_ignored_when_loading() {
    let mut screen = make_screen();
    screen.is_loading = true;
    let fx = update(&mut screen, Message::Tick);
    assert!(screen.is_loading);
    assert!(fx.is_empty());
}

#[test]
fn mod_tick_fires_when_not_loading() {
    let mut screen = make_screen();
    screen.is_loading = false;
    let fx = update(&mut screen, Message::Tick);
    assert!(screen.is_loading, "is_loading should be set to true after Tick");
    assert!(matches!(fx.as_slice(), [Effect::Enqueue(RpcWork::TorrentGet(_))]));
}

#[test]
fn mod_torrents_updated_ok_replaces_and_clears_loading() {
    let mut screen = make_screen();
    screen.is_loading = true;
    let new_data = vec![make_torrent(1, "Ubuntu ISO"), make_torrent(2, "Arch Linux")];
    let _ = update(&mut screen, Message::TorrentsUpdated(Ok(new_data)));
    assert!(!screen.is_loading);
    assert_eq!(screen.torrents.len(), 2);
    assert_eq!(screen.torrents[0].name, "Ubuntu ISO");
}

#[test]
fn mod_torrents_updated_err_clears_loading_and_sets_error() {
    let mut screen = make_screen();
    screen.is_loading = true;
    let _ = update(&mut screen, Message::TorrentsUpdated(Err("timeout".to_owned())));
    assert!(!screen.is_loading);
    assert_eq!(screen.error.as_deref(), Some("timeout"));
}

#[test]
fn mod_session_id_rotated_updates_id() {
    let mut screen = make_screen();
    let _ = update(&mut screen, Message::SessionIdRotated("new-id-xyz".to_owned()));
    assert_eq!(screen.params.session_id, "new-id-xyz");
}

#[test]
fn mod_selected_torrent_returns_correct_entry() {
    let mut screen = make_screen();
    screen.torrents = vec![make_torrent(1, "Alpha"), make_torrent(2, "Beta")];
    screen.selected_ids = [2].into_iter().collect();
    let t = screen.selected_torrent().expect("should have a selection");
    assert_eq!(t.id, 2);
    assert_eq!(t.name, "Beta");
}

#[test]
fn mod_selected_torrent_none_when_no_selection() {
    let screen = make_screen();
    assert!(screen.selected_torrent().is_none());
}

#[test]
fn mod_delete_clicked_sets_confirming() {
    let mut screen = make_screen();
    screen.torrents = vec![make_torrent(5, "Arch")];
    screen.selected_ids = [5].into_iter().collect();
    let _ = update(&mut screen, Message::DeleteClicked);
    assert_eq!(screen.confirming_delete, Some((vec![5], false)));
    assert!(!screen.is_loading);
}

#[test]
fn mod_delete_clicked_no_selection_is_noop() {
    let mut screen = make_screen();
    let _ = update(&mut screen, Message::DeleteClicked);
    assert_eq!(screen.confirming_delete, None);
}

#[test]
fn mod_delete_cancelled_clears_confirming() {
    let mut screen = make_screen();
    screen.confirming_delete = Some((vec![3], true));
    let _ = update(&mut screen, Message::DeleteCancelled);
    assert_eq!(screen.confirming_delete, None);
}

#[test]
fn mod_delete_confirmed_clears_confirming_and_loads() {
    let mut screen = make_screen();
    screen.confirming_delete = Some((vec![7], true));
    let fx = update(&mut screen, Message::DeleteConfirmed);
    assert_eq!(screen.confirming_delete, None);
    assert!(screen.is_loading);
    match fx.as_slice() {
        [Effect::Enqueue(RpcWork::TorrentRemove { ids, delete_local_data, .. })] => {
            assert_eq!(ids, &vec![7]);
            assert!(*delete_local_data);
        }
        other => panic!("expected a remove request, got {other:?}"),
    }
}

#[test]
fn mod_delete_confirmed_no_state_is_noop() {
    let mut screen = make_screen();
    let _ = update(&mut screen, Message::DeleteConfirmed);
    assert!(!screen.is_loading);
}

#[test]
fn mod_delete_local_data_toggled_updates_state() {
    let mut screen = make_screen();
    screen.confirming_delete = Some((vec![9], false));
    let _ = update(&mut screen, Message::DeleteLocalDataToggled(true));
    assert_eq!(screen.confirming_delete, Some((vec![9], true)));
    let _ = update(&mut screen, Message::DeleteLocalDataToggled(false));
    assert_eq!(screen.confirming_delete, Some((vec![9], false)));
}

#[test]
fn mod_action_completed_ok_fires_refresh() {
    let mut screen = make_screen();
    screen.is_loading = true;
    let fx = update(&mut screen, Message::ActionCompleted(Ok(())));
    assert!(screen.is_loading);
    assert!(matches!(fx.as_slice(), [Effect::Enqueue(RpcWork::TorrentGet(_))]));
}

#[test]
fn mod_action_completed_err_clears_and_stores_error() {
    let mut screen = make_screen();
    screen.is_loading = true;
    let _ = update(&mut screen, Message::ActionCompleted(Err("daemon refused".to_owned())));
    assert!(!screen.is_loading);
    assert_eq!(screen.error.as_deref(), Some("daemon refused"));
}

#[test]
fn mod_tick_ignored_while_action_in_flight() {
    let mut screen = make_screen();
    screen.is_loading = true;
    screen.selected_ids = [1].into_iter().collect();
    let fx = update(&mut screen, Message::Tick);
    assert!(screen.is_loading);
    assert!(fx.is_empty());
}

#[test]
fn mod_add_link_clicked_opens_add_link_dialog() {
    let mut screen = make_screen();
    let fx = update(&mut screen, Message::AddLinkClicked);
    assert!(matches!(screen.add_dialog, AddDialogState::AddLink { .. }));
    assert!(matches!(fx.as_slice(), [Effect::FocusMagnetInput]));
}

#[test]
fn mod_add_confirmed_empty_magnet_is_noop() {
    let mut screen = make_screen();
    screen.add_dialog = add_link("");
    let fx = update(&mut screen, Message::AddConfirmed);
    assert!(matches!(screen.add_dialog, AddDialogState::AddLink { .. }));
    assert!(fx.is_empty());
}

#[test]
fn mod_add_cancelled_closes_dialog() {
    let mut screen = make_screen();
    screen.add_dialog = add_link("magnet:?xt=urn:btih:abc");
    let _ = update(&mut screen, Message::AddCancelled);
    assert!(matches!(screen.add_dialog, AddDialogState::Hidden));
}

#[test]
fn mod_torrent_file_read_ok_opens_add_file_dialog() {
    let mut screen = make_screen();
    let result = FileReadResult {
        metainfo_b64: "dGVzdA==".to_owned(),
        files: vec![TorrentFileInfo { path: "movie.mkv".to_owned(), size_bytes: 1_073_741_824 }],
    };
    let mut queue = VecDeque::new();
    queue.push_back(result);
    let _ = update(&mut screen, Message::TorrentFileRead(Ok(queue)));
    match &screen.add_dialog {
        AddDialogState::AddFile { files, .. } => {
            assert_eq!(files.len(), 1);
            assert_eq!(files[0].path, "movie.mkv");
        }
        other => panic!("expected AddFile, got {other:?}"),
    }
}

#[test]
fn mod_column_header_clicked_cycles_sort() {
    let mut screen = make_screen();
    assert_eq!(screen.sort_column, None);

    let _ = update(&mut screen, Message::ColumnHeaderClicked(SortColumn::Name));
    assert_eq!(screen.sort_column, Some(SortColumn::Name));
    assert_eq!(screen.sort_dir, SortDir::Asc);

    let _ = update(&mut screen, Message::ColumnHeaderClicked(SortColumn::Name));
    assert_eq!(screen.sort_column, Some(SortColumn::Name));
    assert_eq!(screen.sort_dir, SortDir::Desc);

    let _ = update(&mut screen, Message::ColumnHeaderClicked(SortColumn::Name));
    assert_eq!(screen.sort_column, None);
}

#[test]
fn mod_column_header_clicked_different_column_resets() {
    let mut screen = make_screen();

    let _ = update(&mut screen, Message::ColumnHeaderClicked(SortColumn::Name));
    assert_eq!(screen.sort_column, Some(SortColumn::Name));

    let _ = update(&mut screen, Message::ColumnHeaderClicked(SortColumn::Size));
    assert_eq!(screen.sort_column, Some(SortColumn::Size));
    assert_eq!(screen.sort_dir, SortDir::Asc);
}

#[test]
fn torrent_list_tick_ignored_when_loading() {
    let mut screen = make_screen();
    screen.is_loading = true;
    let fx = update(&mut screen, Message::Tick);
    assert!(screen.is_loading);
    assert!(fx.is_empty());
}

#[test]
fn torrent_list_tick_fires_when_not_loading() {
    let mut screen = make_screen();
    screen.is_loading = false;
    let fx = update(&mut screen, Message::Tick);
    assert!(screen.is_loading, "is_loading should be set to true after Tick");
    assert!(matches!(fx.as_slice(), [Effect::Enqueue(RpcWork::TorrentGet(_))]));
}

#[test]
fn torrent_list_torrents_updated_ok_replaces_and_clears_loading() {
    let mut screen = make_screen();
    screen.is_loading = true;
    let new_data = vec![make_torrent(1, "Ubuntu ISO"), make_torrent(2, "Arch Linux")];
    let _ = update(&mut screen, Message::TorrentsUpdated(Ok(new_data)));
    assert!(!screen.is_loading);
    assert_eq!(screen.torrents.len(), 2);
    assert_eq!(screen.torrents[0].name, "Ubuntu ISO");
}

#[test]
fn torrent_list_torrents_updated_err_clears_loading_and_sets_error() {
    let mut screen = make_screen();
    screen.is_loading = true;
    let _ = update(&mut screen, Message::TorrentsUpdated(Err("timeout".to_owned())));
    assert!(!screen.is_loading);
    assert_eq!(screen.error.as_deref(), Some("timeout"));
}

#[test]
fn torrent_list_session_id_rotated_updates_id() {
    let mut screen = make_screen();
    let _ = update(&mut screen, Message::SessionIdRotated("new-id-xyz".to_owned()));
    assert_eq!(screen.params.session_id, "new-id-xyz");
}

#[test]
fn torrent_list_selected_torrent_returns_correct_entry() {
    let mut screen = make_screen();
    screen.torrents = vec![make_torrent(1, "Alpha"), make_torrent(2, "Beta")];
    screen.selected_ids = [2].into_iter().collect();
    let t = screen.selected_torrent().expect("should have a selection");
    assert_eq!(t.id, 2);
    assert_eq!(t.name, "Beta");
}

#[test]
fn torrent_list_selected_torrent_none_when_no_selection() {
    let screen = make_screen();
    assert!(screen.selected_torrent().is_none());
}

#[test]
fn torrent_list_delete_clicked_sets_confirming() {
    let mut screen = make_screen();
    screen.torrents = vec![make_torrent(5, "Arch")];
    screen.selected_ids = [5].into_iter().collect();
    let _ = update(&mut screen, Message::DeleteClicked);
    assert_eq!(screen.confirming_delete, Some((vec![5], false)));
    assert!(!screen.is_loading);
}

#[test]
fn torrent_list_delete_clicked_no_selection_is_noop() {
    let mut screen = make_screen();
    let _ = update(&mut screen, Message::DeleteClicked);
    assert_eq!(screen.confirming_delete, None);
}

#[test]
fn torrent_list_delete_cancelled_clears_confirming() {
    let mut screen = make_screen();
    screen.confirming_delete = Some((vec![3], true));
    let _ = update(&mut screen, Message::DeleteCancelled);
    assert_eq!(screen.confirming_delete, None);
}

#[test]
fn torrent_list_delete_confirmed_clears_confirming_and_loads() {
    let mut screen = make_screen();
    screen.confirming_delete = Some((vec![7], true));
    let fx = update(&mut screen, Message::DeleteConfirmed);
    assert_eq!(screen.confirming_delete, None);
    assert!(screen.is_loading);
    match fx.as_slice() {
        [Effect::Enqueue(RpcWork::TorrentRemove { ids, delete_local_data, .. })] => {
            assert_eq!(ids, &vec![7]);
            assert!(*delete_local_data);
        }
        other => panic!("expected a remove request, got {other:?}"),
    }
}

#[test]
fn torrent_list_delete_confirmed_no_state_is_noop() {
    let mut screen = make_screen();
    let _ = update(&mut screen, Message::DeleteConfirmed);
    assert!(!screen.is_loading);
}

#[test]
fn torrent_list_delete_local_data_toggled_updates_state() {
    let mut screen = make_screen();
    screen.confirming_delete = Some((vec![9], false));
    let _ = update(&mut screen, Message::DeleteLocalDataToggled(true));
    assert_eq!(screen.confirming_delete, Some((vec![9], true)));
    let _ = update(&mut screen, Message::DeleteLocalDataToggled(false));
    assert_eq!(screen.confirming_delete, Some((vec![9], false)));
}

#[test]
fn torrent_list_action_completed_ok_fires_refresh() {
    let mut screen = make_screen();
    screen.is_loading = true;
    let fx = update(&mut screen, Message::ActionCompleted(Ok(())));
    assert!(screen.is_loading);
    assert!(matches!(fx.as_slice(), [Effect::Enqueue(RpcWork::TorrentGet(_))]));
}

#[test]
fn torrent_list_action_completed_err_clears_and_stores_error() {
    let mut screen = make_screen();
    screen.is_loading = true;
    let _ = update(&mut screen, Message::ActionCompleted(Err("daemon refused".to_owned())));
    assert!(!screen.is_loading);
    assert_eq!(screen.error.as_deref(), Some("daemon refused"));
}

#[test]
fn torrent_list_tick_ignored_while_action_in_flight() {
    let mut screen = make_screen();
    screen.is_loading = true;
    screen.selected_ids = [1].into_iter().collect();
    let fx = update(&mut screen, Message::Tick);
    assert!(screen.is_loading);
    assert!(fx.is_empty());
}

#[test]
fn torrent_list_add_link_clicked_opens_add_link_dialog() {
    let mut screen = make_screen();
    let fx = update(&mut screen, Message::AddLinkClicked);
    assert!(matches!(screen.add_dialog, AddDialogState::AddLink { .. }));
    assert!(matches!(fx.as_slice(), [Effect::FocusMagnetInput]));
}

#[test]
fn torrent_list_add_confirmed_empty_magnet_is_noop() {
    let mut screen = make_screen();
    screen.add_dialog = add_link("");
    let fx = update(&mut screen, Message::AddConfirmed);
    assert!(matches!(screen.add_dialog, AddDialogState::AddLink { .. }));
    assert!(fx.is_empty());
}

#[test]
fn torrent_list_add_cancelled_closes_dialog() {
    let mut screen = make_screen();
    screen.add_dialog = add_link("magnet:?xt=urn:btih:abc");
    let _ = update(&mut screen, Message::AddCancelled);
    assert!(matches!(screen.add_dialog, AddDialogState::Hidden));
}

#[test]
fn torrent_list_torrent_file_read_ok_opens_add_file_dialog() {
    let mut screen = make_screen();
    let result = FileReadResult {
        metainfo_b64: "dGVzdA==".to_owned(),
        files: vec![TorrentFileInfo { path: "movie.mkv".to_owned(), size_bytes: 1_073_741_824 }],
    };
    let mut queue = VecDeque::new();
    queue.push_back(result);
    let _ = update(&mut screen, Message::TorrentFileRead(Ok(queue)));
    match &screen.add_dialog {
        AddDialogState::AddFile { files, .. } => {
            assert_eq!(files.len(), 1);
            assert_eq!(files[0].path, "movie.mkv");
        }
        other => panic!("expected AddFile, got {other:?}"),
    }
}

#[test]
fn torrent_list_column_header_clicked_cycles_sort() {
    let mut screen = make_screen();
    assert_eq!(screen.sort_column, None);

    let _ = update(&mut screen, Message::ColumnHeaderClicked(SortColumn::Name));
    assert_eq!(screen.sort_column, Some(SortColumn::Name));
    assert_eq!(screen.sort_dir, SortDir::Asc);

    let _ = update(&mut screen, Message::ColumnHeaderClicked(SortColumn::Name));
    assert_eq!(screen.sort_column, Some(SortColumn::Name));
    assert_eq!(screen.sort_dir, SortDir::Desc);

    let _ = update(&mut screen, Message::ColumnHeaderClicked(SortColumn::Name));
    assert_eq!(screen.sort_column, None);
}

#[test]
fn torrent_list_column_header_clicked_different_column_resets() {
    let mut screen = make_screen();

    let _ = update(&mut screen, Message::ColumnHeaderClicked(SortColumn::Name));
    assert_eq!(screen.sort_column, Some(SortColumn::Name));

    let _ = update(&mut screen, Message::ColumnHeaderClicked(SortColumn::Size));
    assert_eq!(screen.sort_column, Some(SortColumn::Size));
    assert_eq!(screen.sort_dir, SortDir::Asc);
}

#[test]
fn mod_torrent_selected_toggles() {
    let mut screen = make_screen();
    screen.torrents = vec![make_torrent(1, "A"), make_torrent(2, "B")];

    let _ = update(&mut screen, Message::TorrentSelected(1));
    assert!(screen.selected_ids.contains(&1));

    let _ = update(&mut screen, Message::TorrentSelected(2));
    assert!(screen.selected_ids.contains(&2));
    assert!(!screen.selected_ids.contains(&1));

    let _ = update(&mut screen, Message::TorrentSelected(2));
    assert!(screen.selected_ids.is_empty());
}

#[test]
fn clear_selection_clears_all() {
    let mut screen = make_screen();
    screen.torrents = vec![make_torrent(1, "A"), make_torrent(2, "B")];
    screen.selected_ids = [1, 2].into_iter().collect();
    screen.selection_anchor = Some(1);

    let _ = update(&mut screen, Message::ClearSelection);
    assert!(screen.selected_ids.is_empty());
    assert!(screen.selection_anchor.is_none());
}

#[test]
fn mod_add_confirmed_valid_magnet_emits_task() {
    let mut screen = make_screen();
    screen.add_dialog = add_link("magnet:?xt=urn:btih:abc123");
    let fx = update(&mut screen, Message::AddConfirmed);
    assert!(screen.is_loading);
    assert!(matches!(screen.add_dialog, AddDialogState::Hidden));
    match fx.as_slice() {
        [Effect::Enqueue(RpcWork::TorrentAdd { download_dir, files_unwanted, .. })] => {
            assert_eq!(download_dir.as_deref(), Some(""));
            assert!(files_unwanted.is_empty());
        }
        other => panic!("expected one add request, got {other:?}"),
    }
}

#[test]
fn add_completed_ok_polls() {
    let mut screen = make_screen();
    let fx = update(&mut screen, Message::AddCompleted(Ok(())));
    assert!(screen.is_loading);
    assert!(matches!(fx.as_slice(), [Effect::Enqueue(RpcWork::TorrentGet(_))]));
}

#[test]
fn add_completed_err_stores_error_in_banner() {
    let mut screen = make_screen();
    let _ = update(&mut screen, Message::AddCompleted(Err("daemon error".to_owned())));
    assert_eq!(screen.error.as_deref(), Some("daemon error"));
}

#[test]
fn dialog_tab_noop_when_hidden() {
    let mut screen = make_screen();
    assert!(matches!(screen.add_dialog, AddDialogState::Hidden));
    let fx = update(&mut screen, Message::DialogTabKeyPressed { shift: false });
    assert!(matches!(screen.add_dialog, AddDialogState::Hidden));
    assert!(fx.is_empty());
}

#[test]
fn dialog_tab_noop_in_add_file_mode() {
    let mut screen = make_screen();
    screen.add_dialog = add_file("dGVzdA==", vec![], "/downloads");
    let fx = update(&mut screen, Message::DialogTabKeyPressed { shift: false });
    assert!(matches!(screen.add_dialog, AddDialogState::AddFile { .. }));
    assert!(fx.is_empty());
}

#[test]
fn dialog_tab_active_in_add_link_mode() {
    let mut screen = make_screen();
    screen.add_dialog = add_link("");
    let fx = update(&mut screen, Message::DialogTabKeyPressed { shift: false });
    assert!(matches!(screen.add_dialog, AddDialogState::AddLink { .. }));
    assert!(matches!(fx.as_slice(), [Effect::FocusNext]));
}

#[test]
fn dialog_shift_tab_active_in_add_link_mode() {
    let mut screen = make_screen();
    screen.add_dialog = add_link("");
    let fx = update(&mut screen, Message::DialogTabKeyPressed { shift: true });
    assert!(matches!(screen.add_dialog, AddDialogState::AddLink { .. }));
    assert!(matches!(fx.as_slice(), [Effect::FocusPrevious]));
}

#[test]
fn dialog_enter_noop_with_empty_magnet() {
    let mut screen = make_screen();
    screen.add_dialog = add_link("");
    let _ = update(&mut screen, Message::DialogEnterPressed);
    assert!(!screen.is_loading, "empty magnet must not trigger submit");
}

#[test]
fn dialog_enter_noop_with_whitespace_magnet() {
    let mut screen = make_screen();
    screen.add_dialog = add_link("   ");
    let _ = update(&mut screen, Message::DialogEnterPressed);
    assert!(!screen.is_loading);
}

#[test]
fn dialog_enter_submits_with_valid_magnet() {
    let mut screen = make_screen();
    screen.add_dialog = add_link("magnet:?xt=urn:btih:abc123");
    let _ = update(&mut screen, Message::DialogEnterPressed);
    assert!(screen.is_loading, "valid magnet must trigger submit");
}

#[test]
fn dialog_enter_submits_with_add_file() {
    let mut screen = make_screen();
    screen.add_dialog = add_file("dGVzdA==", vec![true], "/downloads");
    let fx = update(&mut screen, Message::DialogEnterPressed);
    assert!(screen.is_loading, "AddFile with metainfo must trigger submit");
    match fx.as_slice() {
        [Effect::Enqueue(RpcWork::TorrentAdd { .. }), Effect::ProfilePathUsed(p)] => {
            assert_eq!(p, "/downloads");
        }
        other => panic!("expected add request and path report, got {other:?}"),
    }
}

#[test]
fn dialog_enter_noop_when_hidden() {
    let mut screen = make_screen();
    let _ = update(&mut screen, Message::DialogEnterPressed);
    assert!(!screen.is_loading);
}

#[test]
fn add_dialog_select_all_sets_all_true() {
    let mut screen = make_screen();
    let files: Vec<TorrentFileInfo> = (0..3)
        .map(|i| TorrentFileInfo { path: format!("file{i}.mkv"), size_bytes: 1024 })
        .collect();
    screen.add_dialog = AddDialogState::AddFile {
        metainfo_b64: "dGVzdA==".to_owned(),
        selected: vec![true; 3],
        files,
        destination: String::new(),
        error: None,
        pending_torrents: VecDeque::new(),
        is_dropdown_open: false,
        total_count: 1,
    };
    let _ = update(&mut screen, Message::AddDialogFileToggled(1));
    let _ = update(&mut screen, Message::AddDialogSelectAll);
    if let AddDialogState::AddFile { selected, .. } = &screen.add_dialog {
        assert_eq!(selected, &vec![true, true, true]);
    } else {
        panic!("expected AddFile state");
    }
}

#[test]
fn add_dialog_deselect_all_sets_all_false() {
    let mut screen = make_screen();
    let files: Vec<TorrentFileInfo> = (0..3)
        .map(|i| TorrentFileInfo { path: format!("file{i}.mkv"), size_bytes: 1024 })
        .collect();
    screen.add_dialog = AddDialogState::AddFile {
        metainfo_b64: "dGVzdA==".to_owned(),
        selected: vec![true; 3],
        files,
        destination: String::new(),
        error: None,
        pending_torrents: VecDeque::new(),
        is_dropdown_open: false,
        total_count: 1,
    };
    let _ = update(&mut screen, Message::AddDialogDeselectAll);
    if let AddDialogState::AddFile { selected, .. } = &screen.add_dialog {
        assert_eq!(selected, &vec![false, false, false]);
    } else {
        panic!("expected AddFile state");
    }
}

#[test]
fn add_dialog_file_toggled_flips_single_index() {
    let mut screen = make_screen();
    let files: Vec<TorrentFileInfo> = (0..3)
        .map(|i| TorrentFileInfo { path: format!("file{i}.mkv"), size_bytes: 1024 })
        .collect();
    screen.add_dialog = AddDialogState::AddFile {
        metainfo_b64: "dGVzdA==".to_owned(),
        selected: vec![true; 3],
        files,
        destination: String::new(),
        error: None,
        pending_torrents: VecDeque::new(),
        is_dropdown_open: false,
        total_count: 1,
    };
    let _ = update(&mut screen, Message::AddDialogFileToggled(1));
    if let AddDialogState::AddFile { selected, .. } = &screen.add_dialog {
        assert_eq!(selected, &vec![true, false, true]);
    } else {
        panic!("expected AddFile state");
    }
}

#[test]
fn filter_all_clicked_when_all_selected_clears_set() {
    let mut screen = make_screen();
    assert_eq!(screen.filters.len(), StatusFilter::all().len());
    let _ = update(&mut screen, Message::FilterAllClicked);
    assert!(screen.filters.is_empty());
}

#[test]
fn filter_all_clicked_when_partial_restores_all() {
    let mut screen = make_screen();
    screen.filters.clear();
    screen.filters.insert(StatusFilter::Downloading);
    let _ = update(&mut screen, Message::FilterAllClicked);
    assert_eq!(screen.filters.len(), StatusFilter::all().len());
}

#[test]
fn filter_all_clicked_when_empty_restores_all() {
    let mut screen = make_screen();
    screen.filters.clear();
    let _ = update(&mut screen, Message::FilterAllClicked);
    assert_eq!(screen.filters.len(), StatusFilter::all().len());
}

#[test]
fn filter_toggled_removes_present_filter() {
    let mut screen = make_screen();
    assert!(screen.filters.contains(&StatusFilter::Seeding));
    let _ = update(&mut screen, Message::FilterToggled(StatusFilter::Seeding));
    assert!(!screen.filters.contains(&StatusFilter::Seeding));
}

#[test]
fn filter_toggled_inserts_absent_filter() {
    let mut screen = make_screen();
    screen.filters.remove(&StatusFilter::Error);
    assert!(!screen.filters.contains(&StatusFilter::Error));
    let _ = update(&mut screen, Message::FilterToggled(StatusFilter::Error));
    assert!(screen.filters.contains(&StatusFilter::Error));
}

#[test]
fn filter_toggled_twice_is_idempotent() {
    let mut screen = make_screen();
    let original_len = screen.filters.len();
    let _ = update(&mut screen, Message::FilterToggled(StatusFilter::Paused));
    let _ = update(&mut screen, Message::FilterToggled(StatusFilter::Paused));
    assert_eq!(screen.filters.len(), original_len);
}

#[test]
fn torrent_right_clicked_opens_context_menu() {
    let mut screen = make_screen();
    screen.torrents = vec![make_torrent(3, "Fedora")];
    let _ = update(&mut screen, Message::TorrentRightClicked(3));
    assert_eq!(screen.context_menu, Some(3));
    assert_eq!(screen.selected_ids, vec![3]);
}

#[test]
fn dismiss_context_menu_clears_state() {
    let mut screen = make_screen();
    screen.context_menu = Some(1);
    let _ = update(&mut screen, Message::DismissContextMenu);
    assert!(screen.context_menu.is_none());
}

#[test]
fn context_menu_delete_dismisses_and_confirms() {
    let mut screen = make_screen();
    screen.torrents = vec![make_torrent(7, "Arch")];
    screen.selected_ids = [7].into_iter().collect();
    screen.context_menu = Some(7);
    let _ = update(&mut screen, Message::ContextMenuDelete);
    assert!(screen.context_menu.is_none());
    assert!(matches!(
        screen.confirming_delete,
        Some((ref ids, false)) if ids.contains(&7)
    ));
}

#[test]
fn open_set_location_opens_dialog_with_prefill() {
    let mut screen = make_screen();
    screen.torrents = vec![TorrentData {
        id: 9,
        name: "Arch".to_owned(),
        status: 0,
        download_dir: "/data/torrents".to_owned(),
        ..Default::default()
    }];
    screen.selected_ids = [9].into_iter().collect();
    screen.context_menu = Some(9);
    let _ = update(&mut screen, Message::OpenSetLocation);
    assert!(screen.context_menu.is_none());
    let dlg = screen.set_location_dialog.expect("dialog should be open");
    assert!(dlg.ids.contains(&9));
    assert_eq!(dlg.path, "/data/torrents");
    assert!(dlg.move_data, "move_data defaults to true");
}

#[test]
fn context_menu_start_dismisses_and_enqueues() {
    let mut screen = make_screen();
    screen.selected_ids = [4].into_iter().collect();
    screen.context_menu = Some(4);
    let fx = update(&mut screen, Message::ContextMenuStart);
    assert!(screen.context_menu.is_none());
    assert!(screen.is_loading);
    assert!(matches!(fx.as_slice(), [Effect::Enqueue(RpcWork::TorrentStart { ids, .. })] if ids == &vec![4]));
}

#[test]
fn context_menu_pause_dismisses_and_enqueues() {
    let mut screen = make_screen();
    screen.selected_ids = [5].into_iter().collect();
    screen.context_menu = Some(5);
    let fx = update(&mut screen, Message::ContextMenuPause);
    assert!(screen.context_menu.is_none());
    assert!(screen.is_loading);
    assert!(matches!(fx.as_slice(), [Effect::Enqueue(RpcWork::TorrentStop { ids, .. })] if ids == &vec![5]));
}

#[test]
fn set_location_path_changed_updates_path() {
    let mut screen = make_screen();
    screen.set_location_dialog =
        Some(SetLocationDialog { ids: vec![1], path: "/old".to_owned(), move_data: true });
    let _ = update(&mut screen, Message::SetLocationPathChanged("/new/path".to_owned()));
    let dlg = screen.set_location_dialog.unwrap();
    assert_eq!(dlg.path, "/new/path");
}

#[test]
fn set_location_move_toggled_flips_flag() {
    let mut screen = make_screen();
    screen.set_location_dialog =
        Some(SetLocationDialog { ids: vec![1], path: String::new(), move_data: true });
    let _ = update(&mut screen, Message::SetLocationMoveToggled);
    assert!(!screen.set_location_dialog.as_ref().unwrap().move_data);
    let _ = update(&mut screen, Message::SetLocationMoveToggled);
    assert!(screen.set_location_dialog.as_ref().unwrap().move_data);
}

#[test]
fn set_location_cancel_closes_dialog() {
    let mut screen = make_screen();
    screen.set_location_dialog =
        Some(SetLocationDialog { ids: vec![2], path: "/some/path".to_owned(), move_data: false });
    let fx = update(&mut screen, Message::SetLocationCancel);
    assert!(screen.set_location_dialog.is_none());
    assert!(!screen.is_loading, "cancel must not trigger any RPC");
    assert!(fx.is_empty());
}

#[test]
fn set_location_apply_closes_dialog_with_valid_path() {
    let mut screen = make_screen();
    screen.set_location_dialog =
        Some(SetLocationDialog { ids: vec![3], path: "/valid/path".to_owned(), move_data: true });
    let fx = update(&mut screen, Message::SetLocationApply);
    assert!(screen.set_location_dialog.is_none());
    match fx.as_slice() {
        [Effect::Enqueue(RpcWork::SetLocation { ids, location, move_data, .. })] => {
            assert_eq!(ids, &vec![3]);
            assert_eq!(location, "/valid/path");
            assert!(*move_data);
        }
        other => panic!("expected a set-location request, got {other:?}"),
    }
}

#[test]
fn set_location_apply_noop_with_empty_path() {
    let mut screen = make_screen();
    screen.set_location_dialog =
        Some(SetLocationDialog { ids: vec![3], path: "  ".to_owned(), move_data: true });
    let fx = update(&mut screen, Message::SetLocationApply);
    assert!(screen.set_location_dialog.is_none());
    assert!(!screen.is_loading);
    assert!(fx.is_empty());
}

#[test]
fn cmd_click_creates_multi_select_and_selected_torrent_returns_none() {
    let mut screen = make_screen();
    screen.torrents = vec![make_torrent(1, "A"), make_torrent(2, "B")];

    let _ = update(&mut screen, Message::TorrentSelected(1));
    assert_eq!(screen.selected_ids.len(), 1);
    assert!(screen.selected_torrent().is_some());

    screen.modifiers = command();
    let _ = update(&mut screen, Message::TorrentSelected(2));
    assert!(screen.selected_ids.contains(&1));
    assert!(screen.selected_ids.contains(&2));
    assert_eq!(screen.selected_ids.len(), 2);

    assert!(screen.selected_torrent().is_none(), "selected_torrent() must be None for multi-select");
}

#[test]
fn cmd_click_deselects_already_selected_torrent() {
    let mut screen = make_screen();
    screen.torrents = vec![make_torrent(1, "A"), make_torrent(2, "B")];
    screen.selected_ids = [1, 2].into_iter().collect();
    screen.selection_anchor = Some(1);

    screen.modifiers = command();
    let _ = update(&mut screen, Message::TorrentSelected(2));
    assert_eq!(screen.selected_ids.len(), 1);
    assert!(!screen.selected_ids.contains(&2));
}

#[test]
fn filter_toggle_prunes_hidden_torrent_from_selection() {
    let mut screen = make_screen();
    screen.torrents = vec![with_status(1, "Seeder", 6), with_status(2, "Paused", 0)];
    screen.selected_ids = [1, 2].into_iter().collect();
    screen.selection_anchor = Some(2);

    let _ = update(&mut screen, Message::FilterToggled(StatusFilter::Paused));

    assert!(screen.selected_ids.contains(&1), "visible torrent stays selected");
    assert!(!screen.selected_ids.contains(&2), "hidden torrent must be pruned from selection");
    assert_eq!(
        screen.selection_anchor, None,
        "anchor must be cleared when the anchor torrent is filtered out"
    );
}

#[test]
fn filter_all_clicked_prunes_selection_to_visible() {
    let mut screen = make_screen();
    screen.torrents = vec![with_status(1, "Seeder", 6), with_status(2, "Downloader", 4)];
    screen.filters = FilterSet::from_filters(&[StatusFilter::Seeding]);
    screen.selected_ids = [1, 2].into_iter().collect();
    screen.selection_anchor = Some(2);

    let _ = update(&mut screen, Message::FilterAllClicked);
    assert_eq!(
        screen.filters.len(),
        StatusFilter::all().len(),
        "all filters activated means full visibility"
    );
    assert!(screen.selected_ids.contains(&1));
    assert!(screen.selected_ids.contains(&2));
}

#[test]
fn torrents_updated_removes_deleted_torrent_from_selection() {
    let mut screen = make_screen();
    screen.torrents = vec![make_torrent(10, "Gone"), make_torrent(11, "Here")];
    screen.selected_ids = [10, 11].into_iter().collect();
    screen.selection_anchor = Some(10);

    let new_torrents = vec![make_torrent(11, "Here")];
    let _ = update(&mut screen, Message::TorrentsUpdated(Ok(new_torrents)));

    assert!(!screen.selected_ids.contains(&10), "removed torrent must be pruned from selection");
    assert!(screen.selected_ids.contains(&11), "surviving torrent stays selected");
    assert_eq!(
        screen.selection_anchor, None,
        "anchor must be cleared when the anchor torrent disappears"
    );
}

#[test]
fn prune_selection_to_visible_removes_filtered_ids() {
    let mut screen = make_screen();
    screen.torrents = vec![with_status(1, "Seeder", 6), with_status(2, "Paused", 0)];
    screen.selected_ids = [1, 2].into_iter().collect();
    screen.selection_anchor = Some(2);
    screen.filters = FilterSet::from_filters(&[StatusFilter::Seeding]);

    screen.prune_selection_to_visible();

    assert!(screen.selected_ids.contains(&1));
    assert!(!screen.selected_ids.contains(&2));
    assert_eq!(screen.selection_anchor, None);
}

#[test]
fn shift_click_range_respects_filter() {
    let mut screen = make_screen();
    screen.torrents = vec![
        with_status(1, "S1", 6),
        with_status(2, "P1", 0),
        with_status(3, "S2", 6),
        with_status(4, "P2", 0),
        with_status(5, "S3", 6),
    ];
    screen.filters = FilterSet::from_filters(&[StatusFilter::Seeding]);

    let _ = update(&mut screen, Message::TorrentSelected(1));
    assert_eq!(screen.selection_anchor, Some(1));

    screen.modifiers = shift();
    let _ = update(&mut screen, Message::TorrentSelected(5));
    assert!(screen.selected_ids.contains(&1));
    assert!(screen.selected_ids.contains(&3));
    assert!(screen.selected_ids.contains(&5));
    assert!(!screen.selected_ids.contains(&2));
    assert!(!screen.selected_ids.contains(&4));
}

#[test]
fn keyboard_select_all_only_selects_visible() {
    let mut screen = make_screen();
    screen.torrents = vec![with_status(1, "Seeder", 6), with_status(2, "Paused", 0)];
    screen.filters = FilterSet::from_filters(&[StatusFilter::Seeding]);

    let _ = update(&mut screen, Message::KeyboardSelectAll);

    assert!(screen.selected_ids.contains(&1), "visible torrent must be selected");
    assert!(!screen.selected_ids.contains(&2), "filtered-out torrent must not be selected by Cmd+A");
}

#[test]
fn button_enable_state_logic() {
    for status in [3i32, 4, 5, 6] {
        let mut screen = make_screen();
        screen.torrents = vec![with_status(1, "t", status)];
        screen.selected_ids = vec![1];
        assert!(toolbar_actions(&screen).can_pause, "status {status} should allow pause");
    }
    for status in [0i32, 1, 2] {
        let mut screen = make_screen();
        screen.torrents = vec![with_status(1, "t", status)];
        screen.selected_ids = vec![1];
        assert!(!toolbar_actions(&screen).can_pause, "status {status} should not allow pause");
    }
    let mut screen = make_screen();
    screen.torrents = vec![with_status(1, "t", 0)];
    screen.selected_ids = vec![1];
    assert!(toolbar_actions(&screen).can_resume, "status 0 should allow resume");
}

#[test]
fn shift_click_range_follows_sort_order_and_keeps_anchor() {
    let mut screen = make_screen();
    screen.torrents = vec![
        with_status(1, "delta", 6),
        with_status(2, "alpha", 6),
        with_status(3, "charlie", 6),
        with_status(4, "bravo", 6),
    ];
    screen.sort_column = Some(SortColumn::Name);
    let _ = update(&mut screen, Message::TorrentSelected(4));
    screen.modifiers = shift();
    let _ = update(&mut screen, Message::TorrentSelected(1));
    // display order: alpha(2), bravo(4), charlie(3), delta(1)
    assert_eq!(screen.selected_ids, vec![4, 3, 1]);
    assert_eq!(screen.selection_anchor, Some(4));
}

#[test]
fn shift_click_without_visible_anchor_selects_only_target() {
    let mut screen = make_screen();
    screen.torrents = vec![with_status(1, "a", 6), with_status(2, "b", 6)];
    screen.selection_anchor = Some(99);
    screen.modifiers = shift();
    let _ = update(&mut screen, Message::TorrentSelected(2));
    assert_eq!(screen.selected_ids, vec![2]);
    assert_eq!(screen.selection_anchor, Some(2));
}

#[test]
fn keyboard_select_all_sets_anchor_to_first_visible() {
    let mut screen = make_screen();
    screen.torrents = vec![with_status(1, "b", 6), with_status(2, "a", 6)];
    screen.sort_column = Some(SortColumn::Name);
    screen.selected_ids = vec![1];
    let _ = update(&mut screen, Message::KeyboardSelectAll);
    assert_eq!(screen.selected_ids, vec![1, 2]);
    assert_eq!(screen.selection_anchor, Some(2));
}

#[test]
fn torrent_file_read_cancelled_sets_no_error() {
    let mut screen = make_screen();
    let _ = update(&mut screen, Message::TorrentFileRead(Err("cancelled".to_owned())));
    assert!(screen.error.is_none());
    let _ = update(&mut screen, Message::TorrentFileRead(Err("bad bencode".to_owned())));
    assert_eq!(screen.error.as_deref(), Some("Could not open torrent file: bad bencode"));
}

#[test]
fn add_confirmed_file_sends_unwanted_and_moves_to_next() {
    let mut screen = make_screen();
    let mut queue = VecDeque::new();
    queue.push_back(FileReadResult {
        metainfo_b64: "first".to_owned(),
        files: vec![
            TorrentFileInfo { path: "a".to_owned(), size_bytes: 1 },
            TorrentFileInfo { path: "b".to_owned(), size_bytes: 2 },
            TorrentFileInfo { path: "c".to_owned(), size_bytes: 3 },
        ],
    });
    queue.push_back(FileReadResult {
        metainfo_b64: "second".to_owned(),
        files: vec![TorrentFileInfo { path: "d".to_owned(), size_bytes: 4 }],
    });
    screen.recent_download_paths = vec!["/recent".to_owned()];
    let fx = update(&mut screen, Message::TorrentFileRead(Ok(queue)));
    assert!(matches!(fx.as_slice(), [Effect::FocusDestinationInput]));
    let _ = update(&mut screen, Message::AddDialogFileToggled(0));
    let _ = update(&mut screen, Message::AddDialogFileToggled(2));
    let _ = update(&mut screen, Message::AddDialogDestinationChanged("/dest".to_owned()));
    let fx = update(&mut screen, Message::AddConfirmed);
    match fx.as_slice() {
        [Effect::Enqueue(RpcWork::TorrentAdd { files_unwanted, download_dir, .. }), Effect::ProfilePathUsed(p)] => {
            assert_eq!(files_unwanted, &vec![0, 2]);
            assert_eq!(download_dir.as_deref(), Some("/dest"));
            assert_eq!(p, "/dest");
        }
        other => panic!("unexpected effects {other:?}"),
    }
    match &screen.add_dialog {
        AddDialogState::AddFile { metainfo_b64, destination, selected, total_count, .. } => {
            assert_eq!(metainfo_b64, "second");
            assert_eq!(destination, "/dest");
            assert_eq!(selected, &vec![true]);
            assert_eq!(*total_count, 2);
        }
        other => panic!("expected the second torrent, got {other:?}"),
    }
    let _ = update(&mut screen, Message::AddCancelThis);
    assert!(matches!(screen.add_dialog, AddDialogState::Hidden));
}

#[test]
fn pause_without_selection_sends_nothing() {
    let mut screen = make_screen();
    let fx = update(&mut screen, Message::PauseClicked);
    assert!(fx.is_empty());
    assert!(!screen.is_loading);
    screen.selected_ids = vec![3, 1];
    let fx = update(&mut screen, Message::ResumeClicked);
    assert!(matches!(fx.as_slice(), [Effect::Enqueue(RpcWork::TorrentStart { ids, .. })] if ids == &vec![3, 1]));
}

#[test]
fn cmd_click_twice_restores_selection() {
    let mut screen = make_screen();
    screen.torrents = vec![make_torrent(1, "A"), make_torrent(2, "B"), make_torrent(3, "C")];
    screen.selected_ids = vec![1, 2];
    screen.modifiers = command();
    let _ = update(&mut screen, Message::TorrentSelected(1));
    let _ = update(&mut screen, Message::TorrentSelected(1));
    let mut ids = screen.selected_ids.clone();
    ids.sort();
    assert_eq!(ids, vec![1, 2]);
    let _ = update(&mut screen, Message::TorrentSelected(3));
    let _ = update(&mut screen, Message::TorrentSelected(3));
    let mut ids = screen.selected_ids.clone();
    ids.sort();
    assert_eq!(ids, vec![1, 2]);
    assert_eq!(screen.selection_anchor, Some(3));
}

#[test]
fn dialog_keys_only_while_dialog_shown() {
    let none = KeyModifiers::default();
    assert!(dialog_key_message(&AddDialogState::Hidden, &KeyPress::Tab, none, false).is_none());
    let d = add_link("magnet:?x");
    assert!(matches!(
        dialog_key_message(&d, &KeyPress::Tab, shift(), false),
        Some(Message::DialogTabKeyPressed { shift: true })
    ));
    assert!(matches!(
        dialog_key_message(&d, &KeyPress::Enter, none, false),
        Some(Message::DialogEnterPressed)
    ));
    let ctrl = KeyModifiers { control: true, ..KeyModifiers::default() };
    assert!(dialog_key_message(&d, &KeyPress::Enter, ctrl, false).is_none());
    assert!(dialog_key_message(&d, &KeyPress::Enter, none, true).is_none());
    assert!(dialog_key_message(&d, &KeyPress::Other, none, false).is_none());
}

#[test]
fn select_all_shortcut() {
    assert!(is_select_all_key(&KeyPress::Character("a".to_owned()), command()));
    let ctrl = KeyModifiers { control: true, ..KeyModifiers::default() };
    assert!(is_select_all_key(&KeyPress::Character("a".to_owned()), ctrl));
    assert!(!is_select_all_key(&KeyPress::Character("a".to_owned()), KeyModifiers::default()));
    assert!(!is_select_all_key(&KeyPress::Character("b".to_owned()), command()));
    assert!(!is_select_all_key(&KeyPress::Tab, command()));
}

#[test]
fn torrent_list_torrent_selected_toggles() {
    let mut screen = make_screen();
    screen.torrents = vec![make_torrent(1, "A"), make_torrent(2, "B")];

    let _ = update(&mut screen, Message::TorrentSelected(1));
    assert_eq!(screen.selected_ids, vec![1]);

    let _ = update(&mut screen, Message::TorrentSelected(2));
    assert_eq!(screen.selected_ids, vec![2]);

    let _ = update(&mut screen, Message::TorrentSelected(2));
    assert!(screen.selected_ids.is_empty());
}

#[test]
fn list_body_placeholders() {
    let mut screen = make_screen();
    assert_eq!(list_body(&screen), ListBody::Rows, "first poll still running");
    screen.initial_load_done = true;
    assert_eq!(list_body(&screen), ListBody::NoTorrents);
    screen.torrents = vec![with_status(1, "Paused", 0)];
    assert_eq!(list_body(&screen), ListBody::Rows);
    let _ = update(&mut screen, Message::FilterToggled(StatusFilter::Paused));
    assert_eq!(list_body(&screen), ListBody::NoMatch);
}

#[test]
fn highlighted_rows() {
    let mut screen = make_screen();
    screen.torrents = vec![make_torrent(1, "A"), make_torrent(2, "B")];
    screen.selected_ids = vec![1];
    screen.context_menu = Some(2);
    assert!(is_row_highlighted(&screen, 1));
    assert!(is_row_highlighted(&screen, 2));
    assert!(!is_row_highlighted(&screen, 3));
}

#[test]
fn delete_dialog_titles() {
    let torrents = vec![make_torrent(1, "Ubuntu ISO"), make_torrent(2, "B")];
    assert_eq!(clutch::torrent_list::delete_dialog_title(&vec![1], &torrents), "Delete \"Ubuntu ISO\"?");
    assert_eq!(clutch::torrent_list::delete_dialog_title(&vec![9], &torrents), "Delete \"this torrent\"?");
    assert_eq!(clutch::torrent_list::delete_dialog_title(&vec![1, 2], &torrents), "Delete 2 torrents?");
    assert_eq!(clutch::torrent_list::delete_dialog_title(&vec![], &torrents), "Delete 0 torrents?");
}

#[test]
fn add_dialog_titles_and_cancel_rows() {
    let link = add_link("");
    assert_eq!(add_dialog_title(&link), "Add Link");
    assert!(!has_pending_torrents(&link));
    let single = add_file("QQ==", vec![true], "");
    assert_eq!(add_dialog_title(&single), "Add Torrent");
    let mut queue = VecDeque::new();
    queue.push_back(FileReadResult { metainfo_b64: "x".to_owned(), files: vec![] });
    let multi = AddDialogState::AddFile {
        metainfo_b64: "QQ==".to_owned(),
        files: vec![TorrentFileInfo { path: "a".to_owned(), size_bytes: 1 }],
        selected: vec![true],
        destination: String::new(),
        error: None,
        pending_torrents: queue,
        is_dropdown_open: false,
        total_count: 3,
    };
    assert_eq!(add_dialog_title(&multi), "Add Torrent (2 of 3)");
    assert!(has_pending_torrents(&multi));
}

#[test]
fn worker_reports_rotation_before_outcome() {
    let msgs = clutch::torrent_list::worker_messages(
        Some("new-sid".to_owned()),
        clutch::torrent_list::RpcOutcome::ActionDone(Ok(())),
    );
    assert_eq!(msgs.len(), 2);
    assert!(matches!(&msgs[0], Message::SessionIdRotated(id) if id == "new-sid"));
    assert!(matches!(&msgs[1], Message::ActionCompleted(Ok(()))));
    let msgs = clutch::torrent_list::worker_messages(
        None,
        clutch::torrent_list::RpcOutcome::TorrentsLoaded(Err("down".to_owned())),
    );
    assert_eq!(msgs.len(), 1);
    assert!(matches!(&msgs[0], Message::TorrentsUpdated(Err(e)) if e == "down"));
    let msgs = clutch::torrent_list::worker_messages(
        None,
        clutch::torrent_list::RpcOutcome::TorrentAdded(Ok(())),
    );
    assert!(matches!(msgs.as_slice(), [Message::AddCompleted(Ok(()))]));
}
