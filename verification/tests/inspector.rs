use std::collections::HashMap;

use clutch::inspector::{
    aggregate_check_state, effective_wanted, select_all_message, update, ActiveTab,
    InspectorBulkOptionsState,
    InspectorOptionsState, InspectorScreen, Message,
};
use clutch::theme::CheckState;
use clutch::torrent::{FileStat, TorrentData};

#[test]
fn inspector_tab_selected_updates_active() {
    let mut screen = InspectorScreen::new();
    assert_eq!(screen.active_tab, ActiveTab::General);

    let _ = update(&mut screen, Message::TabSelected(ActiveTab::Files));
    assert_eq!(screen.active_tab, ActiveTab::Files);

    let _ = update(&mut screen, Message::TabSelected(ActiveTab::Trackers));
    assert_eq!(screen.active_tab, ActiveTab::Trackers);

    let _ = update(&mut screen, Message::TabSelected(ActiveTab::Peers));
    assert_eq!(screen.active_tab, ActiveTab::Peers);

    let _ = update(&mut screen, Message::TabSelected(ActiveTab::General));
    assert_eq!(screen.active_tab, ActiveTab::General);
}

#[test]
fn inspector_file_wanted_toggled_updates_pending() {
    let mut screen = InspectorScreen::new();
    let _ = update(
        &mut screen,
        Message::FileWantedToggled { torrent_id: 1, file_index: 2, wanted: false },
    );
    assert_eq!(screen.pending_wanted.get(&2), Some(&false));
    assert!(!screen.pending_wanted.contains_key(&0));
}

#[test]
fn inspector_file_wanted_set_success_clears_only_specified_indices() {
    let mut screen = InspectorScreen::new();
    screen.pending_wanted.insert(0, true);
    screen.pending_wanted.insert(1, false);
    screen.pending_wanted.insert(2, true);

    let _ = update(&mut screen, Message::FileWantedSetSuccess { indices: vec![0, 2] });

    assert!(!screen.pending_wanted.contains_key(&0), "index 0 should be cleared");
    assert!(!screen.pending_wanted.contains_key(&2), "index 2 should be cleared");
    assert_eq!(screen.pending_wanted.get(&1), Some(&false), "index 1 must remain untouched");
}

#[test]
fn inspector_all_files_wanted_toggled_populates_all_indices() {
    let mut screen = InspectorScreen::new();
    let _ = update(
        &mut screen,
        Message::AllFilesWantedToggled { torrent_id: 7, file_count: 4, wanted: false },
    );
    for i in 0..4 {
        assert_eq!(screen.pending_wanted.get(&i), Some(&false), "index {i} should be set to false");
    }
}

#[test]
fn inspector_poll_does_not_clear_pending_wanted() {
    let mut screen = InspectorScreen::new();
    screen.pending_wanted.insert(5, true);

    let _ = update(&mut screen, Message::TabSelected(ActiveTab::Files));

    assert_eq!(
        screen.pending_wanted.get(&5),
        Some(&true),
        "pending_wanted must not be cleared by unrelated messages"
    );
}

#[test]
fn mod_tab_selected_updates_active() {
    let mut screen = InspectorScreen::new();
    assert_eq!(screen.active_tab, ActiveTab::General);

    let _ = update(&mut screen, Message::TabSelected(ActiveTab::Files));
    assert_eq!(screen.active_tab, ActiveTab::Files);

    let _ = update(&mut screen, Message::TabSelected(ActiveTab::Trackers));
    assert_eq!(screen.active_tab, ActiveTab::Trackers);

    let _ = update(&mut screen, Message::TabSelected(ActiveTab::Peers));
    assert_eq!(screen.active_tab, ActiveTab::Peers);

    let _ = update(&mut screen, Message::TabSelected(ActiveTab::General));
    assert_eq!(screen.active_tab, ActiveTab::General);
}

#[test]
fn mod_file_wanted_toggled_updates_pending() {
    let mut screen = InspectorScreen::new();
    let _ = update(
        &mut screen,
        Message::FileWantedToggled { torrent_id: 1, file_index: 2, wanted: false },
    );
    assert_eq!(screen.pending_wanted.get(&2), Some(&false));
    assert!(!screen.pending_wanted.contains_key(&0));
}

#[test]
fn mod_file_wanted_set_success_clears_only_specified_indices() {
    let mut screen = InspectorScreen::new();
    screen.pending_wanted.insert(0, true);
    screen.pending_wanted.insert(1, false);
    screen.pending_wanted.insert(2, true);

    let _ = update(&mut screen, Message::FileWantedSetSuccess { indices: vec![0, 2] });

    assert!(!screen.pending_wanted.contains_key(&0), "index 0 should be cleared");
    assert!(!screen.pending_wanted.contains_key(&2), "index 2 should be cleared");
    assert_eq!(screen.pending_wanted.get(&1), Some(&false), "index 1 must remain untouched");
}

#[test]
fn mod_all_files_wanted_toggled_populates_all_indices() {
    let mut screen = InspectorScreen::new();
    let _ = update(
        &mut screen,
        Message::AllFilesWantedToggled { torrent_id: 7, file_count: 4, wanted: false },
    );
    for i in 0..4 {
        assert_eq!(screen.pending_wanted.get(&i), Some(&false), "index {i} should be set to false");
    }
}

#[test]
fn mod_poll_does_not_clear_pending_wanted() {
    let mut screen = InspectorScreen::new();
    screen.pending_wanted.insert(5, true);

    let _ = update(&mut screen, Message::TabSelected(ActiveTab::Files));

    assert_eq!(
        screen.pending_wanted.get(&5),
        Some(&true),
        "pending_wanted must not be cleared by unrelated messages"
    );
}

#[test]
fn options_from_torrent_copies_bandwidth_fields() {
    let t = TorrentData {
        id: 3,
        download_limited: true,
        download_limit: 800,
        upload_limited: false,
        upload_limit: -1,
        seed_ratio_mode: 1,
        seed_ratio_limit_text: "1.50".to_owned(),
        honors_session_limits: true,
        ..Default::default()
    };
    let o = InspectorOptionsState::from_torrent(&t);
    assert!(o.download_limited);
    assert_eq!(o.download_limit_val, "800");
    assert!(!o.upload_limited);
    assert_eq!(o.upload_limit_val, "-1");
    assert_eq!(o.ratio_mode, 1);
    assert_eq!(o.ratio_limit_val, "1.50");
    assert!(o.honors_session_limits);
}

#[test]
fn new_screen_is_empty() {
    let s = InspectorScreen::new();
    assert_eq!(s.active_tab, ActiveTab::General);
    assert!(s.pending_wanted.is_empty());
    assert_eq!(s.options.ratio_mode, 0);
    assert!(s.bulk_options.download_limited.is_none());
    assert!(s.bulk_options.ratio_mode.is_none());
}

#[test]
fn limit_text_accepts_digits_only() {
    let mut s = InspectorScreen::new();
    update(&mut s, Message::OptionsDownloadLimitChanged("120".to_owned()));
    assert_eq!(s.options.download_limit_val, "120");
    update(&mut s, Message::OptionsDownloadLimitChanged("12a".to_owned()));
    assert_eq!(s.options.download_limit_val, "120", "non-digit input is refused");
    update(&mut s, Message::OptionsDownloadLimitChanged(String::new()));
    assert_eq!(s.options.download_limit_val, "", "empty input is accepted");
    update(&mut s, Message::BulkUploadLimitChanged("7".to_owned()));
    assert_eq!(s.bulk_options.upload_limit_val, "7");
    update(&mut s, Message::BulkUploadLimitChanged("-7".to_owned()));
    assert_eq!(s.bulk_options.upload_limit_val, "7");
}

#[test]
fn ratio_text_allows_one_decimal_point() {
    let mut s = InspectorScreen::new();
    update(&mut s, Message::OptionsRatioLimitChanged("2.5".to_owned()));
    assert_eq!(s.options.ratio_limit_val, "2.5");
    update(&mut s, Message::OptionsRatioLimitChanged("2.5.1".to_owned()));
    assert_eq!(s.options.ratio_limit_val, "2.5", "a second point is refused");
    update(&mut s, Message::BulkRatioLimitChanged(".".to_owned()));
    assert_eq!(s.bulk_options.ratio_limit_val, ".");
}

#[test]
fn bulk_toggles_record_explicit_choices() {
    let mut s = InspectorScreen::new();
    update(&mut s, Message::BulkDownloadLimitToggled(false));
    update(&mut s, Message::BulkRatioModeChanged(2));
    update(&mut s, Message::BulkHonorGlobalToggled(true));
    assert_eq!(s.bulk_options.download_limited, Some(false));
    assert_eq!(s.bulk_options.ratio_mode, Some(2));
    assert_eq!(s.bulk_options.honors_session_limits, Some(true));
    assert!(s.bulk_options.upload_limited.is_none());
}

#[test]
fn submit_messages_change_nothing() {
    let mut s = InspectorScreen::new();
    s.options.download_limit_val = "5".to_owned();
    update(&mut s, Message::OptionsDownloadLimitSubmitted);
    update(&mut s, Message::BulkRatioLimitSubmitted);
    assert_eq!(s.options.download_limit_val, "5");
    assert!(!s.options.download_limited);
}

#[test]
fn untouched_bulk_draft_is_empty() {
    let b = InspectorBulkOptionsState::untouched();
    assert!(b.download_limited.is_none() && b.upload_limited.is_none());
    assert!(b.ratio_mode.is_none() && b.honors_session_limits.is_none());
    assert!(b.download_limit_val.is_empty() && b.ratio_limit_val.is_empty());
}

#[test]
fn effective_wanted_prefers_pending_then_stats_then_true() {
    let mut pending = HashMap::new();
    pending.insert(0usize, false);
    let stats = vec![FileStat { wanted: true }, FileStat { wanted: false }];
    let w = effective_wanted(&pending, &stats, 3);
    assert_eq!(w, vec![false, false, true]);
}

#[test]
fn aggregate_check_state_of_wanted_flags() {
    assert_eq!(aggregate_check_state(&[true, true]), CheckState::Checked);
    assert_eq!(aggregate_check_state(&[false, false]), CheckState::Unchecked);
    assert_eq!(aggregate_check_state(&[true, false]), CheckState::Mixed);
    assert_eq!(aggregate_check_state(&[]), CheckState::Checked);
}

#[test]
fn select_all_click_wants_all_unless_unchecking() {
    match select_all_message(3, 5, CheckState::Mixed) {
        Message::AllFilesWantedToggled { torrent_id, file_count, wanted } => {
            assert_eq!((torrent_id, file_count, wanted), (3, 5, true));
        }
        _ => panic!("wrong message"),
    }
    assert!(matches!(
        select_all_message(3, 5, CheckState::Checked),
        Message::AllFilesWantedToggled { wanted: false, .. }
    ));
    assert!(matches!(
        select_all_message(3, 5, CheckState::Unchecked),
        Message::AllFilesWantedToggled { wanted: true, .. }
    ));
}

#[test]
fn settled_call_clears_only_its_own_override() {
    let mut s = InspectorScreen::new();
    s.pending_wanted.insert(1, true);
    update(&mut s, Message::FileWantedToggled { torrent_id: 1, file_index: 4, wanted: false });
    update(&mut s, Message::FileWantedSetSuccess { indices: vec![4] });
    assert!(!s.pending_wanted.contains_key(&4));
    assert_eq!(s.pending_wanted.get(&1), Some(&true));
    assert_eq!(s.pending_wanted.len(), 1);
}

#[test]
fn bulk_mode_shows_only_options() {
    let mut s = InspectorScreen::new();
    s.active_tab = ActiveTab::Peers;
    assert_eq!(clutch::inspector::shown_tab(&s, 1), ActiveTab::Peers);
    assert_eq!(clutch::inspector::shown_tab(&s, 3), ActiveTab::Options);
    assert!(matches!(
        clutch::inspector::tab_click_message(ActiveTab::Files, 2),
        Message::TabSelected(ActiveTab::Options)
    ));
    assert!(matches!(
        clutch::inspector::tab_click_message(ActiveTab::Files, 1),
        Message::TabSelected(ActiveTab::Files)
    ));
}
