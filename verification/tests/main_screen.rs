use clutch::inspector::{self, ActiveTab};
use clutch::main_screen::{Effect, MainScreen, Message};
use clutch::rpc::{RpcWork, SessionData, TorrentBandwidthArgs, TransmissionCredentials};
use clutch::torrent::{FileStat, TorrentData};
use clutch::torrent_list::{Effect as ListEffect, Message as TLMsg};

fn make_screen() -> MainScreen {
    MainScreen::new_with_label(
        TransmissionCredentials {
            host: "localhost".to_owned(),
            port: 9091,
            username: None,
            password: None,
        },
        "test-session-id".to_owned(),
        None,
        None,
        1,
    )
}

fn make_torrent(id: i64) -> TorrentData {
    TorrentData {
        id,
        name: format!("torrent-{id}"),
        status: 4,
        percent_done_bits: 0.5f64.to_bits(),
        ..Default::default()
    }
}

fn make_bandwidth_torrent(id: i64) -> TorrentData {
    TorrentData {
        id,
        name: format!("torrent-{id}"),
        status: 4,
        percent_done_bits: 0.5f64.to_bits(),
        download_limited: true,
        download_limit: 800,
        upload_limited: true,
        upload_limit: 200,
        honors_session_limits: true,
        ..Default::default()
    }
}

/// The RPC work among the effects, in order.
fn work(fx: Vec<Effect>) -> Vec<RpcWork> {
    fx.into_iter()
        .filter_map(|e| match e {
            Effect::List(ListEffect::Enqueue(w)) => Some(w),
            _ => None,
        })
        .collect()
}

/// The `torrent-set` calls among the work.
fn bandwidth_items(work: Vec<RpcWork>) -> Vec<(Vec<i64>, TorrentBandwidthArgs)> {
    work.into_iter()
        .filter_map(|w| match w {
            RpcWork::TorrentSetBandwidth { ids, args, .. } => Some((ids, args)),
            _ => None,
        })
        .collect()
}

/// Apply the messages in order and collect all the work they ask for.
fn run(screen: &mut MainScreen, msgs: Vec<Message>) -> Vec<RpcWork> {
    let mut all = Vec::new();
    for m in msgs {
        all.extend(work(screen.update(m)));
    }
    all
}

#[test]
fn torrent_selected_resets_inspector_tab() {
    let mut screen = make_screen();
    screen.list.torrents = vec![make_torrent(1), make_torrent(2)];

    let _ = screen.update(Message::List(TLMsg::TorrentSelected(1)));
    assert!(screen.list.selected_ids.contains(&1));
    assert_eq!(screen.inspector.active_tab, ActiveTab::General);

    let _ = screen.update(Message::Inspector(inspector::Message::TabSelected(ActiveTab::Files)));
    assert_eq!(screen.inspector.active_tab, ActiveTab::Files);

    let _ = screen.update(Message::List(TLMsg::TorrentSelected(2)));
    assert!(screen.list.selected_ids.contains(&2));
    assert_eq!(
        screen.inspector.active_tab,
        ActiveTab::General,
        "tab should reset to General on new selection"
    );
}

#[test]
fn reclicking_sole_selection_deselects_and_keeps_tab() {
    let mut screen = make_screen();
    screen.list.torrents = vec![make_torrent(1)];

    let _ = screen.update(Message::List(TLMsg::TorrentSelected(1)));
    let _ = screen.update(Message::Inspector(inspector::Message::TabSelected(ActiveTab::Peers)));
    assert_eq!(screen.inspector.active_tab, ActiveTab::Peers);

    // A plain click on the sole selected row deselects it; the inspector is
    // not reset by a selection that is no longer single.
    let _ = screen.update(Message::List(TLMsg::TorrentSelected(1)));
    assert!(screen.list.selected_ids.is_empty());
    assert_eq!(screen.inspector.active_tab, ActiveTab::Peers);
}

#[test]
fn honor_global_toggle_off_sends_full_bandwidth_state() {
    let mut screen = make_screen();
    screen.list.torrents = vec![make_bandwidth_torrent(1)];
    let w = run(
        &mut screen,
        vec![
            Message::List(TLMsg::TorrentSelected(1)),
            Message::Inspector(inspector::Message::OptionsHonorGlobalToggled(false)),
        ],
    );
    let items = bandwidth_items(w);
    assert_eq!(items.len(), 1);
    let (ids, args) = &items[0];
    assert!(ids.contains(&1));
    assert_eq!(args.honors_session_limits, Some(false));
    assert_eq!(args.download_limited, Some(true));
    assert_eq!(args.download_limit, Some(800));
    assert_eq!(args.upload_limited, Some(true));
    assert_eq!(args.upload_limit, Some(200));
}

#[test]
fn honor_global_toggle_on_sends_full_bandwidth_state() {
    let mut screen = make_screen();
    let mut torrent = make_bandwidth_torrent(1);
    torrent.honors_session_limits = false;
    screen.list.torrents = vec![torrent];
    let w = run(
        &mut screen,
        vec![
            Message::List(TLMsg::TorrentSelected(1)),
            Message::Inspector(inspector::Message::OptionsHonorGlobalToggled(true)),
        ],
    );
    let (_, args) = bandwidth_items(w).into_iter().next().expect("should enqueue TorrentSetBandwidth");
    assert_eq!(args.honors_session_limits, Some(true));
    assert_eq!(args.download_limited, Some(true));
    assert_eq!(args.upload_limited, Some(true));
}

#[test]
fn download_limit_toggle_on_sends_correct_args() {
    let mut screen = make_screen();
    let mut torrent = make_bandwidth_torrent(1);
    torrent.download_limited = false;
    screen.list.torrents = vec![torrent];
    let w = run(
        &mut screen,
        vec![
            Message::List(TLMsg::TorrentSelected(1)),
            Message::Inspector(inspector::Message::OptionsDownloadLimitChanged("500".to_owned())),
            Message::Inspector(inspector::Message::OptionsDownloadLimitToggled(true)),
        ],
    );
    let (_, args) = bandwidth_items(w).into_iter().next().expect("should enqueue TorrentSetBandwidth");
    assert_eq!(args.download_limited, Some(true));
    assert_eq!(args.download_limit, Some(500));
}

#[test]
fn download_limit_toggle_off_sends_correct_args() {
    let mut screen = make_screen();
    screen.list.torrents = vec![make_bandwidth_torrent(1)];
    let w = run(
        &mut screen,
        vec![
            Message::List(TLMsg::TorrentSelected(1)),
            Message::Inspector(inspector::Message::OptionsDownloadLimitToggled(false)),
        ],
    );
    let (_, args) = bandwidth_items(w).into_iter().next().expect("should enqueue TorrentSetBandwidth");
    assert_eq!(args.download_limited, Some(false));
}

#[test]
fn download_limit_submit_noop_when_toggle_off() {
    let mut screen = make_screen();
    let mut torrent = make_bandwidth_torrent(1);
    torrent.download_limited = false;
    screen.list.torrents = vec![torrent];
    let w = run(
        &mut screen,
        vec![
            Message::List(TLMsg::TorrentSelected(1)),
            Message::Inspector(inspector::Message::OptionsDownloadLimitSubmitted),
        ],
    );
    assert_eq!(bandwidth_items(w).len(), 0, "should not enqueue RPC when toggle is off");
}

#[test]
fn upload_limit_submit_noop_when_toggle_off() {
    let mut screen = make_screen();
    let mut torrent = make_bandwidth_torrent(1);
    torrent.upload_limited = false;
    screen.list.torrents = vec![torrent];
    let w = run(
        &mut screen,
        vec![
            Message::List(TLMsg::TorrentSelected(1)),
            Message::Inspector(inspector::Message::OptionsUploadLimitSubmitted),
        ],
    );
    assert_eq!(bandwidth_items(w).len(), 0, "should not enqueue RPC when toggle is off");
}

#[test]
fn honor_off_no_per_torrent_limits_torrent_runs_uncapped() {
    let mut screen = make_screen();
    screen.list.torrents = vec![TorrentData {
        id: 1,
        name: "torrent".to_owned(),
        status: 4,
        percent_done_bits: 0.5f64.to_bits(),
        download_limited: false,
        upload_limited: false,
        honors_session_limits: true,
        ..Default::default()
    }];
    let w = run(
        &mut screen,
        vec![
            Message::List(TLMsg::TorrentSelected(1)),
            Message::Inspector(inspector::Message::OptionsHonorGlobalToggled(false)),
        ],
    );
    let (_, args) = bandwidth_items(w).into_iter().next().expect("should enqueue TorrentSetBandwidth");
    assert_eq!(args.honors_session_limits, Some(false));
    assert_eq!(args.download_limited, Some(false));
    assert_eq!(args.upload_limited, Some(false));
}

#[test]
fn honor_on_restores_session_limit_compliance() {
    let mut screen = make_screen();
    screen.list.torrents = vec![TorrentData {
        id: 1,
        name: "torrent".to_owned(),
        status: 4,
        percent_done_bits: 0.5f64.to_bits(),
        download_limited: false,
        upload_limited: false,
        honors_session_limits: false,
        ..Default::default()
    }];
    let w = run(
        &mut screen,
        vec![
            Message::List(TLMsg::TorrentSelected(1)),
            Message::Inspector(inspector::Message::OptionsHonorGlobalToggled(true)),
        ],
    );
    let (_, args) = bandwidth_items(w).into_iter().next().expect("should enqueue TorrentSetBandwidth");
    assert_eq!(args.honors_session_limits, Some(true));
}

#[test]
fn honor_off_with_per_torrent_limit_torrent_still_capped_by_own_limit() {
    let mut screen = make_screen();
    screen.list.torrents = vec![TorrentData {
        id: 1,
        name: "torrent".to_owned(),
        status: 4,
        percent_done_bits: 0.5f64.to_bits(),
        download_limited: true,
        download_limit: 300,
        upload_limited: false,
        upload_limit: 0,
        honors_session_limits: true,
        ..Default::default()
    }];
    let w = run(
        &mut screen,
        vec![
            Message::List(TLMsg::TorrentSelected(1)),
            Message::Inspector(inspector::Message::OptionsHonorGlobalToggled(false)),
        ],
    );
    let (_, args) = bandwidth_items(w).into_iter().next().expect("should enqueue TorrentSetBandwidth");
    assert_eq!(args.honors_session_limits, Some(false));
    assert_eq!(args.download_limited, Some(true));
    assert_eq!(args.download_limit, Some(300));
    assert_eq!(args.upload_limited, Some(false));
}

// ── Further behaviour ────────────────────────────────────────────────────────

#[test]
fn connect_label_is_host_and_port() {
    let s = make_screen();
    assert_eq!(s.connect_label, "localhost:9091");
    assert_eq!(s.session_poll_ticks, 0);
    assert!(s.profile_name.is_none());
}

#[test]
fn escalated_messages_become_effects() {
    let mut s = make_screen();
    assert!(matches!(s.update(Message::List(TLMsg::Disconnect)).as_slice(), [Effect::Disconnect]));
    assert!(matches!(
        s.update(Message::List(TLMsg::OpenSettingsClicked)).as_slice(),
        [Effect::OpenSettings]
    ));
    assert!(matches!(
        s.update(Message::List(TLMsg::TurtleModeToggled)).as_slice(),
        [Effect::ToggleTurtleMode]
    ));
    assert!(s.update(Message::Disconnect).is_empty());
}

#[test]
fn session_get_every_ten_seconds_worth_of_ticks() {
    // With a 5 s interval the threshold is 10 / 5 = 2 ticks.
    let mut s = make_screen();
    s.refresh_interval = 5;
    let w1 = work(s.update(Message::List(TLMsg::Tick)));
    assert!(matches!(w1.as_slice(), [RpcWork::TorrentGet(_)]));
    assert_eq!(s.session_poll_ticks, 1);
    s.list.is_loading = false;
    let w2 = work(s.update(Message::List(TLMsg::Tick)));
    assert!(matches!(w2.as_slice(), [RpcWork::SessionGet(_), RpcWork::TorrentGet(_)]));
    assert_eq!(s.session_poll_ticks, 0);
}

#[test]
fn long_interval_polls_session_on_every_tick() {
    // With a 30 s interval 10 / 30 = 0, so the threshold is 1.
    let mut s = make_screen();
    s.refresh_interval = 30;
    let w = work(s.update(Message::List(TLMsg::Tick)));
    assert!(matches!(w.as_slice(), [RpcWork::SessionGet(_), RpcWork::TorrentGet(_)]));
    assert_eq!(s.session_poll_ticks, 0);
}

#[test]
fn file_wanted_toggle_is_optimistic_and_enqueued() {
    let mut s = make_screen();
    let w = work(s.update(Message::Inspector(inspector::Message::FileWantedToggled {
        torrent_id: 4,
        file_index: 3,
        wanted: false,
    })));
    assert_eq!(s.inspector.pending_wanted.get(&3), Some(&false));
    match w.as_slice() {
        [RpcWork::SetFileWanted { torrent_id, file_indices, wanted, .. }] => {
            assert_eq!(*torrent_id, 4);
            assert_eq!(file_indices, &vec![3]);
            assert!(!*wanted);
        }
        other => panic!("unexpected work {other:?}"),
    }
}

#[test]
fn all_files_toggle_enqueues_every_index() {
    let mut s = make_screen();
    let w = work(s.update(Message::Inspector(inspector::Message::AllFilesWantedToggled {
        torrent_id: 9,
        file_count: 3,
        wanted: true,
    })));
    match w.as_slice() {
        [RpcWork::SetFileWanted { file_indices, wanted, .. }] => {
            assert_eq!(file_indices, &vec![0, 1, 2]);
            assert!(*wanted);
        }
        other => panic!("unexpected work {other:?}"),
    }
    assert_eq!(s.inspector.pending_wanted.len(), 3);
}

#[test]
fn failed_file_wanted_call_reverts_overrides() {
    let mut s = make_screen();
    s.inspector.pending_wanted.insert(1, true);
    s.inspector.pending_wanted.insert(2, false);
    let fx = s.update(Message::List(TLMsg::FileWantedSettled(false, vec![1])));
    assert!(fx.is_empty());
    assert!(!s.inspector.pending_wanted.contains_key(&1));
    assert_eq!(s.inspector.pending_wanted.get(&2), Some(&false));
}

#[test]
fn successful_file_wanted_call_polls_torrents() {
    let mut s = make_screen();
    s.inspector.pending_wanted.insert(1, true);
    let w = work(s.update(Message::List(TLMsg::FileWantedSettled(true, vec![1]))));
    assert!(matches!(w.as_slice(), [RpcWork::TorrentGet(_)]));
    assert_eq!(s.inspector.pending_wanted.get(&1), Some(&true), "kept until a poll confirms it");
}

#[test]
fn poll_confirming_override_drops_it() {
    let mut s = make_screen();
    let mut t = make_torrent(1);
    t.file_stats = vec![FileStat { wanted: true }, FileStat { wanted: true }];
    s.list.torrents = vec![t.clone()];
    let _ = s.update(Message::List(TLMsg::TorrentSelected(1)));
    s.inspector.pending_wanted.insert(0, false);
    s.inspector.pending_wanted.insert(1, false);
    // The daemon now reports file 0 unwanted, file 1 still wanted.
    t.file_stats = vec![FileStat { wanted: false }, FileStat { wanted: true }];
    let _ = s.update(Message::List(TLMsg::TorrentsUpdated(Ok(vec![t]))));
    assert!(!s.inspector.pending_wanted.contains_key(&0));
    assert_eq!(s.inspector.pending_wanted.get(&1), Some(&false));
}

#[test]
fn bulk_toggle_targets_every_selected_torrent() {
    let mut s = make_screen();
    s.list.torrents = vec![make_torrent(1), make_torrent(2)];
    s.list.selected_ids = vec![1, 2];
    s.inspector.bulk_options.download_limit_val = "64".to_owned();
    let w = work(s.update(Message::Inspector(inspector::Message::BulkDownloadLimitToggled(true))));
    let items = bandwidth_items(w);
    assert_eq!(items.len(), 1);
    assert_eq!(items[0].0, vec![1, 2]);
    assert_eq!(items[0].1.download_limited, Some(true));
    assert_eq!(items[0].1.download_limit, Some(64));
    assert_eq!(s.inspector.bulk_options.download_limited, Some(true));
}

#[test]
fn bulk_submit_needs_enabled_toggle_and_selection() {
    let mut s = make_screen();
    s.inspector.bulk_options.upload_limited = Some(true);
    let w = work(s.update(Message::Inspector(inspector::Message::BulkUploadLimitSubmitted)));
    assert!(w.is_empty(), "nothing selected");
    s.list.selected_ids = vec![5];
    s.inspector.bulk_options.upload_limit_val = "x".to_owned();
    let items = bandwidth_items(work(
        s.update(Message::Inspector(inspector::Message::BulkUploadLimitSubmitted)),
    ));
    assert_eq!(items.len(), 1);
    assert_eq!(items[0].1.upload_limit, Some(0), "an unparsable limit is sent as 0");
}

#[test]
fn entering_multi_select_resets_bulk_draft() {
    let mut s = make_screen();
    s.list.torrents = vec![make_torrent(1), make_torrent(2)];
    let _ = s.update(Message::List(TLMsg::TorrentSelected(1)));
    s.inspector.bulk_options.ratio_mode = Some(2);
    s.list.modifiers.command = true;
    let _ = s.update(Message::List(TLMsg::TorrentSelected(2)));
    assert_eq!(s.list.selected_ids.len(), 2);
    assert!(s.inspector.bulk_options.ratio_mode.is_none());
}

#[test]
fn ratio_submit_only_in_custom_mode() {
    let mut s = make_screen();
    let mut t = make_torrent(1);
    t.seed_ratio_limit_text = "1.25".to_owned();
    s.list.torrents = vec![t];
    let _ = s.update(Message::List(TLMsg::TorrentSelected(1)));
    let w = work(s.update(Message::Inspector(inspector::Message::OptionsRatioLimitSubmitted)));
    assert!(w.is_empty());
    let items = bandwidth_items(work(
        s.update(Message::Inspector(inspector::Message::OptionsRatioModeChanged(1))),
    ));
    assert_eq!(items[0].1.seed_ratio_mode, Some(1));
    assert_eq!(items[0].1.seed_ratio_limit_text.as_deref(), Some("1.25"));
    let items = bandwidth_items(work(
        s.update(Message::Inspector(inspector::Message::OptionsRatioLimitSubmitted)),
    ));
    assert_eq!(items.len(), 1);
}

#[test]
fn reconciling_overrides_never_changes_shown_flags() {
    let mut s = make_screen();
    let mut t = make_torrent(1);
    t.file_stats = vec![FileStat { wanted: true }; 3];
    s.list.torrents = vec![t.clone()];
    let _ = s.update(Message::List(TLMsg::TorrentSelected(1)));
    s.inspector.pending_wanted.insert(0, false);
    s.inspector.pending_wanted.insert(2, false);
    t.file_stats = vec![FileStat { wanted: false }, FileStat { wanted: true }, FileStat { wanted: true }];
    let before = inspector::effective_wanted(&s.inspector.pending_wanted, &t.file_stats, 3);
    let _ = s.update(Message::List(TLMsg::TorrentsUpdated(Ok(vec![t.clone()]))));
    let after = inspector::effective_wanted(&s.inspector.pending_wanted, &t.file_stats, 3);
    assert_eq!(before, after);
    assert_eq!(after, vec![false, true, false]);
    assert_eq!(s.inspector.pending_wanted.len(), 1);
}

#[test]
fn splash_label_and_tick_interval() {
    let mut s = make_screen();
    assert_eq!(s.connecting_label(), "Connecting to localhost:9091\u{2026}");
    s.profile_name = Some("NAS".to_owned());
    assert_eq!(s.connecting_label(), "Connecting to localhost:9091 (NAS)\u{2026}");
    assert_eq!(s.tick_interval_secs(), 1);
    s.refresh_interval = 0;
    assert_eq!(s.tick_interval_secs(), 1);
    s.refresh_interval = 12;
    assert_eq!(s.tick_interval_secs(), 12);
}

#[test]
fn leaving_multi_select_keeps_bulk_draft() {
    // Two IDs selected while the list is empty: a Cmd-click drops one, no
    // single torrent is shown, and the inspector stays as it was.
    let mut s = make_screen();
    s.list.selected_ids = vec![1, 2];
    s.inspector.bulk_options.honors_session_limits = Some(false);
    s.inspector.active_tab = ActiveTab::Peers;
    s.list.modifiers.command = true;
    let _ = s.update(Message::List(TLMsg::TorrentSelected(1)));
    assert_eq!(s.list.selected_ids, vec![2]);
    assert_eq!(s.inspector.bulk_options.honors_session_limits, Some(false));
    assert_eq!(s.inspector.active_tab, ActiveTab::Peers);
    let _ = s.update(Message::List(TLMsg::TorrentSelected(2)));
    assert!(s.list.selected_ids.is_empty());
    assert_eq!(s.inspector.bulk_options.honors_session_limits, Some(false));
}

#[test]
fn session_data_is_handed_up_and_errors_are_ignored() {
    let mut s = make_screen();
    let fx = s.update(Message::List(TLMsg::SessionDataLoaded(Ok(SessionData { alt_speed_enabled: true }))));
    assert!(matches!(
        fx.as_slice(),
        [Effect::SessionDataLoaded(SessionData { alt_speed_enabled: true })]
    ));
    assert!(s.update(Message::List(TLMsg::SessionDataLoaded(Err("timeout".to_owned())))).is_empty());
    assert!(s.update(Message::SessionDataLoaded(SessionData { alt_speed_enabled: false })).is_empty());
    assert!(s.list.error.is_none());
}
