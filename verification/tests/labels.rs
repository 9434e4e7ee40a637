use clutch::rpc::TransmissionCredentials;
use clutch::sort::{chevron_indicator, SortColumn, SortDir};
use clutch::torrent::{byte_count_label, size_unit, status_label, SizeUnit, TorrentData};
use clutch::torrent_list::{context_menu_actions, ContextMenuActions, TorrentListScreen};

#[test]
fn status_labels() {
    assert_eq!(status_label(0), "Stopped");
    assert_eq!(status_label(1), "Queued (check)");
    assert_eq!(status_label(2), "Checking");
    assert_eq!(status_label(3), "Queued");
    assert_eq!(status_label(4), "Downloading");
    assert_eq!(status_label(5), "Queued (seed)");
    assert_eq!(status_label(6), "Seeding");
    assert_eq!(status_label(7), "Unknown");
    assert_eq!(status_label(-1), "Unknown");
}

#[test]
fn chevron_only_on_active_column() {
    assert_eq!(chevron_indicator(SortColumn::Name, &Some(SortColumn::Name), SortDir::Asc), "\u{25B4}");
    assert_eq!(chevron_indicator(SortColumn::Name, &Some(SortColumn::Name), SortDir::Desc), "\u{25BE}");
    assert_eq!(chevron_indicator(SortColumn::Size, &Some(SortColumn::Name), SortDir::Asc), "");
    assert_eq!(chevron_indicator(SortColumn::Size, &None, SortDir::Desc), "");
}

#[test]
fn size_units_by_threshold() {
    assert_eq!(size_unit(0), SizeUnit::Bytes);
    assert_eq!(size_unit(1023), SizeUnit::Bytes);
    assert_eq!(size_unit(1024), SizeUnit::Kilobytes);
    assert_eq!(size_unit((1 << 20) - 1), SizeUnit::Kilobytes);
    assert_eq!(size_unit(1 << 20), SizeUnit::Megabytes);
    assert_eq!(size_unit(1 << 30), SizeUnit::Gigabytes);
    assert_eq!(size_unit(u64::MAX), SizeUnit::Gigabytes);
    assert_eq!(byte_count_label(512), "512 B");
    assert_eq!(byte_count_label(0), "0 B");
}

fn screen(torrents: Vec<TorrentData>) -> TorrentListScreen {
    let mut s = TorrentListScreen::new(
        TransmissionCredentials {
            host: "h".to_owned(),
            port: 1,
            username: None,
            password: None,
        },
        "sid".to_owned(),
    );
    s.torrents = torrents;
    s
}

fn with_status(id: i64, status: i32) -> TorrentData {
    TorrentData { id, status, ..Default::default() }
}

#[test]
fn context_menu_actions_follow_selection() {
    let mut s = screen(vec![with_status(1, 0), with_status(2, 4), with_status(3, 6)]);
    assert_eq!(context_menu_actions(&s), None);
    s.context_menu = Some(2);
    // Nothing selected: the right-clicked torrent decides.
    assert_eq!(
        context_menu_actions(&s),
        Some(ContextMenuActions { can_start: false, can_pause: true })
    );
    s.selected_ids = vec![1, 3];
    assert_eq!(
        context_menu_actions(&s),
        Some(ContextMenuActions { can_start: true, can_pause: true })
    );
    s.selected_ids = vec![3];
    assert_eq!(
        context_menu_actions(&s),
        Some(ContextMenuActions { can_start: false, can_pause: true })
    );
    s.selected_ids = vec![99];
    s.context_menu = Some(1);
    assert_eq!(
        context_menu_actions(&s),
        Some(ContextMenuActions { can_start: true, can_pause: false })
    );
}
