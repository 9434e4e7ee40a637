use clutch::sort::{sort_torrents, SortColumn, SortDir};
use clutch::torrent::TorrentData;

fn make_torrent(id: i64, name: &str) -> TorrentData {
    TorrentData {
        id,
        name: name.to_owned(),
        status: 6,
        percent_done_bits: 1.0f64.to_bits(),
        ..Default::default()
    }
}

fn make_list() -> Vec<TorrentData> {
    vec![
        TorrentData {
            id: 1,
            name: "charlie".into(),
            status: 6,
            total_size: 300,
            rate_download: 30,
            rate_upload: 3,
            eta: 30,
            upload_ratio_bits: 0.3f64.to_bits(),
            percent_done_bits: 0.3f64.to_bits(),
            ..Default::default()
        },
        TorrentData {
            id: 2,
            name: "alpha".into(),
            status: 0,
            total_size: 100,
            rate_download: 10,
            rate_upload: 1,
            eta: 10,
            upload_ratio_bits: 0.1f64.to_bits(),
            percent_done_bits: 0.1f64.to_bits(),
            ..Default::default()
        },
        TorrentData {
            id: 3,
            name: "bravo".into(),
            status: 4,
            total_size: 200,
            rate_download: 20,
            rate_upload: 2,
            eta: 20,
            upload_ratio_bits: 0.2f64.to_bits(),
            percent_done_bits: 0.2f64.to_bits(),
            ..Default::default()
        },
    ]
}

fn ids(list: &[TorrentData], col: SortColumn, dir: SortDir) -> Vec<i64> {
    sort_torrents(list, col, dir).iter().map(|t| t.id).collect()
}

#[test]
fn sort_sort_empty_list() {
    let torrents: Vec<TorrentData> = vec![];
    assert!(sort_torrents(&torrents, SortColumn::Name, SortDir::Asc).is_empty());
}

#[test]
fn sort_sort_single_element() {
    let torrents = vec![make_torrent(1, "only")];
    let result = sort_torrents(&torrents, SortColumn::Name, SortDir::Asc);
    assert_eq!(result.len(), 1);
    assert_eq!(result[0].id, 1);
}

#[test]
fn sort_sort_by_name_asc() {
    let list = make_list();
    let result = sort_torrents(&list, SortColumn::Name, SortDir::Asc);
    let names: Vec<&str> = result.iter().map(|t| t.name.as_str()).collect();
    assert_eq!(names, ["alpha", "bravo", "charlie"]);
}

#[test]
fn sort_sort_by_name_desc() {
    let list = make_list();
    let result = sort_torrents(&list, SortColumn::Name, SortDir::Desc);
    let names: Vec<&str> = result.iter().map(|t| t.name.as_str()).collect();
    assert_eq!(names, ["charlie", "bravo", "alpha"]);
}

#[test]
fn sort_sort_by_status_asc() {
    let list = make_list();
    // status: 0, 4, 6 → ids 2, 3, 1
    assert_eq!(ids(&list, SortColumn::Status, SortDir::Asc), [2, 3, 1]);
}

#[test]
fn sort_sort_by_size_asc() {
    let list = make_list();
    assert_eq!(ids(&list, SortColumn::Size, SortDir::Asc), [2, 3, 1]);
}

#[test]
fn sort_sort_by_speed_down_asc() {
    let list = make_list();
    assert_eq!(ids(&list, SortColumn::SpeedDown, SortDir::Asc), [2, 3, 1]);
}

#[test]
fn sort_sort_by_speed_up_asc() {
    let list = make_list();
    assert_eq!(ids(&list, SortColumn::SpeedUp, SortDir::Asc), [2, 3, 1]);
}

#[test]
fn sort_sort_by_eta_asc() {
    let list = make_list();
    assert_eq!(ids(&list, SortColumn::Eta, SortDir::Asc), [2, 3, 1]);
}

#[test]
fn sort_sort_by_eta_unknown_last() {
    let mut list = make_list();
    list[0].eta = -1; // id=1 has unknown ETA
    let result = sort_torrents(&list, SortColumn::Eta, SortDir::Asc);
    assert_eq!(result.last().unwrap().id, 1);
}

#[test]
fn sort_sort_by_ratio_asc() {
    let list = make_list();
    assert_eq!(ids(&list, SortColumn::Ratio, SortDir::Asc), [2, 3, 1]);
}

#[test]
fn sort_sort_by_progress_asc() {
    let list = make_list();
    assert_eq!(ids(&list, SortColumn::Progress, SortDir::Asc), [2, 3, 1]);
}

#[test]
fn sort_sort_by_size_desc() {
    let list = make_list();
    assert_eq!(ids(&list, SortColumn::Size, SortDir::Desc), [1, 3, 2]);
}

#[test]
fn torrent_list_sort_empty_list() {
    let torrents: Vec<TorrentData> = vec![];
    assert!(sort_torrents(&torrents, SortColumn::Name, SortDir::Asc).is_empty());
}

#[test]
fn torrent_list_sort_single_element() {
    let torrents = vec![make_torrent(1, "only")];
    let result = sort_torrents(&torrents, SortColumn::Name, SortDir::Asc);
    assert_eq!(result.len(), 1);
    assert_eq!(result[0].id, 1);
}

#[test]
fn torrent_list_sort_by_name_asc() {
    let list = make_list();
    let result = sort_torrents(&list, SortColumn::Name, SortDir::Asc);
    let names: Vec<&str> = result.iter().map(|t| t.name.as_str()).collect();
    assert_eq!(names, ["alpha", "bravo", "charlie"]);
}

#[test]
fn torrent_list_sort_by_name_desc() {
    let list = make_list();
    let result = sort_torrents(&list, SortColumn::Name, SortDir::Desc);
    let names: Vec<&str> = result.iter().map(|t| t.name.as_str()).collect();
    assert_eq!(names, ["charlie", "bravo", "alpha"]);
}

#[test]
fn torrent_list_sort_by_status_asc() {
    let list = make_list();
    // status: 0, 4, 6 → ids 2, 3, 1
    assert_eq!(ids(&list, SortColumn::Status, SortDir::Asc), [2, 3, 1]);
}

#[test]
fn torrent_list_sort_by_size_asc() {
    let list = make_list();
    assert_eq!(ids(&list, SortColumn::Size, SortDir::Asc), [2, 3, 1]);
}

#[test]
fn torrent_list_sort_by_speed_down_asc() {
    let list = make_list();
    assert_eq!(ids(&list, SortColumn::SpeedDown, SortDir::Asc), [2, 3, 1]);
}

#[test]
fn torrent_list_sort_by_speed_up_asc() {
    let list = make_list();
    assert_eq!(ids(&list, SortColumn::SpeedUp, SortDir::Asc), [2, 3, 1]);
}

#[test]
fn torrent_list_sort_by_eta_asc() {
    let list = make_list();
    assert_eq!(ids(&list, SortColumn::Eta, SortDir::Asc), [2, 3, 1]);
}

#[test]
fn torrent_list_sort_by_eta_unknown_last() {
    let mut list = make_list();
    list[0].eta = -1; // id=1 has unknown ETA
    let result = sort_torrents(&list, SortColumn::Eta, SortDir::Asc);
    assert_eq!(result.last().unwrap().id, 1);
}

#[test]
fn torrent_list_sort_by_ratio_asc() {
    let list = make_list();
    assert_eq!(ids(&list, SortColumn::Ratio, SortDir::Asc), [2, 3, 1]);
}

#[test]
fn torrent_list_sort_by_progress_asc() {
    let list = make_list();
    assert_eq!(ids(&list, SortColumn::Progress, SortDir::Asc), [2, 3, 1]);
}

#[test]
fn torrent_list_sort_by_size_desc() {
    let list = make_list();
    assert_eq!(ids(&list, SortColumn::Size, SortDir::Desc), [1, 3, 2]);
}

#[test]
fn sort_is_stable_for_ties_in_both_directions() {
    let list = vec![
        TorrentData { id: 1, status: 4, ..Default::default() },
        TorrentData { id: 2, status: 0, ..Default::default() },
        TorrentData { id: 3, status: 4, ..Default::default() },
        TorrentData { id: 4, status: 0, ..Default::default() },
    ];
    assert_eq!(ids(&list, SortColumn::Status, SortDir::Asc), [2, 4, 1, 3]);
    // Descending reverses the key order but keeps tied torrents in list order.
    assert_eq!(ids(&list, SortColumn::Status, SortDir::Desc), [1, 3, 2, 4]);
}

#[test]
fn sort_by_ratio_treats_negative_and_nan_as_zero() {
    let list = vec![
        TorrentData { id: 1, upload_ratio_bits: 0.5f64.to_bits(), ..Default::default() },
        TorrentData { id: 2, upload_ratio_bits: (-1.0f64).to_bits(), ..Default::default() },
        TorrentData { id: 3, upload_ratio_bits: f64::NAN.to_bits(), ..Default::default() },
        TorrentData { id: 4, upload_ratio_bits: 0.0f64.to_bits(), ..Default::default() },
    ];
    // -1.0, NaN and 0.0 all count as 0.0 and keep their list order.
    assert_eq!(ids(&list, SortColumn::Ratio, SortDir::Asc), [2, 3, 4, 1]);
}

#[test]
fn sort_by_progress_orders_negative_values_first() {
    let list = vec![
        TorrentData { id: 1, percent_done_bits: 0.5f64.to_bits(), ..Default::default() },
        TorrentData { id: 2, percent_done_bits: (-0.25f64).to_bits(), ..Default::default() },
        TorrentData { id: 3, percent_done_bits: (-0.0f64).to_bits(), ..Default::default() },
        TorrentData { id: 4, percent_done_bits: 0.0f64.to_bits(), ..Default::default() },
        TorrentData { id: 5, percent_done_bits: (-2.0f64).to_bits(), ..Default::default() },
    ];
    // -0.0 and 0.0 tie, as `partial_cmp` says.
    assert_eq!(ids(&list, SortColumn::Progress, SortDir::Asc), [5, 2, 3, 4, 1]);
}

#[test]
fn sort_by_name_is_code_point_order() {
    let list = vec![
        TorrentData { id: 1, name: "b".into(), ..Default::default() },
        TorrentData { id: 2, name: "ab".into(), ..Default::default() },
        TorrentData { id: 3, name: "B".into(), ..Default::default() },
        TorrentData { id: 4, name: "a".into(), ..Default::default() },
        TorrentData { id: 5, name: "é".into(), ..Default::default() },
    ];
    assert_eq!(ids(&list, SortColumn::Name, SortDir::Asc), [3, 4, 2, 1, 5]);
}

#[test]
fn unknown_eta_sorts_last_in_descending_order_too() {
    let mut list = make_list();
    list[0].eta = -1; // id=1 has unknown ETA
    list.push(TorrentData { id: 4, eta: -5, ..Default::default() });
    assert_eq!(ids(&list, SortColumn::Eta, SortDir::Desc), [3, 2, 1, 4]);
    assert_eq!(ids(&list, SortColumn::Eta, SortDir::Asc), [2, 3, 1, 4]);
}

#[test]
fn descending_is_ascending_reversed_on_distinct_keys() {
    let list = make_list();
    for col in [
        SortColumn::Name,
        SortColumn::Size,
        SortColumn::SpeedDown,
        SortColumn::SpeedUp,
        SortColumn::Eta,
        SortColumn::Ratio,
        SortColumn::Progress,
    ] {
        let mut asc = ids(&list, col, SortDir::Asc);
        asc.reverse();
        assert_eq!(ids(&list, col, SortDir::Desc), asc);
    }
}
