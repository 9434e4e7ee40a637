//! The inspector panel: per-torrent detail tabs, optimistic file-wanted
//! overrides, and the drafts of the Options tab.

use std::collections::HashMap;

use vstd::prelude::*;

use crate::text::{accepts_limit_text, accepts_ratio_text, i64_to_text, is_limit_text, is_ratio_text, signed_decimal};
use crate::theme::{next_check_state, CheckState};
use crate::torrent::{FileStat, TorrentData};

verus! {

broadcast use vstd::std_specs::hash::group_hash_axioms;

/// The currently visible inspector tab.
#[derive(Debug, Clone, Copy, PartialEq, Eq, Hash, Default, Structural)]
pub enum ActiveTab {
    #[default]
    General,
    Files,
    Trackers,
    Peers,
    Options,
}

/// Messages handled by the inspector.
#[derive(Debug)]
pub enum Message {
    TabSelected(ActiveTab),
    FileWantedToggled { torrent_id: i64, file_index: usize, wanted: bool },
    AllFilesWantedToggled { torrent_id: i64, file_count: usize, wanted: bool },
    /// The SetFileWanted RPC for these files completed (or failed): their
    /// optimistic overrides are dropped.
    FileWantedSetSuccess { indices: Vec<usize> },
    // ── Options tab ──────────────────────────────────────────────────────────
    OptionsDownloadLimitToggled(bool),
    OptionsDownloadLimitChanged(String),
    OptionsDownloadLimitSubmitted,
    OptionsUploadLimitToggled(bool),
    OptionsUploadLimitChanged(String),
    OptionsUploadLimitSubmitted,
    OptionsRatioModeChanged(u8),
    OptionsRatioLimitChanged(String),
    OptionsRatioLimitSubmitted,
    OptionsHonorGlobalToggled(bool),
    // ── Bulk Options tab (multi-select) ──────────────────────────────────────
    BulkDownloadLimitToggled(bool),
    BulkDownloadLimitChanged(String),
    BulkDownloadLimitSubmitted,
    BulkUploadLimitToggled(bool),
    BulkUploadLimitChanged(String),
    BulkUploadLimitSubmitted,
    BulkRatioModeChanged(u8),
    BulkRatioLimitChanged(String),
    BulkRatioLimitSubmitted,
    BulkHonorGlobalToggled(bool),
}

/// Local draft for the per-torrent Options tab.
/// Reset whenever a new torrent is selected.
#[derive(Debug, Default, Clone)]
pub struct InspectorOptionsState {
    pub download_limited: bool,
    pub download_limit_val: String,
    pub upload_limited: bool,
    pub upload_limit_val: String,
    /// 0 = Global, 1 = Custom, 2 = Unlimited
    pub ratio_mode: u8,
    pub ratio_limit_val: String,
    pub honors_session_limits: bool,
}

/// `s` is the Options draft of torrent `t`: its flags, its limits as
/// decimal text, and its ratio settings.
pub open spec fn options_of(s: InspectorOptionsState, t: TorrentData) -> bool {
    &&& s.download_limited == t.download_limited
    &&& s.download_limit_val@ == signed_decimal(t.download_limit as int)
    &&& s.upload_limited == t.upload_limited
    &&& s.upload_limit_val@ == signed_decimal(t.upload_limit as int)
    &&& s.ratio_mode == t.seed_ratio_mode
    &&& s.ratio_limit_val == t.seed_ratio_limit_text
    &&& s.honors_session_limits == t.honors_session_limits
}

impl InspectorOptionsState {
    /// Populate from fresh torrent data.
    pub fn from_torrent(t: &TorrentData) -> (s: InspectorOptionsState)
        ensures
            options_of(s, *t),
    {
        InspectorOptionsState {
            download_limited: t.download_limited,
            download_limit_val: i64_to_text(t.download_limit),
            upload_limited: t.upload_limited,
            upload_limit_val: i64_to_text(t.upload_limit),
            ratio_mode: t.seed_ratio_mode,
            ratio_limit_val: t.seed_ratio_limit_text.clone(),
            honors_session_limits: t.honors_session_limits,
        }
    }
}

/// Draft state for bulk-editing bandwidth options across several selected
/// torrents. `None` means "not touched by the user"; only `Some` fields are
/// sent to the daemon.
#[derive(Debug, Default, Clone)]
pub struct InspectorBulkOptionsState {
    /// Whether a custom download limit should be applied.
    pub download_limited: Option<bool>,
    pub download_limit_val: String,
    /// Whether a custom upload limit should be applied.
    pub upload_limited: Option<bool>,
    pub upload_limit_val: String,
    /// Ratio mode override: `None` = untouched, `Some(0/1/2)` = Global/Custom/Unlimited.
    pub ratio_mode: Option<u8>,
    pub ratio_limit_val: String,
    /// Honor-session-limits override.
    pub honors_session_limits: Option<bool>,
}

/// `b` holds no choice of the user: every override is `None` and every
/// text is empty.
pub open spec fn is_untouched(b: InspectorBulkOptionsState) -> bool {
    &&& b.download_limited is None
    &&& b.download_limit_val@.len() == 0
    &&& b.upload_limited is None
    &&& b.upload_limit_val@.len() == 0
    &&& b.ratio_mode is None
    &&& b.ratio_limit_val@.len() == 0
    &&& b.honors_session_limits is None
}

impl InspectorBulkOptionsState {
    /// A draft that the user has not touched.
    pub fn untouched() -> (s: InspectorBulkOptionsState)
        ensures
            is_untouched(s),
    {
        InspectorBulkOptionsState {
            download_limited: None,
            download_limit_val: String::new(),
            upload_limited: None,
            upload_limit_val: String::new(),
            ratio_mode: None,
            ratio_limit_val: String::new(),
            honors_session_limits: None,
        }
    }
}

/// State for the inspector detail panel.
#[derive(Debug, Default)]
pub struct InspectorScreen {
    pub active_tab: ActiveTab,
    /// Optimistic file-wanted overrides keyed by file index.
    /// Entries are inserted when the user toggles a checkbox and removed
    /// when the corresponding `torrent-set` RPC completes (or fails).
    pub pending_wanted: HashMap<usize, bool>,
    /// Draft state for the Options tab (single-torrent mode).
    pub options: InspectorOptionsState,
    /// Draft state for bulk-edit Options (multi-select mode).
    pub bulk_options: InspectorBulkOptionsState,
}

/// `s` is a fresh inspector: the General tab, no file overrides, an empty
/// Options draft (nothing limited, global ratio mode) and an untouched bulk
/// draft.
pub open spec fn is_fresh_inspector(s: InspectorScreen) -> bool {
    &&& s.active_tab == ActiveTab::General
    &&& s.pending_wanted@ == Map::<usize, bool>::empty()
    &&& s.options.download_limit_val@.len() == 0
    &&& s.options.upload_limit_val@.len() == 0
    &&& s.options.ratio_limit_val@.len() == 0
    &&& !s.options.download_limited && !s.options.upload_limited
    &&& s.options.ratio_mode == 0 && !s.options.honors_session_limits
    &&& is_untouched(s.bulk_options)
}

impl InspectorScreen {
    /// The General tab, no pending overrides, empty drafts.
    pub fn new() -> (s: InspectorScreen)
        ensures
            is_fresh_inspector(s),
    {
        InspectorScreen {
            active_tab: ActiveTab::General,
            pending_wanted: HashMap::new(),
            options: InspectorOptionsState {
                download_limited: false,
                download_limit_val: String::new(),
                upload_limited: false,
                upload_limit_val: String::new(),
                ratio_mode: 0,
                ratio_limit_val: String::new(),
                honors_session_limits: false,
            },
            bulk_options: InspectorBulkOptionsState::untouched(),
        }
    }
}

/// `pending` with every index below `count` set to `wanted`.
pub open spec fn all_pending(pending: Map<usize, bool>, count: usize, wanted: bool) -> Map<usize, bool> {
    pending.union_prefer_right(Map::new(|i: usize| i < count, |i: usize| wanted))
}

/// What [`update`] does with `msg`: `n` is the state after it.
pub open spec fn inspector_step(o: InspectorScreen, msg: Message, n: InspectorScreen) -> bool {
    match msg {
        Message::TabSelected(tab) => n == InspectorScreen { active_tab: tab, ..o },
        Message::FileWantedToggled { file_index, wanted, .. } => {
            &&& n == InspectorScreen { pending_wanted: n.pending_wanted, ..o }
            &&& n.pending_wanted@ == o.pending_wanted@.insert(file_index, wanted)
        },
        Message::AllFilesWantedToggled { file_count, wanted, .. } => {
            &&& n == InspectorScreen { pending_wanted: n.pending_wanted, ..o }
            &&& n.pending_wanted@ == all_pending(o.pending_wanted@, file_count, wanted)
        },
        Message::FileWantedSetSuccess { indices } => {
            &&& n == InspectorScreen { pending_wanted: n.pending_wanted, ..o }
            &&& n.pending_wanted@ == o.pending_wanted@.remove_keys(indices@.to_set())
        },
        Message::OptionsDownloadLimitToggled(v) => n == InspectorScreen {
            options: InspectorOptionsState { download_limited: v, ..o.options },
            ..o
        },
        Message::OptionsDownloadLimitChanged(v) => n == if is_limit_text(v@) {
            InspectorScreen {
                options: InspectorOptionsState { download_limit_val: v, ..o.options },
                ..o
            }
        } else {
            o
        },
        Message::OptionsUploadLimitToggled(v) => n == InspectorScreen {
            options: InspectorOptionsState { upload_limited: v, ..o.options },
            ..o
        },
        Message::OptionsUploadLimitChanged(v) => n == if is_limit_text(v@) {
            InspectorScreen {
                options: InspectorOptionsState { upload_limit_val: v, ..o.options },
                ..o
            }
        } else {
            o
        },
        Message::OptionsRatioModeChanged(v) => n == InspectorScreen {
            options: InspectorOptionsState { ratio_mode: v, ..o.options },
            ..o
        },
        Message::OptionsRatioLimitChanged(v) => n == if is_ratio_text(v@) {
            InspectorScreen {
                options: InspectorOptionsState { ratio_limit_val: v, ..o.options },
                ..o
            }
        } else {
            o
        },
        Message::OptionsHonorGlobalToggled(v) => n == InspectorScreen {
            options: InspectorOptionsState { honors_session_limits: v, ..o.options },
            ..o
        },
        Message::BulkDownloadLimitToggled(v) => n == InspectorScreen {
            bulk_options: InspectorBulkOptionsState { download_limited: Some(v), ..o.bulk_options },
            ..o
        },
        Message::BulkDownloadLimitChanged(v) => n == if is_limit_text(v@) {
            InspectorScreen {
                bulk_options: InspectorBulkOptionsState { download_limit_val: v, ..o.bulk_options },
                ..o
            }
        } else {
            o
        },
        Message::BulkUploadLimitToggled(v) => n == InspectorScreen {
            bulk_options: InspectorBulkOptionsState { upload_limited: Some(v), ..o.bulk_options },
            ..o
        },
        Message::BulkUploadLimitChanged(v) => n == if is_limit_text(v@) {
            InspectorScreen {
                bulk_options: InspectorBulkOptionsState { upload_limit_val: v, ..o.bulk_options },
                ..o
            }
        } else {
            o
        },
        Message::BulkRatioModeChanged(v) => n == InspectorScreen {
            bulk_options: InspectorBulkOptionsState { ratio_mode: Some(v), ..o.bulk_options },
            ..o
        },
        Message::BulkRatioLimitChanged(v) => n == if is_ratio_text(v@) {
            InspectorScreen {
                bulk_options: InspectorBulkOptionsState { ratio_limit_val: v, ..o.bulk_options },
                ..o
            }
        } else {
            o
        },
        Message::BulkHonorGlobalToggled(v) => n == InspectorScreen {
            bulk_options: InspectorBulkOptionsState {
                honors_session_limits: Some(v),
                ..o.bulk_options
            },
            ..o
        },
        Message::OptionsDownloadLimitSubmitted
        | Message::OptionsUploadLimitSubmitted
        | Message::OptionsRatioLimitSubmitted
        | Message::BulkDownloadLimitSubmitted
        | Message::BulkUploadLimitSubmitted
        | Message::BulkRatioLimitSubmitted => n == o,
    }
}

/// Set every index below `count` to `wanted`.
pub fn mark_all_pending(pending: &mut HashMap<usize, bool>, count: usize, wanted: bool)
    ensures
        final(pending)@ == all_pending(old(pending)@, count, wanted),
{
    let mut i: usize = 0;
    while i < count
        invariant
            i <= count,
            pending@ == all_pending(old(pending)@, i, wanted),
        decreases count - i,
    {
        pending.insert(i, wanted);
        assert(pending@ =~= all_pending(old(pending)@, (i + 1) as usize, wanted));
        i += 1;
    }
}

/// Drop the overrides of the listed files.
pub fn clear_pending(pending: &mut HashMap<usize, bool>, indices: &Vec<usize>)
    ensures
        final(pending)@ == old(pending)@.remove_keys(indices@.to_set()),
{
    let mut k: usize = 0;
    while k < indices.len()
        invariant
            k <= indices@.len(),
            pending@ == old(pending)@.remove_keys(indices@.take(k as int).to_set()),
        decreases indices@.len() - k,
    {
        pending.remove(&indices[k]);
        assert(indices@.take(k + 1) == indices@.take(k as int).push(indices@[k as int]));
        proof {
            indices@.take(k as int).lemma_push_to_set_commute(indices@[k as int]);
        }
        assert(pending@ =~= old(pending)@.remove_keys(indices@.take(k + 1).to_set()));
        k += 1;
    }
    assert(indices@.take(indices@.len() as int) == indices@);
}

/// Apply an inspector message to the panel state.
pub fn update(state: &mut InspectorScreen, msg: Message)
    ensures
        inspector_step(*old(state), msg, *final(state)),
{
    match msg {
        Message::TabSelected(tab) => {
            state.active_tab = tab;
        },
        Message::FileWantedToggled { file_index, wanted, .. } => {
            state.pending_wanted.insert(file_index, wanted);
        },
        Message::AllFilesWantedToggled { file_count, wanted, .. } => {
            mark_all_pending(&mut state.pending_wanted, file_count, wanted);
        },
        Message::FileWantedSetSuccess { indices } => {
            clear_pending(&mut state.pending_wanted, &indices);
        },
        Message::OptionsDownloadLimitToggled(v) => {
            state.options.download_limited = v;
        },
        Message::OptionsDownloadLimitChanged(v) => {
            if accepts_limit_text(v.as_str()) {
                state.options.download_limit_val = v;
            }
        },
        Message::OptionsUploadLimitToggled(v) => {
            state.options.upload_limited = v;
        },
        Message::OptionsUploadLimitChanged(v) => {
            if accepts_limit_text(v.as_str()) {
                state.options.upload_limit_val = v;
            }
        },
        Message::OptionsRatioModeChanged(v) => {
            state.options.ratio_mode = v;
        },
        Message::OptionsRatioLimitChanged(v) => {
            if accepts_ratio_text(v.as_str()) {
                state.options.ratio_limit_val = v;
            }
        },
        Message::OptionsHonorGlobalToggled(v) => {
            state.options.honors_session_limits = v;
        },
        Message::BulkDownloadLimitToggled(v) => {
            state.bulk_options.download_limited = Some(v);
        },
        Message::BulkDownloadLimitChanged(v) => {
            if accepts_limit_text(v.as_str()) {
                state.bulk_options.download_limit_val = v;
            }
        },
        Message::BulkUploadLimitToggled(v) => {
            state.bulk_options.upload_limited = Some(v);
        },
        Message::BulkUploadLimitChanged(v) => {
            if accepts_limit_text(v.as_str()) {
                state.bulk_options.upload_limit_val = v;
            }
        },
        Message::BulkRatioModeChanged(v) => {
            state.bulk_options.ratio_mode = Some(v);
        },
        Message::BulkRatioLimitChanged(v) => {
            if accepts_ratio_text(v.as_str()) {
                state.bulk_options.ratio_limit_val = v;
            }
        },
        Message::BulkHonorGlobalToggled(v) => {
            state.bulk_options.honors_session_limits = Some(v);
        },
        Message::OptionsDownloadLimitSubmitted
        | Message::OptionsUploadLimitSubmitted
        | Message::OptionsRatioLimitSubmitted
        | Message::BulkDownloadLimitSubmitted
        | Message::BulkUploadLimitSubmitted
        | Message::BulkRatioLimitSubmitted => {},
    }
}

// ── Files tab ────────────────────────────────────────────────────────────────

/// The wanted flag shown for file `i`: its pending override, else its
/// polled flag, else wanted.
pub open spec fn shown_wanted(pending: Map<usize, bool>, stats: Seq<FileStat>, i: usize) -> bool {
    if pending.contains_key(i) {
        pending[i]
    } else if (i as int) < stats.len() {
        stats[i as int].wanted
    } else {
        true
    }
}

/// The wanted flags shown for the first `file_count` files.
pub fn effective_wanted(pending: &HashMap<usize, bool>, stats: &Vec<FileStat>, file_count: usize) -> (v:
    Vec<bool>)
    ensures
        v@.len() == file_count,
        forall|i: int| 0 <= i < file_count ==> v@[i] == shown_wanted(pending@, stats@, i as usize),
{
    let mut v: Vec<bool> = Vec::new();
    let mut i: usize = 0;
    while i < file_count
        invariant
            i <= file_count,
            v@.len() == i,
            forall|j: int| 0 <= j < i ==> v@[j] == shown_wanted(pending@, stats@, j as usize),
        decreases file_count - i,
    {
        let w = match pending.get(&i) {
            Some(w) => *w,
            None => {
                if i < stats.len() {
                    stats[i].wanted
                } else {
                    true
                }
            },
        };
        v.push(w);
        i += 1;
    }
    v
}

/// The number of `true` flags in `s`.
pub open spec fn count_true(s: Seq<bool>) -> nat
    decreases s.len(),
{
    if s.len() == 0 {
        0
    } else {
        count_true(s.drop_last()) + if s.last() {
            1nat
        } else {
            0nat
        }
    }
}

/// The "Select All" box for these flags: checked when all are wanted,
/// unchecked when none is, mixed otherwise.
pub open spec fn check_state_of(s: Seq<bool>) -> CheckState {
    let c = count_true(s);
    if c == s.len() {
        CheckState::Checked
    } else if c == 0 {
        CheckState::Unchecked
    } else {
        CheckState::Mixed
    }
}

/// The "Select All" box for the shown wanted flags.
pub fn aggregate_check_state(wanted: &[bool]) -> (r: CheckState)
    ensures
        r == check_state_of(wanted@),
{
    let mut count: usize = 0;
    let mut i: usize = 0;
    while i < wanted.len()
        invariant
            i <= wanted@.len(),
            count == count_true(wanted@.take(i as int)),
            count <= i,
        decreases wanted@.len() - i,
    {
        assert(wanted@.take(i + 1).drop_last() == wanted@.take(i as int));
        if wanted[i] {
            count += 1;
        }
        i += 1;
    }
    assert(wanted@.take(wanted@.len() as int) == wanted@);
    if count == wanted.len() {
        CheckState::Checked
    } else if count == 0 {
        CheckState::Unchecked
    } else {
        CheckState::Mixed
    }
}

/// The message that a click on the "Select All" box in state `state` sends:
/// every file wanted, unless the click unchecks the box.
pub fn select_all_message(torrent_id: i64, file_count: usize, state: CheckState) -> (m: Message)
    ensures
        m == (Message::AllFilesWantedToggled {
            torrent_id,
            file_count,
            wanted: next_check_state(state) != CheckState::Unchecked,
        }),
{
    let next = state.toggled();
    Message::AllFilesWantedToggled { torrent_id, file_count, wanted: next.is_active() }
}

// ── Tab bar ──────────────────────────────────────────────────────────────────

/// The tab shown for `selected_count` selected torrents: with several
/// selected only the Options tab (bulk editing) is shown.
pub fn shown_tab(state: &InspectorScreen, selected_count: usize) -> (t: ActiveTab)
    ensures
        t == (if selected_count > 1 {
            ActiveTab::Options
        } else {
            state.active_tab
        }),
{
    if selected_count > 1 {
        ActiveTab::Options
    } else {
        state.active_tab
    }
}

/// The message of a click on tab `tab`: with several torrents selected
/// every click selects the Options tab.
pub fn tab_click_message(tab: ActiveTab, selected_count: usize) -> (m: Message)
    ensures
        m == Message::TabSelected(
            if selected_count > 1 {
                ActiveTab::Options
            } else {
                tab
            },
        ),
{
    if selected_count > 1 {
        Message::TabSelected(ActiveTab::Options)
    } else {
        Message::TabSelected(tab)
    }
}

} // verus!
