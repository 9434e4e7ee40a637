//! The torrent list screen: its state, the messages it handles, and the
//! follow-up work each message asks for.
//!
//! [`update`] decides; the application performs the returned [`Effect`]s
//! (RPC work, file dialogs, focus changes) and feeds the outcomes back as
//! messages.

use std::collections::VecDeque;

use vstd::prelude::*;

use crate::add_dialog::{AddDialogState, FileReadResult};
use crate::filters::{display_order, display_order_indices, every_filter, FilterSet, StatusFilter};
use crate::rpc::{
    copy_params, AddPayload, ConnectionParams, RpcWork, SessionData, TransmissionCredentials,
};
use crate::sort::{SortColumn, SortDir};
use crate::text::{decimal, is_blank, push_text, text_eq, text_is_blank, u64_to_text};
use crate::torrent::TorrentData;

verus! {

broadcast use vstd::seq_lib::group_seq_properties;

// ── State ────────────────────────────────────────────────────────────────────

/// Keyboard modifier keys held at the time of a click.
#[derive(Debug, Clone, Copy, PartialEq, Eq, Default, Structural)]
pub struct KeyModifiers {
    pub shift: bool,
    pub control: bool,
    /// The platform's command key (Cmd on macOS, Ctrl elsewhere).
    pub command: bool,
}

/// State for the "Set Data Location" modal dialog.
#[derive(Debug, Clone)]
pub struct SetLocationDialog {
    pub ids: Vec<i64>,
    /// Absolute path to set (prefilled from the torrent's `downloadDir`).
    pub path: String,
    /// When `true`, the daemon physically moves files to the new location;
    /// when `false`, only the internal path record is updated.
    pub move_data: bool,
}

/// State of the torrent list screen.
#[derive(Debug)]
pub struct TorrentListScreen {
    pub params: ConnectionParams,
    pub torrents: Vec<TorrentData>,
    /// `true` while an RPC result is pending.
    pub is_loading: bool,
    /// `true` once the first torrent-list response has been received.
    pub initial_load_done: bool,
    pub error: Option<String>,
    /// IDs currently selected in the list, in the order they were selected;
    /// none occurs twice.
    pub selected_ids: Vec<i64>,
    /// The ID of the last row targeted by a plain or Ctrl/Cmd-click.
    /// Used as the fixed end of a Shift-click range.
    pub selection_anchor: Option<i64>,
    /// Current keyboard modifier state.
    pub modifiers: KeyModifiers,
    pub confirming_delete: Option<(Vec<i64>, bool)>,
    pub add_dialog: AddDialogState,
    pub sort_column: Option<SortColumn>,
    pub sort_dir: SortDir,
    /// Active filter chips — only torrents matching at least one bucket are shown.
    pub filters: FilterSet,
    /// When `Some`, the context menu is open for the given torrent ID.
    pub context_menu: Option<i64>,
    /// When `Some`, the "Set Data Location" modal dialog is active.
    pub set_location_dialog: Option<SetLocationDialog>,
    /// Copy of the active profile's recent download paths.
    pub recent_download_paths: Vec<String>,
}

/// Messages handled by the torrent list screen.
#[derive(Debug)]
pub enum Message {
    // Polling
    Tick,
    TorrentsUpdated(Result<Vec<TorrentData>, String>),
    SessionIdRotated(String),
    // Row selection
    TorrentSelected(i64),
    /// Clicking empty space below the torrent rows clears the selection.
    ClearSelection,
    // Toolbar actions
    PauseClicked,
    ResumeClicked,
    DeleteClicked,
    DeleteLocalDataToggled(bool),
    DeleteConfirmed,
    DeleteCancelled,
    ActionCompleted(Result<(), String>),
    // Add-torrent dialog
    AddTorrentClicked,
    TorrentFileRead(Result<VecDeque<FileReadResult>, String>),
    AddLinkClicked,
    AddDialogMagnetChanged(String),
    AddDialogDestinationChanged(String),
    AddDialogFileToggled(usize),
    AddDialogSelectAll,
    AddDialogDeselectAll,
    AddConfirmed,
    AddCancelled,
    /// Skip the current torrent in the queue (multi-add only).
    AddCancelThis,
    /// Discard all remaining torrents in the queue.
    AddCancelAll,
    AddCompleted(Result<(), String>),
    // Recent-paths dropdown in add dialog
    AddDialogToggleDropdown,
    AddDialogDismissDropdown,
    AddDialogRecentPathSelected(String),
    /// A destination path was confirmed — bubbled up to be persisted.
    ProfilePathUsed(String),
    /// A SetFileWanted RPC completed (success flag, file indices).
    FileWantedSettled(bool, Vec<usize>),
    /// A torrent-set bandwidth call completed.
    BandwidthSaved(Result<(), String>),
    /// Toolbar turtle button — intercepted by the main screen.
    TurtleModeToggled,
    /// The answer to a periodic `session-get` — intercepted by the main screen.
    SessionDataLoaded(Result<SessionData, String>),
    // Context-menu flow
    /// Right-click on a torrent row opens the context menu.
    TorrentRightClicked(i64),
    /// Dismiss the open context menu.
    DismissContextMenu,
    ContextMenuStart,
    ContextMenuPause,
    ContextMenuDelete,
    /// "Set Data Location" chosen from the context menu.
    OpenSetLocation,
    // Set-location dialog
    SetLocationPathChanged(String),
    SetLocationMoveToggled,
    SetLocationApply,
    SetLocationCancel,
    // Escalated to the parent
    Disconnect,
    OpenSettingsClicked,
    // Column sort
    ColumnHeaderClicked(SortColumn),
    // Filter chips
    FilterAllClicked,
    FilterToggled(StatusFilter),
    // Keyboard
    /// Tab key pressed while the add-torrent dialog is open.
    DialogTabKeyPressed { shift: bool },
    /// Enter key pressed while the add-torrent dialog is open.
    DialogEnterPressed,
    /// Keyboard modifier keys changed.
    ModifiersChanged(KeyModifiers),
    /// Cmd+A / Ctrl+A — select all visible (filtered) torrents.
    KeyboardSelectAll,
}

/// Follow-up work that a message asks the application to perform.
#[derive(Debug, Clone)]
pub enum Effect {
    /// Hand this item to the RPC worker.
    Enqueue(RpcWork),
    /// Open the file picker, read and parse the chosen `.torrent` files, and
    /// answer with [`Message::TorrentFileRead`].
    PickTorrentFiles,
    /// Move keyboard focus to the magnet-link input.
    FocusMagnetInput,
    /// Move keyboard focus to the destination input.
    FocusDestinationInput,
    /// Move keyboard focus to the next input.
    FocusNext,
    /// Move keyboard focus to the previous input.
    FocusPrevious,
    /// A destination path was used; report it with
    /// [`Message::ProfilePathUsed`].
    ProfilePathUsed(String),
}

// ── Specification ────────────────────────────────────────────────────────────

/// The position of the first torrent of `s` with ID `id`.
pub open spec fn first_index_with_id(s: Seq<TorrentData>, id: i64) -> Option<int>
    decreases s.len(),
{
    if s.len() == 0 {
        None
    } else if s[0].id == id {
        Some(0)
    } else {
        match first_index_with_id(s.drop_first(), id) {
            Some(p) => Some(p + 1),
            None => None,
        }
    }
}

/// The first torrent of `s` with ID `id`.
pub open spec fn first_with_id(s: Seq<TorrentData>, id: i64) -> Option<TorrentData> {
    match first_index_with_id(s, id) {
        Some(p) => Some(s[p]),
        None => None,
    }
}

/// The position of the first occurrence of `x` in `s`.
pub open spec fn position_of(s: Seq<i64>, x: i64) -> Option<int>
    decreases s.len(),
{
    if s.len() == 0 {
        None
    } else if s[0] == x {
        Some(0)
    } else {
        match position_of(s.drop_first(), x) {
            Some(p) => Some(p + 1),
            None => None,
        }
    }
}

/// `sel` followed by the elements of `ids` that are not yet in it, in order.
pub open spec fn extend_unique(sel: Seq<i64>, ids: Seq<i64>) -> Seq<i64>
    decreases ids.len(),
{
    if ids.len() == 0 {
        sel
    } else {
        extend_unique(
            if sel.contains(ids[0]) {
                sel
            } else {
                sel.push(ids[0])
            },
            ids.drop_first(),
        )
    }
}

/// `s` without `x`.
pub open spec fn without(s: Seq<i64>, x: i64) -> Seq<i64> {
    s.filter(differs_from(x))
}

/// The predicate "differs from `x`".
pub open spec fn differs_from(x: i64) -> spec_fn(i64) -> bool {
    |y: i64| y != x
}

/// The predicate "occurs in `s`".
pub open spec fn occurs_in(s: Seq<i64>) -> spec_fn(i64) -> bool {
    |y: i64| s.contains(y)
}

/// The first path of the recent list, or empty text.
pub open spec fn initial_destination(paths: Seq<String>) -> Seq<char> {
    if paths.len() > 0 {
        paths[0]@
    } else {
        Seq::empty()
    }
}

/// The indices, as `i64`, of the files that are not selected.
pub open spec fn unwanted_indices(selected: Seq<bool>) -> Seq<i64>
    decreases selected.len(),
{
    if selected.len() == 0 {
        Seq::empty()
    } else {
        let rest = unwanted_indices(selected.drop_last());
        if selected.last() {
            rest
        } else {
            rest.push((selected.len() - 1) as i64)
        }
    }
}

impl TorrentListScreen {
    /// The state is consistent: no ID is selected twice.
    pub open spec fn wf(self) -> bool {
        self.selected_ids@.no_duplicates()
    }

    /// The indices of the shown torrents, in display order.
    pub open spec fn visible_order(self) -> Seq<usize> {
        display_order(self.torrents@, self.sort_column, self.sort_dir, self.filters@)
    }

    /// The IDs of the shown torrents, in display order.
    pub open spec fn visible_ids(self) -> Seq<i64> {
        self.visible_order().map_values(|i: usize| self.torrents@[i as int].id)
    }

    /// The single selected torrent: the first one with the selected ID,
    /// when exactly one ID is selected.
    pub open spec fn spec_selected_torrent(self) -> Option<TorrentData> {
        if self.selected_ids@.len() == 1 {
            first_with_id(self.torrents@, self.selected_ids@[0])
        } else {
            None
        }
    }
}

/// The selection kept when only the IDs in `vis` are shown: selected IDs
/// outside `vis` are dropped, and so is an anchor outside it.
pub open spec fn pruned_selection(sel: Seq<i64>, anchor: Option<i64>, vis: Seq<i64>) -> (
    Seq<i64>,
    Option<i64>,
) {
    (
        sel.filter(occurs_in(vis)),
        match anchor {
            Some(a) => if vis.contains(a) {
                Some(a)
            } else {
                None
            },
            None => None,
        },
    )
}

/// `n` is `o` with the selection pruned to the shown torrents.
pub open spec fn pruned(o: TorrentListScreen, n: TorrentListScreen) -> bool {
    &&& n == TorrentListScreen {
        selected_ids: n.selected_ids,
        selection_anchor: n.selection_anchor,
        ..o
    }
    &&& (n.selected_ids@, n.selection_anchor) == pruned_selection(
        o.selected_ids@,
        o.selection_anchor,
        o.visible_ids(),
    )
}

/// The selection and anchor after a click on the row of `id`.
pub open spec fn selection_after_click(o: TorrentListScreen, id: i64) -> (Seq<i64>, Option<i64>) {
    let sel = o.selected_ids@;
    if o.modifiers.shift && o.selection_anchor is Some {
        let vis = o.visible_ids();
        match (position_of(vis, o.selection_anchor->0), position_of(vis, id)) {
            (Some(a), Some(b)) => {
                let lo = if a <= b {
                    a
                } else {
                    b
                };
                let hi = if a <= b {
                    b
                } else {
                    a
                };
                (extend_unique(sel, vis.subrange(lo, hi + 1)), o.selection_anchor)
            },
            _ => (seq![id], Some(id)),
        }
    } else if o.modifiers.command || o.modifiers.control {
        (
            if sel.contains(id) {
                without(sel, id)
            } else {
                sel.push(id)
            },
            Some(id),
        )
    } else if sel.len() == 1 && sel.contains(id) {
        (Seq::empty(), None)
    } else {
        (seq![id], Some(id))
    }
}


// ── Sequence lemmas and helpers ─────────────────────────────────────────────

/// `first_index_with_id` finds the first torrent with the ID.
pub proof fn lemma_first_index_with_id(s: Seq<TorrentData>, id: i64)
    ensures
        match first_index_with_id(s, id) {
            Some(p) => 0 <= p < s.len() && s[p].id == id && forall|j: int| 0 <= j < p ==> s[j].id != id,
            None => forall|j: int| 0 <= j < s.len() ==> s[j].id != id,
        },
    decreases s.len(),
{
    if s.len() > 0 && s[0].id != id {
        lemma_first_index_with_id(s.drop_first(), id);
        assert forall|j: int| 0 < j < s.len() implies s[j] == s.drop_first()[j - 1] by {}
    }
}

/// The position of the first torrent with ID `id`.
pub fn find_torrent(torrents: &[TorrentData], id: i64) -> (r: Option<usize>)
    ensures
        match first_index_with_id(torrents@, id) {
            Some(p) => r is Some && r->0 == p,
            None => r is None,
        },
{
    let mut i: usize = 0;
    while i < torrents.len()
        invariant
            i <= torrents@.len(),
            forall|j: int| 0 <= j < i ==> torrents@[j].id != id,
        decreases torrents@.len() - i,
    {
        if torrents[i].id == id {
            proof {
                lemma_first_index_with_id(torrents@, id);
                match first_index_with_id(torrents@, id) {
                    Some(p) => {
                        if p > i {
                            assert(torrents@[i as int].id == id);
                        }
                    },
                    None => {
                        assert(torrents@[i as int].id == id);
                    },
                }
            }
            return Some(i);
        }
        i += 1;
    }
    proof {
        lemma_first_index_with_id(torrents@, id);
    }
    None
}


/// `position_of` finds the first occurrence.
pub proof fn lemma_position_of(s: Seq<i64>, x: i64)
    ensures
        match position_of(s, x) {
            Some(p) => 0 <= p < s.len() && s[p] == x && forall|j: int| 0 <= j < p ==> s[j] != x,
            None => !s.contains(x),
        },
    decreases s.len(),
{
    if s.len() > 0 && s[0] != x {
        lemma_position_of(s.drop_first(), x);
        if !s.drop_first().contains(x) {
            assert forall|j: int| 0 <= j < s.len() implies s[j] != x by {
                if j > 0 {
                    assert(s[j] == s.drop_first()[j - 1]);
                }
            }
        }
    }
}

/// `extend_unique` keeps a sequence free of duplicates and adds exactly the
/// missing elements.
pub proof fn lemma_extend_unique(sel: Seq<i64>, ids: Seq<i64>)
    requires
        sel.no_duplicates(),
    ensures
        extend_unique(sel, ids).no_duplicates(),
        forall|x: i64| #[trigger] extend_unique(sel, ids).contains(x) <==> sel.contains(x) || ids.contains(x),
    decreases ids.len(),
{
    if ids.len() > 0 {
        let next = if sel.contains(ids[0]) {
            sel
        } else {
            sel.push(ids[0])
        };
        assert(next.no_duplicates());
        lemma_extend_unique(next, ids.drop_first());
        assert forall|x: i64| #[trigger] extend_unique(sel, ids).contains(x) <==> sel.contains(x)
            || ids.contains(x) by {
            if ids.contains(x) && !ids.drop_first().contains(x) {
                let j = choose|j: int| 0 <= j < ids.len() && ids[j] == x;
                if j > 0 {
                    assert(ids.drop_first()[j - 1] == x);
                }
                assert(next.contains(ids[0]));
            }
            if ids.drop_first().contains(x) {
                let j = choose|j: int| 0 <= j < ids.drop_first().len() && ids.drop_first()[j] == x;
                assert(ids[j + 1] == x);
            }
            if next.contains(x) && !sel.contains(x) {
                assert(x == ids[0]);
            }
        }
    }
}

/// Whether `v` holds `x`.
pub fn vec_contains(v: &Vec<i64>, x: i64) -> (b: bool)
    ensures
        b == v@.contains(x),
{
    let mut i: usize = 0;
    while i < v.len()
        invariant
            i <= v@.len(),
            forall|j: int| 0 <= j < i ==> v@[j] != x,
        decreases v@.len() - i,
    {
        if v[i] == x {
            return true;
        }
        i += 1;
    }
    false
}

/// The position of the first occurrence of `x` in `v`.
fn find_position(v: &Vec<i64>, x: i64) -> (r: Option<usize>)
    ensures
        match position_of(v@, x) {
            Some(p) => r is Some && r->0 == p,
            None => r is None,
        },
{
    let mut i: usize = 0;
    while i < v.len()
        invariant
            i <= v@.len(),
            forall|j: int| 0 <= j < i ==> v@[j] != x,
        decreases v@.len() - i,
    {
        if v[i] == x {
            proof {
                lemma_position_of(v@, x);
                match position_of(v@, x) {
                    Some(p) => {
                        if p < i {
                            assert(v@[p] == x);
                        }
                        if p > i {
                            assert(v@[i as int] == x);
                        }
                    },
                    None => {
                        assert(v@.contains(x)) by {
                            assert(v@[i as int] == x);
                        }
                    },
                }
            }
            return Some(i);
        }
        i += 1;
    }
    proof {
        lemma_position_of(v@, x);
        match position_of(v@, x) {
            Some(p) => {
                assert(v@[p] == x);
            },
            None => {},
        }
    }
    None
}

/// Add to `sel` the elements of `ids` that it lacks, in order.
fn add_missing(sel: &mut Vec<i64>, ids: &Vec<i64>)
    requires
        old(sel)@.no_duplicates(),
    ensures
        final(sel)@ == extend_unique(old(sel)@, ids@),
        final(sel)@.no_duplicates(),
{
    proof {
        lemma_extend_unique(sel@, ids@);
    }
    let ghost target = extend_unique(sel@, ids@);
    let mut k: usize = 0;
    assert(ids@.skip(0) == ids@);
    while k < ids.len()
        invariant
            k <= ids@.len(),
            extend_unique(sel@, ids@.skip(k as int)) == target,
            sel@.no_duplicates(),
        decreases ids@.len() - k,
    {
        let ghost rest = ids@.skip(k as int);
        assert(rest[0] == ids@[k as int]);
        assert(rest.drop_first() == ids@.skip(k + 1));
        let x = ids[k];
        if !vec_contains(sel, x) {
            sel.push(x);
        }
        k += 1;
    }
    assert(ids@.skip(ids@.len() as int).len() == 0);
}

/// Remove every occurrence of `x` from `sel`, keeping the order of the rest.
fn remove_value(sel: &mut Vec<i64>, x: i64)
    requires
        old(sel)@.no_duplicates(),
    ensures
        final(sel)@ == without(old(sel)@, x),
        final(sel)@.no_duplicates(),
        forall|y: i64| #[trigger] final(sel)@.contains(y) <==> old(sel)@.contains(y) && y != x,
{
    let mut out: Vec<i64> = Vec::new();
    let mut k: usize = 0;
    while k < sel.len()
        invariant
            k <= sel@.len(),
            sel@.no_duplicates(),
            out@ == without(sel@.take(k as int), x),
            out@.no_duplicates(),
            forall|y: i64| #[trigger] out@.contains(y) <==> sel@.take(k as int).contains(y) && y != x,
        decreases sel@.len() - k,
    {
        let y = sel[k];
        assert(sel@.take(k + 1) == sel@.take(k as int).push(y));
        proof {
            sel@.take(k as int).lemma_filter_push(y, differs_from(x));
        }
        if y != x {
            assert(!sel@.take(k as int).contains(y)) by {
                if sel@.take(k as int).contains(y) {
                    let j = choose|j: int| 0 <= j < k && sel@.take(k as int)[j] == y;
                    assert(sel@[j] == sel@[k as int]);
                }
            }
            let ghost before = out@;
            out.push(y);
            assert(out@.no_duplicates()) by {
                assert forall|a: int, b: int| 0 <= a < b < out@.len() implies out@[a] != out@[b] by {
                    if b == out@.len() - 1 {
                        assert(before.contains(before[a]));
                    }
                }
            }
        }
        k += 1;
    }
    assert(sel@.take(sel@.len() as int) == sel@);
    *sel = out;
}


// ── Dialog transitions ──────────────────────────────────────────────────────

/// `d` is the add-file dialog opened on `first`, with `rest` still queued.
pub open spec fn file_dialog_opened(
    d: AddDialogState,
    first: FileReadResult,
    rest: Seq<FileReadResult>,
    destination: Seq<char>,
    total: int,
) -> bool {
    &&& d matches AddDialogState::AddFile {
        metainfo_b64,
        files,
        selected,
        destination: dst,
        error,
        pending_torrents,
        is_dropdown_open,
        total_count,
    }
    &&& metainfo_b64 == first.metainfo_b64
    &&& files == first.files
    &&& selected@ == Seq::new(first.files@.len(), |i: int| true)
    &&& dst@ == destination
    &&& error is None
    &&& pending_torrents@ == rest
    &&& !is_dropdown_open
    &&& total_count == total
}

/// `n` is the dialog after `d` moves on to its next queued torrent: the next
/// torrent with the same destination, or hidden when none is queued (or the
/// dialog was not an add-file dialog).
pub open spec fn advanced(d: AddDialogState, n: AddDialogState) -> bool {
    match d {
        AddDialogState::AddFile { pending_torrents, total_count, destination, .. } => {
            if pending_torrents@.len() > 0 {
                file_dialog_opened(
                    n,
                    pending_torrents@[0],
                    pending_torrents@.drop_first(),
                    destination@,
                    total_count as int,
                )
            } else {
                n is Hidden
            }
        },
        _ => n is Hidden,
    }
}

/// `n` is the add-file dialog `d` with its file selection replaced by `sel`
/// (any other dialog is unchanged).
pub open spec fn with_file_selection(d: AddDialogState, n: AddDialogState, sel: Seq<bool>) -> bool {
    match d {
        AddDialogState::AddFile {
            metainfo_b64,
            files,
            destination,
            error,
            pending_torrents,
            is_dropdown_open,
            total_count,
            ..
        } => {
            &&& n matches AddDialogState::AddFile {
                metainfo_b64: m2,
                files: f2,
                selected: s2,
                destination: d2,
                error: e2,
                pending_torrents: p2,
                is_dropdown_open: o2,
                total_count: t2,
            }
            &&& m2 == metainfo_b64 && f2 == files && s2@ == sel && d2 == destination && e2 == error
            &&& p2 == pending_torrents && o2 == is_dropdown_open && t2 == total_count
        },
        _ => n == d,
    }
}

/// The file selection of an add-file dialog (empty for other dialogs).
pub open spec fn file_selection(d: AddDialogState) -> Seq<bool> {
    match d {
        AddDialogState::AddFile { selected, .. } => selected@,
        _ => Seq::empty(),
    }
}

/// The add request that confirming `d` sends: `n` and `fx` are the state
/// and effects after it.
pub open spec fn confirmed_add(
    o: TorrentListScreen,
    n: TorrentListScreen,
    fx: Seq<Effect>,
    payload: AddPayload,
    dest: String,
    unwanted: Seq<i64>,
) -> bool {
    &&& n == TorrentListScreen { add_dialog: n.add_dialog, is_loading: true, ..o }
    &&& advanced(o.add_dialog, n.add_dialog)
    &&& fx.len() == if is_blank(dest@) {
        1int
    } else {
        2int
    }
    &&& fx[0] matches Effect::Enqueue(
        RpcWork::TorrentAdd { params, payload: p, download_dir, files_unwanted },
    )
    &&& params == o.params && p == payload && download_dir == Some(dest)
    &&& files_unwanted@ == unwanted
    &&& !is_blank(dest@) ==> (fx[1] matches Effect::ProfilePathUsed(u) && u@ == dest@)
}

/// The state and effects after the add dialog is confirmed.
pub open spec fn add_confirmed_step(o: TorrentListScreen, n: TorrentListScreen, fx: Seq<Effect>) -> bool {
    match o.add_dialog {
        AddDialogState::AddLink { magnet, destination, .. } => if is_blank(magnet@) {
            n == o && fx.len() == 0
        } else {
            confirmed_add(o, n, fx, AddPayload::Magnet(magnet), destination, Seq::empty())
        },
        AddDialogState::AddFile { metainfo_b64, destination, selected, .. } => confirmed_add(
            o,
            n,
            fx,
            AddPayload::Metainfo(metainfo_b64),
            destination,
            unwanted_indices(selected@),
        ),
        AddDialogState::Hidden => n == o && fx.len() == 0,
    }
}

/// The one effect of `fx` hands the worker an item that acts on the
/// selected torrents of `o`: start (`start`) or stop them.
pub open spec fn enqueues_start_stop(o: TorrentListScreen, fx: Seq<Effect>, start: bool) -> bool {
    &&& fx.len() == 1
    &&& if start {
        fx[0] matches Effect::Enqueue(RpcWork::TorrentStart { params, ids }) && params == o.params
            && ids@ == o.selected_ids@
    } else {
        fx[0] matches Effect::Enqueue(RpcWork::TorrentStop { params, ids }) && params == o.params
            && ids@ == o.selected_ids@
    }
}

/// Start or stop the selection: with a selection, loading starts and one
/// request is sent; without one nothing happens.
pub open spec fn start_stop_step(
    o: TorrentListScreen,
    n: TorrentListScreen,
    fx: Seq<Effect>,
    start: bool,
) -> bool {
    if o.selected_ids@.len() > 0 {
        n == TorrentListScreen { is_loading: true, ..o } && enqueues_start_stop(o, fx, start)
    } else {
        n == o && fx.len() == 0
    }
}

/// Arm the delete confirmation for the selection, if there is one.
pub open spec fn delete_armed(o: TorrentListScreen, n: TorrentListScreen) -> bool {
    if o.selected_ids@.len() > 0 {
        &&& n == TorrentListScreen { confirming_delete: n.confirming_delete, ..o }
        &&& n.confirming_delete matches Some((ids, del)) && ids@ == o.selected_ids@ && !del
    } else {
        n == o
    }
}

/// The filter set after a click on the "All" chip.
pub open spec fn filters_after_all_clicked(f: Set<StatusFilter>) -> Set<StatusFilter> {
    if f.len() == 5 {
        Set::empty()
    } else {
        every_filter()
    }
}

/// The filter set after toggling `x`.
pub open spec fn filters_after_toggle(f: Set<StatusFilter>, x: StatusFilter) -> Set<StatusFilter> {
    if f.contains(x) {
        f.remove(x)
    } else {
        f.insert(x)
    }
}

/// The sort column and direction after a click on the header of `col`:
/// unsorted → ascending → descending → unsorted; another column starts
/// ascending.
pub open spec fn sort_after_click(
    column: Option<SortColumn>,
    dir: SortDir,
    col: SortColumn,
) -> (Option<SortColumn>, SortDir) {
    if column == Some(col) {
        match dir {
            SortDir::Asc => (Some(col), SortDir::Desc),
            SortDir::Desc => (None, SortDir::Desc),
        }
    } else {
        (Some(col), SortDir::Asc)
    }
}

/// `n` differs from `o` at most in the selection, the filters and the list,
/// and its selection is `o`'s pruned to what `n` shows.
pub open spec fn reselected_after_view_change(o: TorrentListScreen, n: TorrentListScreen) -> bool {
    (n.selected_ids@, n.selection_anchor) == pruned_selection(
        o.selected_ids@,
        o.selection_anchor,
        n.visible_ids(),
    )
}

/// What [`update`] does with `msg`: `n` is the state after it and `fx` the
/// work it asks for.
pub open spec fn list_step(o: TorrentListScreen, msg: Message, n: TorrentListScreen, fx: Seq<Effect>) -> bool {
    match msg {
        Message::Tick => if o.is_loading {
            n == o && fx.len() == 0
        } else {
            n == TorrentListScreen { is_loading: true, ..o } && fx == seq![
                Effect::Enqueue(RpcWork::TorrentGet(o.params)),
            ]
        },
        Message::TorrentsUpdated(r) => match r {
            Ok(ts) => {
                &&& n == TorrentListScreen {
                    torrents: ts,
                    is_loading: false,
                    initial_load_done: true,
                    error: None,
                    selected_ids: n.selected_ids,
                    selection_anchor: n.selection_anchor,
                    ..o
                }
                &&& reselected_after_view_change(o, n)
                &&& fx.len() == 0
            },
            Err(e) => n == TorrentListScreen {
                is_loading: false,
                initial_load_done: true,
                error: Some(e),
                ..o
            } && fx.len() == 0,
        },
        Message::SessionIdRotated(id) => n == TorrentListScreen {
            params: ConnectionParams { session_id: id, ..o.params },
            ..o
        } && fx.len() == 0,
        Message::TorrentSelected(id) => {
            &&& n == TorrentListScreen {
                selected_ids: n.selected_ids,
                selection_anchor: n.selection_anchor,
                ..o
            }
            &&& (n.selected_ids@, n.selection_anchor) == selection_after_click(o, id)
            &&& fx.len() == 0
        },
        Message::ClearSelection => n == TorrentListScreen {
            selected_ids: n.selected_ids,
            selection_anchor: None,
            ..o
        } && n.selected_ids@.len() == 0 && fx.len() == 0,
        Message::ModifiersChanged(m) => n == TorrentListScreen { modifiers: m, ..o } && fx.len() == 0,
        Message::KeyboardSelectAll => {
            let vis = o.visible_ids();
            &&& n == TorrentListScreen {
                selected_ids: n.selected_ids,
                selection_anchor: if vis.len() > 0 {
                    Some(vis[0])
                } else {
                    None
                },
                ..o
            }
            &&& n.selected_ids@ == extend_unique(o.selected_ids@, vis)
            &&& fx.len() == 0
        },
        Message::PauseClicked => start_stop_step(o, n, fx, false),
        Message::ResumeClicked => start_stop_step(o, n, fx, true),
        Message::DeleteClicked => delete_armed(o, n) && fx.len() == 0,
        Message::DeleteLocalDataToggled(v) => n == TorrentListScreen {
            confirming_delete: match o.confirming_delete {
                Some((ids, _)) => Some((ids, v)),
                None => None,
            },
            ..o
        } && fx.len() == 0,
        Message::DeleteCancelled => n == TorrentListScreen { confirming_delete: None, ..o }
            && fx.len() == 0,
        Message::DeleteConfirmed => match o.confirming_delete {
            Some((ids, del)) => n == TorrentListScreen {
                confirming_delete: None,
                is_loading: true,
                ..o
            } && fx == seq![
                Effect::Enqueue(
                    RpcWork::TorrentRemove { params: o.params, ids: ids, delete_local_data: del },
                ),
            ],
            None => n == o && fx.len() == 0,
        },
        Message::ActionCompleted(r) => match r {
            Ok(_) => n == o && fx == seq![Effect::Enqueue(RpcWork::TorrentGet(o.params))],
            Err(e) => n == TorrentListScreen { is_loading: false, error: Some(e), ..o }
                && fx.len() == 0,
        },
        Message::AddTorrentClicked => n == o && fx == seq![Effect::PickTorrentFiles],
        Message::TorrentFileRead(r) => match r {
            Ok(queue) => if queue@.len() == 0 {
                n == o && fx.len() == 0
            } else {
                &&& n == TorrentListScreen { add_dialog: n.add_dialog, ..o }
                &&& file_dialog_opened(
                    n.add_dialog,
                    queue@[0],
                    queue@.drop_first(),
                    initial_destination(o.recent_download_paths@),
                    queue@.len() as int,
                )
                &&& fx == seq![Effect::FocusDestinationInput]
            },
            Err(e) => if e@ == "cancelled"@ {
                n == o && fx.len() == 0
            } else {
                &&& n == TorrentListScreen { error: n.error, ..o }
                &&& n.error matches Some(m) && m@ == "Could not open torrent file: "@ + e@
                &&& fx.len() == 0
            },
        },
        Message::AddLinkClicked => {
            &&& n == TorrentListScreen { add_dialog: n.add_dialog, ..o }
            &&& n.add_dialog matches AddDialogState::AddLink { magnet, destination, error }
            &&& magnet@.len() == 0
            &&& destination@ == initial_destination(o.recent_download_paths@)
            &&& error is None
            &&& fx == seq![Effect::FocusMagnetInput]
        },
        Message::AddDialogMagnetChanged(v) => n == TorrentListScreen {
            add_dialog: match o.add_dialog {
                AddDialogState::AddLink { destination, error, .. } => AddDialogState::AddLink {
                    magnet: v,
                    destination,
                    error,
                },
                d => d,
            },
            ..o
        } && fx.len() == 0,
        Message::AddDialogDestinationChanged(v) => n == TorrentListScreen {
            add_dialog: match o.add_dialog {
                AddDialogState::AddLink { magnet, error, .. } => AddDialogState::AddLink {
                    magnet,
                    destination: v,
                    error,
                },
                AddDialogState::AddFile {
                    metainfo_b64,
                    files,
                    selected,
                    error,
                    pending_torrents,
                    is_dropdown_open,
                    total_count,
                    ..
                } => AddDialogState::AddFile {
                    metainfo_b64,
                    files,
                    selected,
                    destination: v,
                    error,
                    pending_torrents,
                    is_dropdown_open,
                    total_count,
                },
                AddDialogState::Hidden => AddDialogState::Hidden,
            },
            ..o
        } && fx.len() == 0,
        Message::AddDialogFileToggled(i) => {
            let sel = file_selection(o.add_dialog);
            &&& n == TorrentListScreen { add_dialog: n.add_dialog, ..o }
            &&& with_file_selection(
                o.add_dialog,
                n.add_dialog,
                if i < sel.len() {
                    sel.update(i as int, !sel[i as int])
                } else {
                    sel
                },
            )
            &&& fx.len() == 0
        },
        Message::AddDialogSelectAll => {
            &&& n == TorrentListScreen { add_dialog: n.add_dialog, ..o }
            &&& with_file_selection(
                o.add_dialog,
                n.add_dialog,
                Seq::new(file_selection(o.add_dialog).len(), |i: int| true),
            )
            &&& fx.len() == 0
        },
        Message::AddDialogDeselectAll => {
            &&& n == TorrentListScreen { add_dialog: n.add_dialog, ..o }
            &&& with_file_selection(
                o.add_dialog,
                n.add_dialog,
                Seq::new(file_selection(o.add_dialog).len(), |i: int| false),
            )
            &&& fx.len() == 0
        },
        Message::AddConfirmed => add_confirmed_step(o, n, fx),
        Message::AddCancelled | Message::AddCancelAll => n == TorrentListScreen {
            add_dialog: AddDialogState::Hidden,
            ..o
        } && fx.len() == 0,
        Message::AddCancelThis => n == TorrentListScreen { add_dialog: n.add_dialog, ..o }
            && advanced(o.add_dialog, n.add_dialog) && fx.len() == 0,
        Message::AddCompleted(r) => match r {
            Ok(_) => n == TorrentListScreen { is_loading: true, ..o } && fx == seq![
                Effect::Enqueue(RpcWork::TorrentGet(o.params)),
            ],
            Err(e) => n == TorrentListScreen { is_loading: false, error: Some(e), ..o }
                && fx.len() == 0,
        },
        Message::AddDialogToggleDropdown => n == TorrentListScreen {
            add_dialog: match o.add_dialog {
                AddDialogState::AddFile {
                    metainfo_b64,
                    files,
                    selected,
                    destination,
                    error,
                    pending_torrents,
                    is_dropdown_open,
                    total_count,
                } => AddDialogState::AddFile {
                    metainfo_b64,
                    files,
                    selected,
                    destination,
                    error,
                    pending_torrents,
                    is_dropdown_open: !is_dropdown_open,
                    total_count,
                },
                d => d,
            },
            ..o
        } && fx.len() == 0,
        Message::AddDialogDismissDropdown => n == TorrentListScreen {
            add_dialog: match o.add_dialog {
                AddDialogState::AddFile {
                    metainfo_b64,
                    files,
                    selected,
                    destination,
                    error,
                    pending_torrents,
                    total_count,
                    ..
                } => AddDialogState::AddFile {
                    metainfo_b64,
                    files,
                    selected,
                    destination,
                    error,
                    pending_torrents,
                    is_dropdown_open: false,
                    total_count,
                },
                d => d,
            },
            ..o
        } && fx.len() == 0,
        Message::AddDialogRecentPathSelected(path) => n == TorrentListScreen {
            add_dialog: match o.add_dialog {
                AddDialogState::AddFile {
                    metainfo_b64,
                    files,
                    selected,
                    error,
                    pending_torrents,
                    total_count,
                    ..
                } => AddDialogState::AddFile {
                    metainfo_b64,
                    files,
                    selected,
                    destination: path,
                    error,
                    pending_torrents,
                    is_dropdown_open: false,
                    total_count,
                },
                AddDialogState::AddLink { magnet, error, .. } => AddDialogState::AddLink {
                    magnet,
                    destination: path,
                    error,
                },
                AddDialogState::Hidden => AddDialogState::Hidden,
            },
            ..o
        } && fx.len() == 0,
        Message::ProfilePathUsed(_)
        | Message::Disconnect
        | Message::OpenSettingsClicked
        | Message::FileWantedSettled(..)
        | Message::BandwidthSaved(..)
        | Message::TurtleModeToggled
        | Message::SessionDataLoaded(..) => n == o && fx.len() == 0,
        Message::DialogTabKeyPressed { shift } => n == o && match o.add_dialog {
            AddDialogState::AddLink { .. } => fx == seq![
                if shift {
                    Effect::FocusPrevious
                } else {
                    Effect::FocusNext
                },
            ],
            _ => fx.len() == 0,
        },
        Message::DialogEnterPressed => {
            let should_confirm = match o.add_dialog {
                AddDialogState::AddLink { magnet, .. } => !is_blank(magnet@),
                AddDialogState::AddFile { metainfo_b64, .. } => metainfo_b64@.len() > 0,
                AddDialogState::Hidden => false,
            };
            if should_confirm {
                add_confirmed_step(o, n, fx)
            } else {
                n == o && fx.len() == 0
            }
        },
        Message::ColumnHeaderClicked(col) => {
            let (c, d) = sort_after_click(o.sort_column, o.sort_dir, col);
            n == TorrentListScreen { sort_column: c, sort_dir: d, ..o } && fx.len() == 0
        },
        Message::FilterToggled(f) => {
            &&& n == TorrentListScreen {
                filters: n.filters,
                selected_ids: n.selected_ids,
                selection_anchor: n.selection_anchor,
                ..o
            }
            &&& n.filters@ == filters_after_toggle(o.filters@, f)
            &&& reselected_after_view_change(o, n)
            &&& fx.len() == 0
        },
        Message::FilterAllClicked => {
            &&& n == TorrentListScreen {
                filters: n.filters,
                selected_ids: n.selected_ids,
                selection_anchor: n.selection_anchor,
                ..o
            }
            &&& n.filters@ == filters_after_all_clicked(o.filters@)
            &&& reselected_after_view_change(o, n)
            &&& fx.len() == 0
        },
        Message::TorrentRightClicked(id) => if o.selected_ids@.contains(id) {
            n == TorrentListScreen { context_menu: Some(id), ..o } && fx.len() == 0
        } else {
            &&& n == TorrentListScreen {
                selected_ids: n.selected_ids,
                selection_anchor: Some(id),
                context_menu: Some(id),
                ..o
            }
            &&& n.selected_ids@ == seq![id]
            &&& fx.len() == 0
        },
        Message::DismissContextMenu => n == TorrentListScreen { context_menu: None, ..o }
            && fx.len() == 0,
        Message::ContextMenuStart => start_stop_step(
            o,
            TorrentListScreen { context_menu: o.context_menu, ..n },
            fx,
            true,
        ) && n.context_menu is None,
        Message::ContextMenuPause => start_stop_step(
            o,
            TorrentListScreen { context_menu: o.context_menu, ..n },
            fx,
            false,
        ) && n.context_menu is None,
        Message::ContextMenuDelete => delete_armed(
            o,
            TorrentListScreen { context_menu: o.context_menu, ..n },
        ) && n.context_menu is None && fx.len() == 0,
        Message::OpenSetLocation => {
            &&& n == TorrentListScreen {
                context_menu: None,
                set_location_dialog: n.set_location_dialog,
                ..o
            }
            &&& if o.selected_ids@.len() > 0 {
                &&& n.set_location_dialog matches Some(dlg)
                &&& dlg.ids@ == o.selected_ids@
                &&& dlg.path@ == match first_with_id(o.torrents@, o.selected_ids@[0]) {
                    Some(t) => t.download_dir@,
                    None => Seq::empty(),
                }
                &&& dlg.move_data
            } else {
                n.set_location_dialog == o.set_location_dialog
            }
            &&& fx.len() == 0
        },
        Message::SetLocationPathChanged(p) => n == TorrentListScreen {
            set_location_dialog: match o.set_location_dialog {
                Some(d) => Some(SetLocationDialog { path: p, ..d }),
                None => None,
            },
            ..o
        } && fx.len() == 0,
        Message::SetLocationMoveToggled => n == TorrentListScreen {
            set_location_dialog: match o.set_location_dialog {
                Some(d) => Some(SetLocationDialog { move_data: !d.move_data, ..d }),
                None => None,
            },
            ..o
        } && fx.len() == 0,
        Message::SetLocationCancel => n == TorrentListScreen { set_location_dialog: None, ..o }
            && fx.len() == 0,
        Message::SetLocationApply => {
            &&& n == TorrentListScreen { set_location_dialog: None, ..o }
            &&& match o.set_location_dialog {
                Some(d) => if is_blank(d.path@) {
                    fx.len() == 0
                } else {
                    fx == seq![
                        Effect::Enqueue(
                            RpcWork::SetLocation {
                                params: o.params,
                                ids: d.ids,
                                location: d.path,
                                move_data: d.move_data,
                            },
                        ),
                    ]
                },
                None => fx.len() == 0,
            }
        },
    }
}


// ── Executable state handling ───────────────────────────────────────────────

/// `n` copies of `value`.
pub fn filled(value: bool, n: usize) -> (v: Vec<bool>)
    ensures
        v@ == Seq::new(n as nat, |i: int| value),
{
    let mut v: Vec<bool> = Vec::new();
    let mut i: usize = 0;
    while i < n
        invariant
            i <= n,
            v@ == Seq::new(i as nat, |j: int| value),
        decreases n - i,
    {
        v.push(value);
        i += 1;
    }
    v
}

/// A copy of `v`.
pub fn copy_ids(v: &Vec<i64>) -> (r: Vec<i64>)
    ensures
        r@ == v@,
{
    let mut r: Vec<i64> = Vec::new();
    let mut i: usize = 0;
    while i < v.len()
        invariant
            i <= v@.len(),
            r@ == v@.take(i as int),
        decreases v@.len() - i,
    {
        assert(v@.take(i + 1) == v@.take(i as int).push(v@[i as int]));
        r.push(v[i]);
        i += 1;
    }
    assert(v@.take(v@.len() as int) == v@);
    r
}

/// The elements `v[lo..hi]`.
fn slice_ids(v: &Vec<i64>, lo: usize, hi: usize) -> (r: Vec<i64>)
    requires
        lo <= hi <= v@.len(),
    ensures
        r@ == v@.subrange(lo as int, hi as int),
{
    let mut r: Vec<i64> = Vec::new();
    let mut i: usize = lo;
    while i < hi
        invariant
            lo <= i <= hi,
            hi <= v@.len(),
            r@ == v@.subrange(lo as int, i as int),
        decreases hi - i,
    {
        assert(v@.subrange(lo as int, i + 1) == v@.subrange(lo as int, i as int).push(
            v@[i as int],
        ));
        r.push(v[i]);
        i += 1;
    }
    r
}

/// The first recent download path, or empty text.
fn initial_destination_of(paths: &Vec<String>) -> (d: String)
    ensures
        d@ == initial_destination(paths@),
{
    if paths.len() > 0 {
        paths[0].clone()
    } else {
        String::new()
    }
}

/// The indices, as `i64`, of the unselected files.
fn unwanted_of(selected: &Vec<bool>) -> (r: Vec<i64>)
    ensures
        r@ == unwanted_indices(selected@),
{
    let mut r: Vec<i64> = Vec::new();
    let mut i: usize = 0;
    while i < selected.len()
        invariant
            i <= selected@.len(),
            r@ == unwanted_indices(selected@.take(i as int)),
        decreases selected@.len() - i,
    {
        let ghost next = selected@.take(i + 1);
        assert(next.drop_last() == selected@.take(i as int));
        assert(next.last() == selected@[i as int]);
        if !selected[i] {
            r.push(#[verifier::truncate] (i as i64));
        }
        i += 1;
    }
    assert(selected@.take(selected@.len() as int) == selected@);
    r
}

/// `s` is the screen of a fresh connection with these credentials: nothing
/// loaded, nothing selected, no modifier held, every filter chip active,
/// unsorted, no dialog or menu open.
pub open spec fn is_fresh_list(s: TorrentListScreen, credentials: TransmissionCredentials, session_id: String) -> bool {
    &&& s.params == (ConnectionParams { credentials, session_id })
    &&& s.torrents@.len() == 0
    &&& !s.is_loading
    &&& !s.initial_load_done
    &&& s.error is None
    &&& s.selected_ids@.len() == 0
    &&& s.selection_anchor is None
    &&& s.modifiers == (KeyModifiers { shift: false, control: false, command: false })
    &&& s.confirming_delete is None
    &&& s.add_dialog is Hidden
    &&& s.sort_column is None
    &&& s.sort_dir == SortDir::Asc
    &&& s.filters@ == every_filter()
    &&& s.context_menu is None
    &&& s.set_location_dialog is None
    &&& s.recent_download_paths@.len() == 0
    &&& s.wf()
}

impl TorrentListScreen {
    /// A fresh screen for the given connection: nothing loaded, nothing
    /// selected, every filter chip active, unsorted.
    pub fn new(credentials: TransmissionCredentials, session_id: String) -> (s: TorrentListScreen)
        ensures
            is_fresh_list(s, credentials, session_id),
    {
        TorrentListScreen {
            params: ConnectionParams::new(credentials, session_id),
            torrents: Vec::new(),
            is_loading: false,
            initial_load_done: false,
            error: None,
            selected_ids: Vec::new(),
            selection_anchor: None,
            modifiers: KeyModifiers { shift: false, control: false, command: false },
            confirming_delete: None,
            add_dialog: AddDialogState::Hidden,
            sort_column: None,
            sort_dir: SortDir::Asc,
            filters: FilterSet::all(),
            context_menu: None,
            set_location_dialog: None,
            recent_download_paths: Vec::new(),
        }
    }

    /// Return the currently selected torrent, if any.
    /// Returns `Some` only when exactly one torrent is selected.
    pub fn selected_torrent(&self) -> (r: Option<&TorrentData>)
        ensures
            match r {
                Some(t) => self.spec_selected_torrent() == Some(*t),
                None => self.spec_selected_torrent() is None,
            },
    {
        if self.selected_ids.len() != 1 {
            return None;
        }
        let id = self.selected_ids[0];
        proof {
            lemma_first_index_with_id(self.torrents@, id);
        }
        let all = self.torrents.as_slice();
        assert(all@ == self.torrents@);
        let found = find_torrent(all, id);
        match found {
            Some(i) => {
                assert(self.spec_selected_torrent() == Some(self.torrents@[i as int]));
                Some(&self.torrents[i])
            },
            None => None,
        }
    }

    /// Return the visible (filtered + sorted) torrents in display order.
    pub fn visible_torrents(&self) -> (v: Vec<&TorrentData>)
        ensures
            v@.len() == self.visible_order().len(),
            forall|k: int|
                0 <= k < v@.len() ==> *#[trigger] v@[k] == self.torrents@[self.visible_order()[k] as int],
    {
        crate::filters::display_torrents(
            self.torrents.as_slice(),
            self.sort_column,
            self.sort_dir,
            &self.filters,
        )
    }

    /// The IDs of the visible torrents, in display order.
    pub fn visible_torrent_ids(&self) -> (v: Vec<i64>)
        ensures
            v@ == self.visible_ids(),
    {
        let order = display_order_indices(
            self.torrents.as_slice(),
            self.sort_column,
            self.sort_dir,
            &self.filters,
        );
        let mut v: Vec<i64> = Vec::new();
        let mut k: usize = 0;
        while k < order.len()
            invariant
                k <= order@.len(),
                order@ == self.visible_order(),
                forall|j: int| 0 <= j < order@.len() ==> #[trigger] order@[j] < self.torrents@.len(),
                v@.len() == k,
                forall|j: int| 0 <= j < k ==> #[trigger] v@[j] == self.torrents@[order@[j] as int].id,
            decreases order@.len() - k,
        {
            v.push(self.torrents[order[k]].id);
            k += 1;
        }
        assert(v@ =~= self.visible_ids());
        v
    }

    /// Remove from `selected_ids` any torrent IDs that are not currently
    /// visible (filtered out or no longer present), and clear an anchor that
    /// is not visible either.
    pub fn prune_selection_to_visible(&mut self)
        requires
            old(self).wf(),
        ensures
            final(self).wf(),
            pruned(*old(self), *final(self)),
    {
        let vis = self.visible_torrent_ids();
        let mut kept: Vec<i64> = Vec::new();
        let mut k: usize = 0;
        while k < self.selected_ids.len()
            invariant
                k <= self.selected_ids@.len(),
                self.selected_ids@.no_duplicates(),
                kept@ == self.selected_ids@.take(k as int).filter(occurs_in(vis@)),
                kept@.no_duplicates(),
                forall|y: i64| #[trigger] kept@.contains(y) ==> self.selected_ids@.take(k as int).contains(y),
            decreases self.selected_ids@.len() - k,
        {
            let y = self.selected_ids[k];
            assert(self.selected_ids@.take(k + 1) == self.selected_ids@.take(k as int).push(y));
            proof {
                self.selected_ids@.take(k as int).lemma_filter_push(y, occurs_in(vis@));
            }
            if vec_contains(&vis, y) {
                assert(!self.selected_ids@.take(k as int).contains(y)) by {
                    if self.selected_ids@.take(k as int).contains(y) {
                        let j = choose|j: int| 0 <= j < k && self.selected_ids@.take(k as int)[j] == y;
                        assert(self.selected_ids@[j] == self.selected_ids@[k as int]);
                    }
                }
                let ghost before = kept@;
                kept.push(y);
                assert(kept@.no_duplicates()) by {
                    assert forall|a: int, b: int| 0 <= a < b < kept@.len() implies kept@[a] != kept@[b] by {
                        if b == kept@.len() - 1 {
                            assert(before.contains(before[a]));
                        }
                    }
                }
            }
            k += 1;
        }
        assert(self.selected_ids@.take(self.selected_ids@.len() as int) == self.selected_ids@);
        self.selected_ids = kept;
        match self.selection_anchor {
            Some(a) => {
                if !vec_contains(&vis, a) {
                    self.selection_anchor = None;
                }
            },
            None => {},
        }
    }

    /// Select every visible torrent; the first visible one becomes the anchor.
    fn select_all_visible(&mut self)
        requires
            old(self).wf(),
        ensures
            final(self).wf(),
            *final(self) == (TorrentListScreen {
                selected_ids: final(self).selected_ids,
                selection_anchor: if old(self).visible_ids().len() > 0 {
                    Some(old(self).visible_ids()[0])
                } else {
                    None
                },
                ..*old(self)
            }),
            final(self).selected_ids@ == extend_unique(old(self).selected_ids@, old(self).visible_ids()),
    {
        let vis = self.visible_torrent_ids();
        add_missing(&mut self.selected_ids, &vis);
        self.selection_anchor = if vis.len() > 0 {
            Some(vis[0])
        } else {
            None
        };
    }

    /// Apply a click on the row of `id` to the selection.
    fn click(&mut self, id: i64)
        requires
            old(self).wf(),
        ensures
            final(self).wf(),
            *final(self) == (TorrentListScreen {
                selected_ids: final(self).selected_ids,
                selection_anchor: final(self).selection_anchor,
                ..*old(self)
            }),
            (final(self).selected_ids@, final(self).selection_anchor) == selection_after_click(
                *old(self),
                id,
            ),
    {
        if self.modifiers.shift && self.selection_anchor.is_some() {
            self.shift_click(id);
        } else if self.modifiers.command || self.modifiers.control {
            self.toggle_click(id);
        } else {
            self.plain_click(id);
        }
    }

    /// A Shift-click: extend the selection over the visible range between
    /// the anchor and `id`, or fall back to a plain selection of `id`.
    fn shift_click(&mut self, id: i64)
        requires
            old(self).wf(),
            old(self).modifiers.shift,
            old(self).selection_anchor is Some,
        ensures
            final(self).wf(),
            *final(self) == (TorrentListScreen {
                selected_ids: final(self).selected_ids,
                selection_anchor: final(self).selection_anchor,
                ..*old(self)
            }),
            (final(self).selected_ids@, final(self).selection_anchor) == selection_after_click(
                *old(self),
                id,
            ),
    {
        let ghost o = *self;
        let anchor_id = match self.selection_anchor {
            Some(a) => a,
            None => id,
        };
        let vis = self.visible_torrent_ids();
        let pa = find_position(&vis, anchor_id);
        let pb = find_position(&vis, id);
        proof {
            lemma_position_of(vis@, anchor_id);
            lemma_position_of(vis@, id);
        }
        match (pa, pb) {
            (Some(a), Some(b)) => {
                let lo = if a <= b {
                    a
                } else {
                    b
                };
                let hi = if a <= b {
                    b
                } else {
                    a
                };
                let count = vis.len();
                assert(hi < count);
                let range = slice_ids(&vis, lo, hi + 1);
                add_missing(&mut self.selected_ids, &range);
            },
            _ => {
                self.selected_ids = Vec::new();
                self.selected_ids.push(id);
                self.selection_anchor = Some(id);
                assert(self.selected_ids@ =~= seq![id]);
            },
        }
    }

    /// A Ctrl/Cmd-click: toggle `id` in the selection; `id` becomes the anchor.
    fn toggle_click(&mut self, id: i64)
        requires
            old(self).wf(),
        ensures
            final(self).wf(),
            *final(self) == (TorrentListScreen {
                selected_ids: final(self).selected_ids,
                selection_anchor: Some(id),
                ..*old(self)
            }),
            final(self).selected_ids@ == if old(self).selected_ids@.contains(id) {
                without(old(self).selected_ids@, id)
            } else {
                old(self).selected_ids@.push(id)
            },
    {
        if vec_contains(&self.selected_ids, id) {
            remove_value(&mut self.selected_ids, id);
        } else {
            let ghost before = self.selected_ids@;
            self.selected_ids.push(id);
            assert(self.selected_ids@.no_duplicates()) by {
                assert forall|a: int, b: int|
                    0 <= a < b < self.selected_ids@.len() implies self.selected_ids@[a]
                    != self.selected_ids@[b] by {
                    if b == self.selected_ids@.len() - 1 {
                        assert(before.contains(before[a]));
                    }
                }
            }
        }
        self.selection_anchor = Some(id);
    }

    /// A plain click: deselect `id` when it is the only selection, otherwise
    /// select just `id`.
    fn plain_click(&mut self, id: i64)
        requires
            old(self).wf(),
        ensures
            final(self).wf(),
            *final(self) == (TorrentListScreen {
                selected_ids: final(self).selected_ids,
                selection_anchor: final(self).selection_anchor,
                ..*old(self)
            }),
            if old(self).selected_ids@.len() == 1 && old(self).selected_ids@.contains(id) {
                final(self).selected_ids@ == Seq::<i64>::empty() && final(self).selection_anchor
                    is None
            } else {
                final(self).selected_ids@ == seq![id] && final(self).selection_anchor == Some(id)
            },
    {
        if self.selected_ids.len() == 1 && vec_contains(&self.selected_ids, id) {
            self.selected_ids = Vec::new();
            self.selection_anchor = None;
            assert(self.selected_ids@ =~= Seq::<i64>::empty());
        } else {
            self.selected_ids = Vec::new();
            self.selected_ids.push(id);
            self.selection_anchor = Some(id);
            assert(self.selected_ids@ =~= seq![id]);
        }
    }
}

/// Move the add dialog on to its next queued torrent, or close it.
fn advance_queue(state: &mut TorrentListScreen)
    ensures
        *final(state) == (TorrentListScreen { add_dialog: final(state).add_dialog, ..*old(state) }),
        advanced(old(state).add_dialog, final(state).add_dialog),
{
    let mut current = AddDialogState::Hidden;
    std::mem::swap(&mut current, &mut state.add_dialog);
    match current {
        AddDialogState::AddFile { mut pending_torrents, total_count, destination, .. } => {
            match pending_torrents.pop_front() {
                Some(next) => {
                    let n = next.files.len();
                    state.add_dialog = AddDialogState::AddFile {
                        metainfo_b64: next.metainfo_b64,
                        files: next.files,
                        selected: filled(true, n),
                        destination,
                        error: None,
                        pending_torrents,
                        is_dropdown_open: false,
                        total_count,
                    };
                },
                None => {},
            }
        },
        _ => {},
    }
}

/// Send the add request for the open dialog and move the dialog on.
fn confirm_add(state: &mut TorrentListScreen) -> (fx: Vec<Effect>)
    ensures
        add_confirmed_step(*old(state), *final(state), fx@),
{
    let (payload, destination, unwanted) = match &state.add_dialog {
        AddDialogState::AddLink { magnet, destination, .. } => {
            if text_is_blank(magnet.as_str()) {
                return Vec::new();
            }
            (AddPayload::Magnet(magnet.clone()), destination.clone(), Vec::new())
        },
        AddDialogState::AddFile { metainfo_b64, destination, selected, .. } => {
            (
                AddPayload::Metainfo(metainfo_b64.clone()),
                destination.clone(),
                unwanted_of(selected),
            )
        },
        AddDialogState::Hidden => {
            return Vec::new();
        },
    };
    let used_blank = text_is_blank(destination.as_str());
    let used_path = destination.clone();
    state.is_loading = true;
    let work = RpcWork::TorrentAdd {
        params: copy_params(&state.params),
        payload,
        download_dir: Some(destination),
        files_unwanted: unwanted,
    };
    advance_queue(state);
    let mut fx: Vec<Effect> = Vec::new();
    fx.push(Effect::Enqueue(work));
    if !used_blank {
        fx.push(Effect::ProfilePathUsed(used_path));
    }
    fx
}


/// A list of one effect.
fn one(e: Effect) -> (v: Vec<Effect>)
    ensures
        v@ == seq![e],
{
    let mut v: Vec<Effect> = Vec::new();
    v.push(e);
    v
}

/// Apply a single torrent-list message to the screen state and return the
/// follow-up work.
pub fn update(state: &mut TorrentListScreen, msg: Message) -> (fx: Vec<Effect>)
    requires
        old(state).wf(),
    ensures
        final(state).wf(),
        list_step(*old(state), msg, *final(state), fx@),
{
    let group: u8 = match &msg {
        Message::Tick | Message::TorrentsUpdated(..) | Message::SessionIdRotated(..) | Message::TorrentSelected(..) | Message::ClearSelection | Message::ModifiersChanged(..) | Message::KeyboardSelectAll | Message::PauseClicked | Message::ResumeClicked | Message::DeleteClicked | Message::DeleteLocalDataToggled(..) | Message::DeleteCancelled | Message::DeleteConfirmed | Message::ActionCompleted(..) => 0,
        Message::AddTorrentClicked | Message::TorrentFileRead(..) | Message::AddLinkClicked | Message::AddDialogMagnetChanged(..) | Message::AddDialogDestinationChanged(..) | Message::AddDialogFileToggled(..) | Message::AddDialogSelectAll | Message::AddDialogDeselectAll | Message::AddCancelled | Message::AddCancelAll | Message::AddCancelThis | Message::AddDialogToggleDropdown | Message::AddDialogDismissDropdown | Message::AddDialogRecentPathSelected(..) | Message::ProfilePathUsed(..) | Message::AddConfirmed | Message::AddCompleted(..) | Message::DialogTabKeyPressed{ .. } | Message::DialogEnterPressed => 1,
        _ => 2,
    };
    if group == 0 {
        update_list_and_selection(state, msg)
    } else if group == 1 {
        update_add_dialog(state, msg)
    } else {
        update_view_and_menus(state, msg)
    }
}

/// Polling, selection and toolbar messages.
#[verifier::rlimit(50)]
fn update_list_and_selection(state: &mut TorrentListScreen, msg: Message) -> (fx: Vec<Effect>)
    requires
        old(state).wf(),
        msg is Tick || msg is TorrentsUpdated || msg is SessionIdRotated || msg is TorrentSelected || msg is ClearSelection || msg is ModifiersChanged || msg is KeyboardSelectAll || msg is PauseClicked || msg is ResumeClicked || msg is DeleteClicked || msg is DeleteLocalDataToggled || msg is DeleteCancelled || msg is DeleteConfirmed || msg is ActionCompleted,
    ensures
        final(state).wf(),
        list_step(*old(state), msg, *final(state), fx@),
{
    match msg {
        Message::Tick => {
            if state.is_loading {
                return Vec::new();
            }
            state.is_loading = true;
            one(Effect::Enqueue(RpcWork::TorrentGet(copy_params(&state.params))))
        },
        Message::TorrentsUpdated(Ok(torrents)) => {
            state.torrents = torrents;
            state.is_loading = false;
            state.initial_load_done = true;
            state.error = None;
            state.prune_selection_to_visible();
            Vec::new()
        },
        Message::TorrentsUpdated(Err(err)) => {
            state.is_loading = false;
            state.initial_load_done = true;
            state.error = Some(err);
            Vec::new()
        },
        Message::SessionIdRotated(new_id) => {
            state.params.session_id = new_id;
            Vec::new()
        },
        Message::TorrentSelected(id) => {
            state.click(id);
            Vec::new()
        },
        Message::ClearSelection => {
            state.selected_ids = Vec::new();
            state.selection_anchor = None;
            Vec::new()
        },
        Message::ModifiersChanged(m) => {
            state.modifiers = m;
            Vec::new()
        },
        Message::KeyboardSelectAll => {
            state.select_all_visible();
            Vec::new()
        },
        Message::PauseClicked => start_or_stop(state, false),
        Message::ResumeClicked => start_or_stop(state, true),
        Message::DeleteClicked => {
            arm_delete(state);
            Vec::new()
        },
        Message::DeleteLocalDataToggled(val) => {
            match state.confirming_delete.take() {
                Some((ids, _)) => {
                    state.confirming_delete = Some((ids, val));
                },
                None => {},
            }
            Vec::new()
        },
        Message::DeleteCancelled => {
            state.confirming_delete = None;
            Vec::new()
        },
        Message::DeleteConfirmed => {
            match state.confirming_delete.take() {
                Some((ids, delete_local_data)) => {
                    state.is_loading = true;
                    one(Effect::Enqueue(
                            RpcWork::TorrentRemove {
                                params: copy_params(&state.params),
                                ids,
                                delete_local_data,
                            },
                        ))
                },
                None => Vec::new(),
            }
        },
        Message::ActionCompleted(Ok(())) => {
            one(Effect::Enqueue(RpcWork::TorrentGet(copy_params(&state.params))))
        },
        Message::ActionCompleted(Err(err)) => {
            state.is_loading = false;
            state.error = Some(err);
            Vec::new()
        },
        _ => Vec::new(),
    }
}

/// Add-dialog messages.
#[verifier::rlimit(50)]
fn update_add_dialog(state: &mut TorrentListScreen, msg: Message) -> (fx: Vec<Effect>)
    requires
        old(state).wf(),
        msg is AddTorrentClicked || msg is TorrentFileRead || msg is AddLinkClicked || msg is AddDialogMagnetChanged || msg is AddDialogDestinationChanged || msg is AddDialogFileToggled || msg is AddDialogSelectAll || msg is AddDialogDeselectAll || msg is AddCancelled || msg is AddCancelAll || msg is AddCancelThis || msg is AddDialogToggleDropdown || msg is AddDialogDismissDropdown || msg is AddDialogRecentPathSelected || msg is ProfilePathUsed || msg is AddConfirmed || msg is AddCompleted || msg is DialogTabKeyPressed || msg is DialogEnterPressed,
    ensures
        final(state).wf(),
        list_step(*old(state), msg, *final(state), fx@),
{
    match msg {
        Message::AddTorrentClicked => one(Effect::PickTorrentFiles),
        Message::TorrentFileRead(Ok(queue)) => open_file_dialog(state, queue),
        Message::TorrentFileRead(Err(err)) => {
            if !crate::text::text_eq(err.as_str(), "cancelled") {
                state.error = Some(crate::text::concat_text("Could not open torrent file: ", err.as_str()));
            }
            Vec::new()
        },
        Message::AddLinkClicked => {
            let destination = initial_destination_of(&state.recent_download_paths);
            state.add_dialog = AddDialogState::AddLink {
                magnet: String::new(),
                destination,
                error: None,
            };
            one(Effect::FocusMagnetInput)
        },
        Message::AddDialogMagnetChanged(val) => {
            let mut d = AddDialogState::Hidden;
            std::mem::swap(&mut d, &mut state.add_dialog);
            state.add_dialog = match d {
                AddDialogState::AddLink { destination, error, .. } => AddDialogState::AddLink {
                    magnet: val,
                    destination,
                    error,
                },
                other => other,
            };
            Vec::new()
        },
        Message::AddDialogDestinationChanged(val) => {
            let mut d = AddDialogState::Hidden;
            std::mem::swap(&mut d, &mut state.add_dialog);
            state.add_dialog = match d {
                AddDialogState::AddLink { magnet, error, .. } => AddDialogState::AddLink {
                    magnet,
                    destination: val,
                    error,
                },
                AddDialogState::AddFile {
                    metainfo_b64,
                    files,
                    selected,
                    error,
                    pending_torrents,
                    is_dropdown_open,
                    total_count,
                    ..
                } => AddDialogState::AddFile {
                    metainfo_b64,
                    files,
                    selected,
                    destination: val,
                    error,
                    pending_torrents,
                    is_dropdown_open,
                    total_count,
                },
                AddDialogState::Hidden => AddDialogState::Hidden,
            };
            Vec::new()
        },
        Message::AddDialogFileToggled(index) => {
            toggle_file(state, index);
            Vec::new()
        },
        Message::AddDialogSelectAll => {
            set_all_files(state, true);
            Vec::new()
        },
        Message::AddDialogDeselectAll => {
            set_all_files(state, false);
            Vec::new()
        },
        Message::AddCancelled | Message::AddCancelAll => {
            state.add_dialog = AddDialogState::Hidden;
            Vec::new()
        },
        Message::AddCancelThis => {
            advance_queue(state);
            Vec::new()
        },
        Message::AddDialogToggleDropdown => {
            let mut d = AddDialogState::Hidden;
            std::mem::swap(&mut d, &mut state.add_dialog);
            state.add_dialog = match d {
                AddDialogState::AddFile {
                    metainfo_b64,
                    files,
                    selected,
                    destination,
                    error,
                    pending_torrents,
                    is_dropdown_open,
                    total_count,
                } => AddDialogState::AddFile {
                    metainfo_b64,
                    files,
                    selected,
                    destination,
                    error,
                    pending_torrents,
                    is_dropdown_open: !is_dropdown_open,
                    total_count,
                },
                other => other,
            };
            Vec::new()
        },
        Message::AddDialogDismissDropdown => {
            let mut d = AddDialogState::Hidden;
            std::mem::swap(&mut d, &mut state.add_dialog);
            state.add_dialog = match d {
                AddDialogState::AddFile {
                    metainfo_b64,
                    files,
                    selected,
                    destination,
                    error,
                    pending_torrents,
                    total_count,
                    ..
                } => AddDialogState::AddFile {
                    metainfo_b64,
                    files,
                    selected,
                    destination,
                    error,
                    pending_torrents,
                    is_dropdown_open: false,
                    total_count,
                },
                other => other,
            };
            Vec::new()
        },
        Message::AddDialogRecentPathSelected(path) => {
            let mut d = AddDialogState::Hidden;
            std::mem::swap(&mut d, &mut state.add_dialog);
            state.add_dialog = match d {
                AddDialogState::AddFile {
                    metainfo_b64,
                    files,
                    selected,
                    error,
                    pending_torrents,
                    total_count,
                    ..
                } => AddDialogState::AddFile {
                    metainfo_b64,
                    files,
                    selected,
                    destination: path,
                    error,
                    pending_torrents,
                    is_dropdown_open: false,
                    total_count,
                },
                AddDialogState::AddLink { magnet, error, .. } => AddDialogState::AddLink {
                    magnet,
                    destination: path,
                    error,
                },
                AddDialogState::Hidden => AddDialogState::Hidden,
            };
            Vec::new()
        },
        Message::ProfilePathUsed(_) => Vec::new(),
        Message::AddConfirmed => confirm_add(state),
        Message::AddCompleted(Ok(())) => {
            state.is_loading = true;
            one(Effect::Enqueue(RpcWork::TorrentGet(copy_params(&state.params))))
        },
        Message::AddCompleted(Err(err)) => {
            state.is_loading = false;
            state.error = Some(err);
            Vec::new()
        },
        Message::DialogTabKeyPressed { shift } => match &state.add_dialog {
            AddDialogState::AddLink { .. } => {
                if shift {
                    one(Effect::FocusPrevious)
                } else {
                    one(Effect::FocusNext)
                }
            },
            _ => Vec::new(),
        },
        Message::DialogEnterPressed => {
            let should_confirm = match &state.add_dialog {
                AddDialogState::AddLink { magnet, .. } => !text_is_blank(magnet.as_str()),
                AddDialogState::AddFile { metainfo_b64, .. } => !metainfo_b64.as_str().is_empty(),
                AddDialogState::Hidden => false,
            };
            if should_confirm {
                confirm_add(state)
            } else {
                Vec::new()
            }
        },
        _ => Vec::new(),
    }
}

/// Sorting, filtering, context-menu and set-location messages.
#[verifier::rlimit(50)]
fn update_view_and_menus(state: &mut TorrentListScreen, msg: Message) -> (fx: Vec<Effect>)
    requires
        old(state).wf(),
        msg is Disconnect || msg is OpenSettingsClicked || msg is FileWantedSettled || msg is BandwidthSaved || msg is TurtleModeToggled || msg is SessionDataLoaded || msg is ColumnHeaderClicked || msg is FilterToggled || msg is FilterAllClicked || msg is TorrentRightClicked || msg is DismissContextMenu || msg is ContextMenuStart || msg is ContextMenuPause || msg is ContextMenuDelete || msg is OpenSetLocation || msg is SetLocationPathChanged || msg is SetLocationMoveToggled || msg is SetLocationCancel || msg is SetLocationApply,
    ensures
        final(state).wf(),
        list_step(*old(state), msg, *final(state), fx@),
{
    match msg {
        Message::Disconnect | Message::OpenSettingsClicked => Vec::new(),
        Message::FileWantedSettled(..)
        | Message::BandwidthSaved(..)
        | Message::TurtleModeToggled
        | Message::SessionDataLoaded(..) => Vec::new(),
        Message::ColumnHeaderClicked(col) => {
            match state.sort_column {
                Some(current) => {
                    if current == col {
                        match state.sort_dir {
                            SortDir::Asc => state.sort_dir = SortDir::Desc,
                            SortDir::Desc => state.sort_column = None,
                        }
                    } else {
                        state.sort_column = Some(col);
                        state.sort_dir = SortDir::Asc;
                    }
                },
                None => {
                    state.sort_column = Some(col);
                    state.sort_dir = SortDir::Asc;
                },
            }
            Vec::new()
        },
        Message::FilterToggled(filter) => {
            if state.filters.contains(&filter) {
                state.filters.remove(&filter);
            } else {
                state.filters.insert(filter);
            }
            state.prune_selection_to_visible();
            Vec::new()
        },
        Message::FilterAllClicked => {
            if state.filters.len() == 5 {
                state.filters.clear();
            } else {
                state.filters = FilterSet::all();
            }
            state.prune_selection_to_visible();
            Vec::new()
        },
        Message::TorrentRightClicked(id) => {
            if !vec_contains(&state.selected_ids, id) {
                state.selected_ids = Vec::new();
                state.selected_ids.push(id);
                state.selection_anchor = Some(id);
                assert(state.selected_ids@ =~= seq![id]);
            }
            state.context_menu = Some(id);
            Vec::new()
        },
        Message::DismissContextMenu => {
            state.context_menu = None;
            Vec::new()
        },
        Message::ContextMenuStart => {
            state.context_menu = None;
            start_or_stop(state, true)
        },
        Message::ContextMenuPause => {
            state.context_menu = None;
            start_or_stop(state, false)
        },
        Message::ContextMenuDelete => {
            state.context_menu = None;
            arm_delete(state);
            Vec::new()
        },
        Message::OpenSetLocation => {
            state.context_menu = None;
            open_set_location(state);
            Vec::new()
        },
        Message::SetLocationPathChanged(p) => {
            match state.set_location_dialog.take() {
                Some(dlg) => {
                    state.set_location_dialog = Some(SetLocationDialog { path: p, ..dlg });
                },
                None => {},
            }
            Vec::new()
        },
        Message::SetLocationMoveToggled => {
            match state.set_location_dialog.take() {
                Some(dlg) => {
                    let flipped = !dlg.move_data;
                    state.set_location_dialog = Some(SetLocationDialog { move_data: flipped, ..dlg });
                },
                None => {},
            }
            Vec::new()
        },
        Message::SetLocationCancel => {
            state.set_location_dialog = None;
            Vec::new()
        },
        Message::SetLocationApply => {
            match state.set_location_dialog.take() {
                Some(dlg) => {
                    if text_is_blank(dlg.path.as_str()) {
                        Vec::new()
                    } else {
                        one(Effect::Enqueue(
                                RpcWork::SetLocation {
                                    params: copy_params(&state.params),
                                    ids: dlg.ids,
                                    location: dlg.path,
                                    move_data: dlg.move_data,
                                },
                            ))
                    }
                },
                None => Vec::new(),
            }
        },

        _ => Vec::new(),
    }
}

/// Start (`start`) or stop the selected torrents.
fn start_or_stop(state: &mut TorrentListScreen, start: bool) -> (fx: Vec<Effect>)
    ensures
        start_stop_step(*old(state), *final(state), fx@, start),
{
    if state.selected_ids.len() == 0 {
        return Vec::new();
    }
    state.is_loading = true;
    let params = copy_params(&state.params);
    let ids = copy_ids(&state.selected_ids);
    if start {
        one(Effect::Enqueue(RpcWork::TorrentStart { params, ids }))
    } else {
        one(Effect::Enqueue(RpcWork::TorrentStop { params, ids }))
    }
}

/// Arm the delete confirmation for the selection.
fn arm_delete(state: &mut TorrentListScreen)
    ensures
        delete_armed(*old(state), *final(state)),
{
    if state.selected_ids.len() > 0 {
        state.confirming_delete = Some((copy_ids(&state.selected_ids), false));
    }
}

/// Open the set-location dialog for the selection, prefilled with the data
/// directory of the first selected torrent.
fn open_set_location(state: &mut TorrentListScreen)
    ensures
        *final(state) == (TorrentListScreen {
            set_location_dialog: final(state).set_location_dialog,
            ..*old(state)
        }),
        if old(state).selected_ids@.len() > 0 {
            &&& final(state).set_location_dialog matches Some(dlg)
            &&& dlg.ids@ == old(state).selected_ids@
            &&& dlg.path@ == match first_with_id(old(state).torrents@, old(state).selected_ids@[0]) {
                Some(t) => t.download_dir@,
                None => Seq::empty(),
            }
            &&& dlg.move_data
        } else {
            final(state).set_location_dialog == old(state).set_location_dialog
        },
{
    if state.selected_ids.len() == 0 {
        return;
    }
    let ids = copy_ids(&state.selected_ids);
    let all = state.torrents.as_slice();
    let found = find_torrent(all, ids[0]);
    proof {
        lemma_first_index_with_id(all@, ids@[0]);
    }
    let dir = match found {
        Some(i) => state.torrents[i].download_dir.clone(),
        None => String::new(),
    };
    state.set_location_dialog = Some(SetLocationDialog { ids, path: dir, move_data: true });
}

/// Open the add-file dialog on the first of the read torrents.
fn open_file_dialog(state: &mut TorrentListScreen, queue: VecDeque<FileReadResult>) -> (fx: Vec<
    Effect,
>)
    ensures
        if queue@.len() == 0 {
            *final(state) == *old(state) && fx@.len() == 0
        } else {
            &&& *final(state) == (TorrentListScreen { add_dialog: final(state).add_dialog, ..*old(state) })
            &&& file_dialog_opened(
                final(state).add_dialog,
                queue@[0],
                queue@.drop_first(),
                initial_destination(old(state).recent_download_paths@),
                queue@.len() as int,
            )
            &&& fx@ == seq![Effect::FocusDestinationInput]
        },
{
    let mut queue = queue;
    let total_count = queue.len();
    match queue.pop_front() {
        Some(first) => {
            let n = first.files.len();
            let destination = initial_destination_of(&state.recent_download_paths);
            state.add_dialog = AddDialogState::AddFile {
                metainfo_b64: first.metainfo_b64,
                files: first.files,
                selected: filled(true, n),
                destination,
                error: None,
                pending_torrents: queue,
                is_dropdown_open: false,
                total_count,
            };
            one(Effect::FocusDestinationInput)
        },
        None => Vec::new(),
    }
}

/// Flip the selection of file `index` in the add-file dialog.
fn toggle_file(state: &mut TorrentListScreen, index: usize)
    ensures
        *final(state) == (TorrentListScreen { add_dialog: final(state).add_dialog, ..*old(state) }),
        with_file_selection(
            old(state).add_dialog,
            final(state).add_dialog,
            if index < file_selection(old(state).add_dialog).len() {
                file_selection(old(state).add_dialog).update(
                    index as int,
                    !file_selection(old(state).add_dialog)[index as int],
                )
            } else {
                file_selection(old(state).add_dialog)
            },
        ),
{
    let mut d = AddDialogState::Hidden;
    std::mem::swap(&mut d, &mut state.add_dialog);
    state.add_dialog = match d {
        AddDialogState::AddFile {
            metainfo_b64,
            files,
            mut selected,
            destination,
            error,
            pending_torrents,
            is_dropdown_open,
            total_count,
        } => {
            if index < selected.len() {
                let v = !selected[index];
                selected.set(index, v);
            }
            AddDialogState::AddFile {
                metainfo_b64,
                files,
                selected,
                destination,
                error,
                pending_torrents,
                is_dropdown_open,
                total_count,
            }
        },
        other => other,
    };
}

/// Set every file of the add-file dialog to `value`.
fn set_all_files(state: &mut TorrentListScreen, value: bool)
    ensures
        *final(state) == (TorrentListScreen { add_dialog: final(state).add_dialog, ..*old(state) }),
        with_file_selection(
            old(state).add_dialog,
            final(state).add_dialog,
            Seq::new(file_selection(old(state).add_dialog).len(), |i: int| value),
        ),
{
    let mut d = AddDialogState::Hidden;
    std::mem::swap(&mut d, &mut state.add_dialog);
    state.add_dialog = match d {
        AddDialogState::AddFile {
            metainfo_b64,
            files,
            selected,
            destination,
            error,
            pending_torrents,
            is_dropdown_open,
            total_count,
        } => {
            let n = selected.len();
            AddDialogState::AddFile {
                metainfo_b64,
                files,
                selected: filled(value, n),
                destination,
                error,
                pending_torrents,
                is_dropdown_open,
                total_count,
            }
        },
        other => other,
    };
}


/// Which toolbar actions are enabled.
#[derive(Debug, Clone, Copy, PartialEq, Eq)]
pub struct ToolbarActions {
    pub can_pause: bool,
    pub can_resume: bool,
    pub can_delete: bool,
}

/// The toolbar's enabled actions: pause for a single selected torrent that is
/// queued, downloading or seeding (status 3 to 6); resume for a single
/// selected stopped torrent (status 0); delete whenever something is
/// selected.
pub fn toolbar_actions(state: &TorrentListScreen) -> (a: ToolbarActions)
    ensures
        a.can_pause == (state.spec_selected_torrent() matches Some(t) && 3 <= t.status <= 6),
        a.can_resume == (state.spec_selected_torrent() matches Some(t) && t.status == 0),
        a.can_delete == (state.selected_ids@.len() > 0),
{
    let (can_pause, can_resume) = match state.selected_torrent() {
        Some(t) => (3 <= t.status && t.status <= 6, t.status == 0),
        None => (false, false),
    };
    ToolbarActions { can_pause, can_resume, can_delete: state.selected_ids.len() > 0 }
}

/// Queued, checking-free active states: queued for download, downloading,
/// queued for seeding or seeding (status 3 to 6).
pub open spec fn is_running(t: TorrentData) -> bool {
    3 <= t.status <= 6
}

/// Some torrent of the list is selected.
pub open spec fn any_selected(s: TorrentListScreen) -> bool {
    exists|i: int| 0 <= i < s.torrents@.len() && s.selected_ids@.contains(#[trigger] s.torrents@[i].id)
}

/// Some selected torrent of the list is running (`running`) or not.
pub open spec fn any_selected_with(s: TorrentListScreen, running: bool) -> bool {
    exists|i: int|
        0 <= i < s.torrents@.len() && s.selected_ids@.contains(#[trigger] s.torrents@[i].id)
            && is_running(s.torrents@[i]) == running
}

/// The enabled items of the context menu.
#[derive(Debug, Clone, Copy, PartialEq, Eq)]
pub struct ContextMenuActions {
    pub can_start: bool,
    pub can_pause: bool,
}

/// `r` is the context menu's enabled items in list `s`: none while the menu
/// is closed; otherwise Start when some selected torrent is not running,
/// Pause when some is; with no selected torrent in the list, the
/// right-clicked torrent decides.
pub open spec fn context_menu_offer(s: TorrentListScreen, r: Option<ContextMenuActions>) -> bool {
    match s.context_menu {
        None => r is None,
        Some(id) => r matches Some(a) && if any_selected(s) {
            a.can_start == any_selected_with(s, false) && a.can_pause == any_selected_with(s, true)
        } else {
            &&& a.can_start == (first_with_id(s.torrents@, id) matches Some(t) && !is_running(t))
            &&& a.can_pause == (first_with_id(s.torrents@, id) matches Some(t) && is_running(t))
        },
    }
}

/// The context menu's enabled items, when it is open.
pub fn context_menu_actions(state: &TorrentListScreen) -> (r: Option<ContextMenuActions>)
    ensures
        context_menu_offer(*state, r),
{
    let id = match state.context_menu {
        Some(id) => id,
        None => {
            return None;
        },
    };
    let mut found = false;
    let mut start = false;
    let mut pause = false;
    let mut i: usize = 0;
    while i < state.torrents.len()
        invariant
            i <= state.torrents@.len(),
            found == exists|j: int|
                0 <= j < i && state.selected_ids@.contains(#[trigger] state.torrents@[j].id),
            start == exists|j: int|
                0 <= j < i && state.selected_ids@.contains(#[trigger] state.torrents@[j].id)
                    && !is_running(state.torrents@[j]),
            pause == exists|j: int|
                0 <= j < i && state.selected_ids@.contains(#[trigger] state.torrents@[j].id)
                    && is_running(state.torrents@[j]),
        decreases state.torrents@.len() - i,
    {
        let t = &state.torrents[i];
        if vec_contains(&state.selected_ids, t.id) {
            let running = 3 <= t.status && t.status <= 6;
            found = true;
            if running {
                pause = true;
            } else {
                start = true;
            }
        }
        i += 1;
    }
    if found {
        return Some(ContextMenuActions { can_start: start, can_pause: pause });
    }
    proof {
        lemma_first_index_with_id(state.torrents@, id);
    }
    let all = state.torrents.as_slice();
    match find_torrent(all, id) {
        Some(k) => {
            let running = 3 <= all[k].status && all[k].status <= 6;
            Some(ContextMenuActions { can_start: !running, can_pause: running })
        },
        None => Some(ContextMenuActions { can_start: false, can_pause: false }),
    }
}

// ── Keyboard ─────────────────────────────────────────────────────────────────

/// A pressed key, as far as the list's keyboard handling tells keys apart.
#[derive(Debug, Clone, PartialEq, Eq)]
pub enum KeyPress {
    Tab,
    Enter,
    /// A key that types text.
    Character(String),
    Other,
}

/// The add dialog's keyboard handling, which listens only while the dialog
/// is shown: Tab moves the focus (backwards with Shift), Enter without Ctrl
/// or Alt confirms.
pub fn dialog_key_message(dialog: &AddDialogState, key: &KeyPress, mods: KeyModifiers, alt: bool) -> (m:
    Option<Message>)
    ensures
        m == (if *dialog is Hidden {
            None
        } else {
            match *key {
                KeyPress::Tab => Some(Message::DialogTabKeyPressed { shift: mods.shift }),
                KeyPress::Enter => if !mods.control && !alt {
                    Some(Message::DialogEnterPressed)
                } else {
                    None
                },
                _ => None,
            }
        }),
{
    match dialog {
        AddDialogState::Hidden => None,
        _ => match key {
            KeyPress::Tab => Some(Message::DialogTabKeyPressed { shift: mods.shift }),
            KeyPress::Enter => {
                if !mods.control && !alt {
                    Some(Message::DialogEnterPressed)
                } else {
                    None
                }
            },
            _ => None,
        },
    }
}

/// Whether a key press is the select-all shortcut: `a` with Cmd or Ctrl.
pub fn is_select_all_key(key: &KeyPress, mods: KeyModifiers) -> (b: bool)
    ensures
        b == ((mods.command || mods.control) && (*key matches KeyPress::Character(c) && c@ == "a"@)),
{
    if !(mods.command || mods.control) {
        return false;
    }
    match key {
        KeyPress::Character(c) => text_eq(c.as_str(), "a"),
        _ => false,
    }
}

// ── List body ────────────────────────────────────────────────────────────────

/// What the list area shows.
#[derive(Debug, Clone, Copy, PartialEq, Eq, Structural)]
pub enum ListBody {
    /// The daemon has no torrents: a hint to add one.
    NoTorrents,
    /// Torrents exist but none matches the filter chips.
    NoMatch,
    /// The rows of the shown torrents (also while the first poll runs).
    Rows,
}

/// What the list area shows for the current state.
pub fn list_body(state: &TorrentListScreen) -> (b: ListBody)
    ensures
        b == (if state.initial_load_done && state.torrents@.len() == 0 {
            ListBody::NoTorrents
        } else if state.initial_load_done && state.visible_order().len() == 0 {
            ListBody::NoMatch
        } else {
            ListBody::Rows
        }),
{
    if state.initial_load_done && state.torrents.len() == 0 {
        return ListBody::NoTorrents;
    }
    if !state.initial_load_done {
        return ListBody::Rows;
    }
    let shown = state.visible_torrent_ids();
    assert(shown@.len() == state.visible_order().len());
    if shown.len() == 0 {
        ListBody::NoMatch
    } else {
        ListBody::Rows
    }
}

/// Whether the row of torrent `id` is highlighted: it is selected, or the
/// context menu is open on it.
pub fn is_row_highlighted(state: &TorrentListScreen, id: i64) -> (b: bool)
    ensures
        b == (state.selected_ids@.contains(id) || state.context_menu == Some(id)),
{
    let on_menu = match state.context_menu {
        Some(m) => m == id,
        None => false,
    };
    vec_contains(&state.selected_ids, id) || on_menu
}

/// The title of the delete confirmation for `ids`: the torrent's name in
/// quotes for a single torrent ("this torrent" when it is not in the list),
/// the count otherwise.
pub fn delete_dialog_title(ids: &Vec<i64>, torrents: &[TorrentData]) -> (s: String)
    ensures
        s@ == (if ids@.len() == 1 {
            "Delete \""@ + match first_with_id(torrents@, ids@[0]) {
                Some(t) => t.name@,
                None => "this torrent"@,
            } + "\"?"@
        } else {
            "Delete "@ + decimal(ids@.len()) + " torrents?"@
        }),
{
    let mut s = String::new();
    if ids.len() == 1 {
        proof {
            lemma_first_index_with_id(torrents@, ids@[0]);
        }
        push_text(&mut s, "Delete \"");
        match find_torrent(torrents, ids[0]) {
            Some(k) => push_text(&mut s, torrents[k].name.as_str()),
            None => push_text(&mut s, "this torrent"),
        }
        push_text(&mut s, "\"?");
        assert(Seq::<char>::empty() + "Delete \""@ == "Delete \""@);
    } else {
        push_text(&mut s, "Delete ");
        let n = u64_to_text(ids.len() as u64);
        push_text(&mut s, n.as_str());
        push_text(&mut s, " torrents?");
        assert(Seq::<char>::empty() + "Delete "@ == "Delete "@);
    }
    s
}

// ── RPC worker ───────────────────────────────────────────────────────────────

/// What the RPC worker reports for one finished work item.
#[derive(Debug)]
pub enum RpcOutcome {
    /// A `torrent-get`: the torrents, or the error message.
    TorrentsLoaded(Result<Vec<TorrentData>, String>),
    /// Start, stop, remove, set-location and the other actions.
    ActionDone(Result<(), String>),
    /// A `torrent-add`.
    TorrentAdded(Result<(), String>),
}

/// The message that reports `outcome` to the list.
pub open spec fn outcome_message(outcome: RpcOutcome) -> Message {
    match outcome {
        RpcOutcome::TorrentsLoaded(r) => Message::TorrentsUpdated(r),
        RpcOutcome::ActionDone(r) => Message::ActionCompleted(r),
        RpcOutcome::TorrentAdded(r) => Message::AddCompleted(r),
    }
}

/// The messages the RPC worker sends for one finished work item: the new
/// session ID first, when the daemon rotated it, then the outcome.
pub fn worker_messages(new_session_id: Option<String>, outcome: RpcOutcome) -> (msgs: Vec<Message>)
    ensures
        msgs@ == (match new_session_id {
            Some(id) => seq![Message::SessionIdRotated(id)],
            None => Seq::empty(),
        }) + seq![outcome_message(outcome)],
{
    let mut msgs: Vec<Message> = Vec::new();
    match new_session_id {
        Some(id) => {
            msgs.push(Message::SessionIdRotated(id));
        },
        None => {},
    }
    let m = match outcome {
        RpcOutcome::TorrentsLoaded(r) => Message::TorrentsUpdated(r),
        RpcOutcome::ActionDone(r) => Message::ActionCompleted(r),
        RpcOutcome::TorrentAdded(r) => Message::AddCompleted(r),
    };
    msgs.push(m);
    msgs
}

} // verus!
