//! Properties that hold across calls or of every state: each is stated
//! over the same specifications that the functions' contracts use, and
//! proved from them.

use vstd::prelude::*;

use crate::connection::{self, connection_step};
use crate::filters::{
    count_active, count_in_bucket, every_filter, lemma_every_filter_len, lemma_full_iff_five,
    StatusFilter,
};
use crate::inspector::{self, inspector_step, shown_wanted, InspectorScreen};
use crate::main_screen::{
    self, main_step, poll_threshold, reconciled, rpc, selected_id, tick_step, MainScreen,
};
use crate::profile::{first_profile, lemma_first_profile_index, ConnectionProfile};
use crate::settings::{
    self, clamped_interval, draft_of, guarded_navigation, saved_profile, settings_step,
    ProfileDraft, SettingsResult, SettingsScreen,
};
use crate::sort::{
    is_stable_sort_order, lemma_stable_sort_order_exists, lemma_stable_sort_order_unique, precedes,
    stable_sort_order, SortColumn, SortDir,
};
use crate::rpc::{form_credentials, RpcWork, TorrentBandwidthArgs};
use crate::text::{lemma_parse_decimal, parse_unsigned};
use crate::torrent::{FileStat, TorrentData};
use crate::torrent_list::{self, context_menu_offer, list_step, ContextMenuActions, TorrentListScreen};
use crate::tray::{action_for_id, TrayAction, ID_EXIT, ID_PAUSE, ID_RESUME, ID_SHOW, ID_TURTLE};

verus! {

broadcast use vstd::seq_lib::group_seq_properties;

// ── Torrent list ─────────────────────────────────────────────────────────────

/// When no two torrents tie under a column (and, by ETA, every ETA is
/// known), sorting descending lists them in exactly the reverse of the
/// ascending order.
pub proof fn law_desc_reverses_asc(s: Seq<TorrentData>, col: SortColumn)
    requires
        s.len() <= usize::MAX,
        forall|i: int, j: int|
            0 <= i < s.len() && 0 <= j < s.len() && i != j ==> precedes(
                #[trigger] s[i],
                #[trigger] s[j],
                col,
                SortDir::Asc,
            ) || precedes(s[j], s[i], col, SortDir::Asc),
        col == SortColumn::Eta ==> forall|i: int| 0 <= i < s.len() ==> #[trigger] s[i].eta >= 0,
    ensures
        stable_sort_order(s, col, SortDir::Desc) == stable_sort_order(s, col, SortDir::Asc).reverse(),
{
    let n = s.len() as int;
    lemma_stable_sort_order_exists(s, col, SortDir::Asc);
    lemma_stable_sort_order_exists(s, col, SortDir::Desc);
    let p = stable_sort_order(s, col, SortDir::Asc);
    let q = p.reverse();
    assert forall|a: TorrentData, b: TorrentData|
        (col == SortColumn::Eta ==> a.eta >= 0 && b.eta >= 0) implies (precedes(
        a,
        b,
        col,
        SortDir::Desc,
    ) == precedes(b, a, col, SortDir::Asc)) by {}
    assert forall|k: int| 0 <= k < n implies (#[trigger] q[k]) < n by {
        assert(q[k] == p[n - 1 - k]);
    }
    assert forall|k: int, m: int| 0 <= k < m < n implies #[trigger] q[k] != #[trigger] q[m] by {
        assert(q[k] == p[n - 1 - k]);
        assert(q[m] == p[n - 1 - m]);
    }
    assert forall|x: usize| x < n implies #[trigger] q.contains(x) by {
        assert(p.contains(x));
        let j = choose|j: int| 0 <= j < n && p[j] == x;
        assert(q[n - 1 - j] == x);
    }
    assert forall|k: int, m: int|
        #![trigger q[k], q[m]]
        0 <= k < m < n implies !precedes(s[q[m] as int], s[q[k] as int], col, SortDir::Desc) && (
        !precedes(s[q[k] as int], s[q[m] as int], col, SortDir::Desc) ==> q[k] < q[m]) by {
        let a = n - 1 - m;
        let b = n - 1 - k;
        assert(q[k] == p[b]);
        assert(q[m] == p[a]);
        assert(p[a] < n && p[b] < n);
        assert(p[a] != p[b]);
        let ta = s[p[a] as int];
        let tb = s[p[b] as int];
        assert(!precedes(tb, ta, col, SortDir::Asc));
        assert(precedes(ta, tb, col, SortDir::Asc) || precedes(tb, ta, col, SortDir::Asc));
        if col == SortColumn::Eta {
            assert(ta.eta >= 0);
            assert(tb.eta >= 0);
        }
    }
    assert(is_stable_sort_order(s, col, SortDir::Desc, q));
    lemma_stable_sort_order_unique(s, col, SortDir::Desc, q, stable_sort_order(s, col, SortDir::Desc));
}

/// Toggling the same filter chip twice gives the filter set back.
pub proof fn law_filter_toggle_twice(
    o: TorrentListScreen,
    x: StatusFilter,
    n1: TorrentListScreen,
    fx1: Seq<torrent_list::Effect>,
    n2: TorrentListScreen,
    fx2: Seq<torrent_list::Effect>,
)
    requires
        list_step(o, torrent_list::Message::FilterToggled(x), n1, fx1),
        list_step(n1, torrent_list::Message::FilterToggled(x), n2, fx2),
    ensures
        n2.filters@ == o.filters@,
{
    assert(n2.filters@ =~= o.filters@);
}

/// A click on the "All" chip selects every filter, unless every filter was
/// selected, in which case it clears them; so from the full set, two clicks
/// give the full set back.
pub proof fn law_all_chip(
    o: TorrentListScreen,
    n1: TorrentListScreen,
    fx1: Seq<torrent_list::Effect>,
    n2: TorrentListScreen,
    fx2: Seq<torrent_list::Effect>,
)
    requires
        list_step(o, torrent_list::Message::FilterAllClicked, n1, fx1),
        list_step(n1, torrent_list::Message::FilterAllClicked, n2, fx2),
    ensures
        o.filters@ == every_filter() ==> n1.filters@ == Set::<StatusFilter>::empty(),
        o.filters@ != every_filter() ==> n1.filters@ == every_filter(),
        o.filters@ == every_filter() ==> n2.filters@ == every_filter(),
{
    lemma_full_iff_five(o.filters);
    lemma_full_iff_five(n1.filters);
    lemma_every_filter_len();
    assert(Set::<StatusFilter>::empty().len() == 0);
}

/// Three clicks on the header of one column, starting unsorted, cycle
/// through ascending and descending back to unsorted.
pub proof fn law_column_click_cycle(
    o: TorrentListScreen,
    col: SortColumn,
    n1: TorrentListScreen,
    fx1: Seq<torrent_list::Effect>,
    n2: TorrentListScreen,
    fx2: Seq<torrent_list::Effect>,
    n3: TorrentListScreen,
    fx3: Seq<torrent_list::Effect>,
)
    requires
        o.sort_column is None,
        list_step(o, torrent_list::Message::ColumnHeaderClicked(col), n1, fx1),
        list_step(n1, torrent_list::Message::ColumnHeaderClicked(col), n2, fx2),
        list_step(n2, torrent_list::Message::ColumnHeaderClicked(col), n3, fx3),
    ensures
        n1.sort_column == Some(col) && n1.sort_dir == crate::sort::SortDir::Asc,
        n2.sort_column == Some(col) && n2.sort_dir == crate::sort::SortDir::Desc,
        n3.sort_column is None,
{
}

/// `without(s, id)` holds exactly the elements of `s` other than `id`.
proof fn lemma_without_contains(s: Seq<i64>, id: i64, x: i64)
    ensures
        torrent_list::without(s, id).contains(x) <==> s.contains(x) && x != id,
{
    let p = torrent_list::differs_from(id);
    let f = s.filter(p);
    if f.contains(x) {
        s.lemma_filter_contains_rev(p, x);
        let i = choose|i: int| 0 <= i < f.len() && f[i] == x;
        s.lemma_filter_pred(p, i);
    }
    if s.contains(x) && x != id {
        let j = choose|j: int| 0 <= j < s.len() && s[j] == x;
        s.lemma_filter_contains(p, j);
    }
}

/// Two Ctrl/Cmd-clicks on the same row give the selection back: the same
/// torrents are selected as before.
pub proof fn law_toggle_click_twice(
    o: TorrentListScreen,
    id: i64,
    n1: TorrentListScreen,
    fx1: Seq<torrent_list::Effect>,
    n2: TorrentListScreen,
    fx2: Seq<torrent_list::Effect>,
)
    requires
        o.modifiers.command || o.modifiers.control,
        !o.modifiers.shift,
        list_step(o, torrent_list::Message::TorrentSelected(id), n1, fx1),
        list_step(n1, torrent_list::Message::TorrentSelected(id), n2, fx2),
    ensures
        forall|x: i64| n2.selected_ids@.contains(x) <==> o.selected_ids@.contains(x),
        n2.selection_anchor == Some(id),
{
    let sel = o.selected_ids@;
    assert forall|x: i64| n2.selected_ids@.contains(x) <==> sel.contains(x) by {
        lemma_without_contains(sel, id, x);
        lemma_without_contains(sel, id, id);
        lemma_without_contains(sel.push(id), id, x);
        lemma_without_contains(sel.push(id), id, id);
        if sel.contains(id) {
            assert(n2.selected_ids@ == torrent_list::without(sel, id).push(id));
        } else {
            assert(sel.push(id).contains(id));
            assert(n2.selected_ids@ == torrent_list::without(sel.push(id), id));
            if sel.push(id).contains(x) && x != id {
                let k = choose|k: int| 0 <= k < sel.len() + 1 && sel.push(id)[k] == x;
                assert(k < sel.len());
                assert(sel[k] == x);
            }
        }
    }
}

/// After the list or the filters change, every selected torrent is shown:
/// the selection never holds a torrent that the list hides.
pub proof fn law_selection_stays_visible(
    o: TorrentListScreen,
    msg: torrent_list::Message,
    n: TorrentListScreen,
    fx: Seq<torrent_list::Effect>,
    id: i64,
)
    requires
        msg matches torrent_list::Message::TorrentsUpdated(Ok(_)) || msg is FilterToggled
            || msg is FilterAllClicked,
        list_step(o, msg, n, fx),
        n.selected_ids@.contains(id),
    ensures
        n.visible_ids().contains(id),
        n.selection_anchor matches Some(a) ==> n.visible_ids().contains(a),
{
    let vis = n.visible_ids();
    let kept = o.selected_ids@.filter(torrent_list::occurs_in(vis));
    assert(n.selected_ids@ == kept);
    let k = choose|k: int| 0 <= k < kept.len() && kept[k] == id;
    assert(torrent_list::occurs_in(vis)(kept[k]));
}

/// Select-all (Cmd/Ctrl+A) selects exactly the shown torrents, given that
/// the selection held only shown torrents before (which every change of
/// the list or the filters keeps).
pub proof fn law_select_all_selects_exactly_visible(
    o: TorrentListScreen,
    n: TorrentListScreen,
    fx: Seq<torrent_list::Effect>,
)
    requires
        o.wf(),
        forall|x: i64| o.selected_ids@.contains(x) ==> #[trigger] o.visible_ids().contains(x),
        list_step(o, torrent_list::Message::KeyboardSelectAll, n, fx),
    ensures
        forall|x: i64| #[trigger] n.selected_ids@.contains(x) <==> n.visible_ids().contains(x),
        n.selected_ids@.no_duplicates(),
{
    torrent_list::lemma_extend_unique(o.selected_ids@, o.visible_ids());
    assert(n.visible_ids() == o.visible_ids());
}

/// Each filter chip counts the torrents it shows: Active every torrent
/// that downloads or uploads at a non-zero rate, Downloading those queued
/// for or in download (status 3, 4), Seeding those queued for or in seeding
/// (5, 6), Paused the stopped ones (0) and Error those checking or queued
/// to check (1, 2).
pub proof fn law_filter_counts(s: Seq<TorrentData>)
    ensures
        count_active(s) == s.filter(|t: TorrentData| t.rate_download > 0 || t.rate_upload > 0).len(),
        count_in_bucket(s, StatusFilter::Downloading) == s.filter(
            |t: TorrentData| t.status == 3 || t.status == 4,
        ).len(),
        count_in_bucket(s, StatusFilter::Seeding) == s.filter(
            |t: TorrentData| t.status == 5 || t.status == 6,
        ).len(),
        count_in_bucket(s, StatusFilter::Paused) == s.filter(|t: TorrentData| t.status == 0).len(),
        count_in_bucket(s, StatusFilter::Error) == s.filter(
            |t: TorrentData| t.status == 1 || t.status == 2,
        ).len(),
    decreases s.len(),
{
    reveal(Seq::filter);
    if s.len() > 0 {
        law_filter_counts(s.drop_last());
    }
}

/// Torrent `i` of `s` is one the context menu opened on torrent `id` acts
/// on: a selected torrent of the list, or, where none of the list is
/// selected, the first torrent with ID `id`.
pub open spec fn menu_considers(s: TorrentListScreen, id: i64, i: int) -> bool {
    let ts = s.torrents@;
    &&& 0 <= i < ts.len()
    &&& if exists|j: int| 0 <= j < ts.len() && s.selected_ids@.contains(#[trigger] ts[j].id) {
        s.selected_ids@.contains(ts[i].id)
    } else {
        ts[i].id == id && forall|j: int| 0 <= j < i ==> ts[j].id != id
    }
}

/// The context menu offers Pause exactly when a torrent it acts on is queued
/// or active (status 3 to 6), and Start exactly when one is in any other
/// state; it offers nothing while it is closed.
pub proof fn law_context_menu_offers_by_status(s: TorrentListScreen, r: Option<ContextMenuActions>)
    requires
        context_menu_offer(s, r),
    ensures
        s.context_menu is None <==> r is None,
        s.context_menu matches Some(id) ==> r matches Some(a) && {
            &&& a.can_pause == exists|i: int|
                #[trigger] menu_considers(s, id, i) && 3 <= s.torrents@[i].status <= 6
            &&& a.can_start == exists|i: int|
                #[trigger] menu_considers(s, id, i) && !(3 <= s.torrents@[i].status <= 6)
        },
{
    if let Some(id) = s.context_menu {
        let ts = s.torrents@;
        let a = r->0;
        torrent_list::lemma_first_index_with_id(ts, id);
        if torrent_list::any_selected(s) {
            assert(exists|j: int| 0 <= j < ts.len() && s.selected_ids@.contains(#[trigger] ts[j].id));
            assert(a.can_pause == exists|i: int|
                #[trigger] menu_considers(s, id, i) && 3 <= ts[i].status <= 6) by {
                if a.can_pause {
                    let i = choose|i: int|
                        0 <= i < ts.len() && s.selected_ids@.contains(#[trigger] ts[i].id)
                            && torrent_list::is_running(ts[i]) == true;
                    assert(menu_considers(s, id, i));
                }
            }
            assert(a.can_start == exists|i: int|
                #[trigger] menu_considers(s, id, i) && !(3 <= ts[i].status <= 6)) by {
                if a.can_start {
                    let i = choose|i: int|
                        0 <= i < ts.len() && s.selected_ids@.contains(#[trigger] ts[i].id)
                            && torrent_list::is_running(ts[i]) == false;
                    assert(menu_considers(s, id, i));
                }
                if exists|i: int| #[trigger] menu_considers(s, id, i) && !(3 <= ts[i].status <= 6) {
                    let i = choose|i: int| #[trigger] menu_considers(s, id, i) && !(3 <= ts[i].status <= 6);
                    assert(s.selected_ids@.contains(ts[i].id));
                }
            }
        } else {
            assert(!exists|j: int| 0 <= j < ts.len() && s.selected_ids@.contains(#[trigger] ts[j].id));
            match torrent_list::first_index_with_id(ts, id) {
                Some(p) => {
                    assert(menu_considers(s, id, p));
                    assert forall|i: int| #[trigger] menu_considers(s, id, i) implies i == p by {
                        if i < p {
                        } else if i > p {
                            assert(ts[p].id == id);
                        }
                    }
                },
                None => {
                    assert forall|i: int| !#[trigger] menu_considers(s, id, i) by {}
                },
            }
        }
    }
}

// ── Inspector ────────────────────────────────────────────────────────────────

/// Only the file messages touch the optimistic file overrides: a tab
/// change, an Options edit or any other message leaves them as they are.
pub proof fn law_overrides_only_change_by_file_messages(
    o: InspectorScreen,
    msg: inspector::Message,
    n: InspectorScreen,
)
    requires
        inspector_step(o, msg, n),
        !(msg is FileWantedToggled || msg is AllFilesWantedToggled
            || msg is FileWantedSetSuccess),
    ensures
        n.pending_wanted@ == o.pending_wanted@,
{
}

/// Dropping the overrides that a poll confirms never changes what the
/// Files tab shows, and afterwards no override agrees with the polled
/// state.
pub proof fn law_reconcile_keeps_shown_flags(p: Map<usize, bool>, stats: Seq<FileStat>, i: usize)
    ensures
        shown_wanted(reconciled(p, stats), stats, i) == shown_wanted(p, stats, i),
        reconciled(p, stats).contains_key(i) && (i as int) < stats.len() ==> stats[i as int].wanted
            != reconciled(p, stats)[i],
{
}

/// A settled file-wanted call clears exactly the override of its own file:
/// toggling file `i` and then settling the call for `[i]` leaves the other
/// overrides as they were.
pub proof fn law_settled_call_clears_its_override(
    o: InspectorScreen,
    torrent_id: i64,
    i: usize,
    wanted: bool,
    indices: Vec<usize>,
    n1: InspectorScreen,
    n2: InspectorScreen,
)
    requires
        indices@ == seq![i],
        inspector_step(
            o,
            inspector::Message::FileWantedToggled { torrent_id, file_index: i, wanted },
            n1,
        ),
        inspector_step(n1, inspector::Message::FileWantedSetSuccess { indices }, n2),
    ensures
        n2.pending_wanted@ == o.pending_wanted@.remove(i),
{
    assert(indices@.to_set() =~= set![i]) by {
        assert(indices@.contains(i));
    }
    assert(n2.pending_wanted@ =~= o.pending_wanted@.remove(i));
}

// ── Main screen ──────────────────────────────────────────────────────────────

/// After a tick the poll counter is below the threshold: a `session-get`
/// is asked for exactly on the tick that reaches it, which resets it.
pub proof fn law_poll_counter_below_threshold(
    o: MainScreen,
    n: MainScreen,
    fx: Seq<main_screen::Effect>,
)
    requires
        tick_step(o, n, fx),
    ensures
        n.session_poll_ticks < poll_threshold(o.refresh_interval),
        1 <= poll_threshold(o.refresh_interval) <= 10,
{
}

/// Every message keeps the poll counter below its threshold: only a tick
/// moves it, and a tick resets it when it reaches the threshold.
pub proof fn law_poll_counter_invariant(
    o: MainScreen,
    msg: main_screen::Message,
    n: MainScreen,
    fx: Seq<main_screen::Effect>,
)
    requires
        main_step(o, msg, n, fx),
        o.session_poll_ticks < poll_threshold(o.refresh_interval),
    ensures
        n.refresh_interval == o.refresh_interval,
        n.session_poll_ticks < poll_threshold(n.refresh_interval),
{
}

/// `fx` starts with a `session-get` with these parameters.
pub open spec fn asks_session(fx: Seq<main_screen::Effect>, params: crate::rpc::ConnectionParams) -> bool {
    fx.len() > 0 && fx[0] == rpc(RpcWork::SessionGet(params))
}

proof fn lemma_mod_step(j: int, k: int)
    requires
        j >= 0,
        k > 0,
    ensures
        0 <= j % k < k,
        (j + 1) % k == (if j % k + 1 == k {
            0
        } else {
            j % k + 1
        }),
{
    assert(0 <= j % k < k) by (nonlinear_arith)
        requires
            k > 0,
    ;
    let q = j / k;
    let r = j % k;
    assert(j == k * q + r) by (nonlinear_arith)
        requires
            k > 0,
            q == j / k,
            r == j % k,
    ;
    if r + 1 == k {
        assert(j + 1 == k * (q + 1)) by (nonlinear_arith)
            requires
                j == k * q + r,
                r + 1 == k,
        ;
        vstd::arithmetic::div_mod::lemma_mod_multiples_basic(q + 1, k);
        assert((k * (q + 1)) % k == 0) by {
            vstd::arithmetic::mul::lemma_mul_is_commutative(k, q + 1);
        }
    } else {
        vstd::arithmetic::mul::lemma_mul_is_commutative(k, q);
        assert(j + 1 == q * k + (r + 1));
        vstd::arithmetic::div_mod::lemma_fundamental_div_mod_converse(j + 1, k, q, r + 1);
    }
}

/// Starting from a reset counter, over a run of ticks the `session-get` is
/// asked for exactly on ticks `k`, `2k`, `3k`, … where `k` is the poll
/// threshold (ten seconds' worth of ticks, at least one): tick number
/// `j + 1` asks for it exactly when `k` divides `j + 1`.
pub proof fn law_session_poll_every_kth_tick(ms: Seq<MainScreen>, fxs: Seq<Seq<main_screen::Effect>>)
    requires
        ms.len() == fxs.len() + 1,
        ms[0].session_poll_ticks == 0,
        forall|j: int| 0 <= j < fxs.len() ==> tick_step(#[trigger] ms[j], ms[j + 1], fxs[j]),
    ensures
        forall|j: int|
            0 <= j < fxs.len() ==> (asks_session(#[trigger] fxs[j], ms[j].list.params) <==> (j + 1)
                % poll_threshold(ms[0].refresh_interval) == 0),
        forall|j: int|
            0 <= j < ms.len() ==> #[trigger] ms[j].session_poll_ticks == j % poll_threshold(
                ms[0].refresh_interval,
            ),
{
    let k = poll_threshold(ms[0].refresh_interval);
    assert(1 <= k <= 10);
    lemma_poll_prefix(ms, fxs, fxs.len() as int);
}

proof fn lemma_poll_prefix(ms: Seq<MainScreen>, fxs: Seq<Seq<main_screen::Effect>>, i: int)
    requires
        ms.len() == fxs.len() + 1,
        ms[0].session_poll_ticks == 0,
        forall|j: int| 0 <= j < fxs.len() ==> tick_step(#[trigger] ms[j], ms[j + 1], fxs[j]),
        0 <= i <= fxs.len(),
    ensures
        forall|j: int|
            0 <= j < i ==> (asks_session(#[trigger] fxs[j], ms[j].list.params) <==> (j + 1)
                % poll_threshold(ms[0].refresh_interval) == 0),
        forall|j: int|
            0 <= j <= i ==> #[trigger] ms[j].session_poll_ticks == j % poll_threshold(
                ms[0].refresh_interval,
            ) && ms[j].refresh_interval == ms[0].refresh_interval,
    decreases i,
{
    let k = poll_threshold(ms[0].refresh_interval);
    if i == 0 {
        assert(0int % k == 0) by (nonlinear_arith)
            requires
                k > 0,
        ;
    } else {
        lemma_poll_prefix(ms, fxs, i - 1);
        let j = i - 1;
        let o = ms[j];
        let n = ms[j + 1];
        let fx = fxs[j];
        assert(tick_step(o, n, fx));
        lemma_mod_step(j, k);
        assert(o.session_poll_ticks == j % k);
        assert(o.refresh_interval == ms[0].refresh_interval);
        let lfx = choose|lfx: Seq<torrent_list::Effect>|
            #[trigger] list_step(o.list, torrent_list::Message::Tick, n.list, lfx) && fx == (if o.session_poll_ticks + 1 >= k {
                seq![rpc(RpcWork::SessionGet(o.list.params))]
            } else {
                Seq::empty()
            }) + main_screen::lifted(lfx);
        if o.session_poll_ticks + 1 >= k {
            assert(fx[0] == rpc(RpcWork::SessionGet(o.list.params)));
        } else {
            assert(fx == main_screen::lifted(lfx));
            if fx.len() > 0 {
                assert(lfx.len() > 0);
                assert(fx[0] == main_screen::Effect::List(lfx[0]));
            }
        }
    }
}

/// Selecting a different single torrent opens the inspector fresh: on the
/// General tab, with no file overrides and an untouched bulk draft.
pub proof fn law_new_selection_resets_inspector(
    o: MainScreen,
    id: i64,
    n: MainScreen,
    fx: Seq<main_screen::Effect>,
)
    requires
        main_step(o, main_screen::Message::List(torrent_list::Message::TorrentSelected(id)), n, fx),
        n.list.selected_ids@.len() == 1,
        selected_id(n.list) != selected_id(o.list),
    ensures
        n.inspector.active_tab == inspector::ActiveTab::General,
        n.inspector.pending_wanted@ == Map::<usize, bool>::empty(),
        inspector::is_untouched(n.inspector.bulk_options),
{
}

/// The arguments of `e` when it is a `torrent-set` bandwidth call.
pub open spec fn bandwidth_args_of(e: main_screen::Effect) -> Option<TorrentBandwidthArgs> {
    match e {
        main_screen::Effect::List(
            torrent_list::Effect::Enqueue(RpcWork::TorrentSetBandwidth { args, .. }),
        ) => Some(args),
        _ => None,
    }
}

/// The number a limit field holds, `0` where it holds none.
pub open spec fn field_number_or_zero(s: Seq<char>) -> u64 {
    match parse_unsigned(s, u64::MAX as nat) {
        Some(v) => v as u64,
        None => 0,
    }
}

/// The message comes from the bulk Options tab of a multi-selection.
pub open spec fn is_bulk_message(im: inspector::Message) -> bool {
    ||| im is BulkDownloadLimitToggled
    ||| im is BulkDownloadLimitChanged
    ||| im is BulkDownloadLimitSubmitted
    ||| im is BulkUploadLimitToggled
    ||| im is BulkUploadLimitChanged
    ||| im is BulkUploadLimitSubmitted
    ||| im is BulkRatioModeChanged
    ||| im is BulkRatioLimitChanged
    ||| im is BulkRatioLimitSubmitted
    ||| im is BulkHonorGlobalToggled
}

/// A bandwidth call made from the inspector takes each speed limit it sets
/// from the field of that direction, in the draft of the tab the message
/// came from: the download limit from the download field and the upload
/// limit from the upload field, as the number the field holds or `0`.
pub proof fn law_bandwidth_limits_come_from_their_fields(
    o: MainScreen,
    im: inspector::Message,
    n: MainScreen,
    fx: Seq<main_screen::Effect>,
)
    requires
        main_step(o, main_screen::Message::Inspector(im), n, fx),
    ensures
        forall|i: int|
            0 <= i < fx.len() ==> (#[trigger] bandwidth_args_of(fx[i]) matches Some(a) ==> {
                let down = if is_bulk_message(im) {
                    o.inspector.bulk_options.download_limit_val@
                } else {
                    o.inspector.options.download_limit_val@
                };
                let up = if is_bulk_message(im) {
                    o.inspector.bulk_options.upload_limit_val@
                } else {
                    o.inspector.options.upload_limit_val@
                };
                &&& (a.download_limit matches Some(x) ==> x == field_number_or_zero(down))
                &&& (a.upload_limit matches Some(x) ==> x == field_number_or_zero(up))
            }),
{
}

/// The torrents that `e` sets bandwidth on, when it is such a call.
pub open spec fn bandwidth_ids_of(e: main_screen::Effect) -> Option<Seq<i64>> {
    match e {
        main_screen::Effect::List(
            torrent_list::Effect::Enqueue(RpcWork::TorrentSetBandwidth { ids, .. }),
        ) => Some(ids@),
        _ => None,
    }
}

/// A toggle or mode change of the inspector's Options tabs makes at most
/// one bandwidth call and nothing else: on the single selected torrent for
/// the per-torrent tab (none without one), on every selected torrent for
/// the bulk tab (none without a selection). The call sets the toggled
/// setting to the new value: a limit toggle sets only its own direction,
/// the Honor-global toggle sets that flag, a ratio-mode change sets the mode.
pub proof fn law_option_toggles_set_their_setting(
    o: MainScreen,
    im: inspector::Message,
    n: MainScreen,
    fx: Seq<main_screen::Effect>,
)
    requires
        main_step(o, main_screen::Message::Inspector(im), n, fx),
        im is OptionsDownloadLimitToggled || im is OptionsUploadLimitToggled
            || im is OptionsHonorGlobalToggled || im is OptionsRatioModeChanged
            || im is BulkDownloadLimitToggled || im is BulkUploadLimitToggled
            || im is BulkHonorGlobalToggled || im is BulkRatioModeChanged,
    ensures
        fx.len() <= 1,
        is_bulk_message(im) ==> (fx.len() == 1 <==> o.list.selected_ids@.len() > 0),
        !is_bulk_message(im) ==> (fx.len() == 1 <==> selected_id(o.list) is Some),
        fx.len() == 1 ==> bandwidth_ids_of(fx[0]) == Some(
            if is_bulk_message(im) {
                o.list.selected_ids@
            } else {
                seq![selected_id(o.list)->0]
            },
        ),
        fx.len() == 1 ==> (bandwidth_args_of(fx[0]) matches Some(a) && match im {
            inspector::Message::OptionsDownloadLimitToggled(v)
            | inspector::Message::BulkDownloadLimitToggled(v) => {
                &&& a.download_limited == Some(v)
                &&& a.upload_limited is None && a.upload_limit is None
                &&& a.seed_ratio_mode is None && a.honors_session_limits is None
            },
            inspector::Message::OptionsUploadLimitToggled(v)
            | inspector::Message::BulkUploadLimitToggled(v) => {
                &&& a.upload_limited == Some(v)
                &&& a.download_limited is None && a.download_limit is None
                &&& a.seed_ratio_mode is None && a.honors_session_limits is None
            },
            inspector::Message::OptionsHonorGlobalToggled(v)
            | inspector::Message::BulkHonorGlobalToggled(v) => {
                &&& a.honors_session_limits == Some(v)
                &&& a.seed_ratio_mode is None
            },
            inspector::Message::OptionsRatioModeChanged(v)
            | inspector::Message::BulkRatioModeChanged(v) => {
                &&& a.seed_ratio_mode == Some(v)
                &&& a.download_limited is None && a.upload_limited is None
                &&& a.honors_session_limits is None
            },
            _ => true,
        }),
{
}

// ── Settings ─────────────────────────────────────────────────────────────────

/// While the draft has unsaved changes, a navigation away (another tab,
/// another profile, closing) waits for Save or Discard: nothing of the
/// draft or the selection changes and nothing is reported.
pub proof fn law_guard_holds_navigation(
    o: SettingsScreen,
    msg: settings::Message,
    n: SettingsScreen,
    fx: Seq<settings::Effect>,
    res: Option<SettingsResult>,
)
    requires
        settings_step(o, msg, n, fx, res),
        o.dirty,
        o.confirm_discard is None,
        msg matches settings::Message::TabClicked(t) ==> t != o.active_tab,
        msg matches settings::Message::ProfileListClicked(id) ==> Some(id) != o.selected_profile_id,
        msg is TabClicked || msg is ProfileListClicked || msg is CloseClicked,
    ensures
        n.active_tab == o.active_tab,
        n.selected_profile_id == o.selected_profile_id,
        n.draft == o.draft,
        n.profiles == o.profiles,
        n.dirty,
        n.confirm_discard is Some,
        fx.len() == 0,
        res is None,
{
    assert(guarded_navigation(o, msg) is Some);
}

/// Revert undoes an edit of the draft: editing the host of the selected
/// profile's draft and then reverting gives that profile's draft back,
/// clean.
pub proof fn law_revert_undoes_edit(
    o: SettingsScreen,
    host: String,
    n1: SettingsScreen,
    fx1: Seq<settings::Effect>,
    r1: Option<SettingsResult>,
    n2: SettingsScreen,
    fx2: Seq<settings::Effect>,
    r2: Option<SettingsResult>,
)
    requires
        o.selected_profile_id matches Some(id) && first_profile(o.profiles@, id) is Some,
        o.draft is Some,
        settings_step(o, settings::Message::DraftHostChanged(host), n1, fx1, r1),
        settings_step(n1, settings::Message::RevertClicked, n2, fx2, r2),
    ensures
        n2.draft matches Some(d) && draft_of(
            d,
            first_profile(o.profiles@, o.selected_profile_id->Some_0)->Some_0,
        ),
        !n2.dirty,
        n2.profiles == o.profiles,
        r1 is None && r2 is None,
{
}

/// Opening a profile in the form and saving the form unchanged leaves the
/// profile as it was: the port survives its rendering as text, and the user
/// name its round trip through the form (a stored empty user name, which
/// the form cannot tell from none, comes back as none).
pub proof fn law_unchanged_draft_saves_same_profile(p: ConnectionProfile, d: ProfileDraft)
    requires
        draft_of(d, p),
    ensures
        saved_profile(p, d) == (ConnectionProfile { username: saved_profile(p, d).username, ..p }),
        match p.username {
            Some(u) => if u@.len() == 0 {
                saved_profile(p, d).username is None
            } else {
                saved_profile(p, d).username matches Some(x) && x@ == u@
            },
            None => saved_profile(p, d).username is None,
        },
{
    lemma_parse_decimal(p.port as nat, u16::MAX as nat);
}

/// Saving a draft whose name is not empty and whose port field holds a port
/// number writes the draft into the first profile with its ID: that profile
/// takes the draft's name, host, port and user name (none for an empty
/// field), drops its stored password when the password field was cleared,
/// keeps everything else, and every other profile stays as it was.
pub proof fn law_save_stores_the_draft(
    o: SettingsScreen,
    n: SettingsScreen,
    fx: Seq<settings::Effect>,
    res: Option<SettingsResult>,
    d: ProfileDraft,
    k: int,
)
    requires
        settings_step(o, settings::Message::SaveClicked, n, fx, res),
        o.draft == Some(d),
        d.name@.len() > 0,
        parse_unsigned(d.port@, u16::MAX as nat) is Some,
        0 <= k < o.profiles@.len(),
        o.profiles@[k].id == d.id,
        forall|j: int| 0 <= j < k ==> o.profiles@[j].id != d.id,
    ensures
        n.profiles@.len() == o.profiles@.len(),
        n.profiles@[k].id == d.id,
        n.profiles@[k].name == d.name,
        n.profiles@[k].host == d.host,
        n.profiles@[k].port as nat == parse_unsigned(d.port@, u16::MAX as nat)->0,
        n.profiles@[k].username == (if d.username@.len() == 0 {
            None
        } else {
            Some(d.username)
        }),
        n.profiles@[k].encrypted_password == (if d.password_changed && d.password@.len() == 0 {
            None
        } else {
            o.profiles@[k].encrypted_password
        }),
        n.profiles@[k] == (ConnectionProfile {
            name: n.profiles@[k].name,
            host: n.profiles@[k].host,
            port: n.profiles@[k].port,
            username: n.profiles@[k].username,
            encrypted_password: n.profiles@[k].encrypted_password,
            ..o.profiles@[k]
        }),
        forall|j: int| 0 <= j < o.profiles@.len() && j != k ==> n.profiles@[j] == o.profiles@[j],
{
    lemma_first_profile_index(o.profiles@, d.id);
}

/// The form has unsaved changes only while there is a draft: every message
/// keeps this.
pub proof fn law_dirty_only_with_draft(
    o: SettingsScreen,
    msg: settings::Message,
    n: SettingsScreen,
    fx: Seq<settings::Effect>,
    res: Option<SettingsResult>,
)
    requires
        settings_step(o, msg, n, fx, res),
        o.dirty ==> o.draft is Some,
    ensures
        n.dirty ==> n.draft is Some,
{
}

/// The stored refresh interval is always between 1 and 30 seconds.
pub proof fn law_stored_interval_in_range(s: Seq<char>)
    ensures
        1 <= clamped_interval(s) <= 30,
{
}

/// The credentials that a connection form describes exist exactly when the
/// port field holds a port number; they carry the host, that port, and the
/// user name and password fields each as given, or none where the field is
/// empty.
pub proof fn law_form_credentials_carry_the_fields(
    host: String,
    port: Seq<char>,
    username: String,
    password: String,
)
    ensures
        form_credentials(host, port, username, password) is Some <==> parse_unsigned(
            port,
            u16::MAX as nat,
        ) is Some,
        form_credentials(host, port, username, password) matches Some(c) ==> {
            &&& c.host == host
            &&& c.port as nat == parse_unsigned(port, u16::MAX as nat)->0
            &&& (c.username is None <==> username@.len() == 0)
            &&& (c.username matches Some(u) ==> u == username)
            &&& (c.password is None <==> password@.len() == 0)
            &&& (c.password matches Some(pw) ==> pw == password)
        },
{
}

// ── Connection ───────────────────────────────────────────────────────────────

/// Every probe outcome ends the connecting state; a success reports the
/// connection, a failure its error.
pub proof fn law_probe_outcome_ends_connecting(
    o: connection::ConnectionScreen,
    r: Result<String, String>,
    n: connection::ConnectionScreen,
    fx: Seq<connection::Effect>,
    done: Option<connection::ConnectSuccess>,
)
    requires
        connection_step(o, connection::Message::ProbeResult(r), n, fx, done),
    ensures
        !n.is_connecting,
        n.connecting_profile_id is None,
        n.connecting_creds is None,
        r is Ok <==> done is Some,
        r matches Err(e) ==> n.error == Some(e),
{
}

/// A probe is in flight exactly while its credentials are kept: every
/// message keeps this.
pub proof fn law_connecting_iff_credentials_kept(
    o: connection::ConnectionScreen,
    msg: connection::Message,
    n: connection::ConnectionScreen,
    fx: Seq<connection::Effect>,
    done: Option<connection::ConnectSuccess>,
)
    requires
        connection_step(o, msg, n, fx, done),
        o.is_connecting <==> o.connecting_creds is Some,
    ensures
        n.is_connecting <==> n.connecting_creds is Some,
{
}

/// The messages that leave a probe in flight alone: anything but a new
/// connect or a probe outcome.
pub open spec fn keeps_probe(m: connection::Message) -> bool {
    !(m is ConnectWithCreds || m is ConnectClicked || m is ProbeResult)
}

/// A successful probe reports the connection that started it, whatever
/// other messages came in between: the saved profile's ID and credentials
/// for a connect with credentials, no profile and the form's credentials
/// for a quick connect.
pub proof fn law_probe_reports_its_connect(
    ss: Seq<connection::ConnectionScreen>,
    msgs: Seq<connection::Message>,
    fxs: Seq<Seq<connection::Effect>>,
    dones: Seq<Option<connection::ConnectSuccess>>,
    session_id: String,
)
    requires
        msgs.len() >= 2,
        ss.len() == msgs.len() + 1,
        fxs.len() == msgs.len(),
        dones.len() == msgs.len(),
        forall|j: int|
            0 <= j < msgs.len() ==> connection_step(
                #[trigger] ss[j],
                msgs[j],
                ss[j + 1],
                fxs[j],
                dones[j],
            ),
        msgs[0] is ConnectWithCreds || (msgs[0] is ConnectClicked && connection::quick_credentials(
            ss[0],
        ) is Some),
        forall|j: int| 0 < j < msgs.len() - 1 ==> keeps_probe(#[trigger] msgs[j]),
        msgs[msgs.len() - 1] == connection::Message::ProbeResult(Ok(session_id)),
    ensures
        msgs[0] matches connection::Message::ConnectWithCreds { profile_id, creds } ==> dones[msgs.len()
            - 1] == Some(
            connection::ConnectSuccess { profile_id: Some(profile_id), creds, session_id },
        ),
        msgs[0] is ConnectClicked ==> dones[msgs.len() - 1] == Some(
            connection::ConnectSuccess {
                profile_id: None,
                creds: connection::quick_credentials(ss[0])->Some_0,
                session_id,
            },
        ),
        !ss[msgs.len() as int].is_connecting,
        ss[msgs.len() as int].connecting_profile_id is None,
{
    let last = msgs.len() - 1;
    lemma_probe_kept(ss, msgs, fxs, dones, last);
    assert(connection_step(ss[last], msgs[last], ss[last + 1], fxs[last], dones[last]));
}

proof fn lemma_probe_kept(
    ss: Seq<connection::ConnectionScreen>,
    msgs: Seq<connection::Message>,
    fxs: Seq<Seq<connection::Effect>>,
    dones: Seq<Option<connection::ConnectSuccess>>,
    i: int,
)
    requires
        msgs.len() >= 2,
        ss.len() == msgs.len() + 1,
        fxs.len() == msgs.len(),
        dones.len() == msgs.len(),
        forall|j: int|
            0 <= j < msgs.len() ==> connection_step(
                #[trigger] ss[j],
                msgs[j],
                ss[j + 1],
                fxs[j],
                dones[j],
            ),
        forall|j: int| 0 < j < msgs.len() - 1 ==> keeps_probe(#[trigger] msgs[j]),
        1 <= i <= msgs.len() - 1,
    ensures
        ss[i].connecting_profile_id == ss[1].connecting_profile_id,
        ss[i].connecting_creds == ss[1].connecting_creds,
    decreases i,
{
    if i > 1 {
        lemma_probe_kept(ss, msgs, fxs, dones, i - 1);
        assert(connection_step(ss[i - 1], msgs[i - 1], ss[i], fxs[i - 1], dones[i - 1]));
        assert(keeps_probe(msgs[i - 1]));
    }
}

// ── Tray ─────────────────────────────────────────────────────────────────────

/// Each tray item's ID maps back to that item's action.
pub proof fn law_menu_ids_round_trip()
    ensures
        action_for_id(ID_RESUME@) == Some(TrayAction::ResumeAll),
        action_for_id(ID_PAUSE@) == Some(TrayAction::PauseAll),
        action_for_id(ID_TURTLE@) == Some(TrayAction::ToggleTurtle),
        action_for_id(ID_SHOW@) == Some(TrayAction::ShowWindow),
        action_for_id(ID_EXIT@) == Some(TrayAction::Exit),
{
    reveal_strlit("clutch_resume_all");
    reveal_strlit("clutch_pause_all");
    reveal_strlit("clutch_turtle");
    reveal_strlit("clutch_show");
    reveal_strlit("clutch_exit");
    assert(ID_RESUME@ == "clutch_resume_all"@);
    assert(ID_PAUSE@ == "clutch_pause_all"@);
    assert(ID_TURTLE@ == "clutch_turtle"@);
    assert(ID_SHOW@ == "clutch_show"@);
    assert(ID_EXIT@ == "clutch_exit"@);
    assert(ID_RESUME@.len() == 17 && ID_PAUSE@.len() == 16 && ID_TURTLE@.len() == 13);
    assert(ID_SHOW@.len() == 11 && ID_EXIT@.len() == 11);
    assert(ID_SHOW@[7] != ID_EXIT@[7]);
}

} // verus!
