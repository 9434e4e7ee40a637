//! The main screen: the torrent list with the inspector panel below it.
//!
//! [`MainScreen::update`] routes list and inspector messages to their
//! screens and intercepts the ones that cross between them: a new selection
//! resets the inspector, Options changes are sent to the daemon at once,
//! file-wanted toggles become RPC work, and every `Tick` counts towards the
//! periodic `session-get`.

use std::collections::HashMap;

use vstd::prelude::*;

use crate::inspector::{
    self, inspector_step, is_fresh_inspector, is_untouched, options_of, ActiveTab,
    InspectorBulkOptionsState, InspectorOptionsState, InspectorScreen,
};
use crate::rpc::{
    copy_params, no_bandwidth_args, ConnectionParams, RpcWork, SessionData, TorrentBandwidthArgs,
    TransmissionCredentials,
};
use crate::text::{decimal, parse_u64, parse_unsigned, push_text, u64_to_text};
use crate::torrent::FileStat;
use crate::torrent_list::{self, is_fresh_list, list_step, TorrentListScreen};

verus! {

broadcast use vstd::std_specs::hash::group_hash_axioms;

/// Messages handled by the main screen.
#[derive(Debug)]
pub enum Message {
    List(torrent_list::Message),
    Inspector(inspector::Message),
    /// Escalated from the list's `Disconnect`; the application handles it.
    Disconnect,
    /// The settings button; the application handles it.
    OpenSettingsClicked,
    /// The toolbar turtle button; the application handles it.
    TurtleModeToggled,
    /// Escalated from a successful periodic `session-get`; the application
    /// handles it.
    SessionDataLoaded(SessionData),
}

/// Follow-up work that a message asks the application to perform.
#[derive(Debug, Clone)]
pub enum Effect {
    /// Work of the list screen, RPC work among it.
    List(torrent_list::Effect),
    /// Close the connection and go back to the connection screen.
    Disconnect,
    /// Open the settings screen.
    OpenSettings,
    /// Toggle the daemon's alternative speed limits.
    ToggleTurtleMode,
    /// Hand the daemon's session state to the application.
    SessionDataLoaded(SessionData),
}

/// State of the main screen.
#[derive(Debug)]
pub struct MainScreen {
    pub list: TorrentListScreen,
    pub inspector: InspectorScreen,
    /// `host:port`, shown while the first torrent list is fetched.
    pub connect_label: String,
    /// The profile name shown beside it (`None` for a quick connect).
    pub profile_name: Option<String>,
    /// Daemon poll interval in seconds.
    pub refresh_interval: u8,
    /// Ticks since the last periodic `session-get`.
    pub session_poll_ticks: u8,
}

// ── Specification ────────────────────────────────────────────────────────────

/// The list's effects, as effects of the main screen.
pub open spec fn lifted(fx: Seq<torrent_list::Effect>) -> Seq<Effect> {
    fx.map_values(|e: torrent_list::Effect| Effect::List(e))
}

/// Hand `w` to the RPC worker.
pub open spec fn rpc(w: RpcWork) -> Effect {
    Effect::List(torrent_list::Effect::Enqueue(w))
}

/// The ID of the single selected torrent.
pub open spec fn selected_id(l: TorrentListScreen) -> Option<i64> {
    match l.spec_selected_torrent() {
        Some(t) => Some(t.id),
        None => None,
    }
}

/// `s.parse::<u64>().ok()`.
pub open spec fn parsed_limit(s: Seq<char>) -> Option<u64> {
    match parse_unsigned(s, u64::MAX as nat) {
        Some(n) => Some(n as u64),
        None => None,
    }
}

/// `s.parse::<u64>().unwrap_or(0)`.
pub open spec fn limit_or_zero(s: Seq<char>) -> u64 {
    match parsed_limit(s) {
        Some(n) => n,
        None => 0,
    }
}

/// `e` is a `torrent-set` call with these arguments.
pub open spec fn bandwidth_call(
    e: Effect,
    params: ConnectionParams,
    ids: Seq<i64>,
    args: TorrentBandwidthArgs,
) -> bool {
    &&& e matches Effect::List(torrent_list::Effect::Enqueue(w))
    &&& w matches RpcWork::TorrentSetBandwidth { params: p, ids: i, args: a }
    &&& p == params
    &&& i@ == ids
    &&& a == args
}

/// `fx` sets `args` on the single selected torrent, or is empty when no
/// single torrent is selected.
pub open spec fn single_bandwidth(fx: Seq<Effect>, l: TorrentListScreen, args: TorrentBandwidthArgs) -> bool {
    match selected_id(l) {
        Some(id) => fx.len() == 1 && bandwidth_call(fx[0], l.params, seq![id], args),
        None => fx.len() == 0,
    }
}

/// `fx` sets `args` on every selected torrent, or is empty when none is
/// selected.
pub open spec fn bulk_bandwidth(fx: Seq<Effect>, l: TorrentListScreen, args: TorrentBandwidthArgs) -> bool {
    if l.selected_ids@.len() > 0 {
        fx.len() == 1 && bandwidth_call(fx[0], l.params, l.selected_ids@, args)
    } else {
        fx.len() == 0
    }
}

/// `e` marks the files `indices` of torrent `torrent_id` as wanted or not.
pub open spec fn file_wanted_call(
    e: Effect,
    params: ConnectionParams,
    torrent_id: i64,
    indices: Seq<i64>,
    wanted: bool,
) -> bool {
    &&& e matches Effect::List(torrent_list::Effect::Enqueue(w))
    &&& w matches RpcWork::SetFileWanted { params: p, torrent_id: t, file_indices: f, wanted: x }
    &&& p == params
    &&& t == torrent_id
    &&& f@ == indices
    &&& x == wanted
}

/// `0, 1, …, n - 1` (empty when `n <= 0`).
pub open spec fn index_range(n: i64) -> Seq<i64> {
    Seq::new(if n > 0 { n as nat } else { 0 }, |i: int| i as i64)
}

/// The number of ticks between two periodic `session-get` calls: about ten
/// seconds' worth, and at least one.
pub open spec fn poll_threshold(refresh_interval: u8) -> int {
    let q: int = 10int / (if refresh_interval == 0 { 1int } else { refresh_interval as int });
    if q == 0 { 1 } else { q }
}

/// The overrides of `p` that the polled file states do not confirm yet: an
/// override of file `i` is dropped once file `i` reports that same value.
pub open spec fn reconciled(p: Map<usize, bool>, stats: Seq<FileStat>) -> Map<usize, bool> {
    reconciled_below(p, stats, stats.len() as int)
}

/// [`reconciled`], for the files below `k` only.
pub open spec fn reconciled_below(p: Map<usize, bool>, stats: Seq<FileStat>, k: int) -> Map<usize, bool> {
    Map::new(
        |i: usize| p.contains_key(i) && !(i < k && i < stats.len() && stats[i as int].wanted == p[i]),
        |i: usize| p[i],
    )
}

/// The inspector `n` after the selection moved from list `before` to list
/// `after`, starting from inspector `i`: a different single torrent resets
/// the tab, the file overrides, the bulk draft and the Options draft;
/// entering multi-selection from none or one torrent resets the bulk draft;
/// anything else (a Ctrl/Cmd-click within a multi-selection among them)
/// leaves the inspector as it was.
pub open spec fn inspector_after_selection(
    i: InspectorScreen,
    before: TorrentListScreen,
    after: TorrentListScreen,
    n: InspectorScreen,
) -> bool {
    if after.selected_ids@.len() == 1 && selected_id(after) != selected_id(before) {
        &&& n.active_tab == ActiveTab::General
        &&& n.pending_wanted@ == Map::<usize, bool>::empty()
        &&& is_untouched(n.bulk_options)
        &&& match after.spec_selected_torrent() {
            Some(t) => options_of(n.options, t),
            None => n.options == i.options,
        }
    } else if after.selected_ids@.len() > 1 && before.selected_ids@.len() <= 1 {
        &&& n == InspectorScreen { bulk_options: n.bulk_options, ..i }
        &&& is_untouched(n.bulk_options)
    } else {
        n == i
    }
}

/// The effects of an inspector message, given the state `o` before it.
pub open spec fn inspector_effects(o: MainScreen, msg: inspector::Message, fx: Seq<Effect>) -> bool {
    let opts = o.inspector.options;
    let bulk = o.inspector.bulk_options;
    match msg {
        inspector::Message::FileWantedToggled { torrent_id, file_index, wanted } => fx.len() == 1
            && file_wanted_call(fx[0], o.list.params, torrent_id, seq![file_index as i64], wanted),
        inspector::Message::AllFilesWantedToggled { torrent_id, file_count, wanted } => fx.len()
            == 1 && file_wanted_call(
            fx[0],
            o.list.params,
            torrent_id,
            index_range(file_count as i64),
            wanted,
        ),
        inspector::Message::OptionsDownloadLimitToggled(v) => single_bandwidth(
            fx,
            o.list,
            TorrentBandwidthArgs {
                download_limited: Some(v),
                download_limit: Some(limit_or_zero(opts.download_limit_val@)),
                ..no_bandwidth_args()
            },
        ),
        inspector::Message::OptionsUploadLimitToggled(v) => single_bandwidth(
            fx,
            o.list,
            TorrentBandwidthArgs {
                upload_limited: Some(v),
                upload_limit: Some(limit_or_zero(opts.upload_limit_val@)),
                ..no_bandwidth_args()
            },
        ),
        inspector::Message::OptionsRatioModeChanged(v) => single_bandwidth(
            fx,
            o.list,
            TorrentBandwidthArgs {
                seed_ratio_mode: Some(v),
                seed_ratio_limit_text: Some(opts.ratio_limit_val),
                ..no_bandwidth_args()
            },
        ),
        inspector::Message::OptionsHonorGlobalToggled(v) => single_bandwidth(
            fx,
            o.list,
            TorrentBandwidthArgs {
                honors_session_limits: Some(v),
                download_limited: Some(opts.download_limited),
                download_limit: Some(limit_or_zero(opts.download_limit_val@)),
                upload_limited: Some(opts.upload_limited),
                upload_limit: Some(limit_or_zero(opts.upload_limit_val@)),
                ..no_bandwidth_args()
            },
        ),
        inspector::Message::OptionsDownloadLimitSubmitted => if opts.download_limited {
            single_bandwidth(
                fx,
                o.list,
                TorrentBandwidthArgs {
                    download_limited: Some(true),
                    download_limit: Some(limit_or_zero(opts.download_limit_val@)),
                    ..no_bandwidth_args()
                },
            )
        } else {
            fx.len() == 0
        },
        inspector::Message::OptionsUploadLimitSubmitted => if opts.upload_limited {
            single_bandwidth(
                fx,
                o.list,
                TorrentBandwidthArgs {
                    upload_limited: Some(true),
                    upload_limit: Some(limit_or_zero(opts.upload_limit_val@)),
                    ..no_bandwidth_args()
                },
            )
        } else {
            fx.len() == 0
        },
        inspector::Message::OptionsRatioLimitSubmitted => if opts.ratio_mode == 1 {
            single_bandwidth(
                fx,
                o.list,
                TorrentBandwidthArgs {
                    seed_ratio_mode: Some(1),
                    seed_ratio_limit_text: Some(opts.ratio_limit_val),
                    ..no_bandwidth_args()
                },
            )
        } else {
            fx.len() == 0
        },
        inspector::Message::BulkDownloadLimitToggled(v) => bulk_bandwidth(
            fx,
            o.list,
            TorrentBandwidthArgs {
                download_limited: Some(v),
                download_limit: if v {
                    parsed_limit(bulk.download_limit_val@)
                } else {
                    None
                },
                ..no_bandwidth_args()
            },
        ),
        inspector::Message::BulkUploadLimitToggled(v) => bulk_bandwidth(
            fx,
            o.list,
            TorrentBandwidthArgs {
                upload_limited: Some(v),
                upload_limit: if v {
                    parsed_limit(bulk.upload_limit_val@)
                } else {
                    None
                },
                ..no_bandwidth_args()
            },
        ),
        inspector::Message::BulkRatioModeChanged(v) => bulk_bandwidth(
            fx,
            o.list,
            TorrentBandwidthArgs { seed_ratio_mode: Some(v), ..no_bandwidth_args() },
        ),
        inspector::Message::BulkHonorGlobalToggled(v) => bulk_bandwidth(
            fx,
            o.list,
            TorrentBandwidthArgs { honors_session_limits: Some(v), ..no_bandwidth_args() },
        ),
        inspector::Message::BulkDownloadLimitSubmitted => if bulk.download_limited == Some(true) {
            bulk_bandwidth(
                fx,
                o.list,
                TorrentBandwidthArgs {
                    download_limited: Some(true),
                    download_limit: Some(limit_or_zero(bulk.download_limit_val@)),
                    ..no_bandwidth_args()
                },
            )
        } else {
            fx.len() == 0
        },
        inspector::Message::BulkUploadLimitSubmitted => if bulk.upload_limited == Some(true) {
            bulk_bandwidth(
                fx,
                o.list,
                TorrentBandwidthArgs {
                    upload_limited: Some(true),
                    upload_limit: Some(limit_or_zero(bulk.upload_limit_val@)),
                    ..no_bandwidth_args()
                },
            )
        } else {
            fx.len() == 0
        },
        inspector::Message::BulkRatioLimitSubmitted => if bulk.ratio_mode == Some(1u8) {
            bulk_bandwidth(
                fx,
                o.list,
                TorrentBandwidthArgs {
                    seed_ratio_mode: Some(1),
                    seed_ratio_limit_text: Some(bulk.ratio_limit_val),
                    ..no_bandwidth_args()
                },
            )
        } else {
            fx.len() == 0
        },
        _ => fx.len() == 0,
    }
}

/// What a `Tick` does: count it, ask for `session-get` once the count
/// reaches [`poll_threshold`], then let the list poll.
pub open spec fn tick_step(o: MainScreen, n: MainScreen, fx: Seq<Effect>) -> bool {
    let t: int = if o.session_poll_ticks == u8::MAX {
        u8::MAX as int
    } else {
        o.session_poll_ticks + 1
    };
    let due = t >= poll_threshold(o.refresh_interval);
    &&& n == MainScreen { list: n.list, session_poll_ticks: n.session_poll_ticks, ..o }
    &&& n.session_poll_ticks == (if due { 0 } else { t })
    &&& exists|lfx: Seq<torrent_list::Effect>|
        #[trigger] list_step(o.list, torrent_list::Message::Tick, n.list, lfx) && fx == (if due {
            seq![rpc(RpcWork::SessionGet(o.list.params))]
        } else {
            Seq::empty()
        }) + lifted(lfx)
}

/// What a list message that the main screen does not intercept does: the
/// list handles it, then the file overrides that the selected torrent now
/// confirms are dropped.
pub open spec fn routed_list_step(
    o: MainScreen,
    msg: torrent_list::Message,
    n: MainScreen,
    fx: Seq<Effect>,
) -> bool {
    &&& n == MainScreen {
        list: n.list,
        inspector: InspectorScreen { pending_wanted: n.inspector.pending_wanted, ..o.inspector },
        ..o
    }
    &&& exists|lfx: Seq<torrent_list::Effect>| #[trigger]
        list_step(o.list, msg, n.list, lfx) && fx == lifted(lfx)
    &&& n.inspector.pending_wanted@ == match n.list.spec_selected_torrent() {
        Some(t) => if o.inspector.pending_wanted@.is_empty() {
            o.inspector.pending_wanted@
        } else {
            reconciled(o.inspector.pending_wanted@, t.file_stats@)
        },
        None => o.inspector.pending_wanted@,
    }
}

/// What [`MainScreen::update`] does with `msg`: `n` is the state after it
/// and `fx` the work it asks for.
pub open spec fn main_step(o: MainScreen, msg: Message, n: MainScreen, fx: Seq<Effect>) -> bool {
    match msg {
        Message::List(lm) => match lm {
            torrent_list::Message::Disconnect => n == o && fx == seq![Effect::Disconnect],
            torrent_list::Message::OpenSettingsClicked => n == o && fx == seq![
                Effect::OpenSettings,
            ],
            torrent_list::Message::TurtleModeToggled => n == o && fx == seq![
                Effect::ToggleTurtleMode,
            ],
            torrent_list::Message::SessionDataLoaded(r) => n == o && fx == match r {
                Ok(data) => seq![Effect::SessionDataLoaded(data)],
                Err(_) => Seq::<Effect>::empty(),
            },
            torrent_list::Message::Tick => tick_step(o, n, fx),
            torrent_list::Message::TorrentSelected(id) => {
                &&& n == MainScreen { list: n.list, inspector: n.inspector, ..o }
                &&& exists|lfx: Seq<torrent_list::Effect>| #[trigger]
                    list_step(o.list, torrent_list::Message::TorrentSelected(id), n.list, lfx)
                        && fx == lifted(lfx)
                &&& inspector_after_selection(o.inspector, o.list, n.list, n.inspector)
            },
            torrent_list::Message::FileWantedSettled(success, indices) => if success {
                n == o && fx == seq![rpc(RpcWork::TorrentGet(o.list.params))]
            } else {
                &&& n == MainScreen { inspector: n.inspector, ..o }
                &&& inspector_step(
                    o.inspector,
                    inspector::Message::FileWantedSetSuccess { indices },
                    n.inspector,
                )
                &&& fx.len() == 0
            },
            _ => routed_list_step(o, lm, n, fx),
        },
        Message::Inspector(im) => {
            &&& n == MainScreen { inspector: n.inspector, ..o }
            &&& inspector_step(o.inspector, im, n.inspector)
            &&& inspector_effects(o, im, fx)
        },
        Message::Disconnect
        | Message::OpenSettingsClicked
        | Message::TurtleModeToggled
        | Message::SessionDataLoaded(_) => n == o && fx.len() == 0,
    }
}

impl MainScreen {
    /// The state is consistent: the list's is.
    pub open spec fn wf(self) -> bool {
        self.list.wf()
    }
}

// ── Helpers ──────────────────────────────────────────────────────────────────

/// The list's effects, as effects of the main screen.
fn lift(fx: Vec<torrent_list::Effect>) -> (r: Vec<Effect>)
    ensures
        r@ == lifted(fx@),
{
    let mut src = fx;
    let mut r: Vec<Effect> = Vec::new();
    let ghost k: int = 0;
    while src.len() > 0
        invariant
            0 <= k <= fx@.len(),
            src@ == fx@.skip(k),
            r@ == lifted(fx@.take(k)),
        decreases src@.len(),
    {
        let e = src.remove(0);
        proof {
            assert(fx@.take(k + 1) == fx@.take(k).push(e));
            k = k + 1;
        }
        r.push(Effect::List(e));
        assert(r@ =~= lifted(fx@.take(k)));
    }
    assert(fx@.take(k) == fx@);
    r
}

/// The ID of the single selected torrent.
fn single_selected_id(l: &TorrentListScreen) -> (r: Option<i64>)
    ensures
        r == selected_id(*l),
{
    match l.selected_torrent() {
        Some(t) => Some(t.id),
        None => None,
    }
}

/// `s.parse::<u64>().unwrap_or(0)`.
fn limit_or_zero_of(s: &str) -> (n: u64)
    ensures
        n == limit_or_zero(s@),
{
    match parse_u64(s) {
        Some(n) => n,
        None => 0,
    }
}

/// `s.parse::<u64>().ok()`.
fn parsed_limit_of(s: &str) -> (r: Option<u64>)
    ensures
        r == parsed_limit(s@),
{
    parse_u64(s)
}

/// A `torrent-set` call for the single selected torrent, if there is one.
fn single_bandwidth_effects(l: &TorrentListScreen, args: TorrentBandwidthArgs) -> (fx: Vec<Effect>)
    ensures
        single_bandwidth(fx@, *l, args),
{
    let mut fx: Vec<Effect> = Vec::new();
    match single_selected_id(l) {
        Some(id) => {
            let mut ids: Vec<i64> = Vec::new();
            ids.push(id);
            assert(ids@ == seq![id]);
            fx.push(
                Effect::List(
                    torrent_list::Effect::Enqueue(
                        RpcWork::TorrentSetBandwidth { params: copy_params(&l.params), ids, args },
                    ),
                ),
            );
        },
        None => {},
    }
    fx
}

/// A `torrent-set` call for every selected torrent, if any is selected.
fn bulk_bandwidth_effects(l: &TorrentListScreen, args: TorrentBandwidthArgs) -> (fx: Vec<Effect>)
    ensures
        bulk_bandwidth(fx@, *l, args),
{
    let mut fx: Vec<Effect> = Vec::new();
    if l.selected_ids.len() > 0 {
        let ids = torrent_list::copy_ids(&l.selected_ids);
        fx.push(
            Effect::List(
                torrent_list::Effect::Enqueue(
                    RpcWork::TorrentSetBandwidth { params: copy_params(&l.params), ids, args },
                ),
            ),
        );
    }
    fx
}

/// `0, 1, …, n - 1`.
fn index_range_of(n: i64) -> (v: Vec<i64>)
    ensures
        v@ == index_range(n),
{
    let mut v: Vec<i64> = Vec::new();
    let mut i: i64 = 0;
    while i < n
        invariant
            0 <= i,
            n > 0 ==> i <= n,
            n <= 0 ==> i == 0,
            v@ == Seq::new(i as nat, |j: int| j as i64),
        decreases n - i,
    {
        v.push(i);
        i += 1;
        assert(v@ =~= Seq::new(i as nat, |j: int| j as i64));
    }
    assert(v@ =~= index_range(n));
    v
}

/// One `SetFileWanted` call.
fn file_wanted_effect(
    params: &ConnectionParams,
    torrent_id: i64,
    file_indices: Vec<i64>,
    wanted: bool,
) -> (fx: Vec<Effect>)
    ensures
        fx@.len() == 1,
        file_wanted_call(fx@[0], *params, torrent_id, file_indices@, wanted),
{
    let mut fx: Vec<Effect> = Vec::new();
    fx.push(
        Effect::List(
            torrent_list::Effect::Enqueue(
                RpcWork::SetFileWanted {
                    params: copy_params(params),
                    torrent_id,
                    file_indices,
                    wanted,
                },
            ),
        ),
    );
    fx
}

/// Drop the overrides that the polled file states confirm.
fn reconcile(pending: &mut HashMap<usize, bool>, stats: &Vec<FileStat>)
    ensures
        final(pending)@ == reconciled(old(pending)@, stats@),
{
    let mut i: usize = 0;
    assert(old(pending)@ =~= reconciled_below(old(pending)@, stats@, 0));
    while i < stats.len()
        invariant
            i <= stats@.len(),
            pending@ == reconciled_below(old(pending)@, stats@, i as int),
        decreases stats@.len() - i,
    {
        let current: Option<bool> = match pending.get(&i) {
            Some(w) => Some(*w),
            None => None,
        };
        match current {
            Some(w) => {
                if w == stats[i].wanted {
                    pending.remove(&i);
                }
            },
            None => {},
        }
        assert(pending@ =~= reconciled_below(old(pending)@, stats@, i + 1));
        i += 1;
    }
}

// ── Construction ─────────────────────────────────────────────────────────────

impl MainScreen {
    /// A main screen for a fresh connection, labelled `host:port` while the
    /// first torrent list is fetched. The active profile's ID is accepted
    /// for the caller's convenience and not kept.
    pub fn new_with_label(
        credentials: TransmissionCredentials,
        session_id: String,
        profile_name: Option<String>,
        _active_id: Option<u128>,
        refresh_interval: u8,
    ) -> (s: MainScreen)
        ensures
            s.connect_label@ == credentials.host@ + ":"@ + decimal(credentials.port as nat),
            s.profile_name == profile_name,
            s.refresh_interval == refresh_interval,
            s.session_poll_ticks == 0,
            is_fresh_list(s.list, credentials, session_id),
            is_fresh_inspector(s.inspector),
            s.wf(),
    {
        let mut connect_label = credentials.host.clone();
        push_text(&mut connect_label, ":");
        let port = u64_to_text(credentials.port as u64);
        push_text(&mut connect_label, port.as_str());
        MainScreen {
            list: TorrentListScreen::new(credentials, session_id),
            inspector: InspectorScreen::new(),
            connect_label,
            profile_name,
            refresh_interval,
            session_poll_ticks: 0,
        }
    }
}

impl MainScreen {
    /// The poll interval in seconds: the configured one, at least 1.
    pub fn tick_interval_secs(&self) -> (secs: u64)
        ensures
            secs == (if self.refresh_interval == 0 {
                1
            } else {
                self.refresh_interval as u64
            }),
    {
        if self.refresh_interval == 0 {
            1
        } else {
            self.refresh_interval as u64
        }
    }

    /// The text shown while the first torrent list loads:
    /// `Connecting to host:port…`, with the profile name in parentheses
    /// before the ellipsis when there is one.
    pub fn connecting_label(&self) -> (s: String)
        ensures
            s@ == "Connecting to "@ + self.connect_label@ + match self.profile_name {
                Some(n) => " ("@ + n@ + ")"@,
                None => Seq::empty(),
            } + "\u{2026}"@,
    {
        let mut s = String::new();
        push_text(&mut s, "Connecting to ");
        push_text(&mut s, self.connect_label.as_str());
        match &self.profile_name {
            Some(n) => {
                push_text(&mut s, " (");
                push_text(&mut s, n.as_str());
                push_text(&mut s, ")");
            },
            None => {},
        }
        push_text(&mut s, "\u{2026}");
        s
    }
}

// ── Update ───────────────────────────────────────────────────────────────────

/// `a == b`.
fn same_id(a: Option<i64>, b: Option<i64>) -> (r: bool)
    ensures
        r == (a == b),
{
    match (a, b) {
        (Some(x), Some(y)) => x == y,
        (None, None) => true,
        _ => false,
    }
}

/// One effect.
fn single(e: Effect) -> (fx: Vec<Effect>)
    ensures
        fx@ == seq![e],
{
    let mut fx: Vec<Effect> = Vec::new();
    fx.push(e);
    fx
}

impl MainScreen {
    /// Route a message to the list or the inspector and return the follow-up
    /// work; messages that cross between the two are handled here.
    pub fn update(&mut self, msg: Message) -> (fx: Vec<Effect>)
        requires
            old(self).wf(),
        ensures
            final(self).wf(),
            main_step(*old(self), msg, *final(self), fx@),
    {
        match msg {
            Message::List(lm) => self.update_from_list(lm),
            Message::Inspector(im) => self.update_from_inspector(im),
            Message::Disconnect
            | Message::OpenSettingsClicked
            | Message::TurtleModeToggled
            | Message::SessionDataLoaded(_) => {
                Vec::new()
            },
        }
    }

    /// A list message.
    fn update_from_list(&mut self, lm: torrent_list::Message) -> (fx: Vec<Effect>)
        requires
            old(self).wf(),
        ensures
            final(self).wf(),
            main_step(*old(self), Message::List(lm), *final(self), fx@),
    {
        match lm {
            torrent_list::Message::Disconnect => single(Effect::Disconnect),
            torrent_list::Message::OpenSettingsClicked => single(Effect::OpenSettings),
            torrent_list::Message::TurtleModeToggled => single(Effect::ToggleTurtleMode),
            torrent_list::Message::SessionDataLoaded(r) => match r {
                Ok(data) => single(Effect::SessionDataLoaded(data)),
                Err(_) => Vec::new(),
            },
            torrent_list::Message::Tick => self.tick(),
            torrent_list::Message::TorrentSelected(id) => self.select(id),
            torrent_list::Message::FileWantedSettled(success, indices) => {
                if success {
                    single(
                        Effect::List(
                            torrent_list::Effect::Enqueue(
                                RpcWork::TorrentGet(copy_params(&self.list.params)),
                            ),
                        ),
                    )
                } else {
                    inspector::update(
                        &mut self.inspector,
                        inspector::Message::FileWantedSetSuccess { indices },
                    );
                    Vec::new()
                }
            },
            other => self.route_to_list(other),
        }
    }

    /// A `Tick`: count it towards the periodic `session-get`, then poll.
    fn tick(&mut self) -> (fx: Vec<Effect>)
        requires
            old(self).wf(),
        ensures
            final(self).wf(),
            tick_step(*old(self), *final(self), fx@),
    {
        let interval: u8 = if self.refresh_interval == 0 {
            1
        } else {
            self.refresh_interval
        };
        let q: u8 = 10 / interval;
        let threshold: u8 = if q == 0 {
            1
        } else {
            q
        };
        self.session_poll_ticks = if self.session_poll_ticks == u8::MAX {
            u8::MAX
        } else {
            self.session_poll_ticks + 1
        };
        let mut fx: Vec<Effect> = Vec::new();
        if self.session_poll_ticks >= threshold {
            self.session_poll_ticks = 0;
            fx.push(
                Effect::List(
                    torrent_list::Effect::Enqueue(
                        RpcWork::SessionGet(copy_params(&self.list.params)),
                    ),
                ),
            );
        }
        let lfx = torrent_list::update(&mut self.list, torrent_list::Message::Tick);
        let ghost lfx_view = lfx@;
        let mut rest = lift(lfx);
        fx.append(&mut rest);
        assert(list_step(old(self).list, torrent_list::Message::Tick, self.list, lfx_view));
        fx
    }

    /// A click on a row: the list updates its selection; a new single
    /// selection resets the inspector to the new torrent, and entering or
    /// leaving multi-selection resets the bulk draft.
    fn select(&mut self, id: i64) -> (fx: Vec<Effect>)
        requires
            old(self).wf(),
        ensures
            final(self).wf(),
            main_step(
                *old(self),
                Message::List(torrent_list::Message::TorrentSelected(id)),
                *final(self),
                fx@,
            ),
    {
        let prev_single = single_selected_id(&self.list);
        let prev_count = self.list.selected_ids.len();
        let lfx = torrent_list::update(&mut self.list, torrent_list::Message::TorrentSelected(id));
        let ghost lfx_view = lfx@;
        let new_count = self.list.selected_ids.len();
        let new_single = single_selected_id(&self.list);
        if new_count == 1 && !same_id(new_single, prev_single) {
            self.inspector.active_tab = ActiveTab::General;
            self.inspector.pending_wanted.clear();
            self.inspector.bulk_options = InspectorBulkOptionsState::untouched();
            match self.list.selected_torrent() {
                Some(t) => {
                    self.inspector.options = InspectorOptionsState::from_torrent(t);
                },
                None => {},
            }
        } else if new_count > 1 && prev_count <= 1 {
            self.inspector.bulk_options = InspectorBulkOptionsState::untouched();
        }
        assert(list_step(
            old(self).list,
            torrent_list::Message::TorrentSelected(id),
            self.list,
            lfx_view,
        ));
        lift(lfx)
    }

    /// A list message that the main screen does not intercept.
    fn route_to_list(&mut self, lm: torrent_list::Message) -> (fx: Vec<Effect>)
        requires
            old(self).wf(),
            !(lm is Disconnect || lm is OpenSettingsClicked || lm is TurtleModeToggled || lm is SessionDataLoaded || lm is Tick
                || lm is TorrentSelected || lm is FileWantedSettled),
        ensures
            final(self).wf(),
            routed_list_step(*old(self), lm, *final(self), fx@),
    {
        let ghost msg_view = lm;
        let lfx = torrent_list::update(&mut self.list, lm);
        let ghost lfx_view = lfx@;
        if !self.inspector.pending_wanted.is_empty() {
            match self.list.selected_torrent() {
                Some(t) => {
                    reconcile(&mut self.inspector.pending_wanted, &t.file_stats);
                },
                None => {},
            }
        }
        assert(list_step(old(self).list, msg_view, self.list, lfx_view));
        lift(lfx)
    }

    /// An inspector message: the inspector updates its state, and the
    /// changes that concern the daemon become RPC work.
    fn update_from_inspector(&mut self, im: inspector::Message) -> (fx: Vec<Effect>)
        requires
            old(self).wf(),
        ensures
            final(self).wf(),
            main_step(*old(self), Message::Inspector(im), *final(self), fx@),
    {
        let fx = self.inspector_work(&im);
        inspector::update(&mut self.inspector, im);
        fx
    }

    /// The RPC work that an inspector message asks for.
    fn inspector_work(&self, im: &inspector::Message) -> (fx: Vec<Effect>)
        ensures
            inspector_effects(*self, *im, fx@),
    {
        let opts = &self.inspector.options;
        let bulk = &self.inspector.bulk_options;
        match im {
            inspector::Message::FileWantedToggled { torrent_id, file_index, wanted } => {
                let mut ids: Vec<i64> = Vec::new();
                ids.push(*file_index as i64);
                assert(ids@ == seq![*file_index as i64]);
                file_wanted_effect(&self.list.params, *torrent_id, ids, *wanted)
            },
            inspector::Message::AllFilesWantedToggled { torrent_id, file_count, wanted } => {
                let ids = index_range_of(*file_count as i64);
                file_wanted_effect(&self.list.params, *torrent_id, ids, *wanted)
            },
            inspector::Message::OptionsDownloadLimitToggled(v) => single_bandwidth_effects(
                &self.list,
                TorrentBandwidthArgs {
                    download_limited: Some(*v),
                    download_limit: Some(limit_or_zero_of(opts.download_limit_val.as_str())),
                    ..TorrentBandwidthArgs::none()
                },
            ),
            inspector::Message::OptionsUploadLimitToggled(v) => single_bandwidth_effects(
                &self.list,
                TorrentBandwidthArgs {
                    upload_limited: Some(*v),
                    upload_limit: Some(limit_or_zero_of(opts.upload_limit_val.as_str())),
                    ..TorrentBandwidthArgs::none()
                },
            ),
            inspector::Message::OptionsRatioModeChanged(v) => single_bandwidth_effects(
                &self.list,
                TorrentBandwidthArgs {
                    seed_ratio_mode: Some(*v),
                    seed_ratio_limit_text: Some(opts.ratio_limit_val.clone()),
                    ..TorrentBandwidthArgs::none()
                },
            ),
            inspector::Message::OptionsHonorGlobalToggled(v) => single_bandwidth_effects(
                &self.list,
                TorrentBandwidthArgs {
                    honors_session_limits: Some(*v),
                    download_limited: Some(opts.download_limited),
                    download_limit: Some(limit_or_zero_of(opts.download_limit_val.as_str())),
                    upload_limited: Some(opts.upload_limited),
                    upload_limit: Some(limit_or_zero_of(opts.upload_limit_val.as_str())),
                    ..TorrentBandwidthArgs::none()
                },
            ),
            inspector::Message::OptionsDownloadLimitSubmitted => {
                if opts.download_limited {
                    single_bandwidth_effects(
                        &self.list,
                        TorrentBandwidthArgs {
                            download_limited: Some(true),
                            download_limit: Some(
                                limit_or_zero_of(opts.download_limit_val.as_str()),
                            ),
                            ..TorrentBandwidthArgs::none()
                        },
                    )
                } else {
                    Vec::new()
                }
            },
            inspector::Message::OptionsUploadLimitSubmitted => {
                if opts.upload_limited {
                    single_bandwidth_effects(
                        &self.list,
                        TorrentBandwidthArgs {
                            upload_limited: Some(true),
                            upload_limit: Some(limit_or_zero_of(opts.upload_limit_val.as_str())),
                            ..TorrentBandwidthArgs::none()
                        },
                    )
                } else {
                    Vec::new()
                }
            },
            inspector::Message::OptionsRatioLimitSubmitted => {
                if opts.ratio_mode == 1 {
                    single_bandwidth_effects(
                        &self.list,
                        TorrentBandwidthArgs {
                            seed_ratio_mode: Some(1),
                            seed_ratio_limit_text: Some(opts.ratio_limit_val.clone()),
                            ..TorrentBandwidthArgs::none()
                        },
                    )
                } else {
                    Vec::new()
                }
            },
            inspector::Message::BulkDownloadLimitToggled(v) => bulk_bandwidth_effects(
                &self.list,
                TorrentBandwidthArgs {
                    download_limited: Some(*v),
                    download_limit: if *v {
                        parsed_limit_of(bulk.download_limit_val.as_str())
                    } else {
                        None
                    },
                    ..TorrentBandwidthArgs::none()
                },
            ),
            inspector::Message::BulkUploadLimitToggled(v) => bulk_bandwidth_effects(
                &self.list,
                TorrentBandwidthArgs {
                    upload_limited: Some(*v),
                    upload_limit: if *v {
                        parsed_limit_of(bulk.upload_limit_val.as_str())
                    } else {
                        None
                    },
                    ..TorrentBandwidthArgs::none()
                },
            ),
            inspector::Message::BulkRatioModeChanged(v) => bulk_bandwidth_effects(
                &self.list,
                TorrentBandwidthArgs { seed_ratio_mode: Some(*v), ..TorrentBandwidthArgs::none() },
            ),
            inspector::Message::BulkHonorGlobalToggled(v) => bulk_bandwidth_effects(
                &self.list,
                TorrentBandwidthArgs {
                    honors_session_limits: Some(*v),
                    ..TorrentBandwidthArgs::none()
                },
            ),
            inspector::Message::BulkDownloadLimitSubmitted => {
                if bulk.download_limited == Some(true) {
                    bulk_bandwidth_effects(
                        &self.list,
                        TorrentBandwidthArgs {
                            download_limited: Some(true),
                            download_limit: Some(
                                limit_or_zero_of(bulk.download_limit_val.as_str()),
                            ),
                            ..TorrentBandwidthArgs::none()
                        },
                    )
                } else {
                    Vec::new()
                }
            },
            inspector::Message::BulkUploadLimitSubmitted => {
                if bulk.upload_limited == Some(true) {
                    bulk_bandwidth_effects(
                        &self.list,
                        TorrentBandwidthArgs {
                            upload_limited: Some(true),
                            upload_limit: Some(limit_or_zero_of(bulk.upload_limit_val.as_str())),
                            ..TorrentBandwidthArgs::none()
                        },
                    )
                } else {
                    Vec::new()
                }
            },
            inspector::Message::BulkRatioLimitSubmitted => {
                if bulk.ratio_mode == Some(1u8) {
                    bulk_bandwidth_effects(
                        &self.list,
                        TorrentBandwidthArgs {
                            seed_ratio_mode: Some(1),
                            seed_ratio_limit_text: Some(bulk.ratio_limit_val.clone()),
                            ..TorrentBandwidthArgs::none()
                        },
                    )
                } else {
                    Vec::new()
                }
            },
            _ => Vec::new(),
        }
    }
}

} // verus!
