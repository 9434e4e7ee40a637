//! Status buckets of the filter chips, their counts, and the list of torrents
//! that the chips leave visible.

use vstd::prelude::*;

use crate::sort::{sort_order, stable_sort_order, SortColumn, SortDir};
use crate::torrent::TorrentData;

verus! {

broadcast use vstd::seq_lib::group_seq_properties;

/// Consolidated status buckets used for client-side filter chips.
///
/// A torrent may match more than one bucket simultaneously (e.g. a torrent
/// actively downloading at 500 KB/s matches both `Downloading` and `Active`).
#[derive(Debug, Clone, Copy, PartialEq, Eq, Hash, Structural)]
pub enum StatusFilter {
    /// Transmission status 3 (queue download) or 4 (downloading).
    Downloading,
    /// Transmission status 5 (queue seed) or 6 (seeding).
    Seeding,
    /// Transmission status 0 (stopped).
    Paused,
    /// Derived: `rate_download > 0 || rate_upload > 0`.
    Active,
    /// Transmission status 1 (check queue) or 2 (checking).
    Error,
}

impl StatusFilter {
    /// All filter variants in display order.
    pub fn all() -> (a: [StatusFilter; 5])
        ensures
            a@ == all_filters(),
    {
        let a = [
            StatusFilter::Downloading,
            StatusFilter::Seeding,
            StatusFilter::Paused,
            StatusFilter::Active,
            StatusFilter::Error,
        ];
        assert(a@ =~= all_filters());
        a
    }
}

/// The five filters in display order.
pub open spec fn all_filters() -> Seq<StatusFilter> {
    seq![
        StatusFilter::Downloading,
        StatusFilter::Seeding,
        StatusFilter::Paused,
        StatusFilter::Active,
        StatusFilter::Error,
    ]
}

/// The set of all five filters.
pub open spec fn every_filter() -> Set<StatusFilter> {
    set![
        StatusFilter::Downloading,
        StatusFilter::Seeding,
        StatusFilter::Paused,
        StatusFilter::Active,
        StatusFilter::Error,
    ]
}

/// The bucket that a Transmission status code falls in, if any.
pub open spec fn status_bucket(status: i32) -> Option<StatusFilter> {
    if status == 3 || status == 4 {
        Some(StatusFilter::Downloading)
    } else if status == 5 || status == 6 {
        Some(StatusFilter::Seeding)
    } else if status == 0 {
        Some(StatusFilter::Paused)
    } else if status == 1 || status == 2 {
        Some(StatusFilter::Error)
    } else {
        None
    }
}

/// The torrent is transferring data in either direction.
pub open spec fn is_active(t: TorrentData) -> bool {
    t.rate_download > 0 || t.rate_upload > 0
}

/// The buckets of `t`, in the order `matching_filters` lists them.
pub open spec fn buckets_of(t: TorrentData) -> Seq<StatusFilter> {
    let first = match status_bucket(t.status) {
        Some(f) => seq![f],
        None => Seq::empty(),
    };
    if is_active(t) {
        first.push(StatusFilter::Active)
    } else {
        first
    }
}

/// `t` stays visible under the active filter set `filters`: one of its
/// buckets is active.
pub open spec fn is_visible(t: TorrentData, filters: Set<StatusFilter>) -> bool {
    (status_bucket(t.status) matches Some(f) && filters.contains(f)) || (is_active(t)
        && filters.contains(StatusFilter::Active))
}

/// A set of active filter chips.
#[derive(Debug, Clone, Copy, PartialEq, Eq, Structural)]
pub struct FilterSet {
    downloading: bool,
    seeding: bool,
    paused: bool,
    active: bool,
    error: bool,
}

impl View for FilterSet {
    type V = Set<StatusFilter>;

    open spec fn view(&self) -> Set<StatusFilter> {
        Set::new(|f: StatusFilter| self.flag(f))
    }
}

impl FilterSet {
    /// Whether `f` is in the set, read from its flag.
    pub closed spec fn flag(self, f: StatusFilter) -> bool {
        match f {
            StatusFilter::Downloading => self.downloading,
            StatusFilter::Seeding => self.seeding,
            StatusFilter::Paused => self.paused,
            StatusFilter::Active => self.active,
            StatusFilter::Error => self.error,
        }
    }

    /// The set with no filter.
    pub fn new() -> (s: FilterSet)
        ensures
            s@ == Set::<StatusFilter>::empty(),
    {
        let s = FilterSet {
            downloading: false,
            seeding: false,
            paused: false,
            active: false,
            error: false,
        };
        assert(s@ =~= Set::<StatusFilter>::empty());
        s
    }

    /// The set of all five filters.
    pub fn all() -> (s: FilterSet)
        ensures
            s@ == every_filter(),
    {
        let s = FilterSet { downloading: true, seeding: true, paused: true, active: true, error: true };
        assert(s@ =~= every_filter());
        s
    }

    /// The set of the filters listed in `filters`.
    pub fn from_filters(filters: &[StatusFilter]) -> (s: FilterSet)
        ensures
            s@ == filters@.to_set(),
    {
        let mut s = FilterSet::new();
        let mut i: usize = 0;
        while i < filters.len()
            invariant
                i <= filters@.len(),
                s@ == filters@.take(i as int).to_set(),
            decreases filters@.len() - i,
        {
            s.insert(filters[i]);
            assert(filters@.take(i + 1) == filters@.take(i as int).push(filters@[i as int]));
            assert(filters@.take(i + 1).to_set() =~= filters@.take(i as int).to_set().insert(
                filters@[i as int],
            ));
            i += 1;
        }
        assert(filters@.take(filters@.len() as int) == filters@);
        s
    }

    /// Whether `f` is in the set.
    pub fn contains(&self, f: &StatusFilter) -> (b: bool)
        ensures
            b == self@.contains(*f),
    {
        match *f {
            StatusFilter::Downloading => self.downloading,
            StatusFilter::Seeding => self.seeding,
            StatusFilter::Paused => self.paused,
            StatusFilter::Active => self.active,
            StatusFilter::Error => self.error,
        }
    }

    /// Add `f`; returns whether it was absent.
    pub fn insert(&mut self, f: StatusFilter) -> (added: bool)
        ensures
            final(self)@ == old(self)@.insert(f),
            added == !old(self)@.contains(f),
    {
        let added = !self.contains(&f);
        match f {
            StatusFilter::Downloading => self.downloading = true,
            StatusFilter::Seeding => self.seeding = true,
            StatusFilter::Paused => self.paused = true,
            StatusFilter::Active => self.active = true,
            StatusFilter::Error => self.error = true,
        }
        assert(self@ =~= old(self)@.insert(f));
        added
    }

    /// Remove `f`; returns whether it was present.
    pub fn remove(&mut self, f: &StatusFilter) -> (removed: bool)
        ensures
            final(self)@ == old(self)@.remove(*f),
            removed == old(self)@.contains(*f),
    {
        let removed = self.contains(f);
        match *f {
            StatusFilter::Downloading => self.downloading = false,
            StatusFilter::Seeding => self.seeding = false,
            StatusFilter::Paused => self.paused = false,
            StatusFilter::Active => self.active = false,
            StatusFilter::Error => self.error = false,
        }
        assert(self@ =~= old(self)@.remove(*f));
        removed
    }

    /// Remove every filter.
    pub fn clear(&mut self)
        ensures
            final(self)@ == Set::<StatusFilter>::empty(),
    {
        *self = FilterSet::new();
    }

    /// The number of filters in the set.
    pub fn len(&self) -> (n: usize)
        ensures
            n == self@.len(),
            n <= 5,
    {
        proof {
            self.lemma_view_len();
        }
        (if self.downloading { 1usize } else { 0 }) + (if self.seeding { 1usize } else { 0 }) + (
        if self.paused { 1usize } else { 0 }) + (if self.active { 1usize } else { 0 }) + (
        if self.error { 1usize } else { 0 })
    }

    /// Whether the set is empty.
    pub fn is_empty(&self) -> (b: bool)
        ensures
            b == (self@ == Set::<StatusFilter>::empty()),
    {
        let b = !self.downloading && !self.seeding && !self.paused && !self.active && !self.error;
        if !b {
            if self.downloading {
                assert(self@.contains(StatusFilter::Downloading));
            } else if self.seeding {
                assert(self@.contains(StatusFilter::Seeding));
            } else if self.paused {
                assert(self@.contains(StatusFilter::Paused));
            } else if self.active {
                assert(self@.contains(StatusFilter::Active));
            } else {
                assert(self@.contains(StatusFilter::Error));
            }
        } else {
            assert(self@ =~= Set::<StatusFilter>::empty());
        }
        b
    }

    /// The view is finite, with one element per set flag.
    proof fn lemma_view_len(self)
        ensures
            self@.finite(),
            self@.len() == (if self.downloading { 1int } else { 0 }) + (if self.seeding {
                1int
            } else {
                0
            }) + (if self.paused { 1int } else { 0 }) + (if self.active { 1int } else { 0 }) + (
            if self.error { 1int } else { 0 }),
            self@.len() == 5 <==> self@ == every_filter(),
    {
        let s0 = Set::<StatusFilter>::empty();
        let s1 = if self.downloading { s0.insert(StatusFilter::Downloading) } else { s0 };
        let s2 = if self.seeding { s1.insert(StatusFilter::Seeding) } else { s1 };
        let s3 = if self.paused { s2.insert(StatusFilter::Paused) } else { s2 };
        let s4 = if self.active { s3.insert(StatusFilter::Active) } else { s3 };
        let s5 = if self.error { s4.insert(StatusFilter::Error) } else { s4 };
        assert(self@ =~= s5);
        assert(!s0.contains(StatusFilter::Downloading));
        assert(!s1.contains(StatusFilter::Seeding));
        assert(!s2.contains(StatusFilter::Paused));
        assert(!s3.contains(StatusFilter::Active));
        assert(!s4.contains(StatusFilter::Error));
        let all = FilterSet::all_flags();
        assert(every_filter() =~= all@);
        if self@.len() == 5 {
            assert(self.downloading && self.seeding && self.paused && self.active && self.error);
            assert(self@ =~= every_filter());
        }
        if self@ == every_filter() {
            assert(self@.contains(StatusFilter::Downloading));
            assert(self@.contains(StatusFilter::Seeding));
            assert(self@.contains(StatusFilter::Paused));
            assert(self@.contains(StatusFilter::Active));
            assert(self@.contains(StatusFilter::Error));
        }
    }

    /// The value with every flag set.
    closed spec fn all_flags() -> FilterSet {
        FilterSet { downloading: true, seeding: true, paused: true, active: true, error: true }
    }
}

/// A filter set holds five filters exactly when it holds all of them.
pub proof fn lemma_full_iff_five(s: FilterSet)
    ensures
        s@.finite(),
        s@.len() == 5 <==> s@ == every_filter(),
{
    s.lemma_view_len();
}

/// The set of all filters has five elements.
pub proof fn lemma_every_filter_len()
    ensures
        every_filter().finite(),
        every_filter().len() == 5,
{
    FilterSet::all_flags().lemma_view_len();
    assert(FilterSet::all_flags()@ =~= every_filter());
}

// ── Buckets ──────────────────────────────────────────────────────────────────

fn bucket_of_status(status: i32) -> (b: Option<StatusFilter>)
    ensures
        b == status_bucket(status),
{
    if status == 3 || status == 4 {
        Some(StatusFilter::Downloading)
    } else if status == 5 || status == 6 {
        Some(StatusFilter::Seeding)
    } else if status == 0 {
        Some(StatusFilter::Paused)
    } else if status == 1 || status == 2 {
        Some(StatusFilter::Error)
    } else {
        None
    }
}

/// Returns all [`StatusFilter`] buckets that apply to `t`: its status bucket
/// (if its status has one), then `Active` when it transfers data.
pub fn matching_filters(t: &TorrentData) -> (out: Vec<StatusFilter>)
    ensures
        out@ == buckets_of(*t),
{
    let mut out: Vec<StatusFilter> = Vec::new();
    match bucket_of_status(t.status) {
        Some(f) => out.push(f),
        None => {},
    }
    if t.rate_download > 0 || t.rate_upload > 0 {
        out.push(StatusFilter::Active);
    }
    assert(out@ =~= buckets_of(*t));
    out
}

/// Aggregate counts for the torrent-list status filter chips.
#[derive(Debug, Default, Clone, Copy, PartialEq, Eq, Structural)]
pub struct FilterCounts {
    pub downloading: u32,
    pub seeding: u32,
    pub paused: u32,
    pub active: u32,
    pub error: u32,
}

/// How many torrents of `s` are in status bucket `f`.
pub open spec fn count_in_bucket(s: Seq<TorrentData>, f: StatusFilter) -> nat
    decreases s.len(),
{
    if s.len() == 0 {
        0
    } else {
        count_in_bucket(s.drop_last(), f) + if status_bucket(s.last().status) == Some(f) {
            1nat
        } else {
            0nat
        }
    }
}

/// How many torrents of `s` are active.
pub open spec fn count_active(s: Seq<TorrentData>) -> nat
    decreases s.len(),
{
    if s.len() == 0 {
        0
    } else {
        count_active(s.drop_last()) + if is_active(s.last()) {
            1nat
        } else {
            0nat
        }
    }
}

proof fn lemma_counts_bounded(s: Seq<TorrentData>)
    ensures
        count_active(s) <= s.len(),
        forall|f: StatusFilter| #[trigger] count_in_bucket(s, f) <= s.len(),
    decreases s.len(),
{
    if s.len() > 0 {
        lemma_counts_bounded(s.drop_last());
        assert forall|f: StatusFilter| #[trigger] count_in_bucket(s, f) <= s.len() by {
            assert(count_in_bucket(s.drop_last(), f) <= s.drop_last().len());
        }
    }
}

/// Count how many torrents belong to each status-filter bucket.
pub fn count_filters(torrents: &[TorrentData]) -> (counts: FilterCounts)
    requires
        torrents@.len() <= u32::MAX,
    ensures
        counts.downloading == count_in_bucket(torrents@, StatusFilter::Downloading),
        counts.seeding == count_in_bucket(torrents@, StatusFilter::Seeding),
        counts.paused == count_in_bucket(torrents@, StatusFilter::Paused),
        counts.error == count_in_bucket(torrents@, StatusFilter::Error),
        counts.active == count_active(torrents@),
{
    let mut counts = FilterCounts { downloading: 0, seeding: 0, paused: 0, active: 0, error: 0 };
    let mut i: usize = 0;
    while i < torrents.len()
        invariant
            i <= torrents@.len(),
            torrents@.len() <= u32::MAX,
            counts.downloading == count_in_bucket(
                torrents@.take(i as int),
                StatusFilter::Downloading,
            ),
            counts.seeding == count_in_bucket(torrents@.take(i as int), StatusFilter::Seeding),
            counts.paused == count_in_bucket(torrents@.take(i as int), StatusFilter::Paused),
            counts.error == count_in_bucket(torrents@.take(i as int), StatusFilter::Error),
            counts.active == count_active(torrents@.take(i as int)),
        decreases torrents@.len() - i,
    {
        let ghost pre = torrents@.take(i as int);
        let ghost next = torrents@.take(i + 1);
        assert(next.drop_last() == pre);
        proof {
            lemma_counts_bounded(pre);
        }
        let t = &torrents[i];
        match bucket_of_status(t.status) {
            Some(StatusFilter::Downloading) => counts.downloading += 1,
            Some(StatusFilter::Seeding) => counts.seeding += 1,
            Some(StatusFilter::Paused) => counts.paused += 1,
            Some(StatusFilter::Error) => counts.error += 1,
            _ => {},
        }
        if t.rate_download > 0 || t.rate_upload > 0 {
            counts.active += 1;
        }
        i += 1;
    }
    assert(torrents@.take(torrents@.len() as int) == torrents@);
    counts
}

/// Return whether a torrent should remain visible under the current filter set.
pub fn torrent_matches_active_filters(torrent: &TorrentData, active_filters: &FilterSet) -> (b:
    bool)
    ensures
        b == is_visible(*torrent, active_filters@),
{
    let status_match = match bucket_of_status(torrent.status) {
        Some(f) => active_filters.contains(&f),
        None => false,
    };
    let active_match = (torrent.rate_download > 0 || torrent.rate_upload > 0)
        && active_filters.contains(&StatusFilter::Active);
    status_match || active_match
}

// ── Display order ────────────────────────────────────────────────────────────

/// The order of the list before filtering: the stable sort by the active
/// column, or the daemon's order when no column is active.
pub open spec fn base_order(s: Seq<TorrentData>, col: Option<SortColumn>, dir: SortDir) -> Seq<
    usize,
> {
    match col {
        Some(c) => stable_sort_order(s, c, dir),
        None => Seq::new(s.len(), |i: int| i as usize),
    }
}

/// The indices of the torrents that the list shows, in display order: the
/// base order, keeping only the torrents visible under `filters`.
pub open spec fn display_order(
    s: Seq<TorrentData>,
    col: Option<SortColumn>,
    dir: SortDir,
    filters: Set<StatusFilter>,
) -> Seq<usize> {
    base_order(s, col, dir).filter(visible_index(s, filters))
}

/// The predicate "the torrent at this index is visible under `filters`".
pub open spec fn visible_index(s: Seq<TorrentData>, filters: Set<StatusFilter>) -> spec_fn(
    usize,
) -> bool {
    |i: usize| is_visible(s[i as int], filters)
}

/// Sort by the active column (if any), then keep only the torrents visible
/// under `active_filters`; returns indices into `torrents`.
pub fn display_order_indices(
    torrents: &[TorrentData],
    sort_column: Option<SortColumn>,
    sort_dir: SortDir,
    active_filters: &FilterSet,
) -> (order: Vec<usize>)
    ensures
        order@ == display_order(torrents@, sort_column, sort_dir, active_filters@),
        forall|k: int| 0 <= k < order@.len() ==> #[trigger] order@[k] < torrents@.len(),
{
    let base: Vec<usize> = match sort_column {
        Some(c) => sort_order(torrents, c, sort_dir),
        None => {
            let mut v: Vec<usize> = Vec::new();
            let mut i: usize = 0;
            while i < torrents.len()
                invariant
                    i <= torrents@.len(),
                    v@ == Seq::new(i as nat, |j: int| j as usize),
                decreases torrents@.len() - i,
            {
                v.push(i);
                i += 1;
            }
            v
        },
    };
    assert(base@ =~= base_order(torrents@, sort_column, sort_dir));
    assert(base@.len() == torrents@.len());
    assert(forall|j: int| 0 <= j < base@.len() ==> #[trigger] base@[j] < torrents@.len());
    let mut order: Vec<usize> = Vec::new();
    let mut k: usize = 0;
    while k < base.len()
        invariant
            k <= base@.len(),
            base@ == base_order(torrents@, sort_column, sort_dir),
            base@.len() == torrents@.len(),
            forall|j: int| 0 <= j < base@.len() ==> #[trigger] base@[j] < torrents@.len(),
            order@ == base@.take(k as int).filter(visible_index(torrents@, active_filters@)),
            forall|j: int| 0 <= j < order@.len() ==> #[trigger] order@[j] < torrents@.len(),
        decreases base@.len() - k,
    {
        let idx = base[k];
        assert(base@.take(k + 1) == base@.take(k as int).push(idx));
        proof {
            base@.take(k as int).lemma_filter_push(idx, visible_index(torrents@, active_filters@));
        }
        
        if torrent_matches_active_filters(&torrents[idx], active_filters) {
            order.push(idx);
        }
        k += 1;
    }
    assert(base@.take(base@.len() as int) == base@);
    order
}

/// Sort the list, then retain only the torrents allowed by the active filters.
pub fn display_torrents<'a>(
    torrents: &'a [TorrentData],
    sort_column: Option<SortColumn>,
    sort_dir: SortDir,
    active_filters: &FilterSet,
) -> (shown: Vec<&'a TorrentData>)
    ensures
        shown@.len() == display_order(torrents@, sort_column, sort_dir, active_filters@).len(),
        forall|k: int|
            0 <= k < shown@.len() ==> *#[trigger] shown@[k] == torrents@[display_order(
                torrents@,
                sort_column,
                sort_dir,
                active_filters@,
            )[k] as int],
{
    let order = display_order_indices(torrents, sort_column, sort_dir, active_filters);
    let mut shown: Vec<&'a TorrentData> = Vec::new();
    let mut k: usize = 0;
    while k < order.len()
        invariant
            k <= order@.len(),
            order@ == display_order(torrents@, sort_column, sort_dir, active_filters@),
            forall|j: int| 0 <= j < order@.len() ==> #[trigger] order@[j] < torrents@.len(),
            shown@.len() == k,
            forall|j: int| 0 <= j < k ==> *#[trigger] shown@[j] == torrents@[order@[j] as int],
        decreases order@.len() - k,
    {
        shown.push(&torrents[order[k]]);
        k += 1;
    }
    shown
}

} // verus!
