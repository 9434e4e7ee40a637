//! Column sort of the torrent list: a stable sort by one column, ascending or
//! descending.

use vstd::prelude::*;

use crate::text::{chars_lt, lemma_chars_lt_irreflexive, lemma_chars_lt_total, lemma_chars_lt_transitive, text_lt};
use crate::torrent::TorrentData;

verus! {

/// Column that the torrent list can be sorted by.
#[derive(Debug, Clone, Copy, PartialEq, Eq, Structural)]
pub enum SortColumn {
    Name,
    Status,
    Size,
    SpeedDown,
    SpeedUp,
    Eta,
    Ratio,
    Progress,
}

/// Sort direction.
#[derive(Debug, Clone, Copy, PartialEq, Eq, Structural, Default)]
pub enum SortDir {
    #[default]
    Asc,
    Desc,
}

// ── Keys ─────────────────────────────────────────────────────────────────────

/// 2^63: the sign bit of an `f64` bit pattern.
pub open spec fn sign_bit() -> int {
    0x8000_0000_0000_0000
}

/// The bit pattern of an `f64` NaN: all exponent bits set, mantissa non-zero.
pub open spec fn is_nan_bits(b: u64) -> bool {
    (b as int / 0x10_0000_0000_0000) % 2048 == 2047 && (b as int) % 0x10_0000_0000_0000 != 0
}

/// The order key of a ratio: `ratio.max(0.0)`, whose non-negative values
/// order as their bit patterns; NaN and negative ratios count as zero.
pub open spec fn ratio_key(b: u64) -> int {
    if b as int >= sign_bit() || is_nan_bits(b) {
        0
    } else {
        b as int
    }
}

/// The order key of an `f64`: IEEE 754 total order, with `-0.0` and `+0.0`
/// counted equal, so that it agrees with `partial_cmp` on all values that are
/// not NaN.
pub open spec fn float_key(b: u64) -> int {
    if b as int == sign_bit() {
        sign_bit()
    } else if (b as int) < sign_bit() {
        b as int + sign_bit()
    } else {
        0xffff_ffff_ffff_ffff - b as int
    }
}

/// The key of a torrent under a numeric column (ETA: unknown values last).
pub open spec fn column_key(t: TorrentData, col: SortColumn) -> int {
    match col {
        SortColumn::Name => 0,
        SortColumn::Status => t.status as int,
        SortColumn::Size => t.total_size as int,
        SortColumn::SpeedDown => t.rate_download as int,
        SortColumn::SpeedUp => t.rate_upload as int,
        SortColumn::Eta => if t.eta < 0 {
            i64::MAX as int
        } else {
            t.eta as int
        },
        SortColumn::Ratio => ratio_key(t.upload_ratio_bits),
        SortColumn::Progress => float_key(t.percent_done_bits),
    }
}

/// `a` sorts strictly before `b` in ascending order of `col`.
pub open spec fn sorts_before(a: TorrentData, b: TorrentData, col: SortColumn) -> bool {
    match col {
        SortColumn::Name => chars_lt(a.name@, b.name@),
        _ => column_key(a, col) < column_key(b, col),
    }
}

/// The ETA of `t` is unknown (negative).
pub open spec fn eta_unknown(t: TorrentData) -> bool {
    t.eta < 0
}

/// `a` comes strictly before `b` in the order `(col, dir)`. By ETA, a known
/// ETA comes before an unknown one in either direction; known ETAs are
/// ordered in the chosen direction, and unknown ones tie.
pub open spec fn precedes(a: TorrentData, b: TorrentData, col: SortColumn, dir: SortDir) -> bool {
    if col == SortColumn::Eta && eta_unknown(a) != eta_unknown(b) {
        !eta_unknown(a)
    } else {
        match dir {
            SortDir::Asc => sorts_before(a, b, col),
            SortDir::Desc => sorts_before(b, a, col),
        }
    }
}

/// `p` lists every index of a sequence of length `n` exactly once.
pub open spec fn is_index_permutation(p: Seq<usize>, n: nat) -> bool {
    &&& p.len() == n
    &&& forall|k: int| 0 <= k < n ==> (#[trigger] p[k]) < n
    &&& forall|k: int, m: int| 0 <= k < m < n ==> #[trigger] p[k] != #[trigger] p[m]
    &&& forall|x: usize| x < n ==> #[trigger] p.contains(x)
}

/// `p` is the order in which a stable sort by `(col, dir)` lists the
/// elements of `s`: a permutation of its indices in which no element comes
/// after one that it precedes, and elements that tie keep their relative
/// order.
pub open spec fn is_stable_sort_order(
    s: Seq<TorrentData>,
    col: SortColumn,
    dir: SortDir,
    p: Seq<usize>,
) -> bool {
    &&& is_index_permutation(p, s.len())
    &&& forall|k: int, m: int|
        #![trigger p[k], p[m]]
        0 <= k < m < s.len() ==> !precedes(s[p[m] as int], s[p[k] as int], col, dir) && (
        !precedes(s[p[k] as int], s[p[m] as int], col, dir) ==> p[k] < p[m])
}

/// The stable sort order of `s` by `(col, dir)` (unique: see
/// [`lemma_stable_sort_order_unique`]).
pub open spec fn stable_sort_order(s: Seq<TorrentData>, col: SortColumn, dir: SortDir) -> Seq<
    usize,
> {
    choose|p: Seq<usize>| is_stable_sort_order(s, col, dir, p)
}

/// `precedes` is a strict weak order: asymmetric, and its complement is
/// transitive.
pub proof fn lemma_precedes_strict_weak(
    a: TorrentData,
    b: TorrentData,
    c: TorrentData,
    col: SortColumn,
    dir: SortDir,
)
    ensures
        precedes(a, b, col, dir) ==> !precedes(b, a, col, dir),
        !precedes(b, a, col, dir) && !precedes(c, b, col, dir) ==> !precedes(c, a, col, dir),
        precedes(a, b, col, dir) && precedes(b, c, col, dir) ==> precedes(a, c, col, dir),
        !precedes(a, a, col, dir),
{
    if col == SortColumn::Name {
        lemma_chars_lt_irreflexive(a.name@);
        if chars_lt(a.name@, b.name@) && chars_lt(b.name@, a.name@) {
            lemma_chars_lt_transitive(a.name@, b.name@, a.name@);
        }
        if chars_lt(a.name@, b.name@) && chars_lt(b.name@, c.name@) {
            lemma_chars_lt_transitive(a.name@, b.name@, c.name@);
        }
        if chars_lt(c.name@, b.name@) && chars_lt(b.name@, a.name@) {
            lemma_chars_lt_transitive(c.name@, b.name@, a.name@);
        }
        // negative transitivity, both directions
        if a.name@ != b.name@ {
            lemma_chars_lt_total(a.name@, b.name@);
        }
        if b.name@ != c.name@ {
            lemma_chars_lt_total(b.name@, c.name@);
        }
        if chars_lt(a.name@, b.name@) && chars_lt(c.name@, a.name@) {
            lemma_chars_lt_transitive(c.name@, a.name@, b.name@);
        }
        if chars_lt(b.name@, c.name@) && chars_lt(c.name@, a.name@) {
            lemma_chars_lt_transitive(b.name@, c.name@, a.name@);
        }
        if chars_lt(a.name@, b.name@) && chars_lt(b.name@, c.name@) && chars_lt(c.name@, a.name@) {
            lemma_chars_lt_transitive(a.name@, b.name@, c.name@);
            lemma_chars_lt_transitive(a.name@, c.name@, a.name@);
            lemma_chars_lt_irreflexive(a.name@);
        }
        if chars_lt(c.name@, b.name@) && chars_lt(a.name@, c.name@) {
            lemma_chars_lt_transitive(a.name@, c.name@, b.name@);
        }
        if chars_lt(b.name@, a.name@) && chars_lt(c.name@, b.name@) && chars_lt(a.name@, c.name@) {
            lemma_chars_lt_transitive(c.name@, b.name@, a.name@);
            lemma_chars_lt_transitive(c.name@, a.name@, c.name@);
            lemma_chars_lt_irreflexive(c.name@);
        }
        lemma_chars_lt_irreflexive(b.name@);
        lemma_chars_lt_irreflexive(c.name@);
    }
}

/// A stable sort's order is unique: two orders that both meet
/// [`is_stable_sort_order`] are equal.
pub proof fn lemma_stable_sort_order_unique(
    s: Seq<TorrentData>,
    col: SortColumn,
    dir: SortDir,
    p: Seq<usize>,
    q: Seq<usize>,
)
    requires
        is_stable_sort_order(s, col, dir, p),
        is_stable_sort_order(s, col, dir, q),
    ensures
        p == q,
{
    let n = s.len();
    assert forall|k: int| 0 <= k < n implies p[k] == q[k] by {
        lemma_orders_agree_up_to(s, col, dir, p, q, k);
    }
    assert(p =~= q);
}

proof fn lemma_orders_agree_up_to(
    s: Seq<TorrentData>,
    col: SortColumn,
    dir: SortDir,
    p: Seq<usize>,
    q: Seq<usize>,
    k: int,
)
    requires
        is_stable_sort_order(s, col, dir, p),
        is_stable_sort_order(s, col, dir, q),
        0 <= k < s.len(),
    ensures
        p[k] == q[k],
    decreases k,
{
    let n = s.len();
    if k > 0 {
        assert forall|m: int| 0 <= m < k implies p[m] == q[m] by {
            lemma_orders_agree_up_to(s, col, dir, p, q, m);
        }
    }
    let a = p[k];
    let b = q[k];
    if a != b {
        // `a` sits somewhere in `q`, and `b` somewhere in `p`.
        assert(a < n);
        assert(b < n);
        assert(q.contains(a));
        assert(p.contains(b));
        let j = choose|j: int| 0 <= j < n && q[j] == a;
        let i = choose|i: int| 0 <= i < n && p[i] == b;
        if j < k {
            assert(p[j] == q[j]);
            assert(false);
        }
        if i < k {
            assert(p[i] == q[i]);
            assert(false);
        }
        assert(j != k);
        assert(i != k);
        // In `q`, `b` comes before `a`; in `p`, `a` comes before `b`.
        let ta = s[a as int];
        let tb = s[b as int];
        assert(!precedes(ta, tb, col, dir));
        assert(!precedes(tb, ta, col, dir));
        assert(b < a);
        assert(a < b);
    }
}

/// Inserting element `i` at `pos`, after every element that it does not
/// precede and before the ones it precedes, extends a stable sort order of
/// the first `i` elements to one of the first `i + 1`.
proof fn lemma_insert_stable(
    s: Seq<TorrentData>,
    col: SortColumn,
    dir: SortDir,
    i: int,
    old_order: Seq<usize>,
    pos: int,
)
    requires
        0 <= i < s.len(),
        i < usize::MAX,
        is_stable_sort_order(s.take(i), col, dir, old_order),
        0 <= pos <= i,
        forall|q: int| pos <= q < i ==> precedes(s[i], s[#[trigger] old_order[q] as int], col, dir),
        pos > 0 ==> !precedes(s[i], s[old_order[pos - 1] as int], col, dir),
    ensures
        is_stable_sort_order(s.take(i + 1), col, dir, old_order.insert(pos, i as usize)),
{
    let t = s.take(i);
    let t2 = s.take(i + 1);
    assert(old_order.len() == i);
    assert forall|k: int| 0 <= k < i implies (#[trigger] old_order[k]) < i by {}
    let new_order = old_order.insert(pos, i as usize);
    assert(new_order.len() == i + 1);
    assert forall|k: int| 0 <= k < i + 1 implies #[trigger] new_order[k] < i + 1 by {
        if k < pos {
            assert(new_order[k] == old_order[k]);
        } else if k > pos {
            assert(new_order[k] == old_order[k - 1]);
        }
    }
    assert forall|k: int, m: int| 0 <= k < m < i + 1 implies #[trigger] new_order[k]
        != #[trigger] new_order[m] by {
        if k == pos {
            assert(new_order[m] == old_order[m - 1]);
        } else if m == pos {
            assert(new_order[k] == old_order[k]);
        } else {
            let kk = if k < pos { k } else { k - 1 };
            let mm = if m < pos { m } else { m - 1 };
            assert(new_order[k] == old_order[kk]);
            assert(new_order[m] == old_order[mm]);
        }
    }
    assert forall|x: usize| x < i + 1 implies #[trigger] new_order.contains(x) by {
        if x == i {
            assert(new_order[pos as int] == x);
        } else {
            assert(old_order.contains(x));
            let k = choose|k: int| 0 <= k < i && #[trigger] old_order[k] == x;
            if k < pos {
                assert(new_order[k] == x);
            } else {
                assert(new_order[k + 1] == x);
            }
        }
    }
    // Order and stability.
    assert forall|k: int, m: int|
        #![trigger new_order[k], new_order[m]]
        0 <= k < m < t2.len() implies !precedes(
        t2[new_order[m] as int],
        t2[new_order[k] as int],
        col,
        dir,
    ) && (!precedes(t2[new_order[k] as int], t2[new_order[m] as int], col, dir)
        ==> new_order[k] < new_order[m]) by {
        let x = s[i as int];
        assert(new_order[k] < i + 1);
        assert(new_order[m] < i + 1);
        assert(t2[new_order[k] as int] == s[new_order[k] as int]);
        assert(t2[new_order[m] as int] == s[new_order[m] as int]);
        if k == pos {
            // the new element before an old one it precedes
            let om = old_order[m - 1];
            assert(new_order[m] == om);
            assert(precedes(x, s[om as int], col, dir));
            lemma_precedes_strict_weak(x, s[om as int], x, col, dir);
        } else if m == pos {
            // an old element before the new one
            let ok = old_order[k];
            assert(new_order[k] == ok);
            assert(ok < i);
            // the element just before `pos` does not come after `x`
            let ob = old_order[pos - 1];
            assert(!precedes(x, s[ob as int], col, dir));
            if k < pos - 1 {
                assert(t[ok as int] == s[ok as int]);
                assert(t[ob as int] == s[ob as int]);
                assert(!precedes(s[ob as int], s[ok as int], col, dir));
                lemma_precedes_strict_weak(s[ok as int], s[ob as int], x, col, dir);
            }
        } else {
            let kk = if k < pos { k } else { k - 1 };
            let mm = if m < pos { m } else { m - 1 };
            assert(new_order[k] == old_order[kk]);
            assert(new_order[m] == old_order[mm]);
            assert(old_order[kk] < i);
            assert(old_order[mm] < i);
            assert(t[old_order[kk] as int] == s[old_order[kk] as int]);
            assert(t[old_order[mm] as int] == s[old_order[mm] as int]);
        }
    }
}

/// The position where a stable insertion puts `x` into `order`: going back
/// from `pos` over the elements that `x` precedes.
spec fn insertion_point(s: Seq<TorrentData>, col: SortColumn, dir: SortDir, x: TorrentData, order: Seq<usize>, pos: int) -> int
    decreases pos,
{
    if pos > 0 && precedes(x, s[order[pos - 1] as int], col, dir) {
        insertion_point(s, col, dir, x, order, pos - 1)
    } else {
        pos
    }
}

proof fn lemma_insertion_point(s: Seq<TorrentData>, col: SortColumn, dir: SortDir, x: TorrentData, order: Seq<usize>, pos: int)
    requires
        0 <= pos,
    ensures
        0 <= insertion_point(s, col, dir, x, order, pos) <= pos,
        forall|q: int| insertion_point(s, col, dir, x, order, pos) <= q < pos ==> precedes(x, s[#[trigger] order[q] as int], col, dir),
        insertion_point(s, col, dir, x, order, pos) > 0 ==> !precedes(x, s[order[insertion_point(s, col, dir, x, order, pos) - 1] as int], col, dir),
    decreases pos,
{
    if pos > 0 && precedes(x, s[order[pos - 1] as int], col, dir) {
        lemma_insertion_point(s, col, dir, x, order, pos - 1);
    }
}

/// A stable sort order of the first `i` elements of `s`, built by insertion.
proof fn stable_order_of_prefix(s: Seq<TorrentData>, col: SortColumn, dir: SortDir, i: int) -> (p: Seq<usize>)
    requires
        0 <= i <= s.len(),
        s.len() <= usize::MAX,
    ensures
        is_stable_sort_order(s.take(i), col, dir, p),
    decreases i,
{
    if i == 0 {
        let p = Seq::<usize>::empty();
        assert(s.take(0).len() == 0);
        p
    } else {
        let p0 = stable_order_of_prefix(s, col, dir, i - 1);
        assert(p0.len() == i - 1);
        let pos = insertion_point(s, col, dir, s[i - 1], p0, i - 1);
        lemma_insertion_point(s, col, dir, s[i - 1], p0, i - 1);
        lemma_insert_stable(s, col, dir, i - 1, p0, pos);
        p0.insert(pos, (i - 1) as usize)
    }
}

/// Every sequence of torrents has a stable sort order by any column and
/// direction, so [`stable_sort_order`] is one.
pub proof fn lemma_stable_sort_order_exists(s: Seq<TorrentData>, col: SortColumn, dir: SortDir)
    requires
        s.len() <= usize::MAX,
    ensures
        is_stable_sort_order(s, col, dir, stable_sort_order(s, col, dir)),
{
    let p = stable_order_of_prefix(s, col, dir, s.len() as int);
    assert(s.take(s.len() as int) == s);
    assert(is_stable_sort_order(s, col, dir, p));
}

// ── Executable sort ──────────────────────────────────────────────────────────

/// Whether `a` comes strictly before `b` in the order `(col, dir)`.
pub fn torrent_precedes(a: &TorrentData, b: &TorrentData, col: SortColumn, dir: SortDir) -> (r:
    bool)
    ensures
        r == precedes(*a, *b, col, dir),
{
    if col == SortColumn::Eta && (a.eta < 0) != (b.eta < 0) {
        return b.eta < 0;
    }
    let (x, y) = match dir {
        SortDir::Asc => (a, b),
        SortDir::Desc => (b, a),
    };
    match col {
        SortColumn::Name => text_lt(x.name.as_str(), y.name.as_str()),
        SortColumn::Status => x.status < y.status,
        SortColumn::Size => x.total_size < y.total_size,
        SortColumn::SpeedDown => x.rate_download < y.rate_download,
        SortColumn::SpeedUp => x.rate_upload < y.rate_upload,
        SortColumn::Eta => {
            let ex: i64 = if x.eta < 0 {
                i64::MAX
            } else {
                x.eta
            };
            let ey: i64 = if y.eta < 0 {
                i64::MAX
            } else {
                y.eta
            };
            ex < ey
        },
        SortColumn::Ratio => ratio_order_key(x.upload_ratio_bits) < ratio_order_key(
            y.upload_ratio_bits,
        ),
        SortColumn::Progress => float_order_key(x.percent_done_bits) < float_order_key(
            y.percent_done_bits,
        ),
    }
}

/// The order key of a ratio given as `f64` bits (see [`ratio_key`]).
pub fn ratio_order_key(b: u64) -> (k: u64)
    ensures
        k == ratio_key(b),
{
    let exponent = (b / 0x10_0000_0000_0000) % 2048;
    let mantissa = b % 0x10_0000_0000_0000;
    if b >= 0x8000_0000_0000_0000 || (exponent == 2047 && mantissa != 0) {
        0
    } else {
        b
    }
}

/// The order key of an `f64` given as bits (see [`float_key`]).
pub fn float_order_key(b: u64) -> (k: u64)
    ensures
        k == float_key(b),
{
    if b == 0x8000_0000_0000_0000 {
        0x8000_0000_0000_0000
    } else if b < 0x8000_0000_0000_0000 {
        b + 0x8000_0000_0000_0000
    } else {
        0xffff_ffff_ffff_ffff - b
    }
}

/// The order in which a stable sort by `(col, dir)` lists `torrents`, as
/// indices into it.
pub fn sort_order(torrents: &[TorrentData], col: SortColumn, dir: SortDir) -> (order: Vec<usize>)
    ensures
        is_stable_sort_order(torrents@, col, dir, order@),
        order@ == stable_sort_order(torrents@, col, dir),
{
    let n = torrents.len();
    let ghost s = torrents@;
    let mut order: Vec<usize> = Vec::new();
    let mut i: usize = 0;
    while i < n
        invariant
            n == s.len(),
            s == torrents@,
            i <= n,
            is_stable_sort_order(s.take(i as int), col, dir, order@),
        decreases n - i,
    {
        let ghost old_order = order@;
        let ghost t = s.take(i as int);
        let ghost t2 = s.take(i + 1);
        // Find where element `i` goes: after every element it does not precede.
        let mut pos: usize = order.len();
        while pos > 0 && torrent_precedes(&torrents[i], &torrents[order[pos - 1]], col, dir)
            invariant
                pos <= order@.len(),
                order@ == old_order,
                old_order.len() == i,
                i < n,
                n == s.len(),
                s == torrents@,
                forall|k: int| 0 <= k < i ==> (#[trigger] old_order[k]) < i,
                forall|q: int|
                    pos <= q < i ==> precedes(s[i as int], s[#[trigger] old_order[q] as int], col, dir),
            decreases pos,
        {
            pos -= 1;
        }
        order.insert(pos, i);
        proof {
            lemma_insert_stable(s, col, dir, i as int, old_order, pos as int);
        }
        i += 1;
    }
    assert(s.take(n as int) == s);
    proof {
        lemma_stable_sort_order_unique(s, col, dir, order@, stable_sort_order(s, col, dir));
    }
    order
}

/// Apply a single-column sort over a slice of torrents.
///
/// Returns references in the requested order; the backing slice is unchanged.
/// For ETA, unknown values (negative) are sorted to the end. Ratios order as
/// `ratio.max(0.0)`, progress as its `f64` value.
pub fn sort_torrents<'a>(torrents: &'a [TorrentData], col: SortColumn, dir: SortDir) -> (sorted:
    Vec<&'a TorrentData>)
    ensures
        sorted@.len() == torrents@.len(),
        forall|k: int|
            0 <= k < sorted@.len() ==> *#[trigger] sorted@[k] == torrents@[stable_sort_order(
                torrents@,
                col,
                dir,
            )[k] as int],
{
    let order = sort_order(torrents, col, dir);
    let mut sorted: Vec<&'a TorrentData> = Vec::new();
    let mut k: usize = 0;
    while k < order.len()
        invariant
            k <= order@.len(),
            order@ == stable_sort_order(torrents@, col, dir),
            is_stable_sort_order(torrents@, col, dir, order@),
            sorted@.len() == k,
            forall|j: int|
                0 <= j < k ==> *#[trigger] sorted@[j] == torrents@[order@[j] as int],
        decreases order@.len() - k,
    {
        sorted.push(&torrents[order[k]]);
        k += 1;
    }
    sorted
}

/// The sort indicator in the header of column `col`: an up triangle when
/// the list is sorted ascending by it, a down triangle when descending,
/// nothing otherwise.
pub fn chevron_indicator(col: SortColumn, active: &Option<SortColumn>, dir: SortDir) -> (s:
    &'static str)
    ensures
        s@ == (if *active == Some(col) {
            if dir == SortDir::Asc {
                "\u{25B4}"@
            } else {
                "\u{25BE}"@
            }
        } else {
            ""@
        }),
{
    match active {
        Some(c) if *c == col => match dir {
            SortDir::Asc => "\u{25B4}",
            SortDir::Desc => "\u{25BE}",
        },
        _ => "",
    }
}

} // verus!
