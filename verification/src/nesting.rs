//! How deeply the lists and dictionaries of a bencoded byte string nest.
//!
//! The scan reads the bytes token by token as a recursive bencode parser
//! does: `d` and `l` open a dictionary or a list, `e` closes one, `i` starts
//! an integer that runs to the next `e`, and anything else starts a byte
//! string `<length>:<bytes>`, whose bytes are skipped unread. Where a
//! parser would reject the input, the scan may stop early: what it reports
//! is the depth reached on the part of the input a parser reads.

use vstd::prelude::*;

verus! {

/// The deepest nesting of lists and dictionaries accepted for parsing.
/// Metainfo files nest five levels deep; each level is a few frames of a
/// recursive parser, so this keeps parsing well within a thread's stack.
pub const MAX_NESTING: usize = 256;

/// The first index at or after `from` where `b` holds `x`, or `b.len()`
/// where there is none.
pub open spec fn next_index_of(b: Seq<u8>, from: nat, x: u8) -> nat
    decreases b.len() - from,
{
    if from >= b.len() {
        b.len()
    } else if b[from as int] == x {
        from
    } else {
        next_index_of(b, from + 1, x)
    }
}

/// `next_index_of` lies between `from` and the end, and finds the first `x`.
pub proof fn lemma_next_index_of(b: Seq<u8>, from: nat, x: u8)
    requires
        from <= b.len(),
    ensures
        from <= next_index_of(b, from, x) <= b.len(),
        next_index_of(b, from, x) < b.len() ==> b[next_index_of(b, from, x) as int] == x,
        forall|k: int| from <= k < next_index_of(b, from, x) ==> b[k] != x,
    decreases b.len() - from,
{
    if from < b.len() && b[from as int] != x {
        lemma_next_index_of(b, from + 1, x);
    }
}

/// An ASCII decimal digit.
pub open spec fn is_digit(c: u8) -> bool {
    48 <= c <= 57
}

/// The decimal value of the digits `b[from..to]`.
pub open spec fn decimal(b: Seq<u8>, from: int, to: int) -> nat
    decreases to - from,
{
    if to <= from {
        0
    } else {
        decimal(b, from, to - 1) * 10 + (b[to - 1] - 48) as nat
    }
}

/// `b[from..to]` is a non-empty run of digits.
pub open spec fn all_digits(b: Seq<u8>, from: int, to: int) -> bool {
    from < to && forall|k: int| from <= k < to ==> is_digit(#[trigger] b[k])
}

/// Where the byte string whose length text starts at `pos` ends: the length
/// text runs to the next `:` and is an optional `+` and at least one digit;
/// that many bytes follow the `:`, or as many as are left. `None` where the
/// length text is not of that form.
pub open spec fn string_token_end(b: Seq<u8>, pos: nat) -> Option<nat> {
    let colon = next_index_of(b, pos, 58);
    let start: int = if pos < b.len() && b[pos as int] == 43 {
        pos + 1 as int
    } else {
        pos as int
    };
    if colon < b.len() && all_digits(b, start, colon as int) {
        let after = colon + 1;
        let rest = (b.len() - after) as nat;
        let declared = decimal(b, start, colon as int);
        Some(after + if declared < rest {
            declared
        } else {
            rest
        })
    } else {
        None
    }
}

/// A byte string token ends after its first byte and within `b`.
pub proof fn lemma_string_token_end(b: Seq<u8>, pos: nat)
    requires
        pos < b.len(),
    ensures
        string_token_end(b, pos) matches Some(q) ==> pos < q <= b.len(),
{
    lemma_next_index_of(b, pos, 58);
}

/// Scanning `b` from `pos` with `depth` lists and dictionaries open never
/// has more than `bound` of them open.
pub open spec fn scan_within(b: Seq<u8>, pos: nat, depth: nat, bound: nat) -> bool
    decreases b.len() - pos,
{
    if depth > bound {
        false
    } else if pos >= b.len() {
        true
    } else {
        let c = b[pos as int];
        if c == 100 || c == 108 {
            scan_within(b, pos + 1, depth + 1, bound)
        } else if c == 101 {
            depth == 0 || scan_within(b, pos + 1, (depth - 1) as nat, bound)
        } else if c == 105 {
            let close = next_index_of(b, pos + 1, 101);
            proof {
                lemma_next_index_of(b, pos + 1, 101);
            }
            if close < b.len() {
                scan_within(b, close + 1, depth, bound)
            } else {
                true
            }
        } else {
            proof {
                lemma_string_token_end(b, pos);
            }
            match string_token_end(b, pos) {
                Some(q) => scan_within(b, q, depth, bound),
                None => true,
            }
        }
    }
}

/// No more than `bound` lists and dictionaries are ever open at once while
/// `b` is read as bencode from its start.
pub open spec fn nesting_within(b: Seq<u8>, bound: nat) -> bool {
    scan_within(b, 0, 0, bound)
}

/// The index of the first `x` in `bytes` at or after `from`, or the length.
fn find_byte(bytes: &[u8], from: usize, x: u8) -> (q: usize)
    requires
        from <= bytes@.len(),
    ensures
        q == next_index_of(bytes@, from as nat, x),
{
    let mut i = from;
    while i < bytes.len()
        invariant
            from <= i <= bytes@.len(),
            next_index_of(bytes@, from as nat, x) == next_index_of(bytes@, i as nat, x),
        decreases bytes@.len() - i,
    {
        if bytes[i] == x {
            return i;
        }
        i += 1;
    }
    i
}

/// Where the byte string token starting at `pos` ends, as `string_token_end`.
fn string_token_end_at(bytes: &[u8], pos: usize) -> (r: Option<usize>)
    requires
        pos < bytes@.len(),
    ensures
        match string_token_end(bytes@, pos as nat) {
            Some(q) => r == Some(q as usize),
            None => r is None,
        },
{
    let ghost b = bytes@;
    let n = bytes.len();
    let colon = find_byte(bytes, pos, 58);
    if colon >= n {
        return None;
    }
    let start = if bytes[pos] == 43 {
        pos + 1
    } else {
        pos
    };
    if start >= colon {
        return None;
    }
    let rest = n - (colon + 1);
    let mut k = start;
    let mut v: usize = 0;
    while k < colon
        invariant
            n == b.len(),
            bytes@ == b,
            start <= k <= colon,
            colon < n,
            pos < n,
            colon == next_index_of(b, pos as nat, 58),
            start == (if b[pos as int] == 43 {
                pos + 1
            } else {
                pos as int
            }),
            rest == n - (colon + 1),
            forall|j: int| start <= j < k ==> is_digit(#[trigger] b[j]),
            v == (if decimal(b, start as int, k as int) < rest {
                decimal(b, start as int, k as int)
            } else {
                rest as nat
            }),
        decreases colon - k,
    {
        let c = bytes[k];
        if c < 48 || c > 57 {
            assert(!is_digit(b[k as int]));
            assert(!all_digits(b, start as int, colon as int));
            assert(string_token_end(b, pos as nat) is None);
            return None;
        }
        let w: u128 = (v as u128) * 10 + ((c - 48) as u128);
        assert(decimal(b, start as int, k + 1) == decimal(b, start as int, k as int) * 10 + (c
            - 48) as nat);
        v = if w > rest as u128 {
            rest
        } else {
            w as usize
        };
        k += 1;
    }
    Some(colon + 1 + v)
}

/// Whether `bytes`, read as bencode, never nests deeper than `MAX_NESTING`.
pub fn nesting_within_limit(bytes: &[u8]) -> (ok: bool)
    ensures
        ok == nesting_within(bytes@, MAX_NESTING as nat),
{
    let ghost b = bytes@;
    let n = bytes.len();
    let mut pos: usize = 0;
    let mut depth: usize = 0;
    while pos < n
        invariant
            n == b.len(),
            bytes@ == b,
            pos <= n,
            depth <= MAX_NESTING,
            nesting_within(b, MAX_NESTING as nat) == scan_within(
                b,
                pos as nat,
                depth as nat,
                MAX_NESTING as nat,
            ),
        decreases n - pos,
    {
        let c = bytes[pos];
        if c == 100 || c == 108 {
            if depth == MAX_NESTING {
                assert(!scan_within(b, (pos + 1) as nat, (depth + 1) as nat, MAX_NESTING as nat));
                return false;
            }
            depth += 1;
            pos += 1;
        } else if c == 101 {
            if depth == 0 {
                return true;
            }
            depth -= 1;
            pos += 1;
        } else if c == 105 {
            let close = find_byte(bytes, pos + 1, 101);
            proof {
                lemma_next_index_of(b, (pos + 1) as nat, 101);
            }
            if close >= n {
                return true;
            }
            pos = close + 1;
        } else {
            proof {
                lemma_string_token_end(b, pos as nat);
            }
            match string_token_end_at(bytes, pos) {
                Some(q) => {
                    pos = q;
                },
                None => {
                    return true;
                },
            }
        }
    }
    true
}

} // verus!
