//! Per-column consensus: the majority symbol of every alignment column and a
//! conservation level in 1..=4 derived from the majority's frequency.

use vstd::arithmetic::div_mod::{lemma_div_is_ordered, lemma_div_multiples_vanish};
use crate::matrix::AlignmentMatrix;
use vstd::prelude::*;

verus! {

/// Conservation level of a frequency `value` inside the range `min..=max`:
/// a four-step scale where `min` maps to 1 and `max` maps to 4, with integer
/// (truncating) division in between. A degenerate range (`max == min`, a
/// single-row alignment) counts as full conservation, level 4.
pub open spec fn normalize_spec(value: int, min: int, max: int) -> int
    recommends
        min <= value <= max,
{
    if max > min {
        1 + (value - min) * 3 / (max - min)
    } else {
        4
    }
}

/// The level scale is bounded: every in-range frequency maps into 1..=4.
pub proof fn lemma_normalize_bounds(value: int, min: int, max: int)
    requires
        min <= value <= max,
    ensures
        1 <= normalize_spec(value, min, max) <= 4,
{
    if max > min {
        let d = max - min;
        lemma_div_is_ordered(0, (value - min) * 3, d);
        lemma_div_is_ordered((value - min) * 3, d * 3, d);
        lemma_div_multiples_vanish(3, d);
    }
}

/// A frequency at the top of the range always maps to the top level 4,
/// whatever the range is.
pub proof fn lemma_normalize_full(min: int, max: int)
    requires
        min <= max,
    ensures
        normalize_spec(max, min, max) == 4,
{
    if max > min {
        let d = max - min;
        lemma_div_multiples_vanish(3, d);
    }
}

/// Over a degenerate range (a single-row alignment) every frequency counts
/// as full conservation, level 4.
pub proof fn lemma_normalize_degenerate(value: int, bound: int)
    ensures
        normalize_spec(value, bound, bound) == 4,
{
}

/// A frequency at the bottom of a non-degenerate range always maps to the
/// bottom level 1.
pub proof fn lemma_normalize_lone(min: int, max: int)
    requires
        min < max,
    ensures
        normalize_spec(min, min, max) == 1,
{
    let d = max - min;
    lemma_div_is_ordered(0, 0, d);
}

/// Conservation level of `value` within `min..=max`, on the 1..=4 scale.
pub fn normalize(value: usize, min_value: usize, max_value: usize) -> (level: u32)
    requires
        min_value <= value <= max_value,
    ensures
        level == normalize_spec(value as int, min_value as int, max_value as int),
        1 <= level <= 4,
{
    if max_value > min_value {
        let num: u128 = ((value - min_value) as u128) * 3;
        let den: u128 = (max_value - min_value) as u128;
        let q: u128 = num / den;
        proof {
            lemma_div_is_ordered(0, num as int, den as int);
            lemma_div_is_ordered(num as int, den as int * 3, den as int);
            lemma_div_multiples_vanish(3, den as int);
        }
        1 + (q as u32)
    } else {
        4
    }
}

/// The consensus of one alignment column: its majority symbol, how many rows
/// carry that symbol, and the conservation level of that count.
pub struct ConsensusColumn {
    pub majority_symbol: u8,
    pub frequency: usize,
    pub level: u32,
}

/// How many entries of `col` equal `sym`.
pub open spec fn count_matching(col: Seq<u8>, sym: u8) -> nat
    decreases col.len(),
{
    if col.len() == 0 {
        0
    } else {
        count_matching(col.drop_last(), sym) + if col.last() == sym {
            1nat
        } else {
            0nat
        }
    }
}

/// `sym` is the column's majority symbol: it occurs, and every symbol that
/// occurs is either strictly rarer or — on a tied count — no greater in byte
/// value. Ties therefore resolve to the greatest byte value.
pub open spec fn is_majority(col: Seq<u8>, sym: u8) -> bool {
    &&& col.contains(sym)
    &&& forall|t: u8|
        col.contains(t) ==> count_matching(col, t) < count_matching(col, sym)
            || (count_matching(col, t) == count_matching(col, sym) && t <= sym)
}

/// Tie-breaking is deterministic: a column has at most one majority symbol.
/// Two symbols that both satisfy `is_majority` must tie on count, and the
/// tie-break then forces each to be no greater than the other.
pub proof fn lemma_majority_unique(col: Seq<u8>, a: u8, b: u8)
    requires
        is_majority(col, a),
        is_majority(col, b),
    ensures
        a == b,
{
}

pub proof fn lemma_count_le_len(col: Seq<u8>, sym: u8)
    ensures
        count_matching(col, sym) <= col.len(),
    decreases col.len(),
{
    if col.len() > 0 {
        lemma_count_le_len(col.drop_last(), sym);
    }
}

pub proof fn lemma_count_occurrence(col: Seq<u8>, k: int)
    requires
        0 <= k < col.len(),
    ensures
        count_matching(col, col[k]) >= 1,
    decreases col.len(),
{
    if k < col.len() - 1 {
        assert(col.drop_last()[k] == col[k]);
        lemma_count_occurrence(col.drop_last(), k);
    }
}

/// How many rows of column `c` carry the symbol `sym`.
fn count_in_column(m: &AlignmentMatrix, c: usize, sym: u8) -> (count: usize)
    requires
        m.wf(),
        c < m.spec_width(),
    ensures
        count == count_matching(m.column_seq(c as int), sym),
{
    let rows = m.row_count();
    let ghost col = m.column_seq(c as int);
    let mut count: usize = 0;
    let mut r: usize = 0;
    while r < rows
        invariant
            m.wf(),
            c < m.spec_width(),
            rows == m.rows_seq().len(),
            col == m.column_seq(c as int),
            r <= rows,
            count <= r,
            count == count_matching(col.take(r as int), sym),
        decreases rows - r,
    {
        proof {
            assert(col.take(r as int + 1).drop_last() =~= col.take(r as int));
            assert(col.take(r as int + 1).last() == col[r as int]);
        }
        if m.symbol_at(r, c) == sym {
            count += 1;
        }
        r += 1;
    }
    proof {
        assert(col.take(rows as int) =~= col);
    }
    count
}

/// The consensus of every column of the alignment, in column order: per
/// column the majority symbol (greatest byte value on tied counts), the
/// count of rows carrying it, and the conservation level of that count on
/// the 1..=4 scale over the range 1..=row count.
pub fn analyze(m: &AlignmentMatrix) -> (cols: Vec<ConsensusColumn>)
    requires
        m.wf(),
    ensures
        cols@.len() == m.spec_width(),
        forall|c: int|
            0 <= c < cols@.len() ==> is_majority(
                m.column_seq(c),
                (#[trigger] cols@[c]).majority_symbol,
            ),
        forall|c: int|
            0 <= c < cols@.len() ==> (#[trigger] cols@[c]).frequency == count_matching(
                m.column_seq(c),
                cols@[c].majority_symbol,
            ),
        forall|c: int|
            0 <= c < cols@.len() ==> (#[trigger] cols@[c]).level == normalize_spec(
                cols@[c].frequency as int,
                1,
                m.rows_seq().len() as int,
            ),
        forall|c: int| 0 <= c < cols@.len() ==> 1 <= (#[trigger] cols@[c]).level <= 4,
{
    let width = m.width();
    let rows = m.row_count();
    let mut cols: Vec<ConsensusColumn> = Vec::new();
    let mut c: usize = 0;
    while c < width
        invariant
            m.wf(),
            width == m.spec_width(),
            rows == m.rows_seq().len(),
            c <= width,
            cols@.len() == c,
            forall|k: int|
                0 <= k < c ==> is_majority(
                    m.column_seq(k),
                    (#[trigger] cols@[k]).majority_symbol,
                ),
            forall|k: int|
                0 <= k < c ==> (#[trigger] cols@[k]).frequency == count_matching(
                    m.column_seq(k),
                    cols@[k].majority_symbol,
                ),
            forall|k: int|
                0 <= k < c ==> (#[trigger] cols@[k]).level == normalize_spec(
                    cols@[k].frequency as int,
                    1,
                    rows as int,
                ),
            forall|k: int| 0 <= k < c ==> 1 <= (#[trigger] cols@[k]).level <= 4,
        decreases width - c,
    {
        let ghost col = m.column_seq(c as int);
        let mut best_sym: u8 = m.symbol_at(0, c);
        let mut best_count: usize = count_in_column(m, c, best_sym);
        proof {
            assert(col[0] == m.rows_seq()[0][c as int]);
            lemma_count_occurrence(col, 0);
        }
        let mut r: usize = 1;
        while r < rows
            invariant
                m.wf(),
                c < m.spec_width(),
                rows == m.rows_seq().len(),
                col == m.column_seq(c as int),
                1 <= r <= rows,
                col.contains(best_sym),
                best_count == count_matching(col, best_sym),
                best_count >= 1,
                forall|k: int|
                    0 <= k < r ==> count_matching(col, #[trigger] col[k]) < best_count
                        || (count_matching(col, col[k]) == best_count && col[k] <= best_sym),
            decreases rows - r,
        {
            let sym = m.symbol_at(r, c);
            proof {
                assert(col[r as int] == m.rows_seq()[r as int][c as int]);
                lemma_count_occurrence(col, r as int);
            }
            let count = count_in_column(m, c, sym);
            if count > best_count || (count == best_count && sym > best_sym) {
                best_sym = sym;
                best_count = count;
            }
            r += 1;
        }
        proof {
            lemma_count_le_len(col, best_sym);
            assert forall|t: u8| col.contains(t) implies count_matching(col, t) < count_matching(
                col,
                best_sym,
            ) || (count_matching(col, t) == count_matching(col, best_sym) && t <= best_sym) by {
                let k = choose|k: int| 0 <= k < col.len() && col[k] == t;
                assert(count_matching(col, col[k]) < best_count || (count_matching(col, col[k])
                    == best_count && col[k] <= best_sym));
            }
        }
        let level = normalize(best_count, 1, rows);
        cols.push(ConsensusColumn { majority_symbol: best_sym, frequency: best_count, level });
        c += 1;
    }
    cols
}

} // verus!
