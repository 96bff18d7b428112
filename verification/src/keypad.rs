//! Decoding of a 4x4 matrix keypad scan. The application drives one row
//! high at a time, waits the settle delay, samples the four column lines and
//! hands the sixteen sampled bits here; the decision which symbol was
//! pressed is a pure function of those bits.
//!
//! Rows are considered in fixed order and, within a row, a later column
//! overrides an earlier one: when several keys of one row read high in the
//! same cycle, the highest-index column wins. This is a defined tie-break,
//! not a fault, because the four keys of a row share one scan line.

use vstd::prelude::*;

use crate::symbol::Symbol;

verus! {

/// The key engraved at the crossing of `row` and `col` (both zero-based).
pub open spec fn key_at(row: int, col: int) -> Symbol {
    if row == 0 {
        if col == 0 {
            Symbol::Digit1
        } else if col == 1 {
            Symbol::Digit2
        } else if col == 2 {
            Symbol::Digit3
        } else {
            Symbol::KeyA
        }
    } else if row == 1 {
        if col == 0 {
            Symbol::Digit4
        } else if col == 1 {
            Symbol::Digit5
        } else if col == 2 {
            Symbol::Digit6
        } else {
            Symbol::KeyB
        }
    } else if row == 2 {
        if col == 0 {
            Symbol::Digit7
        } else if col == 1 {
            Symbol::Digit8
        } else if col == 2 {
            Symbol::Digit9
        } else {
            Symbol::KeyC
        }
    } else {
        if col == 0 {
            Symbol::Star
        } else if col == 1 {
            Symbol::Digit0
        } else if col == 2 {
            Symbol::Hash
        } else {
            Symbol::KeyD
        }
    }
}

/// What one row contributes: the key of its highest-index high column, or
/// `fallback` (the decision of the earlier rows) when no column reads high.
pub open spec fn row_decision(cols: [bool; 4], row: int, fallback: Symbol) -> Symbol {
    if cols[3] {
        key_at(row, 3)
    } else if cols[2] {
        key_at(row, 2)
    } else if cols[1] {
        key_at(row, 1)
    } else if cols[0] {
        key_at(row, 0)
    } else {
        fallback
    }
}

/// The symbol a whole scan reports: rows are folded in order, so a key in a
/// later row overrides one in an earlier row, and an all-low matrix reports
/// [`Symbol::NoKey`].
pub open spec fn scan_decision(samples: [[bool; 4]; 4]) -> Symbol {
    row_decision(
        samples[3],
        3,
        row_decision(samples[2], 2, row_decision(samples[1], 1, row_decision(samples[0], 0, Symbol::NoKey))),
    )
}

/// The key at a crossing, by value.
pub fn key_of(row: usize, col: usize) -> (s: Symbol)
    requires
        row < 4,
        col < 4,
    ensures
        s == key_at(row as int, col as int),
{
    match (row, col) {
        (0, 0) => Symbol::Digit1,
        (0, 1) => Symbol::Digit2,
        (0, 2) => Symbol::Digit3,
        (0, 3) => Symbol::KeyA,
        (1, 0) => Symbol::Digit4,
        (1, 1) => Symbol::Digit5,
        (1, 2) => Symbol::Digit6,
        (1, 3) => Symbol::KeyB,
        (2, 0) => Symbol::Digit7,
        (2, 1) => Symbol::Digit8,
        (2, 2) => Symbol::Digit9,
        (2, 3) => Symbol::KeyC,
        (3, 0) => Symbol::Star,
        (3, 1) => Symbol::Digit0,
        (3, 2) => Symbol::Hash,
        (_, _) => Symbol::KeyD,
    }
}

/// Folds the four sampled columns of one row into the running decision.
fn scan_row(cols: &[bool; 4], row: usize, fallback: Symbol) -> (s: Symbol)
    requires
        row < 4,
    ensures
        s == row_decision(*cols, row as int, fallback),
{
    let mut key = fallback;
    if cols[0] {
        key = key_of(row, 0);
    }
    if cols[1] {
        key = key_of(row, 1);
    }
    if cols[2] {
        key = key_of(row, 2);
    }
    if cols[3] {
        key = key_of(row, 3);
    }
    key
}

/// The at-most-one symbol a scan cycle reports, from the sampled matrix:
/// `samples[r][c]` is whether column `c` read high while row `r` was driven.
pub fn interpret_scan(samples: &[[bool; 4]; 4]) -> (s: Symbol)
    ensures
        s == scan_decision(*samples),
{
    let mut key = Symbol::NoKey;
    key = scan_row(&samples[0], 0, key);
    key = scan_row(&samples[1], 1, key);
    key = scan_row(&samples[2], 2, key);
    key = scan_row(&samples[3], 3, key);
    key
}

/// Within one row, when columns with higher and lower index both read high,
/// the reported key is the one of the highest-index high column.
pub proof fn lemma_column_tiebreak(cols: [bool; 4], row: int, fallback: Symbol)
    requires
        0 <= row < 4,
        cols[1],
        cols[3],
    ensures
        row_decision(cols, row, fallback) == key_at(row, 3),
{
}

/// The whole-scan form of the tie-break: when columns 2 and 4 (indices 1
/// and 3) both read high in row `r` and no later row has a high column, the
/// scan reports the key of row `r`, column 4.
pub proof fn lemma_scan_column_tiebreak(samples: [[bool; 4]; 4], r: int)
    requires
        0 <= r < 4,
        samples[r][1],
        samples[r][3],
        forall|r2: int, c: int| r < r2 < 4 && 0 <= c < 4 ==> !samples[r2][c],
    ensures
        scan_decision(samples) == key_at(r, 3),
{
    if r < 3 {
        assert(!samples[3][0] && !samples[3][1] && !samples[3][2] && !samples[3][3]);
    }
    if r < 2 {
        assert(!samples[2][0] && !samples[2][1] && !samples[2][2] && !samples[2][3]);
    }
    if r < 1 {
        assert(!samples[1][0] && !samples[1][1] && !samples[1][2] && !samples[1][3]);
    }
}

/// A scan in which no column ever reads high reports no key at all.
pub proof fn lemma_quiet_scan(samples: [[bool; 4]; 4])
    requires
        forall|r: int, c: int| 0 <= r < 4 && 0 <= c < 4 ==> !samples[r][c],
    ensures
        scan_decision(samples) == Symbol::NoKey,
{
    assert(!samples[0][0] && !samples[0][1] && !samples[0][2] && !samples[0][3]);
    assert(!samples[1][0] && !samples[1][1] && !samples[1][2] && !samples[1][3]);
    assert(!samples[2][0] && !samples[2][1] && !samples[2][2] && !samples[2][3]);
    assert(!samples[3][0] && !samples[3][1] && !samples[3][2] && !samples[3][3]);
}

} // verus!
