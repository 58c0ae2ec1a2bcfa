//! How many cells and rows the circuit's columns take up.

use vstd::prelude::*;

verus! {

/// Sum of the entries of `rows`.
pub open spec fn sum(rows: Seq<usize>) -> nat
    decreases rows.len(),
{
    if rows.len() == 0 {
        0
    } else {
        sum(rows.drop_last()) + rows.last() as nat
    }
}

/// `m` is the largest entry of `rows`: it occurs there and none exceeds it.
pub open spec fn is_max(rows: Seq<usize>, m: usize) -> bool {
    &&& exists|i: int| 0 <= i < rows.len() && rows[i] == m
    &&& forall|i: int| 0 <= i < rows.len() ==> rows[i] <= m
}

/// Least number of rows that hold `cells` cells in `columns` columns.
pub open spec fn rows_needed(cells: nat, columns: nat) -> nat
    recommends
        columns > 0 || cells == 0,
{
    if cells == 0 {
        0
    } else {
        ((cells - 1) / columns as int + 1) as nat
    }
}

/// The sum of a sequence is the sum of any of its prefixes plus the sum of the
/// rest.
pub proof fn lemma_sum_split(rows: Seq<usize>, k: int)
    requires
        0 <= k <= rows.len(),
    ensures
        sum(rows) == sum(rows.take(k)) + sum(rows.skip(k)),
    decreases rows.len(),
{
    if k == rows.len() {
        assert(rows.take(k) =~= rows);
        assert(rows.skip(k) =~= Seq::<usize>::empty());
    } else {
        let front = rows.drop_last();
        lemma_sum_split(front, k);
        assert(front.take(k) =~= rows.take(k));
        assert(rows.skip(k).drop_last() =~= front.skip(k));
        assert(rows.skip(k).last() == rows.last());
    }
}

/// A sequence has at most one largest entry.
pub proof fn lemma_max_is_unique(rows: Seq<usize>, m1: usize, m2: usize)
    requires
        is_max(rows, m1),
        is_max(rows, m2),
    ensures
        m1 == m2,
{
}

/// The fullest column holds no more cells than all the columns together.
pub proof fn lemma_max_within_total(rows: Seq<usize>, m: usize)
    requires
        is_max(rows, m),
    ensures
        m <= sum(rows),
{
    let at = choose|i: int| 0 <= i < rows.len() && rows[i] == m;
    lemma_sum_split(rows, at + 1);
    assert(rows.take(at + 1).last() == m);
}

/// `rows_needed` is the least number of rows that is enough.
pub proof fn lemma_rows_needed_is_least(cells: nat, columns: nat, rows: nat)
    requires
        columns > 0,
    ensures
        rows * columns >= cells <==> rows >= rows_needed(cells, columns),
{
    let need = rows_needed(cells, columns);
    if cells > 0 {
        let q = (cells - 1) / columns as int;
        let r = (cells - 1) % columns as int;
        assert(cells - 1 == q * columns + r && 0 <= r < columns) by (nonlinear_arith)
            requires
                q == (cells - 1) / columns as int,
                r == (cells - 1) % columns as int,
                columns > 0,
                cells >= 1,
        ;
        assert(need == q + 1);
        if rows >= need {
            assert(rows * columns >= (q + 1) * columns) by (nonlinear_arith)
                requires
                    rows >= q + 1,
                    columns > 0,
            ;
            assert((q + 1) * columns == q * columns + columns) by (nonlinear_arith);
        } else {
            assert(rows * columns <= q * columns) by (nonlinear_arith)
                requires
                    rows <= q,
                    columns > 0,
            ;
        }
    } else {
        assert(rows * columns >= 0) by (nonlinear_arith)
            requires
                columns > 0,
        ;
    }
}

/// Total number of cells in columns that use `rows[i]` rows each, or `None`
/// when the total does not fit in a `usize`.
pub fn total_cells(rows: &Vec<usize>) -> (total: Option<usize>)
    ensures
        match total {
            Some(t) => t == sum(rows@),
            None => sum(rows@) > usize::MAX,
        },
{
    let mut acc: usize = 0;
    let mut i: usize = 0;
    while i < rows.len()
        invariant
            i <= rows.len(),
            acc == sum(rows@.take(i as int)),
        decreases rows.len() - i,
    {
        proof {
            assert(rows@.take(i + 1).drop_last() =~= rows@.take(i as int));
            assert(rows@.take(i + 1).last() == rows@[i as int]);
        }
        match acc.checked_add(rows[i]) {
            Some(next) => {
                acc = next;
            },
            None => {
                proof {
                    lemma_sum_split(rows@, i + 1);
                }
                return None;
            },
        }
        i += 1;
    }
    proof {
        assert(rows@.take(i as int) =~= rows@);
    }
    Some(acc)
}

/// The number of rows of the fullest column, or `None` when there is no column.
pub fn max_rows(rows: &Vec<usize>) -> (max: Option<usize>)
    ensures
        match max {
            Some(m) => is_max(rows@, m),
            None => rows@.len() == 0,
        },
{
    if rows.len() == 0 {
        return None;
    }
    let mut best: usize = rows[0];
    let mut i: usize = 1;
    assert(rows@.take(1)[0] == best);
    while i < rows.len()
        invariant
            1 <= i <= rows.len(),
            is_max(rows@.take(i as int), best),
        decreases rows.len() - i,
    {
        let ghost seen = rows@.take(i as int);
        let ghost grown = rows@.take(i + 1);
        let ghost at = choose|j: int| 0 <= j < seen.len() && seen[j] == best;
        let ghost before = best;
        if rows[i] > best {
            best = rows[i];
        }
        assert(grown[at] == before && grown[i as int] == rows@[i as int]);
        assert forall|j: int| 0 <= j < grown.len() implies grown[j] <= best by {
            if j < i {
                assert(seen[j] <= before);
            }
        }
        i += 1;
    }
    proof {
        assert(rows@.take(i as int) =~= rows@);
    }
    Some(best)
}

/// Rows of the fullest of `columns` columns when `cells` cells are laid out
/// row by row, each row filled from the first column on; `None` when there are
/// cells and no column to put them in.
pub fn fixed_rows(cells: usize, columns: usize) -> (rows: Option<usize>)
    ensures
        match rows {
            Some(r) => r == rows_needed(cells as nat, columns as nat) && (columns > 0 || cells == 0),
            None => columns == 0 && cells > 0,
        },
{
    if cells == 0 {
        Some(0)
    } else if columns == 0 {
        None
    } else {
        Some((cells - 1) / columns + 1)
    }
}

} // verus!
