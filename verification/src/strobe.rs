//! Strobe scheduling for a multiplexed sensor matrix.
//!
//! Exactly one column of the matrix (the strobe) is energised at a time.
//! The scheduler keeps the index of that column and moves it forward by
//! one on every scan tick, wrapping to column 0 after the last column.
//! Reaching column 0 is the signal that one full cycle of the matrix has
//! been scanned.
use vstd::prelude::*;
use vstd::arithmetic::div_mod::lemma_fundamental_div_mod;
use vstd::arithmetic::div_mod::lemma_fundamental_div_mod_converse;
use vstd::arithmetic::div_mod::lemma_small_mod;
use vstd::arithmetic::mul::lemma_mul_is_distributive_add_other_way;

verus! {

/// The column that is strobed after `current` in a matrix of `columns` columns.
pub open spec fn next_strobe(columns: nat, current: nat) -> nat {
    if current + 1 >= columns {
        0
    } else {
        current + 1
    }
}

/// The column that is strobed after `n` advances that begin at `start`.
pub open spec fn strobe_after(columns: nat, start: nat, n: nat) -> nat
    decreases n,
{
    if n == 0 {
        start
    } else {
        next_strobe(columns, strobe_after(columns, start, (n - 1) as nat))
    }
}

/// Position of the active column of a matrix.
pub struct StrobeScheduler {
    columns: usize,
    current: usize,
}

impl StrobeScheduler {
    /// Number of columns of the matrix.
    pub closed spec fn columns(&self) -> nat {
        self.columns as nat
    }

    /// Index of the column that is strobed now.
    pub closed spec fn current(&self) -> nat {
        self.current as nat
    }

    /// The strobe index always names a column of the matrix.
    pub open spec fn wf(&self) -> bool {
        0 < self.columns() && self.current() < self.columns()
    }

    /// A scheduler for `columns` columns, positioned on the last column so
    /// that the first advance strobes column 0.
    pub fn new(columns: usize) -> (s: Self)
        requires
            columns > 0,
        ensures
            s.wf(),
            s.columns() == columns,
            s.current() == columns - 1,
    {
        StrobeScheduler { columns, current: columns - 1 }
    }

    /// Number of columns of the matrix.
    pub fn column_count(&self) -> (n: usize)
        ensures
            n == self.columns(),
    {
        self.columns
    }

    /// Index of the column that is strobed now.
    pub fn strobe(&self) -> (index: usize)
        ensures
            index == self.current(),
    {
        self.current
    }

    /// Moves the strobe to the next column and returns its index. The
    /// result is 0 exactly when a full cycle of the matrix has completed.
    pub fn advance(&mut self) -> (index: usize)
        requires
            old(self).wf(),
        ensures
            final(self).wf(),
            final(self).columns() == old(self).columns(),
            final(self).current() == next_strobe(old(self).columns(), old(self).current()),
            index == final(self).current(),
    {
        if self.current >= self.columns - 1 {
            self.current = 0;
        } else {
            self.current = self.current + 1;
        }
        self.current
    }

    /// Puts the strobe back on the last column, so that the next advance
    /// strobes column 0.
    pub fn clear(&mut self)
        requires
            old(self).wf(),
        ensures
            final(self).wf(),
            final(self).columns() == old(self).columns(),
            final(self).current() == old(self).columns() - 1,
    {
        self.current = self.columns - 1;
    }
}

/// Whether the strobe index returned by an advance marks a completed cycle.
pub fn cycle_complete(index: usize) -> (done: bool)
    ensures
        done == (index == 0),
{
    index == 0
}

/// Advancing `n` times from `start` reaches column `(start + n) % columns`.
pub proof fn lemma_strobe_after_is_modular(columns: nat, start: nat, n: nat)
    requires
        columns > 0,
        start < columns,
    ensures
        strobe_after(columns, start, n) == (start + n) as int % (columns as int),
        strobe_after(columns, start, n) < columns,
    decreases n,
{
    let c = columns as int;
    if n == 0 {
        lemma_small_mod(start, columns);
    } else {
        lemma_strobe_after_is_modular(columns, start, (n - 1) as nat);
        let x = start + n - 1;
        let m = x % c;
        let q = x / c;
        lemma_fundamental_div_mod(x, c);
        assert(x == c * q + m);
        assert(c * q == q * c) by (nonlinear_arith);
        if m + 1 < c {
            lemma_fundamental_div_mod_converse(x + 1, c, q, m + 1);
        } else {
            lemma_mul_is_distributive_add_other_way(c, q, 1);
            assert((q + 1) * c == q * c + c);
            lemma_fundamental_div_mod_converse(x + 1, c, q + 1, 0);
        }
    }
}

/// The strobe cycles through the columns: it never leaves `0..columns`,
/// comes back to where it started after `columns` advances, and within any
/// `columns` consecutive advances it is 0 after exactly one of them.
pub proof fn lemma_strobe_cycle(columns: nat, start: nat)
    requires
        columns > 0,
        start < columns,
    ensures
        forall|n: nat| #[trigger] strobe_after(columns, start, n) < columns,
        strobe_after(columns, start, columns) == start,
        forall|k: nat|
            1 <= k <= columns ==> (#[trigger] strobe_after(columns, start, k) == 0 <==> k
                == columns - start),
{
    let c = columns as int;
    assert forall|n: nat| #[trigger] strobe_after(columns, start, n) < columns by {
        lemma_strobe_after_is_modular(columns, start, n);
    }
    assert forall|k: nat| 1 <= k <= columns implies (#[trigger] strobe_after(columns, start, k) == 0
        <==> k == columns - start) by {
        lemma_strobe_after_is_modular(columns, start, k);
        if start + k < columns {
            lemma_small_mod((start + k) as nat, columns);
        } else {
            assert(1 * c == c) by (nonlinear_arith);
            lemma_fundamental_div_mod_converse((start + k) as int, c, 1, start + k - c);
        }
    }
    assert(strobe_after(columns, start, columns) == start) by {
        lemma_strobe_after_is_modular(columns, start, columns);
        assert(1 * c == c) by (nonlinear_arith);
        lemma_fundamental_div_mod_converse((start + columns) as int, c, 1, start as int);
    }
}

} // verus!
