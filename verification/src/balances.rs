//! The balance table: one row per holder, each with a non-negative amount.

use vstd::prelude::*;
use crate::address::Address;

verus! {

/// One row of the balance table.
#[derive(Clone, Copy, Debug, PartialEq, Eq, Structural)]
pub struct Holding {
    pub holder: Address,
    pub amount: i128,
}

/// Whether some row of `rows` belongs to `who`.
pub open spec fn holds(rows: Seq<Holding>, who: Address) -> bool {
    exists|i: int| 0 <= i < rows.len() && #[trigger] rows[i].holder == who
}

/// The amount that `rows` records for `who`; zero where `who` has no row.
pub open spec fn balance_in(rows: Seq<Holding>, who: Address) -> int {
    if holds(rows, who) {
        rows[choose|i: int| 0 <= i < rows.len() && #[trigger] rows[i].holder == who].amount as int
    } else {
        0
    }
}

/// The sum of all amounts in `rows`.
pub open spec fn total_of(rows: Seq<Holding>) -> int
    decreases rows.len(),
{
    if rows.len() == 0 {
        0
    } else {
        total_of(rows.drop_last()) + rows.last().amount
    }
}

/// No holder has two rows, and no amount is negative.
pub open spec fn table_ok(rows: Seq<Holding>) -> bool {
    &&& forall|i: int, j: int|
        0 <= i < j < rows.len() ==> #[trigger] rows[i].holder != #[trigger] rows[j].holder
    &&& forall|i: int| 0 <= i < rows.len() ==> #[trigger] rows[i].amount >= 0
}

/// In a table without repeated holders, the row of a holder gives its balance.
pub proof fn lemma_balance_at(rows: Seq<Holding>, i: int)
    requires
        table_ok(rows),
        0 <= i < rows.len(),
    ensures
        holds(rows, rows[i].holder),
        balance_in(rows, rows[i].holder) == rows[i].amount,
{
}

/// Appending a row adds its amount to the total.
pub proof fn lemma_total_push(rows: Seq<Holding>, row: Holding)
    ensures
        total_of(rows.push(row)) == total_of(rows) + row.amount,
{
    assert(rows.push(row).drop_last() =~= rows);
}

/// Rewriting one row changes the total by the difference of the amounts.
pub proof fn lemma_total_update(rows: Seq<Holding>, i: int, row: Holding)
    requires
        0 <= i < rows.len(),
    ensures
        total_of(rows.update(i, row)) == total_of(rows) - rows[i].amount + row.amount,
    decreases rows.len(),
{
    let after = rows.update(i, row);
    if i == rows.len() - 1 {
        assert(after.drop_last() =~= rows.drop_last());
    } else {
        lemma_total_update(rows.drop_last(), i, row);
        assert(after.drop_last() =~= rows.drop_last().update(i, row));
    }
}

/// With no negative amount, the total is not negative.
pub proof fn lemma_total_nonneg(rows: Seq<Holding>)
    requires
        forall|i: int| 0 <= i < rows.len() ==> #[trigger] rows[i].amount >= 0,
    ensures
        total_of(rows) >= 0,
    decreases rows.len(),
{
    if rows.len() > 0 {
        lemma_total_nonneg(rows.drop_last());
    }
}

/// With no negative amount, no row exceeds the total.
pub proof fn lemma_row_within_total(rows: Seq<Holding>, i: int)
    requires
        forall|k: int| 0 <= k < rows.len() ==> #[trigger] rows[k].amount >= 0,
        0 <= i < rows.len(),
    ensures
        rows[i].amount <= total_of(rows),
    decreases rows.len(),
{
    if i == rows.len() - 1 {
        lemma_total_nonneg(rows.drop_last());
    } else {
        lemma_row_within_total(rows.drop_last(), i);
    }
}

/// With no negative amount, the total of the first `k` rows does not exceed
/// the total of all rows.
pub proof fn lemma_prefix_total(rows: Seq<Holding>, k: int)
    requires
        forall|i: int| 0 <= i < rows.len() ==> #[trigger] rows[i].amount >= 0,
        0 <= k <= rows.len(),
    ensures
        total_of(rows.take(k)) <= total_of(rows),
    decreases rows.len(),
{
    if k == rows.len() {
        assert(rows.take(k) =~= rows);
    } else {
        lemma_prefix_total(rows.drop_last(), k);
        assert(rows.drop_last().take(k) =~= rows.take(k));
    }
}

/// The balance table.
#[derive(Debug)]
pub struct Balances {
    rows: Vec<Holding>,
}

impl View for Balances {
    type V = Seq<Holding>;

    closed spec fn view(&self) -> Seq<Holding> {
        self.rows@
    }
}

impl Clone for Balances {
    fn clone(&self) -> (t: Self)
        ensures
            t@ == self@,
    {
        let mut rows: Vec<Holding> = Vec::new();
        let mut i: usize = 0;
        while i < self.rows.len()
            invariant
                i <= self.rows.len(),
                rows@ == self.rows@.take(i as int),
            decreases self.rows.len() - i,
        {
            rows.push(self.rows[i]);
            i += 1;
        }
        Balances { rows }
    }
}

impl Balances {
    /// The rows are those of a table: see [`table_ok`].
    pub open spec fn wf(&self) -> bool {
        table_ok(self@)
    }

    /// The amount recorded for `who`.
    pub open spec fn balance(&self, who: Address) -> int {
        balance_in(self@, who)
    }

    /// The sum of all recorded amounts.
    pub open spec fn total(&self) -> int {
        total_of(self@)
    }

    /// A table without rows.
    pub fn new() -> (t: Balances)
        ensures
            t@ == Seq::<Holding>::empty(),
            t.wf(),
    {
        Balances { rows: Vec::new() }
    }

    /// The table with the rows `rows`, if they are those of a table.
    pub fn from_rows(rows: Vec<Holding>) -> (r: Option<Balances>)
        ensures
            match r {
                Some(t) => t@ == rows@ && t.wf(),
                None => !table_ok(rows@),
            },
    {
        let n: usize = rows.len();
        let mut i: usize = 0;
        while i < n
            invariant
                i <= n,
                n == rows.len(),
                forall|a: int, b: int|
                    0 <= a < b < i ==> #[trigger] rows@[a].holder != #[trigger] rows@[b].holder,
                forall|a: int| 0 <= a < i ==> #[trigger] rows@[a].amount >= 0,
            decreases n - i,
        {
            if rows[i].amount < 0 {
                return None;
            }
            let mut j: usize = 0;
            while j < i
                invariant
                    j <= i < n,
                    n == rows.len(),
                    forall|a: int|
                        0 <= a < j ==> #[trigger] rows@[a].holder != rows@[i as int].holder,
                decreases i - j,
            {
                if rows[j].holder == rows[i].holder {
                    return None;
                }
                j += 1;
            }
            i += 1;
        }
        Some(Balances { rows })
    }

    /// The rows, in the order in which their holders first appeared.
    pub fn rows(&self) -> (rows: &Vec<Holding>)
        ensures
            rows@ == self@,
    {
        &self.rows
    }

    /// The sum of all amounts, if it is a value of `i128`.
    pub fn sum(&self) -> (r: Option<i128>)
        requires
            self.wf(),
        ensures
            match r {
                Some(total) => total == self.total(),
                None => self.total() > i128::MAX,
            },
    {
        let n: usize = self.rows.len();
        let mut acc: i128 = 0;
        let mut i: usize = 0;
        while i < n
            invariant
                i <= n,
                n == self.rows.len(),
                self.wf(),
                acc == total_of(self@.take(i as int)),
                acc >= 0,
            decreases n - i,
        {
            proof {
                assert(self@.take(i + 1).drop_last() =~= self@.take(i as int));
                lemma_prefix_total(self@, i + 1);
            }
            acc = match acc.checked_add(self.rows[i].amount) {
                Some(v) => v,
                None => {
                    return None;
                },
            };
            i += 1;
        }
        proof {
            assert(self@.take(n as int) =~= self@);
        }
        Some(acc)
    }

    /// The index of the row of `who`, if there is one.
    fn find(&self, who: Address) -> (r: Option<usize>)
        ensures
            match r {
                Some(i) => i < self@.len() && self@[i as int].holder == who,
                None => !holds(self@, who),
            },
    {
        let mut i: usize = 0;
        while i < self.rows.len()
            invariant
                i <= self.rows.len(),
                forall|k: int| 0 <= k < i ==> self.rows@[k].holder != who,
            decreases self.rows.len() - i,
        {
            if self.rows[i].holder == who {
                return Some(i);
            }
            i += 1;
        }
        None
    }

    /// The amount recorded for `who`, zero where it has no row.
    pub fn get(&self, who: Address) -> (amount: i128)
        requires
            self.wf(),
        ensures
            amount == self.balance(who),
            0 <= amount <= self.total(),
    {
        match self.find(who) {
            Some(i) => {
                proof {
                    lemma_balance_at(self@, i as int);
                    lemma_row_within_total(self@, i as int);
                }
                self.rows[i].amount
            },
            None => {
                proof {
                    lemma_total_nonneg(self@);
                }
                0
            },
        }
    }

    /// Records `amount` for `who`, in its row or in a new last row.
    pub fn set(&mut self, who: Address, amount: i128)
        requires
            old(self).wf(),
            amount >= 0,
        ensures
            final(self).wf(),
            forall|w: Address|
                #[trigger] balance_in(final(self)@, w) == if w == who {
                    amount as int
                } else {
                    balance_in(old(self)@, w)
                },
            total_of(final(self)@) == total_of(old(self)@) - balance_in(old(self)@, who) + amount,
    {
        let row = Holding { holder: who, amount };
        match self.find(who) {
            Some(i) => {
                proof {
                    lemma_balance_at(self@, i as int);
                    lemma_total_update(self@, i as int, row);
                }
                self.rows[i] = row;
                proof {
                    let before = old(self)@;
                    let after = self@;
                    assert forall|w: Address| #[trigger]
                        balance_in(after, w) == if w == who {
                            amount as int
                        } else {
                            balance_in(before, w)
                        } by {
                        lemma_same_holders(before, after, w);
                        if w == who {
                            lemma_balance_at(after, i as int);
                        }
                    }
                }
            },
            None => {
                proof {
                    lemma_total_push(self@, row);
                }
                self.rows.push(row);
                proof {
                    let before = old(self)@;
                    let after = self@;
                    assert forall|w: Address| #[trigger]
                        balance_in(after, w) == if w == who {
                            amount as int
                        } else {
                            balance_in(before, w)
                        } by {
                        if w == who {
                            lemma_balance_at(after, before.len() as int);
                        } else {
                            lemma_prefix_balance(before, row, w);
                        }
                    }
                }
            },
        }
    }
}

/// Two tables with the same holders row by row give a holder the same
/// balance wherever its rows carry the same amount.
proof fn lemma_same_holders(before: Seq<Holding>, after: Seq<Holding>, who: Address)
    requires
        table_ok(before),
        table_ok(after),
        before.len() == after.len(),
        forall|k: int| 0 <= k < before.len() ==> #[trigger] before[k].holder == after[k].holder,
    ensures
        holds(before, who) == holds(after, who),
        forall|k: int|
            0 <= k < before.len() && #[trigger] before[k].holder == who && before[k].amount
                == after[k].amount ==> balance_in(before, who) == balance_in(after, who),
{
    if holds(before, who) {
        let k = choose|k: int| 0 <= k < before.len() && #[trigger] before[k].holder == who;
        lemma_balance_at(before, k);
        lemma_balance_at(after, k);
    }
    if holds(after, who) {
        let k = choose|k: int| 0 <= k < after.len() && #[trigger] after[k].holder == who;
        lemma_balance_at(before, k);
        lemma_balance_at(after, k);
    }
    assert forall|k: int|
        0 <= k < before.len() && #[trigger] before[k].holder == who && before[k].amount
            == after[k].amount implies balance_in(before, who) == balance_in(after, who) by {
        lemma_balance_at(before, k);
        lemma_balance_at(after, k);
    }
}

/// A new last row leaves the balance of every other holder as it was.
proof fn lemma_prefix_balance(rows: Seq<Holding>, row: Holding, who: Address)
    requires
        table_ok(rows.push(row)),
        row.holder != who,
    ensures
        balance_in(rows.push(row), who) == balance_in(rows, who),
{
    let after = rows.push(row);
    assert(table_ok(rows)) by {
        assert forall|i: int, j: int| 0 <= i < j < rows.len() implies #[trigger] rows[i].holder
            != #[trigger] rows[j].holder by {
            assert(after[i].holder != after[j].holder);
        }
        assert forall|i: int| 0 <= i < rows.len() implies #[trigger] rows[i].amount >= 0 by {
            assert(after[i].amount >= 0);
        }
    }
    if holds(rows, who) {
        let k = choose|k: int| 0 <= k < rows.len() && #[trigger] rows[k].holder == who;
        lemma_balance_at(rows, k);
        lemma_balance_at(after, k);
    } else if holds(after, who) {
        let k = choose|k: int| 0 <= k < after.len() && #[trigger] after[k].holder == who;
    }
}

} // verus!
