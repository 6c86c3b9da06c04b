//! Accounts and their ledgers.
use vstd::prelude::*;

verus! {

/// The sum of a sequence of ledger entries.
pub open spec fn ledger_sum(s: Seq<i64>) -> int
    decreases s.len(),
{
    if s.len() == 0 {
        0
    } else {
        ledger_sum(s.drop_last()) + s.last()
    }
}

/// Appending an entry adds it to the sum.
pub proof fn lemma_sum_push(s: Seq<i64>, x: i64)
    ensures
        ledger_sum(s.push(x)) == ledger_sum(s) + x,
{
    assert(s.push(x).drop_last() =~= s);
}

/// The sum of two sequences joined end to end is the sum of their sums.
proof fn lemma_sum_concat(a: Seq<i64>, b: Seq<i64>)
    ensures
        ledger_sum(a + b) == ledger_sum(a) + ledger_sum(b),
    decreases b.len(),
{
    if b.len() == 0 {
        assert(a + b =~= a);
    } else {
        lemma_sum_concat(a, b.drop_last());
        assert((a + b).drop_last() =~= a + b.drop_last());
    }
}

/// Taking one entry out of a sequence takes it out of the sum.
proof fn lemma_sum_remove(s: Seq<i64>, i: int)
    requires
        0 <= i < s.len(),
    ensures
        ledger_sum(s) == ledger_sum(s.remove(i)) + s[i],
{
    let front = s.subrange(0, i);
    let back = s.subrange(i + 1, s.len() as int);
    let single = seq![s[i]];
    assert(s =~= (front + single) + back);
    assert(s.remove(i) =~= front + back);
    assert(single.drop_last() =~= Seq::<i64>::empty());
    assert(ledger_sum(Seq::<i64>::empty()) == 0);
    assert(ledger_sum(single) == s[i]);
    lemma_sum_concat(front + single, back);
    lemma_sum_concat(front, single);
    lemma_sum_concat(front, back);
}

/// The sum of a ledger does not depend on the order of its entries: two
/// sequences that hold the same entries, each as often, have the same sum.
pub proof fn lemma_sum_order_independent(s: Seq<i64>, t: Seq<i64>)
    requires
        s.to_multiset() == t.to_multiset(),
    ensures
        ledger_sum(s) == ledger_sum(t),
    decreases s.len(),
{
    broadcast use vstd::seq_lib::group_to_multiset_ensures;

    if s.len() == 0 {
        assert(t.len() == t.to_multiset().len());
    } else {
        let x = s.last();
        let rest = s.drop_last();
        assert(s =~= rest.push(x));
        assert(s.to_multiset().count(x) > 0);
        assert(t.contains(x));
        let j = choose|j: int| 0 <= j < t.len() && t[j] == x;
        assert(t.remove(j).to_multiset() == rest.to_multiset());
        lemma_sum_order_independent(rest, t.remove(j));
        lemma_sum_remove(t, j);
    }
}

/// An account: the record of its transactions, credits positive and debits
/// negative, in the order they were made.
pub struct Account {
    pub ledger: Vec<i64>,
}

impl Account {
    /// The balance: the sum of every entry of the ledger.
    pub open spec fn balance(&self) -> int {
        ledger_sum(self.ledger@)
    }

    /// Sums the ledger. An empty ledger has balance zero.
    pub fn current_balance(&self) -> (r: i128)
        ensures
            r == self.balance(),
    {
        let mut total: i128 = 0;
        let mut i: usize = 0;
        while i < self.ledger.len()
            invariant
                i <= self.ledger@.len(),
                total == ledger_sum(self.ledger@.take(i as int)),
                -(i as int) * 0x8000_0000_0000_0000 <= total <= (i as int) * 0x8000_0000_0000_0000,
            decreases self.ledger@.len() - i,
        {
            assert(self.ledger@.take(i as int) =~= self.ledger@.take(i + 1).drop_last());
            let entry = self.ledger[i];
            assert((i as int + 1) * 0x8000_0000_0000_0000 <= 0x8000_0000_0000_0000 * 0x1_0000_0000_0000_0000) by (nonlinear_arith)
                requires i < usize::MAX;
            total = total + entry as i128;
            i = i + 1;
        }
        assert(self.ledger@.take(i as int) =~= self.ledger@);
        total
    }
}

/// Two accounts whose ledgers hold the same entries, each as often, in any
/// order, have the same balance.
pub proof fn lemma_balance_order_independent(a: Account, b: Account)
    requires
        a.ledger@.to_multiset() == b.ledger@.to_multiset(),
    ensures
        a.balance() == b.balance(),
{
    lemma_sum_order_independent(a.ledger@, b.ledger@);
}

} // verus!
