//! Payouts: how a settled match's pooled stake is redistributed. The set of
//! payouts computed for a match always sums to the match's total pot; no
//! value is created or destroyed, and a penalty never silently vanishes — it
//! appears as a payout of its own.

use vstd::prelude::*;

verus! {

/// Why a party receives a payout.
#[derive(Clone, Copy, PartialEq, Eq, Structural, Debug)]
pub enum PayoutReason {
    Winner,
    Tie,
    Forfeit,
    Penalty,
    Refund,
}

/// A single transfer owed out of the match vault.
#[derive(Clone, Copy, PartialEq, Eq, Structural, Debug)]
pub struct Payout {
    pub player: u64,
    pub amount: u64,
    pub reason: PayoutReason,
}

/// The total amount of a payout list.
pub open spec fn sum_amounts(s: Seq<Payout>) -> int
    decreases s.len(),
{
    if s.len() == 0 {
        0
    } else {
        sum_amounts(s.drop_last()) + s.last().amount
    }
}

/// Unfolds `sum_amounts` for payout lists of up to three entries.
pub proof fn lemma_sum_amounts_small(s: Seq<Payout>)
    requires
        s.len() <= 3,
    ensures
        s.len() == 0 ==> sum_amounts(s) == 0,
        s.len() == 1 ==> sum_amounts(s) == s[0].amount,
        s.len() == 2 ==> sum_amounts(s) == s[0].amount + s[1].amount,
        s.len() == 3 ==> sum_amounts(s) == s[0].amount + s[1].amount + s[2].amount,
{
    reveal_with_fuel(sum_amounts, 4);
    if s.len() == 1 {
        assert(s.drop_last() =~= Seq::<Payout>::empty());
    } else if s.len() == 2 {
        assert(s.drop_last().drop_last() =~= Seq::<Payout>::empty());
        assert(sum_amounts(s) == sum_amounts(s.drop_last()) + s[1].amount);
    } else if s.len() == 3 {
        assert(s.drop_last().drop_last().drop_last() =~= Seq::<Payout>::empty());
        assert(sum_amounts(s) == sum_amounts(s.drop_last()) + s[2].amount);
        assert(sum_amounts(s.drop_last()) == sum_amounts(s.drop_last().drop_last()) + s[1].amount);
    }
}

} // verus!
