//! The sum of all balances, and how it moves when one balance changes.

use crate::io::ActorId;
use vstd::prelude::*;

verus! {

/// The balance that `m` gives `who`: an absent holder has nothing.
pub open spec fn balance_in(m: Map<ActorId, u128>, who: ActorId) -> u128 {
    if m.dom().contains(who) {
        m[who]
    } else {
        0
    }
}

/// The sum of every balance in `m`.
pub open spec fn total(m: Map<ActorId, u128>) -> nat
    decreases m.dom().len(),
    when m.dom().finite()
{
    if m.dom().len() == 0 {
        0
    } else {
        let who = m.dom().choose();
        m[who] as nat + total(m.remove(who))
    }
}

/// An empty table sums to zero.
pub proof fn lemma_total_empty()
    ensures
        total(Map::<ActorId, u128>::empty()) == 0,
{
}

/// Any one holder can be split off the sum.
pub proof fn lemma_total_split(m: Map<ActorId, u128>, who: ActorId)
    requires
        m.dom().finite(),
        m.dom().contains(who),
    ensures
        total(m) == m[who] as nat + total(m.remove(who)),
    decreases m.dom().len(),
{
    let first = m.dom().choose();
    if first != who {
        let rest = m.remove(first);
        lemma_total_split(rest, who);
        let without = m.remove(who);
        lemma_total_split(without, first);
        assert(rest.remove(who) =~= without.remove(first));
    }
}

/// Setting one balance changes the sum by the difference to what the
/// holder had.
pub proof fn lemma_total_insert(m: Map<ActorId, u128>, who: ActorId, amount: u128)
    requires
        m.dom().finite(),
    ensures
        m.insert(who, amount).dom().finite(),
        total(m.insert(who, amount)) == total(m) - balance_in(m, who) + amount,
{
    let after = m.insert(who, amount);
    lemma_total_split(after, who);
    assert(after.remove(who) =~= m.remove(who));
    if m.dom().contains(who) {
        lemma_total_split(m, who);
    } else {
        assert(m.remove(who) =~= m);
    }
}

/// No balance exceeds the sum of all balances.
pub proof fn lemma_balance_within_total(m: Map<ActorId, u128>, who: ActorId)
    requires
        m.dom().finite(),
    ensures
        balance_in(m, who) <= total(m),
{
    if m.dom().contains(who) {
        lemma_total_split(m, who);
    }
}

} // verus!
