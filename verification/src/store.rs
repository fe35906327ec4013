//! The four tables of the token, each kept in a hash map of
//! `gstd::collections`.
//!
//! Nothing in this file is proved. Each table hides its hash map, a spec
//! function names the entries it holds, and each function makes one call
//! into the hash map and states what that call does to those entries. An
//! address is filed under its two halves, `(hi, lo)`.

use crate::io::ActorId;
use gstd::collections::{HashMap, HashSet};
use vstd::prelude::*;

verus! {

/// Balances by holder, kept in a `gstd::collections::HashMap`.
#[verifier::external_body]
pub struct BalanceTable {
    inner: HashMap<(u128, u128), u128>,
}

/// Allowances by owner and spender, kept in a `gstd::collections::HashMap`.
#[verifier::external_body]
pub struct AllowanceTable {
    inner: HashMap<((u128, u128), (u128, u128)), u128>,
}

/// Expiry times by caller and transaction id, kept in a
/// `gstd::collections::HashMap`.
#[verifier::external_body]
pub struct TxTable {
    inner: HashMap<((u128, u128), u64), u64>,
}

/// Transaction ids by caller, kept in a `gstd::collections::HashMap` of
/// `gstd::collections::HashSet`s.
#[verifier::external_body]
pub struct TxIndex {
    inner: HashMap<(u128, u128), HashSet<u64>>,
}

/// The entries that a balance table holds.
pub uninterp spec fn balance_entries(t: BalanceTable) -> Map<ActorId, u128>;

/// The entries that an allowance table holds, keyed by (owner, spender).
pub uninterp spec fn allowance_entries(t: AllowanceTable) -> Map<(ActorId, ActorId), u128>;

/// The entries that a transaction table holds, keyed by (caller, id).
pub uninterp spec fn tx_entries(t: TxTable) -> Map<(ActorId, u64), u64>;

/// The entries that a transaction index holds.
pub uninterp spec fn index_entries(t: TxIndex) -> Map<ActorId, Set<u64>>;

/// `HashMap::new`: makes a table that holds no entry.
#[verifier::external_body]
pub(crate) fn balance_table_new() -> (table: BalanceTable)
    ensures
        balance_entries(table) == (Map::<ActorId, u128>::empty()),
{
    BalanceTable { inner: HashMap::new() }
}

/// `HashMap::get`: the balance filed under `who`, if there is one.
#[verifier::external_body]
pub(crate) fn balance_get(t: &BalanceTable, who: &ActorId) -> (r: Option<u128>)
    ensures
        r == (if balance_entries(*t).dom().contains(*who) {
            Some(balance_entries(*t)[*who])
        } else {
            None
        }),
{
    t.inner.get(&(who.hi, who.lo)).copied()
}

/// `HashMap::insert`: files `amount` under `who`, replacing what was there,
/// and leaves every other entry alone.
#[verifier::external_body]
pub(crate) fn balance_insert(t: &mut BalanceTable, who: &ActorId, amount: u128)
    ensures
        balance_entries(*final(t)) == balance_entries(*old(t)).insert(*who, amount),
{
    t.inner.insert((who.hi, who.lo), amount);
}

/// `HashMap::new`: makes a table that holds no entry.
#[verifier::external_body]
pub(crate) fn allowance_table_new() -> (table: AllowanceTable)
    ensures
        allowance_entries(table) == (Map::<(ActorId, ActorId), u128>::empty()),
{
    AllowanceTable { inner: HashMap::new() }
}

/// `HashMap::get`: the allowance filed under (`owner`, `spender`), if there
/// is one.
#[verifier::external_body]
pub(crate) fn allowance_get(t: &AllowanceTable, owner: &ActorId, spender: &ActorId) -> (r: Option<u128>)
    ensures
        r == (if allowance_entries(*t).dom().contains((*owner, *spender)) {
            Some(allowance_entries(*t)[(*owner, *spender)])
        } else {
            None
        }),
{
    t.inner.get(&((owner.hi, owner.lo), (spender.hi, spender.lo))).copied()
}

/// `HashMap::insert`: files `amount` under (`owner`, `spender`), replacing
/// what was there, and leaves every other entry alone.
#[verifier::external_body]
pub(crate) fn allowance_insert(
    t: &mut AllowanceTable,
    owner: &ActorId,
    spender: &ActorId,
    amount: u128,
)
    ensures
        allowance_entries(*final(t)) == allowance_entries(*old(t)).insert(
            (*owner, *spender),
            amount,
        ),
{
    t.inner.insert(((owner.hi, owner.lo), (spender.hi, spender.lo)), amount);
}

/// `HashMap::new`: makes a table that holds no entry.
#[verifier::external_body]
pub(crate) fn tx_table_new() -> (table: TxTable)
    ensures
        tx_entries(table) == (Map::<(ActorId, u64), u64>::empty()),
{
    TxTable { inner: HashMap::new() }
}

/// `HashMap::get`: the expiry time filed under (`caller`, `tx_id`), if there
/// is one.
#[verifier::external_body]
pub(crate) fn tx_get(t: &TxTable, caller: &ActorId, tx_id: u64) -> (r: Option<u64>)
    ensures
        r == (if tx_entries(*t).dom().contains((*caller, tx_id)) {
            Some(tx_entries(*t)[(*caller, tx_id)])
        } else {
            None
        }),
{
    t.inner.get(&((caller.hi, caller.lo), tx_id)).copied()
}

/// `HashMap::insert`: files `valid_until` under (`caller`, `tx_id`),
/// replacing what was there, and leaves every other entry alone.
#[verifier::external_body]
pub(crate) fn tx_insert(t: &mut TxTable, caller: &ActorId, tx_id: u64, valid_until: u64)
    ensures
        tx_entries(*final(t)) == tx_entries(*old(t)).insert((*caller, tx_id), valid_until),
{
    t.inner.insert(((caller.hi, caller.lo), tx_id), valid_until);
}

/// `HashMap::remove`: takes out the entry under (`caller`, `tx_id`), if
/// there is one, and leaves every other entry alone.
#[verifier::external_body]
pub(crate) fn tx_remove(t: &mut TxTable, caller: &ActorId, tx_id: u64)
    ensures
        tx_entries(*final(t)) == tx_entries(*old(t)).remove((*caller, tx_id)),
{
    t.inner.remove(&((caller.hi, caller.lo), tx_id));
}

/// `HashMap::new`: makes an index that holds no entry.
#[verifier::external_body]
pub(crate) fn tx_index_new() -> (table: TxIndex)
    ensures
        index_entries(table) == (Map::<ActorId, Set<u64>>::empty()),
{
    TxIndex { inner: HashMap::new() }
}

/// `HashMap::get`, and `HashSet::iter` on the set it finds: the ids filed
/// under `caller`, if there are any, each of them once and in no
/// particular order.
#[verifier::external_body]
pub(crate) fn index_get(t: &TxIndex, caller: &ActorId) -> (r: Option<Vec<u64>>)
    ensures
        index_entries(*t).dom().contains(*caller) <==> r.is_some(),
        r.is_some() ==> r.unwrap()@.no_duplicates(),
        r.is_some() ==> r.unwrap()@.to_set() == index_entries(*t)[*caller],
{
    t.inner.get(&(caller.hi, caller.lo)).map(|ids| ids.iter().copied().collect())
}

/// `HashSet::from_iter`, and `HashMap::insert` of the set it makes: files
/// the set of `ids` under `caller`, replacing what was there, and leaves
/// every other entry alone.
#[verifier::external_body]
pub(crate) fn index_insert(t: &mut TxIndex, caller: &ActorId, ids: Vec<u64>)
    ensures
        index_entries(*final(t)) == index_entries(*old(t)).insert(*caller, ids@.to_set()),
{
    t.inner.insert((caller.hi, caller.lo), ids.into_iter().collect());
}

/// `HashMap::remove`: takes out the ids filed under `caller`, if there are
/// any, and leaves every other entry alone.
#[verifier::external_body]
pub(crate) fn index_remove(t: &mut TxIndex, caller: &ActorId)
    ensures
        index_entries(*final(t)) == index_entries(*old(t)).remove(*caller),
{
    t.inner.remove(&(caller.hi, caller.lo));
}

} // verus!
