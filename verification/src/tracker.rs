//! Remembering transactions: which (caller, id) pairs were already applied,
//! until when each is remembered, and how expired ones are forgotten.

use crate::io::ActorId;
use crate::store::{
    index_entries, index_get, index_insert, index_remove, tx_entries, tx_get, tx_insert,
    tx_remove, TxIndex, TxTable,
};
use vstd::prelude::*;

verus! {

/// Whether the index lists `id` for `caller`.
pub open spec fn listed(ix: Map<ActorId, Set<u64>>, caller: ActorId, id: u64) -> bool {
    ix.dom().contains(caller) && ix[caller].contains(id)
}

/// The index lists exactly the remembered transactions and holds no caller
/// without any.
pub open spec fn tx_consistent(tx: Map<(ActorId, u64), u64>, ix: Map<ActorId, Set<u64>>) -> bool {
    &&& forall|c: ActorId, t: u64| #[trigger] tx.dom().contains((c, t)) <==> listed(ix, c, t)
    &&& forall|c: ActorId| #[trigger]
        ix.dom().contains(c) ==> ix[c] != Set::<u64>::empty()
}

/// The index is a function of the table: two indexes that are consistent
/// with one table are the same.
pub proof fn lemma_index_determined(
    tx: Map<(ActorId, u64), u64>,
    first: Map<ActorId, Set<u64>>,
    second: Map<ActorId, Set<u64>>,
)
    requires
        tx_consistent(tx, first),
        tx_consistent(tx, second),
    ensures
        first == second,
{
    assert forall|c: ActorId| first.dom().contains(c) == second.dom().contains(c) by {
        if first.dom().contains(c) {
            lemma_listed_somewhere(tx, first, second, c);
        }
        if second.dom().contains(c) {
            lemma_listed_somewhere(tx, second, first, c);
        }
    }
    assert(first.dom() =~= second.dom());
    assert forall|c: ActorId| #[trigger] first.dom().contains(c) implies first[c] == second[c] by {
        assert forall|t: u64| first[c].contains(t) == second[c].contains(t) by {
            assert(tx.dom().contains((c, t)) <==> listed(first, c, t));
            assert(tx.dom().contains((c, t)) <==> listed(second, c, t));
        }
        assert(first[c] =~= second[c]);
    }
    assert(first =~= second);
}

/// A caller that one consistent index holds, every consistent index holds.
proof fn lemma_listed_somewhere(
    tx: Map<(ActorId, u64), u64>,
    first: Map<ActorId, Set<u64>>,
    second: Map<ActorId, Set<u64>>,
    c: ActorId,
)
    requires
        tx_consistent(tx, first),
        tx_consistent(tx, second),
        first.dom().contains(c),
    ensures
        second.dom().contains(c),
{
    if forall|t: u64| !first[c].contains(t) {
        assert(first[c] =~= Set::<u64>::empty());
    }
    let t = choose|t: u64| first[c].contains(t);
    assert(listed(first, c, t));
    assert(tx.dom().contains((c, t)));
    assert(listed(second, c, t));
}

/// Whether the record under `key` is one of `caller`'s and has run out at
/// time `now`.
pub open spec fn expired(
    tx: Map<(ActorId, u64), u64>,
    caller: ActorId,
    now: u64,
    key: (ActorId, u64),
) -> bool {
    tx.dom().contains(key) && key.0 == caller && tx[key] < now
}

/// `tx` without the records of `caller` that have run out at time `now`.
pub open spec fn swept(tx: Map<(ActorId, u64), u64>, caller: ActorId, now: u64) -> Map<
    (ActorId, u64),
    u64,
> {
    Map::new(
        |k: (ActorId, u64)| tx.dom().contains(k) && !expired(tx, caller, now, k),
        |k: (ActorId, u64)| tx[k],
    )
}

/// Whether (`caller`, `id`) is remembered and has not run out at time `now`.
pub open spec fn live(tx: Map<(ActorId, u64), u64>, caller: ActorId, id: u64, now: u64) -> bool {
    tx.dom().contains((caller, id)) && tx[(caller, id)] >= now
}

/// Forgets every transaction of `caller` whose time has run out at `now`,
/// in the table and in the index alike; a caller left without any is
/// dropped from the index.
pub fn sweep(records: &mut TxTable, index: &mut TxIndex, caller: &ActorId, now: u64)
    requires
        tx_consistent(tx_entries(*old(records)), index_entries(*old(index))),
    ensures
        tx_consistent(tx_entries(*final(records)), index_entries(*final(index))),
        tx_entries(*final(records)) == swept(tx_entries(*old(records)), *caller, now),
{
    let ghost tx0 = tx_entries(*records);
    let ghost ix0 = index_entries(*index);
    match index_get(index, caller) {
        None => {
            assert forall|k: (ActorId, u64)| tx0.dom().contains(k) implies !expired(
                tx0,
                *caller,
                now,
                k,
            ) by {
                assert(listed(ix0, k.0, k.1));
            }
            assert(tx_entries(*records) =~= swept(tx0, *caller, now));
        },
        Some(ids) => {
            let mut kept: Vec<u64> = Vec::new();
            let mut i: usize = 0;
            while i < ids.len()
                invariant
                    i <= ids.len(),
                    ids@.to_set() == ix0[*caller],
                    ids@.no_duplicates(),
                    ix0.dom().contains(*caller),
                    tx_consistent(tx0, ix0),
                    index_entries(*index) == ix0,
                    forall|k: (ActorId, u64)| #[trigger]
                        tx_entries(*records).dom().contains(k) ==> tx0.dom().contains(k)
                            && tx_entries(*records)[k] == tx0[k],
                    forall|k: (ActorId, u64)|
                        #[trigger] tx0.dom().contains(k) && k.0 != *caller ==> tx_entries(
                            *records,
                        ).dom().contains(k),
                    forall|j: int|
                        0 <= j < ids.len() ==> (#[trigger] tx_entries(*records).dom().contains(
                            (*caller, ids@[j]),
                        ) <==> (j >= i || tx0[(*caller, ids@[j])] >= now)),
                    forall|n: int|
                        0 <= n < kept.len() ==> tx0[(*caller, #[trigger] kept@[n])] >= now && exists|
                            j: int,
                        |
                            0 <= j < i && ids@[j] == kept@[n],
                    forall|j: int|
                        0 <= j < i && tx0[(*caller, #[trigger] ids@[j])] >= now ==> kept@.contains(
                            ids@[j],
                        ),
                    kept@.no_duplicates(),
                decreases ids.len() - i,
            {
                let id = ids[i];
                let ghost before = tx_entries(*records);
                let ghost kept_before = kept@;
                assert(listed(ix0, *caller, id));
                assert(tx0.dom().contains((*caller, id)));
                let run_out = match tx_get(records, caller, id) {
                    Some(valid_until) => valid_until < now,
                    None => false,
                };
                if run_out {
                    tx_remove(records, caller, id);
                    assert forall|j: int| 0 <= j < ids.len() implies (#[trigger] tx_entries(
                        *records,
                    ).dom().contains((*caller, ids@[j])) <==> (j >= i + 1 || tx0[(
                        *caller,
                        ids@[j],
                    )] >= now)) by {
                        assert(before.dom().contains((*caller, ids@[j])) <==> (j >= i || tx0[(
                            *caller,
                            ids@[j],
                        )] >= now));
                        if j != i {
                            assert(ids@[j] != ids@[i as int]);
                        }
                    }
                } else {
                    assert forall|n: int| 0 <= n < kept.len() implies kept@[n] != id by {
                        let j = choose|j: int| 0 <= j < i && ids@[j] == kept@[n];
                        assert(ids@[j] != ids@[i as int]);
                    }
                    kept.push(id);
                    assert forall|j: int|
                        0 <= j < i + 1 && tx0[(*caller, #[trigger] ids@[j])] >= now implies kept@.contains(
                        ids@[j],
                    ) by {
                        if j < i {
                            let n = choose|n: int|
                                0 <= n < kept_before.len() && kept_before[n] == ids@[j];
                            assert(kept@[n] == ids@[j]);
                        } else {
                            assert(kept@[kept_before.len() as int] == ids@[j]);
                        }
                    }
                    assert forall|j: int| 0 <= j < ids.len() implies (#[trigger] tx_entries(
                        *records,
                    ).dom().contains((*caller, ids@[j])) <==> (j >= i + 1 || tx0[(
                        *caller,
                        ids@[j],
                    )] >= now)) by {
                        assert(before.dom().contains((*caller, ids@[j])) <==> (j >= i || tx0[(
                            *caller,
                            ids@[j],
                        )] >= now));
                    }
                }
                i += 1;
            }
            let ghost tx1 = tx_entries(*records);
            assert forall|k: (ActorId, u64)| tx1.dom().contains(k) <==> (tx0.dom().contains(k)
                && !expired(tx0, *caller, now, k)) by {
                if tx0.dom().contains(k) && k.0 == *caller {
                    assert(listed(ix0, k.0, k.1));
                    let j = choose|j: int| 0 <= j < ids@.len() && ids@[j] == k.1;
                    assert(tx1.dom().contains((*caller, ids@[j])) <==> tx0[(*caller, ids@[j])]
                        >= now);
                }
            }
            assert(tx1 =~= swept(tx0, *caller, now));
            let ghost kept_ids = kept@;
            if kept.len() == 0 {
                index_remove(index, caller);
            } else {
                index_insert(index, caller, kept);
            }
            let ghost ix1 = index_entries(*index);
            assert forall|c: ActorId| #[trigger] ix1.dom().contains(c) implies ix1[c]
                != Set::<u64>::empty() by {
                if c == *caller {
                    assert(kept_ids.contains(kept_ids[0]));
                    assert(ix1[c].contains(kept_ids[0]));
                } else {
                    assert(ix0.dom().contains(c));
                }
            }
            assert forall|c: ActorId, t: u64| #[trigger]
                tx1.dom().contains((c, t)) <==> listed(ix1, c, t) by {
                assert(tx0.dom().contains((c, t)) <==> listed(ix0, c, t));
                if c == *caller {
                    if tx1.dom().contains((c, t)) {
                        let j = choose|j: int| 0 <= j < ids@.len() && ids@[j] == t;
                        assert(kept_ids.contains(ids@[j]));
                    }
                    if listed(ix1, c, t) {
                        let n = choose|n: int| 0 <= n < kept_ids.len() && kept_ids[n] == t;
                        let j = choose|j: int| 0 <= j < i && ids@[j] == kept_ids[n];
                        assert(tx1.dom().contains((*caller, ids@[j])));
                    }
                }
            }
        },
    }
}

/// Remembers (`caller`, `id`) until `valid_until`, in the table and in the
/// index alike.
pub fn record(
    records: &mut TxTable,
    index: &mut TxIndex,
    caller: &ActorId,
    id: u64,
    valid_until: u64,
)
    requires
        tx_consistent(tx_entries(*old(records)), index_entries(*old(index))),
        !tx_entries(*old(records)).dom().contains((*caller, id)),
    ensures
        tx_consistent(tx_entries(*final(records)), index_entries(*final(index))),
        tx_entries(*final(records)) == tx_entries(*old(records)).insert((*caller, id), valid_until),
{
    let ghost tx0 = tx_entries(*records);
    let ghost ix0 = index_entries(*index);
    let mut ids = match index_get(index, caller) {
        Some(ids) => ids,
        None => Vec::new(),
    };
    let ghost ids_before = ids@;
    assert(!listed(ix0, *caller, id));
    ids.push(id);
    assert(ids@.no_duplicates());
    assert(ids@[ids_before.len() as int] == id);
    let ghost ids_after = ids@;
    index_insert(index, caller, ids);
    tx_insert(records, caller, id, valid_until);
    let ghost tx1 = tx_entries(*records);
    let ghost ix1 = index_entries(*index);
    assert forall|c: ActorId| #[trigger] ix1.dom().contains(c) implies ix1[c]
        != Set::<u64>::empty() by {
        if c == *caller {
            assert(ids_after.contains(id));
            assert(ix1[c].contains(id));
        } else {
            assert(ix0.dom().contains(c));
        }
    }
    assert forall|c: ActorId, t: u64| #[trigger]
        tx1.dom().contains((c, t)) <==> listed(ix1, c, t) by {
        assert(tx0.dom().contains((c, t)) <==> listed(ix0, c, t));
        if c == *caller {
            if t == id {
                assert(ids_after.contains(id));
            } else {
                if listed(ix0, c, t) {
                    let n = choose|n: int| 0 <= n < ids_before.len() && ids_before[n] == t;
                    assert(ids_after[n] == t);
                }
                if listed(ix1, c, t) {
                    let n = choose|n: int| 0 <= n < ids_after.len() && ids_after[n] == t;
                    assert(ids_before[n] == t);
                }
            }
        }
    }
}

/// Whether a transaction id was given that `caller` has used and that is
/// still remembered at time `now`.
pub open spec fn seen(
    tx: Map<(ActorId, u64), u64>,
    caller: ActorId,
    now: u64,
    tx_id: Option<u64>,
) -> bool {
    tx_id.is_some() && live(tx, caller, tx_id.unwrap(), now)
}

/// The transaction table after the check of an operation: swept for the
/// caller where a transaction id was given, untouched where none was.
pub open spec fn checked(
    tx: Map<(ActorId, u64), u64>,
    caller: ActorId,
    now: u64,
    tx_id: Option<u64>,
) -> Map<(ActorId, u64), u64> {
    if tx_id.is_some() {
        swept(tx, caller, now)
    } else {
        tx
    }
}

/// The transaction table after an operation went through: the id, where
/// one was given, is remembered until `now + period`.
pub open spec fn recorded(
    tx: Map<(ActorId, u64), u64>,
    caller: ActorId,
    now: u64,
    period: u64,
    tx_id: Option<u64>,
) -> Map<(ActorId, u64), u64> {
    if tx_id.is_some() {
        tx.insert((caller, tx_id.unwrap()), (now + period) as u64)
    } else {
        tx
    }
}

} // verus!
