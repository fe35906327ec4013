//! The token itself: balances, allowances, admins and the record of
//! transactions already seen.
//!
//! Every operation names its caller and, where it may remember a
//! transaction, the current time; the token asks nobody for either. Tokens
//! of another holder move only against an allowance: no caller is exempt.

use crate::io::{ActorId, Config, ExternalLinks, FTError, FTEvent, TxId};
use crate::store::{
    allowance_entries, allowance_get, allowance_insert, balance_entries, balance_get,
    balance_insert, index_entries, tx_entries, tx_get, AllowanceTable, BalanceTable, TxIndex,
    TxTable,
};
use crate::supply::{balance_in, lemma_balance_within_total, lemma_total_insert, total};
use crate::tracker::{checked, record, recorded, seen, sweep, tx_consistent};
use vstd::prelude::*;

verus! {

/// `m` after `amount` was taken from `from`; a holder without an entry gets
/// none.
pub open spec fn debited(m: Map<ActorId, u128>, from: ActorId, amount: u128) -> Map<
    ActorId,
    u128,
> {
    if m.dom().contains(from) {
        m.insert(from, (m[from] - amount) as u128)
    } else {
        m
    }
}

/// `m` after `amount` was given to `to`.
pub open spec fn credited(m: Map<ActorId, u128>, to: ActorId, amount: u128) -> Map<
    ActorId,
    u128,
> {
    m.insert(to, (balance_in(m, to) + amount) as u128)
}

/// `m` after `amount` went from `from` to `to`.
pub open spec fn moved(m: Map<ActorId, u128>, from: ActorId, to: ActorId, amount: u128) -> Map<
    ActorId,
    u128,
> {
    credited(debited(m, from, amount), to, amount)
}

/// `m` after `from` paid `amount` to each of `tos` in turn.
pub open spec fn paid_out(
    m: Map<ActorId, u128>,
    from: ActorId,
    tos: Seq<ActorId>,
    amount: u128,
) -> Map<ActorId, u128>
    decreases tos.len(),
{
    if tos.len() == 0 {
        m
    } else {
        moved(paid_out(m, from, tos.drop_last(), amount), from, tos.last(), amount)
    }
}

/// `s` with every occurrence of `who` taken out, the rest in order.
pub open spec fn without(s: Seq<ActorId>, who: ActorId) -> Seq<ActorId>
    decreases s.len(),
{
    if s.len() == 0 {
        s
    } else if s.last() == who {
        without(s.drop_last(), who)
    } else {
        without(s.drop_last(), who).push(s.last())
    }
}

/// Taking `who` out of `s` removes `who` and nobody else.
pub proof fn lemma_without_members(s: Seq<ActorId>, who: ActorId, x: ActorId)
    ensures
        without(s, who).contains(x) <==> (s.contains(x) && x != who),
    decreases s.len(),
{
    if s.len() > 0 {
        let t = s.drop_last();
        let y = s.last();
        let w = without(t, who);
        lemma_without_members(t, who, x);
        if s.contains(x) {
            let i = choose|i: int| 0 <= i < s.len() && s[i] == x;
            if i < t.len() {
                assert(t[i] == x);
            }
        }
        if t.contains(x) {
            let i = choose|i: int| 0 <= i < t.len() && t[i] == x;
            assert(s[i] == x);
        }
        if y != who {
            let r = w.push(y);
            if r.contains(x) {
                let i = choose|i: int| 0 <= i < r.len() && r[i] == x;
                if i < w.len() {
                    assert(w[i] == x);
                }
            }
            if w.contains(x) {
                let i = choose|i: int| 0 <= i < w.len() && w[i] == x;
                assert(r[i] == x);
            }
            if y == x {
                assert(r[w.len() as int] == x);
            }
        }
    }
}

/// Whether `m` lets `spender` draw `amount` from `owner`: an entry must
/// exist and cover the amount.
pub open spec fn covers(
    m: Map<(ActorId, ActorId), u128>,
    owner: ActorId,
    spender: ActorId,
    amount: u128,
) -> bool {
    m.dom().contains((owner, spender)) && m[(owner, spender)] >= amount
}

/// Whether `source` may move `amount` of `from`'s tokens: they are its own,
/// or an allowance exists and covers the amount.
pub open spec fn permitted(
    m: Map<(ActorId, ActorId), u128>,
    source: ActorId,
    from: ActorId,
    amount: u128,
) -> bool {
    source == from || covers(m, from, source, amount)
}

/// The allowances after `source` moved `amount` of `from`'s tokens.
pub open spec fn drawn(
    m: Map<(ActorId, ActorId), u128>,
    source: ActorId,
    from: ActorId,
    amount: u128,
) -> Map<(ActorId, ActorId), u128> {
    if source == from {
        m
    } else {
        m.insert((from, source), (m[(from, source)] - amount) as u128)
    }
}

/// Moving tokens between holders keeps the sum of all balances.
pub proof fn lemma_moved_keeps_total(
    m: Map<ActorId, u128>,
    from: ActorId,
    to: ActorId,
    amount: u128,
)
    requires
        m.dom().finite(),
        balance_in(m, from) >= amount,
        total(m) <= u128::MAX,
    ensures
        moved(m, from, to, amount).dom().finite(),
        total(moved(m, from, to, amount)) == total(m),
        balance_in(debited(m, from, amount), to) + amount <= total(m),
        balance_in(moved(m, from, to, amount), from) >= balance_in(m, from) - amount,
{
    let mid = debited(m, from, amount);
    if m.dom().contains(from) {
        lemma_total_insert(m, from, (m[from] - amount) as u128);
    }
    lemma_balance_within_total(mid, to);
    lemma_total_insert(mid, to, (balance_in(mid, to) + amount) as u128);
}

/// A fungible token: who holds how much, who may spend whose tokens, who
/// administers it, and which transactions it still remembers.
pub struct FungibleToken {
    /// Name of the token.
    pub name: String,
    /// Symbol of the token.
    pub symbol: String,
    /// Number of decimals of the token.
    pub decimals: u8,
    /// Description of the token.
    pub description: String,
    /// Links published along with the token.
    pub external_links: ExternalLinks,
    /// Tokens in existence.
    pub current_supply: u128,
    /// Balance of each holder.
    pub balances: BalanceTable,
    /// What each spender may still draw from each owner.
    pub allowances: AllowanceTable,
    /// Until when each (caller, transaction id) is remembered.
    pub tx_ids: TxTable,
    /// The transaction ids remembered for each caller.
    pub account_to_tx_ids: TxIndex,
    /// Parameters fixed at initialization.
    pub config: Config,
    /// Who may mint, pay out and appoint admins, in order of appointment.
    pub admins: Vec<ActorId>,
}

impl FungibleToken {
    /// Balances by holder.
    pub open spec fn balance_map(&self) -> Map<ActorId, u128> {
        balance_entries(self.balances)
    }

    /// Allowances by (owner, spender).
    pub open spec fn allowance_map(&self) -> Map<(ActorId, ActorId), u128> {
        allowance_entries(self.allowances)
    }

    /// Expiry times by (caller, transaction id).
    pub open spec fn tx_map(&self) -> Map<(ActorId, u64), u64> {
        tx_entries(self.tx_ids)
    }

    /// Remembered transaction ids by caller.
    pub open spec fn index_map(&self) -> Map<ActorId, Set<u64>> {
        index_entries(self.account_to_tx_ids)
    }

    /// What `who` holds.
    pub open spec fn spec_balance_of(&self, who: ActorId) -> u128 {
        balance_in(self.balance_map(), who)
    }

    /// What `spender` may still draw from `owner`.
    pub open spec fn spec_allowance(&self, owner: ActorId, spender: ActorId) -> u128 {
        if self.allowance_map().dom().contains((owner, spender)) {
            self.allowance_map()[(owner, spender)]
        } else {
            0
        }
    }

    /// Whether `who` is an admin.
    pub open spec fn spec_is_admin(&self, who: ActorId) -> bool {
        self.admins@.contains(who)
    }

    /// The token is sound: its supply is the sum of its balances, and its
    /// transaction index lists exactly the remembered transactions.
    pub open spec fn wf(&self) -> bool {
        &&& self.balance_map().dom().finite()
        &&& total(self.balance_map()) == self.current_supply
        &&& tx_consistent(self.tx_map(), self.index_map())
    }

    /// The descriptive fields and the configuration are those of `other`.
    pub open spec fn same_meta(&self, other: &FungibleToken) -> bool {
        &&& self.name == other.name
        &&& self.symbol == other.symbol
        &&& self.decimals == other.decimals
        &&& self.description == other.description
        &&& self.external_links == other.external_links
        &&& self.config == other.config
    }

    /// Balances and supply are those of `other`.
    pub open spec fn same_ledger(&self, other: &FungibleToken) -> bool {
        &&& self.balance_map() == other.balance_map()
        &&& self.current_supply == other.current_supply
    }

    /// Nothing that can be observed differs from `other`.
    pub open spec fn same_state(&self, other: &FungibleToken) -> bool {
        &&& self.same_meta(other)
        &&& self.same_ledger(other)
        &&& self.allowance_map() == other.allowance_map()
        &&& self.admins@ == other.admins@
        &&& self.tx_map() == other.tx_map()
        &&& self.index_map() == other.index_map()
    }

    /// What `who` holds; nothing, for a holder the token has never seen.
    pub fn balance_of(&self, who: &ActorId) -> (balance: u128)
        ensures
            balance == self.spec_balance_of(*who),
    {
        match balance_get(&self.balances, who) {
            Some(balance) => balance,
            None => 0,
        }
    }

    /// What `spender` may still draw from `owner`.
    pub fn allowance(&self, owner: &ActorId, spender: &ActorId) -> (amount: u128)
        ensures
            amount == self.spec_allowance(*owner, *spender),
    {
        match allowance_get(&self.allowances, owner, spender) {
            Some(amount) => amount,
            None => 0,
        }
    }

    /// Whether `who` is an admin.
    pub fn is_admin(&self, who: &ActorId) -> (found: bool)
        ensures
            found == self.spec_is_admin(*who),
    {
        let mut i: usize = 0;
        while i < self.admins.len()
            invariant
                i <= self.admins.len(),
                forall|j: int| 0 <= j < i ==> self.admins@[j] != *who,
            decreases self.admins.len() - i,
        {
            if self.admins[i] == *who {
                return true;
            }
            i += 1;
        }
        false
    }

    /// Succeeds when `account` holds at least `amount`.
    pub fn check_balance(&self, account: &ActorId, amount: u128) -> (r: Result<(), FTError>)
        ensures
            r == (if self.spec_balance_of(*account) < amount {
                Err::<(), FTError>(FTError::NotEnoughBalance)
            } else {
                Ok::<(), FTError>(())
            }),
    {
        if self.balance_of(account) < amount {
            return Err(FTError::NotEnoughBalance);
        }
        Ok(())
    }

    /// Creates `amount` new tokens for `to`. Only an admin may do so; anyone
    /// else gets `NotAdmin` and nothing changes.
    pub fn mint(&mut self, source: &ActorId, amount: u128, to: ActorId) -> (r: Result<
        FTEvent,
        FTError,
    >)
        requires
            old(self).wf(),
            old(self).spec_is_admin(*source) ==> old(self).current_supply + amount <= u128::MAX,
        ensures
            final(self).wf(),
            old(self).spec_is_admin(*source) ==> r == Ok::<FTEvent, FTError>(
                FTEvent::Minted { to, amount },
            ) && final(self).balance_map() == credited(old(self).balance_map(), to, amount)
                && final(self).current_supply == old(self).current_supply + amount,
            !old(self).spec_is_admin(*source) ==> r == Err::<FTEvent, FTError>(FTError::NotAdmin)
                && final(self).same_ledger(old(self)),
            final(self).same_meta(old(self)),
            final(self).allowance_map() == old(self).allowance_map(),
            final(self).admins@ == old(self).admins@,
            final(self).tx_map() == old(self).tx_map(),
            final(self).index_map() == old(self).index_map(),
    {
        if !self.is_admin(source) {
            return Err(FTError::NotAdmin);
        }
        let held = self.balance_of(&to);
        proof {
            lemma_balance_within_total(self.balance_map(), to);
            lemma_total_insert(self.balance_map(), to, (held + amount) as u128);
        }
        balance_insert(&mut self.balances, &to, held + amount);
        self.current_supply = self.current_supply + amount;
        Ok(FTEvent::Minted { to, amount })
    }

    /// Destroys `amount` of the caller's own tokens. A caller who holds less
    /// gets `NotEnoughBalance` and nothing changes.
    pub fn burn(&mut self, source: &ActorId, amount: u128) -> (r: Result<FTEvent, FTError>)
        requires
            old(self).wf(),
        ensures
            final(self).wf(),
            old(self).spec_balance_of(*source) >= amount ==> r == Ok::<FTEvent, FTError>(
                FTEvent::Transferred { from: *source, to: ActorId::spec_zero(), amount },
            ) && final(self).balance_map() == debited(old(self).balance_map(), *source, amount)
                && final(self).current_supply == old(self).current_supply - amount,
            old(self).spec_balance_of(*source) < amount ==> r == Err::<FTEvent, FTError>(
                FTError::NotEnoughBalance,
            ) && final(self).same_ledger(old(self)),
            final(self).same_meta(old(self)),
            final(self).allowance_map() == old(self).allowance_map(),
            final(self).admins@ == old(self).admins@,
            final(self).tx_map() == old(self).tx_map(),
            final(self).index_map() == old(self).index_map(),
    {
        match balance_get(&self.balances, source) {
            None => {
                if amount > 0 {
                    return Err(FTError::NotEnoughBalance);
                }
            },
            Some(held) => {
                if held < amount {
                    return Err(FTError::NotEnoughBalance);
                }
                proof {
                    lemma_balance_within_total(self.balance_map(), *source);
                    lemma_total_insert(self.balance_map(), *source, (held - amount) as u128);
                }
                balance_insert(&mut self.balances, source, held - amount);
                self.current_supply = self.current_supply - amount;
            },
        }
        Ok(FTEvent::Transferred { from: *source, to: ActorId::zero(), amount })
    }

    /// Appoints `admin_id`. Only an admin may do so (`NotAdmin`), and nobody
    /// is appointed twice (`AdminAlreadyExists`).
    pub fn add_admin(&mut self, source: &ActorId, admin_id: &ActorId) -> (r: Result<
        FTEvent,
        FTError,
    >)
        ensures
            r == (if !old(self).spec_is_admin(*source) {
                Err::<FTEvent, FTError>(FTError::NotAdmin)
            } else if old(self).spec_is_admin(*admin_id) {
                Err::<FTEvent, FTError>(FTError::AdminAlreadyExists)
            } else {
                Ok::<FTEvent, FTError>(FTEvent::AdminAdded { admin_id: *admin_id })
            }),
            final(self).admins@ == (if r.is_ok() {
                old(self).admins@.push(*admin_id)
            } else {
                old(self).admins@
            }),
            final(self).same_meta(old(self)),
            final(self).same_ledger(old(self)),
            final(self).allowance_map() == old(self).allowance_map(),
            final(self).tx_map() == old(self).tx_map(),
            final(self).index_map() == old(self).index_map(),
            old(self).wf() ==> final(self).wf(),
    {
        if !self.is_admin(source) {
            return Err(FTError::NotAdmin);
        }
        if self.is_admin(admin_id) {
            return Err(FTError::AdminAlreadyExists);
        }
        self.admins.push(*admin_id);
        Ok(FTEvent::AdminAdded { admin_id: *admin_id })
    }

    /// Dismisses `admin_id`. Only an admin may do so (`NotAdmin`), and
    /// nobody dismisses themself (`CantDeleteYourself`).
    pub fn delete_admin(&mut self, source: &ActorId, admin_id: &ActorId) -> (r: Result<
        FTEvent,
        FTError,
    >)
        ensures
            r == (if !old(self).spec_is_admin(*source) {
                Err::<FTEvent, FTError>(FTError::NotAdmin)
            } else if *admin_id == *source {
                Err::<FTEvent, FTError>(FTError::CantDeleteYourself)
            } else {
                Ok::<FTEvent, FTError>(FTEvent::AdminRemoved { admin_id: *admin_id })
            }),
            final(self).admins@ == (if r.is_ok() {
                without(old(self).admins@, *admin_id)
            } else {
                old(self).admins@
            }),
            final(self).same_meta(old(self)),
            final(self).same_ledger(old(self)),
            final(self).allowance_map() == old(self).allowance_map(),
            final(self).tx_map() == old(self).tx_map(),
            final(self).index_map() == old(self).index_map(),
            old(self).wf() ==> final(self).wf(),
    {
        if !self.is_admin(source) {
            return Err(FTError::NotAdmin);
        }
        if *admin_id == *source {
            return Err(FTError::CantDeleteYourself);
        }
        let mut kept: Vec<ActorId> = Vec::new();
        let mut i: usize = 0;
        while i < self.admins.len()
            invariant
                i <= self.admins.len(),
                kept@ == without(self.admins@.take(i as int), *admin_id),
            decreases self.admins.len() - i,
        {
            assert(self.admins@.take(i + 1).drop_last() =~= self.admins@.take(i as int));
            if self.admins[i] != *admin_id {
                kept.push(self.admins[i]);
            }
            i += 1;
        }
        assert(self.admins@.take(i as int) =~= self.admins@);
        self.admins = kept;
        Ok(FTEvent::AdminRemoved { admin_id: *admin_id })
    }

    /// Forgets the caller's run-out transactions and refuses a transaction
    /// id that the caller has used and that is still remembered. Without a
    /// transaction id nothing is looked at and nothing changes.
    pub fn check_and_clear_tx(&mut self, source: &ActorId, now: u64, tx_id: Option<TxId>) -> (r:
        Result<(), FTError>)
        requires
            old(self).wf(),
        ensures
            final(self).wf(),
            r == (if seen(old(self).tx_map(), *source, now, tx_id) {
                Err::<(), FTError>(FTError::TxAlreadyExists)
            } else {
                Ok::<(), FTError>(())
            }),
            final(self).tx_map() == checked(old(self).tx_map(), *source, now, tx_id),
            tx_id.is_none() ==> final(self).index_map() == old(self).index_map(),
            final(self).same_meta(old(self)),
            final(self).same_ledger(old(self)),
            final(self).allowance_map() == old(self).allowance_map(),
            final(self).admins@ == old(self).admins@,
    {
        match tx_id {
            None => Ok(()),
            Some(id) => {
                sweep(&mut self.tx_ids, &mut self.account_to_tx_ids, source, now);
                match tx_get(&self.tx_ids, source, id) {
                    Some(_) => Err(FTError::TxAlreadyExists),
                    None => Ok(()),
                }
            },
        }
    }

    /// Remembers the transaction id, if one was given, for the configured
    /// storage period from `now` on.
    fn remember_tx(&mut self, source: &ActorId, now: u64, tx_id: Option<TxId>)
        requires
            old(self).wf(),
            tx_id.is_some() ==> now + old(self).config.tx_storage_period <= u64::MAX,
            tx_id.is_some() ==> !old(self).tx_map().dom().contains((*source, tx_id.unwrap())),
        ensures
            final(self).wf(),
            final(self).tx_map() == recorded(
                old(self).tx_map(),
                *source,
                now,
                old(self).config.tx_storage_period,
                tx_id,
            ),
            tx_id.is_none() ==> final(self).index_map() == old(self).index_map(),
            final(self).same_meta(old(self)),
            final(self).same_ledger(old(self)),
            final(self).allowance_map() == old(self).allowance_map(),
            final(self).admins@ == old(self).admins@,
    {
        match tx_id {
            None => {},
            Some(id) => {
                let valid_until = now + self.config.tx_storage_period;
                record(&mut self.tx_ids, &mut self.account_to_tx_ids, source, id, valid_until);
            },
        }
    }

    /// Lets `to` draw up to `amount` of the caller's tokens, replacing any
    /// earlier allowance. The zero address is refused (`ZeroAddress`), and
    /// so is a transaction id that is still remembered (`TxAlreadyExists`).
    pub fn approve(
        &mut self,
        source: &ActorId,
        now: u64,
        tx_id: Option<TxId>,
        to: &ActorId,
        amount: u128,
    ) -> (r: Result<FTEvent, FTError>)
        requires
            old(self).wf(),
            tx_id.is_some() && old(self).approve_refusal(*source, now, tx_id, *to).is_none() ==> now
                + old(self).config.tx_storage_period <= u64::MAX,
        ensures
            final(self).wf(),
            r == (match old(self).approve_refusal(*source, now, tx_id, *to) {
                Some(e) => Err::<FTEvent, FTError>(e),
                None => Ok::<FTEvent, FTError>(
                    FTEvent::Approved { from: *source, to: *to, amount },
                ),
            }),
            final(self).allowance_map() == (if r.is_ok() {
                old(self).allowance_map().insert((*source, *to), amount)
            } else {
                old(self).allowance_map()
            }),
            final(self).tx_map() == (if to.spec_is_zero() {
                old(self).tx_map()
            } else if r.is_ok() {
                recorded(
                    checked(old(self).tx_map(), *source, now, tx_id),
                    *source,
                    now,
                    old(self).config.tx_storage_period,
                    tx_id,
                )
            } else {
                checked(old(self).tx_map(), *source, now, tx_id)
            }),
            tx_id.is_none() || to.spec_is_zero() ==> final(self).index_map() == old(self).index_map(),
            final(self).same_meta(old(self)),
            final(self).same_ledger(old(self)),
            final(self).admins@ == old(self).admins@,
    {
        if to.is_zero() {
            return Err(FTError::ZeroAddress);
        }
        match self.check_and_clear_tx(source, now, tx_id) {
            Err(e) => {
                return Err(e);
            },
            Ok(_) => {},
        }
        allowance_insert(&mut self.allowances, source, to, amount);
        self.remember_tx(source, now, tx_id);
        Ok(FTEvent::Approved { from: *source, to: *to, amount })
    }

    /// Why `approve` would refuse, if it would.
    pub open spec fn approve_refusal(
        &self,
        source: ActorId,
        now: u64,
        tx_id: Option<TxId>,
        to: ActorId,
    ) -> Option<FTError> {
        if to.spec_is_zero() {
            Some(FTError::ZeroAddress)
        } else if seen(self.tx_map(), source, now, tx_id) {
            Some(FTError::TxAlreadyExists)
        } else {
            None
        }
    }

    /// Whether `source` may move `amount` of `from`'s tokens; if so, and if
    /// the tokens are not the caller's own, the allowance shrinks by
    /// `amount`. A refusal (`NotAllowedToTransfer`) changes nothing.
    pub fn can_transfer(&mut self, source: &ActorId, from: &ActorId, amount: u128) -> (r: Result<
        (),
        FTError,
    >)
        ensures
            r == (if permitted(old(self).allowance_map(), *source, *from, amount) {
                Ok::<(), FTError>(())
            } else {
                Err::<(), FTError>(FTError::NotAllowedToTransfer)
            }),
            final(self).allowance_map() == (if r.is_ok() {
                drawn(old(self).allowance_map(), *source, *from, amount)
            } else {
                old(self).allowance_map()
            }),
            final(self).same_meta(old(self)),
            final(self).same_ledger(old(self)),
            final(self).admins@ == old(self).admins@,
            final(self).tx_map() == old(self).tx_map(),
            final(self).index_map() == old(self).index_map(),
            old(self).wf() ==> final(self).wf(),
    {
        if *source != *from {
            match allowance_get(&self.allowances, from, source) {
                Some(allowed) => {
                    if allowed >= amount {
                        allowance_insert(&mut self.allowances, from, source, allowed - amount);
                    } else {
                        return Err(FTError::NotAllowedToTransfer);
                    }
                },
                None => {
                    return Err(FTError::NotAllowedToTransfer);
                },
            }
        }
        Ok(())
    }

    /// Whether a transaction id was given that `source` has used and that
    /// is still remembered at time `now`. Nothing changes.
    pub fn is_replay(&self, source: &ActorId, now: u64, tx_id: Option<TxId>) -> (replay: bool)
        ensures
            replay == seen(self.tx_map(), *source, now, tx_id),
    {
        match tx_id {
            None => false,
            Some(id) => match tx_get(&self.tx_ids, source, id) {
                Some(valid_until) => valid_until >= now,
                None => false,
            },
        }
    }

    /// Why `approve` would refuse, if it would. Nothing changes.
    pub fn approve_check(&self, source: &ActorId, now: u64, tx_id: Option<TxId>, to: &ActorId) -> (r:
        Option<FTError>)
        ensures
            r == self.approve_refusal(*source, now, tx_id, *to),
    {
        if to.is_zero() {
            Some(FTError::ZeroAddress)
        } else if self.is_replay(source, now, tx_id) {
            Some(FTError::TxAlreadyExists)
        } else {
            None
        }
    }

    /// Why `transfer` would refuse, if it would. Nothing changes.
    pub fn transfer_check(
        &self,
        source: &ActorId,
        now: u64,
        tx_id: Option<TxId>,
        from: &ActorId,
        to: &ActorId,
        amount: u128,
    ) -> (r: Option<FTError>)
        ensures
            r == self.transfer_refusal(*source, now, tx_id, *from, *to, amount),
    {
        if from.is_zero() || to.is_zero() {
            return Some(FTError::ZeroAddress);
        }
        if self.is_replay(source, now, tx_id) {
            return Some(FTError::TxAlreadyExists);
        }
        if self.balance_of(from) < amount {
            return Some(FTError::NotEnoughBalance);
        }
        if *source != *from {
            match allowance_get(&self.allowances, from, source) {
                Some(allowed) => {
                    if allowed < amount {
                        return Some(FTError::NotAllowedToTransfer);
                    }
                },
                None => {
                    return Some(FTError::NotAllowedToTransfer);
                },
            }
        }
        None
    }

    /// Why `transfer` would refuse, if it would: the first of its checks
    /// that fails.
    pub open spec fn transfer_refusal(
        &self,
        source: ActorId,
        now: u64,
        tx_id: Option<TxId>,
        from: ActorId,
        to: ActorId,
        amount: u128,
    ) -> Option<FTError> {
        if from.spec_is_zero() || to.spec_is_zero() {
            Some(FTError::ZeroAddress)
        } else if seen(self.tx_map(), source, now, tx_id) {
            Some(FTError::TxAlreadyExists)
        } else if self.spec_balance_of(from) < amount {
            Some(FTError::NotEnoughBalance)
        } else if !permitted(self.allowance_map(), source, from, amount) {
            Some(FTError::NotAllowedToTransfer)
        } else {
            None
        }
    }

    /// Moves `amount` from `from` to `to` on behalf of `source`.
    ///
    /// Refused, in this order: the zero address on either side
    /// (`ZeroAddress`); a transaction id still remembered
    /// (`TxAlreadyExists`); too small a balance (`NotEnoughBalance`);
    /// tokens of another holder without an allowance that covers them
    /// (`NotAllowedToTransfer`). A refusal leaves balances, allowances and
    /// admins as they were. A transfer that goes through draws on the
    /// allowance and remembers the transaction id, if one was given.
    pub fn transfer(
        &mut self,
        source: &ActorId,
        now: u64,
        tx_id: Option<TxId>,
        from: &ActorId,
        to: &ActorId,
        amount: u128,
    ) -> (r: Result<FTEvent, FTError>)
        requires
            old(self).wf(),
            tx_id.is_some() && old(self).transfer_refusal(
                *source,
                now,
                tx_id,
                *from,
                *to,
                amount,
            ).is_none() ==> now + old(self).config.tx_storage_period <= u64::MAX,
        ensures
            final(self).wf(),
            r == (match old(self).transfer_refusal(*source, now, tx_id, *from, *to, amount) {
                Some(e) => Err::<FTEvent, FTError>(e),
                None => Ok::<FTEvent, FTError>(
                    FTEvent::Transferred { from: *from, to: *to, amount },
                ),
            }),
            final(self).balance_map() == (if r.is_ok() {
                moved(old(self).balance_map(), *from, *to, amount)
            } else {
                old(self).balance_map()
            }),
            final(self).current_supply == old(self).current_supply,
            final(self).allowance_map() == (if r.is_ok() {
                drawn(old(self).allowance_map(), *source, *from, amount)
            } else {
                old(self).allowance_map()
            }),
            final(self).tx_map() == (if from.spec_is_zero() || to.spec_is_zero() {
                old(self).tx_map()
            } else if r.is_ok() {
                recorded(
                    checked(old(self).tx_map(), *source, now, tx_id),
                    *source,
                    now,
                    old(self).config.tx_storage_period,
                    tx_id,
                )
            } else {
                checked(old(self).tx_map(), *source, now, tx_id)
            }),
            tx_id.is_none() || from.spec_is_zero() || to.spec_is_zero() ==> final(self).index_map() == old(self).index_map(),
            final(self).same_meta(old(self)),
            final(self).admins@ == old(self).admins@,
    {
        if from.is_zero() || to.is_zero() {
            return Err(FTError::ZeroAddress);
        }
        match self.check_and_clear_tx(source, now, tx_id) {
            Err(e) => {
                return Err(e);
            },
            Ok(_) => {},
        }
        match self.check_balance(from, amount) {
            Err(e) => {
                return Err(e);
            },
            Ok(_) => {},
        }
        match self.can_transfer(source, from, amount) {
            Err(e) => {
                return Err(e);
            },
            Ok(_) => {},
        }
        move_tokens(&mut self.balances, from, to, amount);
        self.remember_tx(source, now, tx_id);
        Ok(FTEvent::Transferred { from: *from, to: *to, amount })
    }

    /// Pays `amount` out of the caller's balance to each of `to_users`, in
    /// turn. Only an admin may do so (`NotAdmin`), and only one who holds
    /// `amount` times the number of recipients (`NotEnoughBalance`); a
    /// refusal changes nothing. No allowance is asked for.
    pub fn transfer_to_users(
        &mut self,
        source: &ActorId,
        amount: u128,
        to_users: Vec<ActorId>,
    ) -> (r: Result<FTEvent, FTError>)
        requires
            old(self).wf(),
        ensures
            final(self).wf(),
            r == (if !old(self).spec_is_admin(*source) {
                Err::<FTEvent, FTError>(FTError::NotAdmin)
            } else if old(self).spec_balance_of(*source) < amount * to_users@.len() {
                Err::<FTEvent, FTError>(FTError::NotEnoughBalance)
            } else {
                Ok::<FTEvent, FTError>(
                    FTEvent::TransferredToUsers { from: *source, to_users, amount },
                )
            }),
            final(self).balance_map() == (if r.is_ok() {
                paid_out(old(self).balance_map(), *source, to_users@, amount)
            } else {
                old(self).balance_map()
            }),
            final(self).current_supply == old(self).current_supply,
            final(self).same_meta(old(self)),
            final(self).allowance_map() == old(self).allowance_map(),
            final(self).admins@ == old(self).admins@,
            final(self).tx_map() == old(self).tx_map(),
            final(self).index_map() == old(self).index_map(),
    {
        if !self.is_admin(source) {
            return Err(FTError::NotAdmin);
        }
        let count: u128 = to_users.len() as u128;
        match amount.checked_mul(count) {
            None => {
                return Err(FTError::NotEnoughBalance);
            },
            Some(needed) => {
                if self.balance_of(source) < needed {
                    return Err(FTError::NotEnoughBalance);
                }
            },
        }
        pay_out(&mut self.balances, source, &to_users, amount);
        Ok(FTEvent::TransferredToUsers { from: *source, to_users, amount })
    }
}

/// Takes `amount` from `from` and gives it to `to`.
fn move_tokens(balances: &mut BalanceTable, from: &ActorId, to: &ActorId, amount: u128)
    requires
        balance_entries(*old(balances)).dom().finite(),
        total(balance_entries(*old(balances))) <= u128::MAX,
        balance_in(balance_entries(*old(balances)), *from) >= amount,
    ensures
        balance_entries(*final(balances)) == moved(
            balance_entries(*old(balances)),
            *from,
            *to,
            amount,
        ),
        balance_entries(*final(balances)).dom().finite(),
        total(balance_entries(*final(balances))) == total(balance_entries(*old(balances))),
        balance_in(balance_entries(*final(balances)), *from) >= balance_in(
            balance_entries(*old(balances)),
            *from,
        ) - amount,
{
    proof {
        lemma_moved_keeps_total(balance_entries(*balances), *from, *to, amount);
    }
    match balance_get(balances, from) {
        Some(held) => {
            balance_insert(balances, from, held - amount);
        },
        None => {},
    }
    let had = match balance_get(balances, to) {
        Some(had) => had,
        None => 0,
    };
    balance_insert(balances, to, had + amount);
}

/// Takes `amount` from `from` once for each of `tos` and gives it to them,
/// in turn.
fn pay_out(balances: &mut BalanceTable, from: &ActorId, tos: &Vec<ActorId>, amount: u128)
    requires
        balance_entries(*old(balances)).dom().finite(),
        total(balance_entries(*old(balances))) <= u128::MAX,
        balance_in(balance_entries(*old(balances)), *from) >= amount * tos@.len(),
    ensures
        balance_entries(*final(balances)) == paid_out(
            balance_entries(*old(balances)),
            *from,
            tos@,
            amount,
        ),
        balance_entries(*final(balances)).dom().finite(),
        total(balance_entries(*final(balances))) == total(balance_entries(*old(balances))),
{
    let ghost start = balance_entries(*balances);
    let mut i: usize = 0;
    while i < tos.len()
        invariant
            i <= tos.len(),
            balance_entries(*balances) == paid_out(start, *from, tos@.take(i as int), amount),
            balance_entries(*balances).dom().finite(),
            total(balance_entries(*balances)) == total(start),
            total(start) <= u128::MAX,
            balance_in(balance_entries(*balances), *from) >= amount * (tos@.len() - i),
        decreases tos.len() - i,
    {
        proof {
            assert(tos@.take(i + 1).drop_last() =~= tos@.take(i as int));
            assert(amount * (tos@.len() - i) == amount * (tos@.len() - (i + 1)) + amount)
                by (nonlinear_arith);
        }
        move_tokens(balances, from, &tos[i], amount);
        i += 1;
    }
    proof {
        assert(tos@.take(i as int) =~= tos@);
    }
}

} // verus!
