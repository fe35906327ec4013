//! What holds of the token whatever is asked of it.

use crate::contract::{
    covers, lemma_moved_keeps_total, lemma_without_members, paid_out, FungibleToken,
};
use crate::handler::{
    admins_after, allowances_after, balances_after, consults_txs, in_range, outcome,
    started_from, supply_after, txs_after,
};
use crate::io::{ActorId, FTAction, FTError, FTEvent, InitFt};
use crate::supply::{balance_in, lemma_balance_within_total, lemma_total_insert, total};
use crate::tracker::{live, seen};
use vstd::prelude::*;

verus! {

/// Paying out to any number of recipients keeps the sum of all balances,
/// and costs the payer at most the amount once per recipient.
pub proof fn lemma_paid_out_keeps_total(
    m: Map<ActorId, u128>,
    from: ActorId,
    tos: Seq<ActorId>,
    amount: u128,
)
    requires
        m.dom().finite(),
        total(m) <= u128::MAX,
        balance_in(m, from) >= amount * tos.len(),
    ensures
        paid_out(m, from, tos, amount).dom().finite(),
        total(paid_out(m, from, tos, amount)) == total(m),
        balance_in(paid_out(m, from, tos, amount), from) >= balance_in(m, from) - amount
            * tos.len(),
    decreases tos.len(),
{
    if tos.len() > 0 {
        let n = tos.len() as int;
        assert(amount * n == amount * (n - 1) + amount) by (nonlinear_arith);
        assert(amount * (n - 1) >= 0) by (nonlinear_arith)
            requires
                amount >= 0,
                n >= 1,
        ;
        lemma_paid_out_keeps_total(m, from, tos.drop_last(), amount);
        lemma_moved_keeps_total(
            paid_out(m, from, tos.drop_last(), amount),
            from,
            tos.last(),
            amount,
        );
    }
}

/// Conservation at the start: a freshly initialized token has as much
/// supply as its balances sum to.
pub proof fn law_conservation_at_start(ft: &FungibleToken, init_config: &InitFt)
    requires
        started_from(ft, init_config),
    ensures
        ft.balance_map().dom().finite(),
        total(ft.balance_map()) == ft.current_supply,
{
    lemma_total_insert(
        Map::<ActorId, u128>::empty(),
        init_config.admin,
        init_config.initial_supply,
    );
}

/// Conservation: whatever operation is carried out on a sound token, the
/// supply it leaves behind is the sum of the balances it leaves behind.
pub proof fn law_conservation(pre: &FungibleToken, source: ActorId, now: u64, action: FTAction)
    requires
        pre.wf(),
        in_range(pre, source, now, &action),
    ensures
        balances_after(pre, source, now, action).dom().finite(),
        total(balances_after(pre, source, now, action)) == supply_after(pre, source, now, action),
{
    let m = pre.balance_map();
    if outcome(pre, source, now, action).is_ok() {
        match action {
            FTAction::TransferToUsers { amount, to_users } => {
                lemma_paid_out_keeps_total(m, source, to_users@, amount);
            },
            FTAction::Mint { amount, to } => {
                lemma_total_insert(m, to, (balance_in(m, to) + amount) as u128);
                lemma_balance_within_total(m, to);
            },
            FTAction::Burn { amount } => {
                if m.dom().contains(source) {
                    lemma_total_insert(m, source, (m[source] - amount) as u128);
                }
            },
            FTAction::Transfer { tx_id, from, to, amount } => {
                lemma_moved_keeps_total(m, from, to, amount);
            },
            _ => {},
        }
    }
}

/// Whether `action` would take more from a holder than the holder has.
pub open spec fn overdraws(pre: &FungibleToken, source: ActorId, action: FTAction) -> bool {
    match action {
        FTAction::Burn { amount } => pre.spec_balance_of(source) < amount,
        FTAction::Transfer { tx_id, from, to, amount } => pre.spec_balance_of(from) < amount,
        FTAction::TransferToUsers { amount, to_users } => pre.spec_balance_of(source) < amount
            * to_users@.len(),
        _ => false,
    }
}

/// Whether a check that comes before the look at the balance already
/// refuses `action`: a zero address or a remembered transaction id in a
/// transfer, a payout by someone who is no admin.
pub open spec fn refused_before_balance(
    pre: &FungibleToken,
    source: ActorId,
    now: u64,
    action: FTAction,
) -> bool {
    match action {
        FTAction::Transfer { tx_id, from, to, amount } => from.spec_is_zero() || to.spec_is_zero()
            || seen(pre.tx_map(), source, now, tx_id),
        FTAction::TransferToUsers { amount, to_users } => !pre.spec_is_admin(source),
        _ => false,
    }
}

/// No negative balances: an operation that would take more than a holder
/// has is refused, with `NotEnoughBalance` unless an earlier check refused
/// it, and leaves balances, supply and allowances as they were.
pub proof fn law_no_overdraw(pre: &FungibleToken, source: ActorId, now: u64, action: FTAction)
    requires
        overdraws(pre, source, action),
    ensures
        outcome(pre, source, now, action).is_err(),
        !refused_before_balance(pre, source, now, action) ==> outcome(pre, source, now, action)
            == Err::<FTEvent, FTError>(FTError::NotEnoughBalance),
        balances_after(pre, source, now, action) == pre.balance_map(),
        supply_after(pre, source, now, action) == pre.current_supply,
        allowances_after(pre, source, now, action) == pre.allowance_map(),
{
}

/// Allowance gate: a transfer of another holder's tokens that no allowance
/// covers is refused, with `NotAllowedToTransfer` unless an earlier check
/// refused it, and leaves balances, supply and allowances as they were.
pub proof fn law_allowance_gate(
    pre: &FungibleToken,
    source: ActorId,
    now: u64,
    tx_id: Option<u64>,
    from: ActorId,
    to: ActorId,
    amount: u128,
)
    requires
        source != from,
        !covers(pre.allowance_map(), from, source, amount),
    ensures
        ({
            let action = FTAction::Transfer { tx_id, from, to, amount };
            &&& outcome(pre, source, now, action).is_err()
            &&& !refused_before_balance(pre, source, now, action) && !overdraws(
                pre,
                source,
                action,
            ) ==> outcome(pre, source, now, action) == Err::<FTEvent, FTError>(
                FTError::NotAllowedToTransfer,
            )
            &&& balances_after(pre, source, now, action) == pre.balance_map()
            &&& supply_after(pre, source, now, action) == pre.current_supply
            &&& allowances_after(pre, source, now, action) == pre.allowance_map()
        }),
{
}

/// The transaction id that `action` carries, if it carries one.
pub open spec fn tx_id_of(action: FTAction) -> Option<u64> {
    match action {
        FTAction::Transfer { tx_id, from, to, amount } => tx_id,
        FTAction::Approve { tx_id, to, amount } => tx_id,
        _ => None,
    }
}

/// `action` as it would be without a transaction id.
pub open spec fn untracked(action: FTAction) -> FTAction {
    match action {
        FTAction::Transfer { tx_id, from, to, amount } => FTAction::Transfer {
            tx_id: None,
            from,
            to,
            amount,
        },
        FTAction::Approve { tx_id, to, amount } => FTAction::Approve { tx_id: None, to, amount },
        _ => action,
    }
}

/// Replay rejection: after an operation with a transaction id went through
/// at time `at`, an operation of the same caller with the same id that
/// names no zero address, at any time `later` up to the end of the storage
/// period, is refused with `TxAlreadyExists` and changes no balance,
/// allowance or admin, whatever else it asks for.
pub proof fn law_replay_rejected(
    pre: &FungibleToken,
    mid: &FungibleToken,
    source: ActorId,
    id: u64,
    first: FTAction,
    at: u64,
    second: FTAction,
    later: u64,
)
    requires
        tx_id_of(first) == Some(id),
        tx_id_of(second) == Some(id),
        at + pre.config.tx_storage_period <= u64::MAX,
        outcome(pre, source, at, first).is_ok(),
        mid.tx_map() == txs_after(pre, source, at, first),
        later <= at + pre.config.tx_storage_period,
        consults_txs(second),
    ensures
        outcome(mid, source, later, second) == Err::<FTEvent, FTError>(FTError::TxAlreadyExists),
        balances_after(mid, source, later, second) == mid.balance_map(),
        supply_after(mid, source, later, second) == mid.current_supply,
        allowances_after(mid, source, later, second) == mid.allowance_map(),
        admins_after(mid, source, later, second) == mid.admins@,
{
}

/// Replay acceptance after expiry: once the storage period of a
/// transaction id is over, an operation of the same caller with the same
/// id fares as it would without one; if it goes through, the id is
/// remembered anew, for one storage period from that time on.
pub proof fn law_replay_accepted_after_expiry(
    pre: &FungibleToken,
    mid: &FungibleToken,
    source: ActorId,
    id: u64,
    first: FTAction,
    at: u64,
    second: FTAction,
    later: u64,
)
    requires
        tx_id_of(first) == Some(id),
        tx_id_of(second) == Some(id),
        at + pre.config.tx_storage_period <= u64::MAX,
        later + mid.config.tx_storage_period <= u64::MAX,
        outcome(pre, source, at, first).is_ok(),
        mid.tx_map() == txs_after(pre, source, at, first),
        later > at + pre.config.tx_storage_period,
    ensures
        outcome(mid, source, later, second) == outcome(mid, source, later, untracked(second)),
        balances_after(mid, source, later, second) == balances_after(
            mid,
            source,
            later,
            untracked(second),
        ),
        allowances_after(mid, source, later, second) == allowances_after(
            mid,
            source,
            later,
            untracked(second),
        ),
        outcome(mid, source, later, second).is_ok() ==> live(
            txs_after(mid, source, later, second),
            source,
            id,
            later,
        ) && txs_after(mid, source, later, second)[(source, id)] == later
            + mid.config.tx_storage_period,
{
}

/// Whether `action` is reserved to admins.
pub open spec fn admin_only(action: FTAction) -> bool {
    action is Mint || action is AddAdmin || action is DeleteAdmin || action is TransferToUsers
}

/// Admin exclusivity: an operation reserved to admins, asked for by anyone
/// else, is refused with `NotAdmin` and changes nothing.
pub proof fn law_admin_exclusivity(pre: &FungibleToken, source: ActorId, now: u64, action: FTAction)
    requires
        admin_only(action),
        !pre.spec_is_admin(source),
    ensures
        outcome(pre, source, now, action) == Err::<FTEvent, FTError>(FTError::NotAdmin),
        balances_after(pre, source, now, action) == pre.balance_map(),
        supply_after(pre, source, now, action) == pre.current_supply,
        allowances_after(pre, source, now, action) == pre.allowance_map(),
        admins_after(pre, source, now, action) == pre.admins@,
        txs_after(pre, source, now, action) == pre.tx_map(),
{
}

/// Self-removal guard: an admin who asks for their own dismissal is
/// refused with `CantDeleteYourself` and stays an admin.
pub proof fn law_self_removal_guard(pre: &FungibleToken, source: ActorId, now: u64)
    requires
        pre.spec_is_admin(source),
    ensures
        outcome(pre, source, now, FTAction::DeleteAdmin { admin_id: source }) == Err::<
            FTEvent,
            FTError,
        >(FTError::CantDeleteYourself),
        admins_after(pre, source, now, FTAction::DeleteAdmin { admin_id: source }) == pre.admins@,
{
}

/// Whether `action`, sent by `source`, is a dismissal of `who` that goes
/// through: sent by an admin other than `who`.
pub open spec fn dismisses(pre: &FungibleToken, source: ActorId, action: FTAction, who: ActorId) -> bool {
    action matches FTAction::DeleteAdmin { admin_id } && admin_id == who && source != who
        && pre.spec_is_admin(source)
}

/// Admins stay: an admin is an admin after every operation but their
/// dismissal by another admin, so nobody ever removes themself.
pub proof fn law_admins_leave_only_by_dismissal(
    pre: &FungibleToken,
    source: ActorId,
    now: u64,
    action: FTAction,
    who: ActorId,
)
    requires
        pre.spec_is_admin(who),
    ensures
        admins_after(pre, source, now, action).contains(who) <==> !dismisses(
            pre,
            source,
            action,
            who,
        ),
{
    let i = choose|i: int| 0 <= i < pre.admins@.len() && pre.admins@[i] == who;
    match action {
        FTAction::AddAdmin { admin_id } => {
            assert(pre.admins@.push(admin_id)[i] == who);
        },
        FTAction::DeleteAdmin { admin_id } => {
            lemma_without_members(pre.admins@, admin_id, who);
        },
        _ => {},
    }
}

} // verus!
