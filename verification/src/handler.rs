//! Bringing a token to life, routing operations to it and answering
//! questions about it.

use crate::contract::{credited, debited, drawn, moved, paid_out, without, FungibleToken};
use crate::io::{
    ActorId, ExternalLinks, FTAction, FTError, FTEvent, FTQuery, FTQueryReply, InitFt,
    MAX_DECIMALS, MAX_DESCRIPTION_CHARS,
};
use crate::store::{
    allowance_table_new, balance_insert, balance_table_new, index_get, tx_get, tx_index_new,
    tx_table_new,
};
use crate::supply::{lemma_total_empty, lemma_total_insert};
use crate::tracker::{checked, recorded};
use vstd::pervasive::unreached;
use vstd::prelude::*;

verus! {

/// Why an initialization would be refused, if it would: too long a
/// description comes before too many decimals.
pub open spec fn init_refusal(init_config: &InitFt) -> Option<FTError> {
    if init_config.description@.len() > MAX_DESCRIPTION_CHARS {
        Some(FTError::DescriptionError)
    } else if init_config.decimals > MAX_DECIMALS {
        Some(FTError::DecimalsError)
    } else {
        None
    }
}

/// Whether `ft` is the token that `init_config` describes, before any
/// operation: the whole supply with the designated admin, who is the only
/// admin, nothing allowed and no transaction remembered.
pub open spec fn started_from(ft: &FungibleToken, init_config: &InitFt) -> bool {
    &&& ft.name == init_config.name
    &&& ft.symbol == init_config.symbol
    &&& ft.decimals == init_config.decimals
    &&& ft.description == init_config.description
    &&& ft.external_links == init_config.external_links
    &&& ft.config == init_config.config
    &&& ft.current_supply == init_config.initial_supply
    &&& ft.balance_map() == Map::<ActorId, u128>::empty().insert(
        init_config.admin,
        init_config.initial_supply,
    )
    &&& ft.allowance_map() == Map::<(ActorId, ActorId), u128>::empty()
    &&& ft.tx_map() == Map::<(ActorId, u64), u64>::empty()
    &&& ft.index_map() == Map::<ActorId, Set<u64>>::empty()
    &&& ft.admins@ == seq![init_config.admin]
}

/// Brings a token to life: the whole initial supply goes to the designated
/// admin, who is the only admin; nothing is allowed and no transaction is
/// remembered yet.
pub fn init(init_config: InitFt) -> (r: Result<FungibleToken, FTError>)
    ensures
        match r {
            Err(e) => init_refusal(&init_config) == Some(e),
            Ok(ft) => init_refusal(&init_config).is_none() && ft.wf() && started_from(
                &ft,
                &init_config,
            ),
        },
{
    if init_config.description.as_str().unicode_len() > MAX_DESCRIPTION_CHARS {
        return Err(FTError::DescriptionError);
    }
    if init_config.decimals > MAX_DECIMALS {
        return Err(FTError::DecimalsError);
    }
    let mut balances = balance_table_new();
    proof {
        lemma_total_empty();
        lemma_total_insert(
            Map::<ActorId, u128>::empty(),
            init_config.admin,
            init_config.initial_supply,
        );
    }
    balance_insert(&mut balances, &init_config.admin, init_config.initial_supply);
    let mut admins: Vec<ActorId> = Vec::new();
    admins.push(init_config.admin);
    let ft = FungibleToken {
        name: init_config.name,
        symbol: init_config.symbol,
        decimals: init_config.decimals,
        description: init_config.description,
        external_links: init_config.external_links,
        current_supply: init_config.initial_supply,
        balances,
        allowances: allowance_table_new(),
        tx_ids: tx_table_new(),
        account_to_tx_ids: tx_index_new(),
        config: init_config.config,
        admins,
    };
    assert(ft.admins@ =~= seq![init_config.admin]);
    Ok(ft)
}

/// What the machine must be able to hold for `action` to be carried out:
/// the supply after a mint that goes through, and the time until which a
/// transfer or an approval that goes through remembers its transaction id.
/// An operation that is refused asks for nothing.
pub open spec fn in_range(ft: &FungibleToken, source: ActorId, now: u64, action: &FTAction) -> bool {
    match *action {
        FTAction::Mint { amount, to } => ft.spec_is_admin(source) ==> ft.current_supply + amount
            <= u128::MAX,
        FTAction::Transfer { tx_id, from, to, amount } => tx_id.is_some() && ft.transfer_refusal(
            source,
            now,
            tx_id,
            from,
            to,
            amount,
        ).is_none() ==> now + ft.config.tx_storage_period <= u64::MAX,
        FTAction::Approve { tx_id, to, amount } => tx_id.is_some() && ft.approve_refusal(
            source,
            now,
            tx_id,
            to,
        ).is_none() ==> now + ft.config.tx_storage_period <= u64::MAX,
        _ => true,
    }
}

/// Whether `action` may proceed on `ft` at time `now`, as far as the
/// machine's number ranges go.
pub fn fits(ft: &FungibleToken, source: &ActorId, now: u64, action: &FTAction) -> (ok: bool)
    ensures
        ok == in_range(ft, *source, now, action),
{
    match action {
        FTAction::Mint { amount, to } => !ft.is_admin(source) || ft.current_supply <= u128::MAX
            - *amount,
        FTAction::Transfer { tx_id, from, to, amount } => tx_id.is_none() || now <= u64::MAX
            - ft.config.tx_storage_period || ft.transfer_check(
            source,
            now,
            *tx_id,
            from,
            to,
            *amount,
        ).is_some(),
        FTAction::Approve { tx_id, to, amount } => tx_id.is_none() || now <= u64::MAX
            - ft.config.tx_storage_period || ft.approve_check(source, now, *tx_id, to).is_some(),
        _ => true,
    }
}

/// The result that `action`, sent by `source` at time `now`, has on `pre`.
pub open spec fn outcome(pre: &FungibleToken, source: ActorId, now: u64, action: FTAction) -> Result<
    FTEvent,
    FTError,
> {
    match action {
        FTAction::TransferToUsers { amount, to_users } => if !pre.spec_is_admin(source) {
            Err(FTError::NotAdmin)
        } else if pre.spec_balance_of(source) < amount * to_users@.len() {
            Err(FTError::NotEnoughBalance)
        } else {
            Ok(FTEvent::TransferredToUsers { from: source, to_users, amount })
        },
        FTAction::Mint { amount, to } => if pre.spec_is_admin(source) {
            Ok(FTEvent::Minted { to, amount })
        } else {
            Err(FTError::NotAdmin)
        },
        FTAction::Burn { amount } => if pre.spec_balance_of(source) >= amount {
            Ok(FTEvent::Transferred { from: source, to: ActorId::spec_zero(), amount })
        } else {
            Err(FTError::NotEnoughBalance)
        },
        FTAction::Transfer { tx_id, from, to, amount } => match pre.transfer_refusal(
            source,
            now,
            tx_id,
            from,
            to,
            amount,
        ) {
            Some(e) => Err(e),
            None => Ok(FTEvent::Transferred { from, to, amount }),
        },
        FTAction::Approve { tx_id, to, amount } => match pre.approve_refusal(
            source,
            now,
            tx_id,
            to,
        ) {
            Some(e) => Err(e),
            None => Ok(FTEvent::Approved { from: source, to, amount }),
        },
        FTAction::BalanceOf(account) => Ok(FTEvent::Balance(pre.spec_balance_of(account))),
        FTAction::AddAdmin { admin_id } => if !pre.spec_is_admin(source) {
            Err(FTError::NotAdmin)
        } else if pre.spec_is_admin(admin_id) {
            Err(FTError::AdminAlreadyExists)
        } else {
            Ok(FTEvent::AdminAdded { admin_id })
        },
        FTAction::DeleteAdmin { admin_id } => if !pre.spec_is_admin(source) {
            Err(FTError::NotAdmin)
        } else if admin_id == source {
            Err(FTError::CantDeleteYourself)
        } else {
            Ok(FTEvent::AdminRemoved { admin_id })
        },
    }
}

/// The balances that `action`, sent by `source` at time `now`, leaves
/// behind: those of `pre` unless it went through.
pub open spec fn balances_after(
    pre: &FungibleToken,
    source: ActorId,
    now: u64,
    action: FTAction,
) -> Map<ActorId, u128> {
    if outcome(pre, source, now, action).is_err() {
        pre.balance_map()
    } else {
        match action {
            FTAction::TransferToUsers { amount, to_users } => paid_out(
                pre.balance_map(),
                source,
                to_users@,
                amount,
            ),
            FTAction::Mint { amount, to } => credited(pre.balance_map(), to, amount),
            FTAction::Burn { amount } => debited(pre.balance_map(), source, amount),
            FTAction::Transfer { tx_id, from, to, amount } => moved(
                pre.balance_map(),
                from,
                to,
                amount,
            ),
            _ => pre.balance_map(),
        }
    }
}

/// The supply that `action` leaves behind: only a mint or a burn that went
/// through changes it.
pub open spec fn supply_after(pre: &FungibleToken, source: ActorId, now: u64, action: FTAction) -> int {
    if outcome(pre, source, now, action).is_err() {
        pre.current_supply as int
    } else {
        match action {
            FTAction::Mint { amount, to } => pre.current_supply + amount,
            FTAction::Burn { amount } => pre.current_supply - amount,
            _ => pre.current_supply as int,
        }
    }
}

/// The allowances that `action` leaves behind: only an approval or a
/// transfer that went through changes them.
pub open spec fn allowances_after(
    pre: &FungibleToken,
    source: ActorId,
    now: u64,
    action: FTAction,
) -> Map<(ActorId, ActorId), u128> {
    if outcome(pre, source, now, action).is_err() {
        pre.allowance_map()
    } else {
        match action {
            FTAction::Transfer { tx_id, from, to, amount } => drawn(
                pre.allowance_map(),
                source,
                from,
                amount,
            ),
            FTAction::Approve { tx_id, to, amount } => pre.allowance_map().insert(
                (source, to),
                amount,
            ),
            _ => pre.allowance_map(),
        }
    }
}

/// The admins that `action` leaves behind: only an appointment or a
/// dismissal that went through changes them.
pub open spec fn admins_after(pre: &FungibleToken, source: ActorId, now: u64, action: FTAction) -> Seq<
    ActorId,
> {
    if outcome(pre, source, now, action).is_err() {
        pre.admins@
    } else {
        match action {
            FTAction::AddAdmin { admin_id } => pre.admins@.push(admin_id),
            FTAction::DeleteAdmin { admin_id } => without(pre.admins@, admin_id),
            _ => pre.admins@,
        }
    }
}

/// The remembered transactions that `action` leaves behind. A transfer or
/// an approval that got past its address check sweeps the caller's run-out
/// transactions, and remembers its own id if it went through.
pub open spec fn txs_after(pre: &FungibleToken, source: ActorId, now: u64, action: FTAction) -> Map<
    (ActorId, u64),
    u64,
> {
    let went_through = outcome(pre, source, now, action).is_ok();
    let (tx_id, addressed) = match action {
        FTAction::Transfer { tx_id, from, to, amount } => (
            tx_id,
            !from.spec_is_zero() && !to.spec_is_zero(),
        ),
        FTAction::Approve { tx_id, to, amount } => (tx_id, !to.spec_is_zero()),
        _ => (None, false),
    };
    if !addressed {
        pre.tx_map()
    } else if went_through {
        recorded(
            checked(pre.tx_map(), source, now, tx_id),
            source,
            now,
            pre.config.tx_storage_period,
            tx_id,
        )
    } else {
        checked(pre.tx_map(), source, now, tx_id)
    }
}

/// Whether `action` looks at the remembered transactions at all: a transfer
/// or an approval that carries a transaction id and names no zero address.
pub open spec fn consults_txs(action: FTAction) -> bool {
    match action {
        FTAction::Transfer { tx_id, from, to, amount } => tx_id.is_some() && !from.spec_is_zero()
            && !to.spec_is_zero(),
        FTAction::Approve { tx_id, to, amount } => tx_id.is_some() && !to.spec_is_zero(),
        _ => false,
    }
}

/// Whether `post` and `r` are what `action`, sent by `source` at time
/// `now`, makes of `pre`.
pub open spec fn handled(
    pre: &FungibleToken,
    post: &FungibleToken,
    source: ActorId,
    now: u64,
    action: FTAction,
    r: Result<FTEvent, FTError>,
) -> bool {
    &&& r == outcome(pre, source, now, action)
    &&& post.same_meta(pre)
    &&& post.balance_map() == balances_after(pre, source, now, action)
    &&& post.current_supply == supply_after(pre, source, now, action)
    &&& post.allowance_map() == allowances_after(pre, source, now, action)
    &&& post.admins@ == admins_after(pre, source, now, action)
    &&& post.tx_map() == txs_after(pre, source, now, action)
    &&& !consults_txs(action) ==> post.index_map() == pre.index_map()
}

/// Carries out one operation sent by `source` at time `now` and reports
/// its one result. Every part of the token ends as the operation says, and
/// a sound token stays sound.
pub fn handle(ft: &mut FungibleToken, source: &ActorId, now: u64, action: FTAction) -> (r: Result<
    FTEvent,
    FTError,
>)
    requires
        old(ft).wf(),
        in_range(old(ft), *source, now, &action),
    ensures
        final(ft).wf(),
        handled(old(ft), final(ft), *source, now, action, r),
{
    match action {
        FTAction::TransferToUsers { amount, to_users } => ft.transfer_to_users(
            source,
            amount,
            to_users,
        ),
        FTAction::Mint { amount, to } => ft.mint(source, amount, to),
        FTAction::Burn { amount } => ft.burn(source, amount),
        FTAction::Transfer { tx_id, from, to, amount } => ft.transfer(
            source,
            now,
            tx_id,
            &from,
            &to,
            amount,
        ),
        FTAction::Approve { tx_id, to, amount } => ft.approve(source, now, tx_id, &to, amount),
        FTAction::BalanceOf(account) => Ok(FTEvent::Balance(ft.balance_of(&account))),
        FTAction::AddAdmin { admin_id } => ft.add_admin(source, &admin_id),
        FTAction::DeleteAdmin { admin_id } => ft.delete_admin(source, &admin_id),
    }
}

/// Carries out `action` where the machine's number ranges allow it, and
/// otherwise reports nothing and leaves the token as it was.
pub fn try_handle(ft: &mut FungibleToken, source: &ActorId, now: u64, action: FTAction) -> (r:
    Option<Result<FTEvent, FTError>>)
    requires
        old(ft).wf(),
    ensures
        final(ft).wf(),
        r.is_some() == in_range(old(ft), *source, now, &action),
        r.is_none() ==> final(ft).same_state(old(ft)),
        r.is_some() ==> handled(old(ft), final(ft), *source, now, action, r.unwrap()),
{
    if fits(ft, source, now, &action) {
        Some(handle(ft, source, now, action))
    } else {
        None
    }
}

/// Until when `tx` remembers (`account`, `tx_id`); zero where it does not.
pub open spec fn valid_until_in(tx: Map<(ActorId, u64), u64>, account: ActorId, tx_id: u64) -> u64 {
    if tx.dom().contains((account, tx_id)) {
        tx[(account, tx_id)]
    } else {
        0
    }
}

/// The transaction ids that `ix` lists for `account`; none where it has no
/// entry.
pub open spec fn ids_in(ix: Map<ActorId, Set<u64>>, account: ActorId) -> Set<u64> {
    if ix.dom().contains(account) {
        ix[account]
    } else {
        Set::empty()
    }
}

/// The admins, in order of appointment.
fn admins_of(ft: &FungibleToken) -> (admins: Vec<ActorId>)
    ensures
        admins@ == ft.admins@,
{
    let mut admins: Vec<ActorId> = Vec::new();
    let mut i: usize = 0;
    while i < ft.admins.len()
        invariant
            i <= ft.admins.len(),
            admins@ == ft.admins@.take(i as int),
        decreases ft.admins.len() - i,
    {
        admins.push(ft.admins[i]);
        assert(admins@ =~= ft.admins@.take(i + 1));
        i += 1;
    }
    assert(ft.admins@.take(i as int) =~= ft.admins@);
    admins
}

/// Whether `reply` is the answer of `ft` to `query`.
pub open spec fn answers(ft: &FungibleToken, query: FTQuery, reply: FTQueryReply) -> bool {
    match query {
            FTQuery::Name => reply == FTQueryReply::Name(ft.name),
            FTQuery::Symbol => reply == FTQueryReply::Symbol(ft.symbol),
            FTQuery::Decimals => reply == FTQueryReply::Decimals(ft.decimals),
            FTQuery::CurrentSupply => reply == FTQueryReply::CurrentSupply(ft.current_supply),
            FTQuery::Description => reply == FTQueryReply::Description(ft.description),
            FTQuery::ExternalLinks => reply == FTQueryReply::ExternalLinks(ft.external_links),
            FTQuery::BalanceOf(account) => reply == FTQueryReply::Balance(
                ft.spec_balance_of(account),
            ),
            FTQuery::AllowanceOfAccount { account, approved_account } => reply
                == FTQueryReply::AllowanceOfAccount(ft.spec_allowance(account, approved_account)),
            FTQuery::Admins => reply matches FTQueryReply::Admins(admins) && admins@
                == ft.admins@,
            FTQuery::GetTxValidityTime { account, tx_id } => reply
                == FTQueryReply::TxValidityTime(valid_until_in(ft.tx_map(), account, tx_id)),
            FTQuery::GetTxIdsForAccount { account } => reply matches FTQueryReply::TxIdsForAccount {
                tx_ids,
            } && tx_ids@.no_duplicates() && tx_ids@.to_set() == ids_in(
                ft.index_map(),
                account,
            ),
        }
}

/// Answers one question about the token, which stays as it is. The ids of
/// an account's transactions come in no particular order, each once.
pub fn state(ft: &FungibleToken, query: FTQuery) -> (reply: FTQueryReply)
    ensures
        answers(ft, query, reply),
{
    match query {
        FTQuery::Name => FTQueryReply::Name(ft.name.clone()),
        FTQuery::Symbol => FTQueryReply::Symbol(ft.symbol.clone()),
        FTQuery::Decimals => FTQueryReply::Decimals(ft.decimals),
        FTQuery::CurrentSupply => FTQueryReply::CurrentSupply(ft.current_supply),
        FTQuery::Description => FTQueryReply::Description(ft.description.clone()),
        FTQuery::ExternalLinks => FTQueryReply::ExternalLinks(
            ExternalLinks { twitter: ft.external_links.twitter.clone() },
        ),
        FTQuery::BalanceOf(account) => FTQueryReply::Balance(ft.balance_of(&account)),
        FTQuery::AllowanceOfAccount { account, approved_account } => {
            FTQueryReply::AllowanceOfAccount(ft.allowance(&account, &approved_account))
        },
        FTQuery::Admins => FTQueryReply::Admins(admins_of(ft)),
        FTQuery::GetTxValidityTime { account, tx_id } => {
            let valid_until = match tx_get(&ft.tx_ids, &account, tx_id) {
                Some(valid_until) => valid_until,
                None => 0,
            };
            FTQueryReply::TxValidityTime(valid_until)
        },
        FTQuery::GetTxIdsForAccount { account } => {
            let tx_ids = match index_get(&ft.account_to_tx_ids, &account) {
                Some(tx_ids) => tx_ids,
                None => Vec::new(),
            };
            assert(tx_ids@.to_set() =~= ids_in(ft.index_map(), account));
            FTQueryReply::TxIdsForAccount { tx_ids }
        },
    }
}

/// The token across its life: it takes operations only once it has been
/// brought to life, and it is brought to life once.
pub enum Program {
    /// No initialization has gone through yet.
    Uninitialized,
    /// The token is there and takes operations.
    Ready(FungibleToken),
}

impl Program {
    /// Nothing is wrong with the token, if there is one.
    pub open spec fn wf(&self) -> bool {
        match *self {
            Program::Uninitialized => true,
            Program::Ready(ft) => ft.wf(),
        }
    }

    /// A program that waits for its initialization.
    pub fn new() -> (program: Program)
        ensures
            program is Uninitialized,
    {
        Program::Uninitialized
    }

    /// Whether the initialization has gone through.
    pub fn is_ready(&self) -> (ready: bool)
        ensures
            ready == (*self is Ready),
    {
        match self {
            Program::Uninitialized => false,
            Program::Ready(_) => true,
        }
    }

    /// Initializes a program that has not been initialized. A refused
    /// initialization leaves it waiting; an accepted one makes it ready,
    /// with the token that `init` builds.
    pub fn init(&mut self, init_config: InitFt) -> (r: Result<FTEvent, FTError>)
        requires
            *old(self) is Uninitialized,
        ensures
            final(self).wf(),
            r == (match init_refusal(&init_config) {
                Some(e) => Err::<FTEvent, FTError>(e),
                None => Ok::<FTEvent, FTError>(FTEvent::Initialized),
            }),
            r.is_err() ==> *final(self) is Uninitialized,
            r.is_ok() ==> *final(self) is Ready && started_from(
                &final(self)->Ready_0,
                &init_config,
            ),
    {
        match init(init_config) {
            Ok(ft) => {
                *self = Program::Ready(ft);
                Ok(FTEvent::Initialized)
            },
            Err(e) => Err(e),
        }
    }

    /// Carries out one operation on a ready program, as `handle` does on
    /// its token.
    pub fn handle(&mut self, source: &ActorId, now: u64, action: FTAction) -> (r: Result<
        FTEvent,
        FTError,
    >)
        requires
            *old(self) is Ready,
            old(self).wf(),
            in_range(&old(self)->Ready_0, *source, now, &action),
        ensures
            *final(self) is Ready,
            final(self).wf(),
            handled(&old(self)->Ready_0, &final(self)->Ready_0, *source, now, action, r),
    {
        match self {
            Program::Ready(ft) => handle(ft, source, now, action),
            Program::Uninitialized => unreached(),
        }
    }

    /// Answers one question about the token of a ready program.
    pub fn state(&self, query: FTQuery) -> (reply: FTQueryReply)
        requires
            *self is Ready,
        ensures
            answers(&self->Ready_0, query, reply),
    {
        match self {
            Program::Ready(ft) => state(ft, query),
            Program::Uninitialized => unreached(),
        }
    }
}

} // verus!
