use fungible_token::contract::FungibleToken;
use fungible_token::handler::{fits, handle, init, state, try_handle, Program};
use fungible_token::io::{
    ActorId, Config, ExternalLinks, FTAction, FTError, FTEvent, FTQuery, FTQueryReply, InitFt,
};

fn id(n: u128) -> ActorId {
    ActorId::new(0, n)
}

fn config(supply: u128, admin: ActorId, period: u64) -> InitFt {
    InitFt {
        name: String::from("Token"),
        symbol: String::from("TKN"),
        decimals: 18,
        description: String::from("A token"),
        external_links: ExternalLinks { twitter: String::from("@token") },
        initial_supply: supply,
        admin,
        config: Config { tx_storage_period: period, tx_payment: 0 },
    }
}

fn token(supply: u128, admin: ActorId, period: u64) -> FungibleToken {
    init(config(supply, admin, period)).unwrap()
}

fn balance(ft: &FungibleToken, who: ActorId) -> u128 {
    match state(ft, FTQuery::BalanceOf(who)) {
        FTQueryReply::Balance(b) => b,
        other => panic!("unexpected reply {:?}", other),
    }
}

fn allowance(ft: &FungibleToken, owner: ActorId, spender: ActorId) -> u128 {
    match state(ft, FTQuery::AllowanceOfAccount { account: owner, approved_account: spender }) {
        FTQueryReply::AllowanceOfAccount(a) => a,
        other => panic!("unexpected reply {:?}", other),
    }
}

fn supply(ft: &FungibleToken) -> u128 {
    match state(ft, FTQuery::CurrentSupply) {
        FTQueryReply::CurrentSupply(s) => s,
        other => panic!("unexpected reply {:?}", other),
    }
}

fn tx_ids(ft: &FungibleToken, who: ActorId) -> Vec<u64> {
    match state(ft, FTQuery::GetTxIdsForAccount { account: who }) {
        FTQueryReply::TxIdsForAccount { mut tx_ids } => {
            tx_ids.sort();
            tx_ids
        }
        other => panic!("unexpected reply {:?}", other),
    }
}

fn valid_until(ft: &FungibleToken, who: ActorId, tx_id: u64) -> u64 {
    match state(ft, FTQuery::GetTxValidityTime { account: who, tx_id }) {
        FTQueryReply::TxValidityTime(t) => t,
        other => panic!("unexpected reply {:?}", other),
    }
}

#[test]
fn init_credits_the_admin_with_the_whole_supply() {
    let a = id(1);
    let ft = token(1000, a, 100);
    assert_eq!(balance(&ft, a), 1000);
    assert_eq!(supply(&ft), 1000);
    assert_eq!(state(&ft, FTQuery::Admins), FTQueryReply::Admins(vec![a]));
    assert_eq!(balance(&ft, id(2)), 0);
    assert_eq!(allowance(&ft, a, id(2)), 0);
    assert_eq!(tx_ids(&ft, a), Vec::<u64>::new());
}

#[test]
fn init_refuses_a_description_of_501_characters() {
    let mut cfg = config(1, id(1), 1);
    cfg.description = "x".repeat(501);
    assert_eq!(init(cfg).err(), Some(FTError::DescriptionError));
}

#[test]
fn init_counts_characters_not_bytes() {
    let mut cfg = config(1, id(1), 1);
    cfg.description = "\u{e9}".repeat(500);
    assert!(cfg.description.len() > 500);
    assert!(init(cfg).is_ok());
}

#[test]
fn init_refuses_101_decimals() {
    let mut cfg = config(1, id(1), 1);
    cfg.decimals = 101;
    assert_eq!(init(cfg).err(), Some(FTError::DecimalsError));
    let mut cfg = config(1, id(1), 1);
    cfg.decimals = 100;
    assert!(init(cfg).is_ok());
}

#[test]
fn init_reports_the_description_before_the_decimals() {
    let mut cfg = config(1, id(1), 1);
    cfg.decimals = 200;
    cfg.description = "x".repeat(600);
    assert_eq!(init(cfg).err(), Some(FTError::DescriptionError));
}

#[test]
fn approve_then_delegated_transfer_then_replay() {
    let (a, s, b) = (id(1), id(2), id(3));
    let mut ft = token(1000, a, 100);
    assert_eq!(
        ft.approve(&a, 0, None, &s, 200),
        Ok(FTEvent::Approved { from: a, to: s, amount: 200 })
    );
    assert_eq!(
        ft.transfer(&s, 0, Some(7), &a, &b, 150),
        Ok(FTEvent::Transferred { from: a, to: b, amount: 150 })
    );
    assert_eq!(balance(&ft, a), 850);
    assert_eq!(balance(&ft, b), 150);
    assert_eq!(allowance(&ft, a, s), 50);
    assert_eq!(ft.transfer(&s, 99, Some(7), &a, &b, 150), Err(FTError::TxAlreadyExists));
    assert_eq!(balance(&ft, a), 850);
    assert_eq!(balance(&ft, b), 150);
    assert_eq!(allowance(&ft, a, s), 50);
    assert_eq!(supply(&ft), 1000);
}

#[test]
fn replay_is_refused_up_to_the_last_moment_and_accepted_after() {
    let (a, b) = (id(1), id(2));
    let mut ft = token(1000, a, 100);
    assert!(ft.transfer(&a, 10, Some(7), &a, &b, 1).is_ok());
    assert_eq!(valid_until(&ft, a, 7), 110);
    assert_eq!(tx_ids(&ft, a), vec![7]);
    assert_eq!(ft.transfer(&a, 110, Some(7), &a, &b, 1), Err(FTError::TxAlreadyExists));
    assert_eq!(balance(&ft, b), 1);
    assert_eq!(
        ft.transfer(&a, 111, Some(7), &a, &b, 1),
        Ok(FTEvent::Transferred { from: a, to: b, amount: 1 })
    );
    assert_eq!(balance(&ft, b), 2);
    assert_eq!(valid_until(&ft, a, 7), 211);
    assert_eq!(tx_ids(&ft, a), vec![7]);
}

#[test]
fn transaction_ids_are_kept_apart_by_caller() {
    let (a, b) = (id(1), id(2));
    let mut ft = token(1000, a, 100);
    assert!(ft.transfer(&a, 0, Some(7), &a, &b, 10).is_ok());
    assert!(ft.transfer(&b, 0, Some(7), &b, &a, 5).is_ok());
    assert_eq!(balance(&ft, a), 995);
    assert_eq!(tx_ids(&ft, a), vec![7]);
    assert_eq!(tx_ids(&ft, b), vec![7]);
}

#[test]
fn sweep_forgets_only_what_has_run_out() {
    let (a, b) = (id(1), id(2));
    let mut ft = token(1000, a, 100);
    assert!(ft.transfer(&a, 0, Some(1), &a, &b, 1).is_ok());
    assert!(ft.transfer(&a, 50, Some(2), &a, &b, 1).is_ok());
    assert!(ft.transfer(&a, 60, Some(3), &a, &b, 1).is_ok());
    assert_eq!(tx_ids(&ft, a), vec![1, 2, 3]);
    assert!(ft.approve(&a, 155, Some(4), &b, 0).is_ok());
    assert_eq!(tx_ids(&ft, a), vec![3, 4]);
    assert_eq!(valid_until(&ft, a, 1), 0);
    assert_eq!(valid_until(&ft, a, 2), 0);
    assert_eq!(valid_until(&ft, a, 3), 160);
    assert_eq!(valid_until(&ft, a, 4), 255);
}

#[test]
fn a_refused_replay_still_sweeps_and_drops_an_empty_index_entry() {
    let (a, b) = (id(1), id(2));
    let mut ft = token(10, a, 5);
    assert!(ft.transfer(&a, 0, Some(1), &a, &b, 1).is_ok());
    assert_eq!(ft.transfer(&a, 100, Some(2), &a, &b, 1000), Err(FTError::NotEnoughBalance));
    assert_eq!(tx_ids(&ft, a), Vec::<u64>::new());
    assert_eq!(valid_until(&ft, a, 1), 0);
    assert_eq!(valid_until(&ft, a, 2), 0);
    assert_eq!(balance(&ft, a), 9);
}

#[test]
fn operations_without_a_transaction_id_skip_the_tracker() {
    let (a, b) = (id(1), id(2));
    let mut ft = token(10, a, 5);
    assert!(ft.transfer(&a, 0, None, &a, &b, 1).is_ok());
    assert!(ft.transfer(&a, 0, None, &a, &b, 1).is_ok());
    assert_eq!(balance(&ft, b), 2);
    assert_eq!(tx_ids(&ft, a), Vec::<u64>::new());
}

#[test]
fn approve_takes_part_in_replay_protection() {
    let (a, s) = (id(1), id(2));
    let mut ft = token(10, a, 5);
    assert!(ft.approve(&a, 0, Some(9), &s, 3).is_ok());
    assert_eq!(ft.approve(&a, 5, Some(9), &s, 8), Err(FTError::TxAlreadyExists));
    assert_eq!(allowance(&ft, a, s), 3);
    assert_eq!(
        ft.approve(&a, 6, Some(9), &s, 8),
        Ok(FTEvent::Approved { from: a, to: s, amount: 8 })
    );
    assert_eq!(allowance(&ft, a, s), 8);
}

#[test]
fn approve_overwrites_and_does_not_add() {
    let (a, s) = (id(1), id(2));
    let mut ft = token(10, a, 5);
    assert!(ft.approve(&a, 0, None, &s, 200).is_ok());
    assert!(ft.approve(&a, 0, None, &s, 30).is_ok());
    assert_eq!(allowance(&ft, a, s), 30);
    assert_eq!(allowance(&ft, s, a), 0);
}

#[test]
fn approve_refuses_the_zero_address() {
    let a = id(1);
    let mut ft = token(10, a, 5);
    assert_eq!(ft.approve(&a, 0, Some(1), &ActorId::zero(), 1), Err(FTError::ZeroAddress));
    assert_eq!(tx_ids(&ft, a), Vec::<u64>::new());
}

#[test]
fn transfer_refuses_the_zero_address_on_either_side() {
    let (a, b) = (id(1), id(2));
    let mut ft = token(10, a, 5);
    assert_eq!(ft.transfer(&a, 0, None, &ActorId::zero(), &b, 0), Err(FTError::ZeroAddress));
    assert_eq!(ft.transfer(&a, 0, None, &a, &ActorId::zero(), 1), Err(FTError::ZeroAddress));
    assert_eq!(balance(&ft, a), 10);
    assert!(ActorId::zero().is_zero());
    assert!(!ActorId::new(1, 0).is_zero());
    assert!(!ActorId::new(0, 1).is_zero());
}

#[test]
fn transfer_beyond_the_balance_changes_nothing() {
    let (a, b) = (id(1), id(2));
    let mut ft = token(10, a, 5);
    assert_eq!(ft.transfer(&a, 0, None, &a, &b, 11), Err(FTError::NotEnoughBalance));
    assert_eq!(ft.transfer(&b, 0, None, &b, &a, 1), Err(FTError::NotEnoughBalance));
    assert_eq!(balance(&ft, a), 10);
    assert_eq!(balance(&ft, b), 0);
    assert_eq!(supply(&ft), 10);
}

#[test]
fn balance_is_looked_at_before_the_allowance() {
    let (a, s, b) = (id(1), id(2), id(3));
    let mut ft = token(10, a, 5);
    assert_eq!(ft.transfer(&s, 0, None, &a, &b, 11), Err(FTError::NotEnoughBalance));
    assert_eq!(ft.transfer(&s, 0, None, &a, &b, 10), Err(FTError::NotAllowedToTransfer));
}

#[test]
fn delegated_transfer_needs_an_allowance_that_covers_it() {
    let (a, s, b) = (id(1), id(2), id(3));
    let mut ft = token(1000, a, 5);
    assert_eq!(ft.transfer(&s, 0, None, &a, &b, 1), Err(FTError::NotAllowedToTransfer));
    assert_eq!(ft.transfer(&s, 0, None, &a, &b, 0), Err(FTError::NotAllowedToTransfer));
    assert!(ft.approve(&a, 0, None, &s, 100).is_ok());
    assert_eq!(ft.transfer(&s, 0, None, &a, &b, 101), Err(FTError::NotAllowedToTransfer));
    assert_eq!(balance(&ft, a), 1000);
    assert_eq!(balance(&ft, b), 0);
    assert_eq!(allowance(&ft, a, s), 100);
    assert!(ft.transfer(&s, 0, None, &a, &b, 100).is_ok());
    assert_eq!(allowance(&ft, a, s), 0);
    assert_eq!(balance(&ft, b), 100);
    assert!(ft.transfer(&s, 0, None, &a, &b, 0).is_ok());
}

#[test]
fn can_transfer_lets_owners_through_and_draws_on_allowances() {
    let (a, s) = (id(1), id(2));
    let mut ft = token(1000, a, 5);
    assert_eq!(ft.can_transfer(&a, &a, 1_000_000), Ok(()));
    assert_eq!(ft.can_transfer(&s, &a, 1), Err(FTError::NotAllowedToTransfer));
    assert!(ft.approve(&a, 0, None, &s, 10).is_ok());
    assert_eq!(ft.can_transfer(&s, &a, 4), Ok(()));
    assert_eq!(allowance(&ft, a, s), 6);
    assert_eq!(ft.can_transfer(&s, &a, 7), Err(FTError::NotAllowedToTransfer));
    assert_eq!(allowance(&ft, a, s), 6);
}

#[test]
fn transfer_to_oneself_keeps_the_balance() {
    let a = id(1);
    let mut ft = token(10, a, 5);
    assert!(ft.transfer(&a, 0, None, &a, &a, 10).is_ok());
    assert_eq!(balance(&ft, a), 10);
    assert_eq!(supply(&ft), 10);
}

#[test]
fn addresses_differ_in_either_half() {
    let (x, y) = (ActorId::new(1, 0), ActorId::new(0, 1));
    let mut ft = token(10, x, 5);
    assert_eq!(balance(&ft, y), 0);
    assert!(ft.transfer(&x, 0, None, &x, &y, 4).is_ok());
    assert_eq!(balance(&ft, x), 6);
    assert_eq!(balance(&ft, y), 4);
    assert_eq!((x.hi, x.lo), (1, 0));
}

#[test]
fn mint_credits_and_grows_the_supply() {
    let (a, b) = (id(1), id(2));
    let mut ft = token(10, a, 5);
    assert_eq!(ft.mint(&a, 5, b), Ok(FTEvent::Minted { to: b, amount: 5 }));
    assert_eq!(ft.mint(&a, 7, a), Ok(FTEvent::Minted { to: a, amount: 7 }));
    assert_eq!(balance(&ft, a), 17);
    assert_eq!(balance(&ft, b), 5);
    assert_eq!(supply(&ft), 22);
    assert_eq!(supply(&ft), balance(&ft, a) + balance(&ft, b));
}

#[test]
fn burn_debits_and_shrinks_the_supply() {
    let (a, b) = (id(1), id(2));
    let mut ft = token(10, a, 5);
    assert_eq!(
        ft.burn(&a, 4),
        Ok(FTEvent::Transferred { from: a, to: ActorId::zero(), amount: 4 })
    );
    assert_eq!(balance(&ft, a), 6);
    assert_eq!(supply(&ft), 6);
    assert_eq!(ft.burn(&a, 7), Err(FTError::NotEnoughBalance));
    assert_eq!(ft.burn(&b, 1), Err(FTError::NotEnoughBalance));
    assert_eq!(
        ft.burn(&b, 0),
        Ok(FTEvent::Transferred { from: b, to: ActorId::zero(), amount: 0 })
    );
    assert_eq!(balance(&ft, a), 6);
    assert_eq!(supply(&ft), 6);
}

#[test]
fn supply_stays_the_sum_of_all_balances() {
    let (a, b, c) = (id(1), id(2), id(3));
    let mut ft = token(100, a, 5);
    assert!(ft.mint(&a, 50, b).is_ok());
    assert!(ft.transfer(&b, 0, None, &b, &c, 20).is_ok());
    assert!(ft.burn(&c, 5).is_ok());
    assert!(ft.transfer_to_users(&a, 10, vec![b, c, a]).is_ok());
    assert!(ft.burn(&a, 1000).is_err());
    assert_eq!(balance(&ft, a), 80);
    assert_eq!(balance(&ft, b), 40);
    assert_eq!(balance(&ft, c), 25);
    assert_eq!(supply(&ft), 145);
}

#[test]
fn transfer_to_users_pays_each_recipient() {
    let (a, b, c) = (id(1), id(2), id(3));
    let mut ft = token(100, a, 5);
    assert_eq!(
        ft.transfer_to_users(&a, 30, vec![b, c, b]),
        Ok(FTEvent::TransferredToUsers { from: a, to_users: vec![b, c, b], amount: 30 })
    );
    assert_eq!(balance(&ft, a), 10);
    assert_eq!(balance(&ft, b), 60);
    assert_eq!(balance(&ft, c), 30);
    assert_eq!(supply(&ft), 100);
}

#[test]
fn transfer_to_users_needs_the_whole_sum_up_front() {
    let (a, b, c) = (id(1), id(2), id(3));
    let mut ft = token(100, a, 5);
    assert_eq!(ft.transfer_to_users(&a, 51, vec![b, c]), Err(FTError::NotEnoughBalance));
    assert_eq!(ft.transfer_to_users(&a, 60, vec![a, a]), Err(FTError::NotEnoughBalance));
    assert_eq!(ft.transfer_to_users(&a, u128::MAX, vec![b, c]), Err(FTError::NotEnoughBalance));
    assert_eq!(balance(&ft, a), 100);
    assert_eq!(balance(&ft, b), 0);
    assert!(ft.transfer_to_users(&a, 50, vec![b, c]).is_ok());
    assert_eq!(balance(&ft, a), 0);
    assert!(ft.transfer_to_users(&a, 1_000, vec![]).is_ok());
}

#[test]
fn admin_operations_refuse_everyone_else() {
    let (a, b, c) = (id(1), id(2), id(3));
    let mut ft = token(100, a, 5);
    assert!(ft.transfer(&a, 0, None, &a, &b, 50).is_ok());
    assert_eq!(ft.mint(&b, 5, b), Err(FTError::NotAdmin));
    assert_eq!(ft.add_admin(&b, &c), Err(FTError::NotAdmin));
    assert_eq!(ft.delete_admin(&b, &a), Err(FTError::NotAdmin));
    assert_eq!(ft.delete_admin(&b, &b), Err(FTError::NotAdmin));
    assert_eq!(ft.transfer_to_users(&b, 1, vec![c]), Err(FTError::NotAdmin));
    assert_eq!(balance(&ft, a), 50);
    assert_eq!(balance(&ft, b), 50);
    assert_eq!(balance(&ft, c), 0);
    assert_eq!(supply(&ft), 100);
    assert_eq!(state(&ft, FTQuery::Admins), FTQueryReply::Admins(vec![a]));
}

#[test]
fn admins_are_appointed_once_and_dismissed_by_others() {
    let (a, b, c) = (id(1), id(2), id(3));
    let mut ft = token(100, a, 5);
    assert!(ft.is_admin(&a));
    assert!(!ft.is_admin(&b));
    assert_eq!(ft.add_admin(&a, &b), Ok(FTEvent::AdminAdded { admin_id: b }));
    assert_eq!(ft.add_admin(&b, &c), Ok(FTEvent::AdminAdded { admin_id: c }));
    assert_eq!(ft.add_admin(&c, &a), Err(FTError::AdminAlreadyExists));
    assert_eq!(state(&ft, FTQuery::Admins), FTQueryReply::Admins(vec![a, b, c]));
    assert_eq!(ft.delete_admin(&b, &b), Err(FTError::CantDeleteYourself));
    assert_eq!(ft.delete_admin(&c, &a), Ok(FTEvent::AdminRemoved { admin_id: a }));
    assert_eq!(state(&ft, FTQuery::Admins), FTQueryReply::Admins(vec![b, c]));
    assert_eq!(ft.delete_admin(&b, &id(9)), Ok(FTEvent::AdminRemoved { admin_id: id(9) }));
    assert_eq!(state(&ft, FTQuery::Admins), FTQueryReply::Admins(vec![b, c]));
    assert_eq!(ft.mint(&a, 1, a), Err(FTError::NotAdmin));
}

#[test]
fn check_balance_compares_with_the_holding() {
    let (a, b) = (id(1), id(2));
    let ft = token(100, a, 5);
    assert_eq!(ft.check_balance(&a, 100), Ok(()));
    assert_eq!(ft.check_balance(&a, 101), Err(FTError::NotEnoughBalance));
    assert_eq!(ft.check_balance(&b, 0), Ok(()));
    assert_eq!(ft.check_balance(&b, 1), Err(FTError::NotEnoughBalance));
    assert_eq!(ft.balance_of(&a), 100);
    assert_eq!(ft.allowance(&a, &b), 0);
}

#[test]
fn handle_routes_every_operation() {
    let (a, b, c) = (id(1), id(2), id(3));
    let mut ft = token(100, a, 10);
    assert_eq!(
        handle(&mut ft, &a, 0, FTAction::Mint { amount: 20, to: b }),
        Ok(FTEvent::Minted { to: b, amount: 20 })
    );
    assert_eq!(
        handle(&mut ft, &b, 0, FTAction::Burn { amount: 5 }),
        Ok(FTEvent::Transferred { from: b, to: ActorId::zero(), amount: 5 })
    );
    assert_eq!(
        handle(&mut ft, &a, 0, FTAction::Approve { tx_id: Some(1), to: b, amount: 40 }),
        Ok(FTEvent::Approved { from: a, to: b, amount: 40 })
    );
    assert_eq!(
        handle(&mut ft, &b, 0, FTAction::Transfer { tx_id: Some(1), from: a, to: c, amount: 40 }),
        Ok(FTEvent::Transferred { from: a, to: c, amount: 40 })
    );
    assert_eq!(
        handle(&mut ft, &b, 10, FTAction::Transfer { tx_id: Some(1), from: b, to: c, amount: 1 }),
        Err(FTError::TxAlreadyExists)
    );
    assert_eq!(
        handle(&mut ft, &a, 0, FTAction::TransferToUsers { amount: 10, to_users: vec![b, c] }),
        Ok(FTEvent::TransferredToUsers { from: a, to_users: vec![b, c], amount: 10 })
    );
    assert_eq!(handle(&mut ft, &c, 0, FTAction::BalanceOf(a)), Ok(FTEvent::Balance(40)));
    assert_eq!(handle(&mut ft, &c, 0, FTAction::BalanceOf(b)), Ok(FTEvent::Balance(25)));
    assert_eq!(handle(&mut ft, &c, 0, FTAction::BalanceOf(c)), Ok(FTEvent::Balance(50)));
    assert_eq!(
        handle(&mut ft, &a, 0, FTAction::AddAdmin { admin_id: b }),
        Ok(FTEvent::AdminAdded { admin_id: b })
    );
    assert_eq!(
        handle(&mut ft, &b, 0, FTAction::DeleteAdmin { admin_id: a }),
        Ok(FTEvent::AdminRemoved { admin_id: a })
    );
    assert_eq!(
        handle(&mut ft, &a, 0, FTAction::Mint { amount: 1, to: a }),
        Err(FTError::NotAdmin)
    );
    assert_eq!(supply(&ft), 115);
}

#[test]
fn try_handle_declines_what_the_number_ranges_cannot_hold() {
    let (a, b) = (id(1), id(2));
    let mut ft = token(100, a, 10);
    assert_eq!(
        try_handle(&mut ft, &a, 0, FTAction::Mint { amount: u128::MAX - 99, to: b }),
        None
    );
    assert_eq!(balance(&ft, b), 0);
    assert_eq!(
        try_handle(&mut ft, &a, 0, FTAction::Mint { amount: u128::MAX - 100, to: b }),
        Some(Ok(FTEvent::Minted { to: b, amount: u128::MAX - 100 }))
    );
    assert_eq!(supply(&ft), u128::MAX);
    assert_eq!(
        try_handle(
            &mut ft,
            &a,
            u64::MAX - 9,
            FTAction::Transfer { tx_id: Some(1), from: a, to: b, amount: 1 }
        ),
        None
    );
    assert_eq!(
        try_handle(
            &mut ft,
            &a,
            u64::MAX - 9,
            FTAction::Approve { tx_id: Some(1), to: b, amount: 1 }
        ),
        None
    );
    assert_eq!(
        try_handle(
            &mut ft,
            &a,
            u64::MAX - 10,
            FTAction::Transfer { tx_id: Some(1), from: a, to: b, amount: 1 }
        ),
        Some(Ok(FTEvent::Transferred { from: a, to: b, amount: 1 }))
    );
    assert_eq!(valid_until(&ft, a, 1), u64::MAX);
    assert_eq!(
        try_handle(
            &mut ft,
            &a,
            u64::MAX,
            FTAction::Transfer { tx_id: None, from: a, to: b, amount: 1 }
        ),
        Some(Ok(FTEvent::Transferred { from: a, to: b, amount: 1 }))
    );
}

#[test]
fn state_answers_every_question() {
    let (a, b) = (id(1), id(2));
    let mut ft = token(100, a, 10);
    assert!(ft.approve(&a, 3, Some(5), &b, 9).is_ok());
    assert_eq!(state(&ft, FTQuery::Name), FTQueryReply::Name(String::from("Token")));
    assert_eq!(state(&ft, FTQuery::Symbol), FTQueryReply::Symbol(String::from("TKN")));
    assert_eq!(state(&ft, FTQuery::Decimals), FTQueryReply::Decimals(18));
    assert_eq!(
        state(&ft, FTQuery::Description),
        FTQueryReply::Description(String::from("A token"))
    );
    assert_eq!(
        state(&ft, FTQuery::ExternalLinks),
        FTQueryReply::ExternalLinks(ExternalLinks { twitter: String::from("@token") })
    );
    assert_eq!(state(&ft, FTQuery::CurrentSupply), FTQueryReply::CurrentSupply(100));
    assert_eq!(state(&ft, FTQuery::BalanceOf(a)), FTQueryReply::Balance(100));
    assert_eq!(
        state(&ft, FTQuery::AllowanceOfAccount { account: a, approved_account: b }),
        FTQueryReply::AllowanceOfAccount(9)
    );
    assert_eq!(state(&ft, FTQuery::Admins), FTQueryReply::Admins(vec![a]));
    assert_eq!(
        state(&ft, FTQuery::GetTxValidityTime { account: a, tx_id: 5 }),
        FTQueryReply::TxValidityTime(13)
    );
    assert_eq!(
        state(&ft, FTQuery::GetTxValidityTime { account: b, tx_id: 5 }),
        FTQueryReply::TxValidityTime(0)
    );
    assert_eq!(
        state(&ft, FTQuery::GetTxIdsForAccount { account: a }),
        FTQueryReply::TxIdsForAccount { tx_ids: vec![5] }
    );
    assert_eq!(
        state(&ft, FTQuery::GetTxIdsForAccount { account: b }),
        FTQueryReply::TxIdsForAccount { tx_ids: vec![] }
    );
}

#[test]
fn a_program_becomes_ready_by_an_accepted_initialization() {
    let (a, b) = (id(1), id(2));
    let mut program = Program::new();
    assert!(!program.is_ready());
    let mut bad = config(1000, a, 100);
    bad.decimals = 101;
    assert_eq!(program.init(bad), Err(FTError::DecimalsError));
    assert!(!program.is_ready());
    assert_eq!(program.init(config(1000, a, 100)), Ok(FTEvent::Initialized));
    assert!(program.is_ready());
    assert_eq!(
        program.handle(&a, 0, FTAction::Transfer { tx_id: None, from: a, to: b, amount: 1 }),
        Ok(FTEvent::Transferred { from: a, to: b, amount: 1 })
    );
    assert_eq!(program.state(FTQuery::BalanceOf(a)), FTQueryReply::Balance(999));
    assert_eq!(program.state(FTQuery::BalanceOf(b)), FTQueryReply::Balance(1));
    assert_eq!(program.handle(&b, 0, FTAction::BalanceOf(b)), Ok(FTEvent::Balance(1)));
}

#[test]
fn fits_tells_what_the_number_ranges_hold() {
    let (a, b) = (id(1), id(2));
    let ft = token(100, a, 10);
    assert!(fits(&ft, &a, 0, &FTAction::Mint { amount: u128::MAX - 100, to: b }));
    assert!(!fits(&ft, &a, 0, &FTAction::Mint { amount: u128::MAX - 99, to: b }));
    assert!(fits(&ft, &b, 0, &FTAction::Mint { amount: u128::MAX, to: b }));
    let timed = FTAction::Approve { tx_id: Some(1), to: b, amount: 1 };
    assert!(fits(&ft, &a, u64::MAX - 10, &timed));
    assert!(!fits(&ft, &a, u64::MAX - 9, &timed));
    let nobody = FTAction::Approve { tx_id: Some(1), to: ActorId::zero(), amount: 1 };
    assert!(fits(&ft, &a, u64::MAX, &nobody));
    let untimed = FTAction::Approve { tx_id: None, to: b, amount: 1 };
    assert!(fits(&ft, &a, u64::MAX, &untimed));
    let broke = FTAction::Transfer { tx_id: Some(1), from: b, to: a, amount: 1 };
    assert!(fits(&ft, &b, u64::MAX, &broke));
    let funded = FTAction::Transfer { tx_id: Some(1), from: a, to: b, amount: 1 };
    assert!(!fits(&ft, &a, u64::MAX, &funded));
    assert!(fits(&ft, &a, u64::MAX, &FTAction::Burn { amount: u128::MAX }));
}

#[test]
fn a_refused_operation_is_reported_whatever_its_numbers() {
    let (a, b) = (id(1), id(2));
    let mut ft = token(100, a, 10);
    assert_eq!(
        try_handle(&mut ft, &b, 0, FTAction::Mint { amount: u128::MAX, to: b }),
        Some(Err(FTError::NotAdmin))
    );
    assert_eq!(
        try_handle(
            &mut ft,
            &b,
            u64::MAX,
            FTAction::Transfer { tx_id: Some(1), from: a, to: b, amount: 1 }
        ),
        Some(Err(FTError::NotAllowedToTransfer))
    );
    assert_eq!(
        try_handle(
            &mut ft,
            &a,
            u64::MAX,
            FTAction::Approve { tx_id: Some(1), to: ActorId::zero(), amount: 1 }
        ),
        Some(Err(FTError::ZeroAddress))
    );
    assert_eq!(supply(&ft), 100);
    assert_eq!(balance(&ft, a), 100);
}

#[test]
fn checks_tell_the_refusal_without_changing_anything() {
    let (a, s, b) = (id(1), id(2), id(3));
    let mut ft = token(100, a, 10);
    assert!(ft.approve(&a, 0, Some(1), &s, 5).is_ok());
    assert_eq!(ft.approve_check(&a, 10, Some(1), &s), Some(FTError::TxAlreadyExists));
    assert_eq!(ft.approve_check(&a, 11, Some(1), &s), None);
    assert_eq!(ft.approve_check(&a, 0, None, &ActorId::zero()), Some(FTError::ZeroAddress));
    assert!(ft.is_replay(&a, 10, Some(1)));
    assert!(!ft.is_replay(&a, 11, Some(1)));
    assert!(!ft.is_replay(&a, 0, Some(2)));
    assert!(!ft.is_replay(&s, 0, Some(1)));
    assert!(!ft.is_replay(&a, 0, None));
    assert_eq!(ft.transfer_check(&s, 0, None, &a, &b, 5), None);
    assert_eq!(ft.transfer_check(&s, 0, None, &a, &b, 6), Some(FTError::NotAllowedToTransfer));
    assert_eq!(ft.transfer_check(&s, 0, None, &a, &b, 101), Some(FTError::NotEnoughBalance));
    assert_eq!(ft.transfer_check(&a, 0, Some(1), &a, &b, 5), Some(FTError::TxAlreadyExists));
    assert_eq!(
        ft.transfer_check(&a, 0, Some(1), &a, &ActorId::zero(), 5),
        Some(FTError::ZeroAddress)
    );
    assert_eq!(ft.transfer_check(&b, 0, None, &a, &b, 1), Some(FTError::NotAllowedToTransfer));
    assert_eq!(tx_ids(&ft, a), vec![1]);
    assert_eq!(allowance(&ft, a, s), 5);
}

#[test]
fn check_and_clear_tx_sweeps_and_tells_replays() {
    let (a, b) = (id(1), id(2));
    let mut ft = token(100, a, 10);
    assert!(ft.transfer(&a, 0, Some(1), &a, &b, 1).is_ok());
    assert!(ft.transfer(&a, 5, Some(2), &a, &b, 1).is_ok());
    assert_eq!(ft.check_and_clear_tx(&a, 100, None), Ok(()));
    assert_eq!(tx_ids(&ft, a), vec![1, 2]);
    assert_eq!(ft.check_and_clear_tx(&a, 11, Some(2)), Err(FTError::TxAlreadyExists));
    assert_eq!(tx_ids(&ft, a), vec![2]);
    assert_eq!(ft.check_and_clear_tx(&a, 11, Some(1)), Ok(()));
    assert_eq!(ft.check_and_clear_tx(&b, 100, Some(1)), Ok(()));
    assert_eq!(tx_ids(&ft, a), vec![2]);
    assert_eq!(ft.check_and_clear_tx(&a, 16, Some(2)), Ok(()));
    assert_eq!(tx_ids(&ft, a), Vec::<u64>::new());
}

#[test]
fn run_out_transactions_stay_until_their_caller_comes_back() {
    let (a, b) = (id(1), id(2));
    let mut ft = token(100, a, 10);
    assert!(ft.transfer(&a, 0, Some(1), &a, &b, 50).is_ok());
    assert!(ft.transfer(&b, 100, Some(5), &b, &a, 1).is_ok());
    assert_eq!(valid_until(&ft, a, 1), 10);
    assert_eq!(tx_ids(&ft, a), vec![1]);
    assert!(ft.transfer(&a, 100, None, &a, &b, 1).is_ok());
    assert_eq!(valid_until(&ft, a, 1), 10);
    assert!(ft.transfer(&a, 100, Some(2), &a, &b, 1).is_ok());
    assert_eq!(valid_until(&ft, a, 1), 0);
    assert_eq!(tx_ids(&ft, a), vec![2]);
    assert_eq!(tx_ids(&ft, b), vec![5]);
}
