use climemate::addr::Address;
use climemate::escrow::{
    buy_tokens, initialize, update_price, withdraw_tokens, BuyTokens, ErrorCode, Escrow,
    WithdrawTokens,
};

const ADMIN: u64 = 10;
const MINT: u64 = 20;
const VAULT: u64 = 30;
const BUYER: u64 = 40;

fn admin() -> Address {
    Address::new(ADMIN)
}

fn fresh_escrow(price_per_token: u64) -> Escrow {
    let mut slot: Option<Escrow> = None;
    initialize(
        &mut slot,
        admin(),
        Address::new(MINT),
        Address::new(VAULT),
        price_per_token,
        254,
    )
    .unwrap();
    slot.unwrap()
}

fn fresh_accounts(buyer_lamports: u64, escrow_tokens: u64) -> BuyTokens {
    BuyTokens {
        buyer: Address::new(BUYER),
        admin: admin(),
        escrow_token_account: Address::new(VAULT),
        buyer_lamports,
        admin_lamports: 1_000,
        escrow_tokens,
        buyer_tokens: 0,
    }
}

#[test]
fn test_initialize_sets_fresh_state() {
    let e = fresh_escrow(500);
    assert_eq!(e.admin, admin());
    assert_eq!(e.token_mint, Address::new(MINT));
    assert_eq!(e.escrow_token_account, Address::new(VAULT));
    assert_eq!(e.price_per_token, 500);
    assert_eq!(e.total_sold, 0);
    assert_eq!(e.total_revenue, 0);
    assert_eq!(e.bump, 254);
}

#[test]
fn test_initialize_twice_fails_without_mutation() {
    let mut slot: Option<Escrow> = None;
    assert!(initialize(&mut slot, admin(), Address::new(MINT), Address::new(VAULT), 500, 254)
        .is_ok());
    let before = slot;
    let r = initialize(&mut slot, Address::new(99), Address::new(98), Address::new(97), 1, 0);
    assert!(matches!(r, Err(ErrorCode::AlreadyInitialized)));
    assert_eq!(slot, before);
}

#[test]
fn test_escrow_scenario() {
    // price 500 payment units per token, two implied decimals:
    // 1000 * 500 / 100 = 5000.
    let mut e = fresh_escrow(500);
    let mut a = fresh_accounts(10_000, 50_000);
    let ev = buy_tokens(&mut e, &mut a, 1000, 1234).unwrap();
    assert_eq!(ev.buyer, Address::new(BUYER));
    assert_eq!(ev.amount, 1000);
    assert_eq!(ev.price, 5000);
    assert_eq!(ev.timestamp, 1234);
    assert_eq!(e.total_sold, 1000);
    assert_eq!(e.total_revenue, 5000);
    assert_eq!(a.buyer_tokens, 1000);
    assert_eq!(a.buyer_lamports, 10_000 - 5000);
    assert_eq!(a.admin_lamports, 1_000 + 5000);
    assert_eq!(a.escrow_tokens, 50_000 - 1000);
}

#[test]
fn test_two_buys_accumulate() {
    let mut e = fresh_escrow(200);
    let mut a = fresh_accounts(1_000_000, 1_000_000);
    assert!(buy_tokens(&mut e, &mut a, 300, 1).is_ok());
    assert_eq!(e.total_sold, 300);
    assert_eq!(e.total_revenue, 300 * 200 / 100);
    assert!(buy_tokens(&mut e, &mut a, 450, 2).is_ok());
    assert_eq!(e.total_sold, 300 + 450);
    assert_eq!(e.total_revenue, (300 * 200 + 450 * 200) / 100);
}

#[test]
fn test_buy_overflow_leaves_state_unchanged() {
    let mut e = fresh_escrow(u64::MAX);
    let mut a = fresh_accounts(10_000, 50_000);
    let before_e = e;
    let before_a = a;
    let r = buy_tokens(&mut e, &mut a, 2, 1);
    assert!(matches!(r, Err(ErrorCode::Overflow)));
    assert_eq!(e, before_e);
    assert_eq!(a, before_a);
}

#[test]
fn test_buy_stat_overflow_leaves_state_unchanged() {
    let mut e = fresh_escrow(100);
    e.total_sold = u64::MAX - 5;
    let mut a = fresh_accounts(1_000_000, 1_000_000);
    let before_e = e;
    let before_a = a;
    let r = buy_tokens(&mut e, &mut a, 10, 1);
    assert!(matches!(r, Err(ErrorCode::Overflow)));
    assert_eq!(e, before_e);
    assert_eq!(a, before_a);
}

#[test]
fn test_buy_insufficient_funds() {
    let mut e = fresh_escrow(500);
    let mut a = fresh_accounts(4_999, 50_000);
    let before_a = a;
    let r = buy_tokens(&mut e, &mut a, 1000, 1);
    assert!(matches!(r, Err(ErrorCode::InsufficientFunds)));
    assert_eq!(a, before_a);
    assert_eq!(e.total_sold, 0);
}

#[test]
fn test_buy_insufficient_inventory() {
    let mut e = fresh_escrow(500);
    let mut a = fresh_accounts(100_000, 999);
    let r = buy_tokens(&mut e, &mut a, 1000, 1);
    assert!(matches!(r, Err(ErrorCode::InsufficientInventory)));
    assert_eq!(e.total_sold, 0);
}

#[test]
fn test_buy_wrong_vault_rejected() {
    let mut e = fresh_escrow(500);
    let mut a = fresh_accounts(100_000, 50_000);
    a.escrow_token_account = Address::new(0xBAD);
    let r = buy_tokens(&mut e, &mut a, 10, 1);
    assert!(matches!(r, Err(ErrorCode::AccountMismatch)));
}

#[test]
fn test_update_price_admin_only() {
    let mut e = fresh_escrow(500);
    let r = update_price(&mut e, Address::new(0xBAD), 900);
    assert!(matches!(r, Err(ErrorCode::Unauthorized)));
    assert_eq!(e.price_per_token, 500);

    assert!(update_price(&mut e, admin(), 900).is_ok());
    assert_eq!(e.price_per_token, 900);

    // A later purchase uses the new price: 200 * 900 / 100 = 1800.
    let mut a = fresh_accounts(100_000, 50_000);
    let ev = buy_tokens(&mut e, &mut a, 200, 7).unwrap();
    assert_eq!(ev.price, 1800);
}

#[test]
fn test_withdraw_admin_only() {
    let e = fresh_escrow(500);
    let mut w = WithdrawTokens {
        admin: Address::new(0xBAD),
        escrow_token_account: Address::new(VAULT),
        escrow_tokens: 10_000,
        admin_tokens: 0,
    };
    let before = w;
    let r = withdraw_tokens(&e, &mut w, 100);
    assert!(matches!(r, Err(ErrorCode::Unauthorized)));
    assert_eq!(w, before);
}

#[test]
fn test_withdraw_moves_inventory() {
    let e = fresh_escrow(500);
    let mut w = WithdrawTokens {
        admin: admin(),
        escrow_token_account: Address::new(VAULT),
        escrow_tokens: 10_000,
        admin_tokens: 5,
    };
    assert!(withdraw_tokens(&e, &mut w, 100).is_ok());
    assert_eq!(w.escrow_tokens, 9_900);
    assert_eq!(w.admin_tokens, 105);
}

#[test]
fn test_withdraw_errors() {
    let e = fresh_escrow(500);
    let mut w = WithdrawTokens {
        admin: admin(),
        escrow_token_account: Address::new(0xBAD),
        escrow_tokens: 10_000,
        admin_tokens: 0,
    };
    assert!(matches!(withdraw_tokens(&e, &mut w, 1), Err(ErrorCode::AccountMismatch)));

    w.escrow_token_account = Address::new(VAULT);
    assert!(matches!(withdraw_tokens(&e, &mut w, 20_000), Err(ErrorCode::InsufficientInventory)));

    w.admin_tokens = u64::MAX;
    assert!(matches!(withdraw_tokens(&e, &mut w, 1), Err(ErrorCode::Overflow)));
}
