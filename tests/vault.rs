use remi::{
    add_liquidity, initialize, swap_cost, swap_sol_for_token, AddLiquidity, Address, Balances,
    Swap, VaultError, VaultRecord, EXCHANGE_RATE,
};

fn addr(tag: u8) -> Address {
    Address { bytes: [tag; 32] }
}

fn record() -> VaultRecord {
    initialize(Some(254), addr(10), addr(11)).unwrap()
}

fn deposit_accounts(to_ata: Address) -> AddLiquidity {
    AddLiquidity { app: addr(1), from: addr(2), from_ata: addr(3), to_ata }
}

fn swap_accounts(sender_lamports: u64, app_ata_amount: u64) -> Swap {
    Swap {
        app: addr(1),
        app_ata: addr(10),
        app_ata_amount,
        sender: addr(2),
        sender_lamports,
        sender_ata: addr(3),
    }
}

#[test]
fn initialize_stores_the_three_fields() {
    let rec = initialize(Some(7), addr(10), addr(11)).unwrap();
    assert_eq!(rec.authority_bump, 7);
    assert!(rec.token_account == addr(10));
    assert!(rec.token_mint == addr(11));
}

#[test]
fn initialize_without_bump_fails() {
    assert_eq!(initialize(None, addr(10), addr(11)).unwrap_err(), VaultError::BumpNotFound);
}

#[test]
fn addresses_differing_in_last_byte_are_unequal() {
    let a = addr(5);
    let mut b = addr(5);
    assert!(a == b);
    b.bytes[31] = 6;
    assert!(a != b);
}

#[test]
fn authority_signs_with_label_and_bump() {
    let seeds = record().authority().signer_seeds();
    assert_eq!(seeds, vec![b"appata".to_vec(), vec![254u8]]);
}

#[test]
fn swap_cost_rounds_down() {
    assert_eq!(EXCHANGE_RATE, 100);
    assert_eq!(swap_cost(250), 2);
    assert_eq!(swap_cost(300), 3);
    assert_eq!(swap_cost(99), 0);
    assert_eq!(swap_cost(u64::MAX), u64::MAX / 100);
}

#[test]
fn deposit_routes_both_legs_into_the_vault() {
    let t = add_liquidity(&record(), &deposit_accounts(addr(10)), 5, 700).unwrap();
    assert!(t.native.from == addr(2) && t.native.to == addr(1));
    assert_eq!(t.native.lamports, 5);
    assert!(t.token.from == addr(3) && t.token.to == addr(10) && t.token.authority == addr(2));
    assert_eq!(t.token.amount, 700);
    assert!(t.token.vault_signer.is_none());
}

#[test]
fn deposit_credits_vault_exactly() {
    let t = add_liquidity(&record(), &deposit_accounts(addr(10)), 5, 700).unwrap();
    let mut b = Balances { vault_native: 40, vault_tokens: 1000, caller_native: 50, caller_tokens: 900 };
    assert!(b.settle(&t));
    assert_eq!(
        b,
        Balances { vault_native: 45, vault_tokens: 1700, caller_native: 45, caller_tokens: 200 }
    );
}

#[test]
fn deposit_to_other_token_account_is_refused() {
    let r = add_liquidity(&record(), &deposit_accounts(addr(12)), 5, 700);
    assert_eq!(r.unwrap_err(), VaultError::AppAtaAddressesDoNotMatch);
}

#[test]
fn swap_of_250_costs_2() {
    let rec = record();
    let t = swap_sol_for_token(&rec, &swap_accounts(10, 10_000), 250).unwrap();
    assert_eq!(t.native.lamports, 2);
    assert!(t.native.from == addr(2) && t.native.to == addr(1));
    assert!(t.token.from == addr(10) && t.token.to == addr(3) && t.token.authority == addr(1));
    assert_eq!(t.token.amount, 250);
    assert_eq!(t.token.vault_signer, Some(rec.authority()));
    let mut b = Balances { vault_native: 0, vault_tokens: 10_000, caller_native: 10, caller_tokens: 0 };
    assert!(b.settle(&t));
    assert_eq!(b, Balances { vault_native: 2, vault_tokens: 9_750, caller_native: 8, caller_tokens: 250 });
}

#[test]
fn swap_of_exact_multiple_moves_the_quotient() {
    let t = swap_sol_for_token(&record(), &swap_accounts(10, 10_000), 300).unwrap();
    assert_eq!(t.native.lamports, 3);
    let mut b = Balances { vault_native: 1, vault_tokens: 10_000, caller_native: 10, caller_tokens: 4 };
    assert!(b.settle(&t));
    assert_eq!(b, Balances { vault_native: 4, vault_tokens: 9_700, caller_native: 7, caller_tokens: 304 });
}

#[test]
fn swap_of_whole_pool_is_refused() {
    let r = swap_sol_for_token(&record(), &swap_accounts(1_000, 10_000), 10_000);
    assert_eq!(r.unwrap_err(), VaultError::AppInsufficientBalance);
}

#[test]
fn swap_with_exactly_the_cost_is_refused() {
    let r = swap_sol_for_token(&record(), &swap_accounts(2, 10_000), 250);
    assert_eq!(r.unwrap_err(), VaultError::SenderInsufficientBalance);
}

#[test]
fn swap_checks_sender_before_pool() {
    let r = swap_sol_for_token(&record(), &swap_accounts(0, 10_000), 10_000);
    assert_eq!(r.unwrap_err(), VaultError::SenderInsufficientBalance);
}

#[test]
fn swap_below_one_unit_is_free_but_needs_a_funded_caller() {
    let t = swap_sol_for_token(&record(), &swap_accounts(1, 10_000), 99).unwrap();
    assert_eq!(t.native.lamports, 0);
    let r = swap_sol_for_token(&record(), &swap_accounts(0, 10_000), 99);
    assert_eq!(r.unwrap_err(), VaultError::SenderInsufficientBalance);
}

#[test]
fn settle_that_cannot_pay_changes_nothing() {
    let t = swap_sol_for_token(&record(), &swap_accounts(10, 10_000), 250).unwrap();
    let before = Balances { vault_native: 0, vault_tokens: 100, caller_native: 10, caller_tokens: 0 };
    let mut b = before;
    assert!(!b.settle(&t));
    assert_eq!(b, before);
    let before = Balances { vault_native: u64::MAX, vault_tokens: 10_000, caller_native: 10, caller_tokens: 0 };
    let mut b = before;
    assert!(!b.settle(&t));
    assert_eq!(b, before);
}
