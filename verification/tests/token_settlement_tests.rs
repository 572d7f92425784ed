//! Settlement-path tests: an escrow that is the token's minter retires an
//! investor's position by `burn` / `burn_from`, then unlocks transfers.

use stellar_settle::address::Address;
use stellar_settle::env::Env;
use stellar_settle::token::contract::InvoiceToken;
use stellar_settle::token::errors::Error;
use stellar_settle::token::events::TokenEvent;

struct Harness {
    ledger: Env,
    token: InvoiceToken,
    escrow_id: Address,
    admin: Address,
    investor: Address,
    next: Address,
}

impl Harness {
    fn new(initial_balance: i128) -> Harness {
        let ledger = Env::new(0, 0, 1);
        let mut token = InvoiceToken::new();
        let escrow_id: Address = 50;
        let admin: Address = 51;
        let investor: Address = 52;
        token
            .initialize(
                admin,
                "Invoice INV-SETL".to_string(),
                "INVSETL".to_string(),
                7,
                "inv_setl".to_string(),
                escrow_id,
            )
            .unwrap();
        if initial_balance > 0 {
            token.mint(investor, initial_balance, escrow_id).unwrap();
        }
        Harness { ledger, token, escrow_id, admin, investor, next: 100 }
    }

    fn generate(&mut self) -> Address {
        self.next += 1;
        self.next
    }

    /// The escrow burns the investor's tokens it holds custody of, then
    /// unlocks transfers; the first error aborts the whole call.
    fn burn_on_settlement(&mut self, amount: i128) -> Result<(), Error> {
        self.token.burn(self.investor, amount)?;
        self.token.set_transfer_locked(self.escrow_id, false)?;
        Ok(())
    }

    /// The escrow burns through its allowance over the investor's tokens,
    /// then unlocks transfers.
    fn burn_from_on_settlement(&mut self, amount: i128) -> Result<(), Error> {
        self.token.burn_from(&self.ledger, self.escrow_id, self.investor, amount)?;
        self.token.set_transfer_locked(self.escrow_id, false)?;
        Ok(())
    }
}

#[test]
fn burn_on_settlement_retires_the_investors_full_position() {
    let mut h = Harness::new(1_000);
    h.burn_on_settlement(1_000).unwrap();
    assert_eq!(h.token.balance(h.investor).unwrap(), 0);
    assert_eq!(h.token.total_supply().unwrap(), 0);
}

#[test]
fn burn_on_settlement_emits_the_underlying_burn_event() {
    let mut h = Harness::new(500);
    h.burn_on_settlement(500).unwrap();
    let events = h.token.events();
    let burn_seen = events.iter().any(|e| matches!(e, TokenEvent::Burn { .. }));
    assert!(burn_seen, "expected a burn event from the token contract");
    assert!(matches!(events.last(), Some(TokenEvent::TransferLockedUpdated { .. })));
}

#[test]
fn burn_from_on_settlement_happy_path_consumes_allowance_and_burns() {
    let mut h = Harness::new(1_000);
    let (investor, escrow_id) = (h.investor, h.escrow_id);
    h.token.approve(&h.ledger, investor, escrow_id, 1_000, 1_000).unwrap();
    h.burn_from_on_settlement(600).unwrap();
    assert_eq!(h.token.balance(h.investor).unwrap(), 400);
    assert_eq!(h.token.total_supply().unwrap(), 400);
}

#[test]
fn burn_from_deducts_exactly_the_burned_amount_from_the_allowance() {
    let mut h = Harness::new(1_000);
    let (investor, escrow_id) = (h.investor, h.escrow_id);
    h.token.approve(&h.ledger, investor, escrow_id, 1_000, 1_000).unwrap();
    h.token.burn_from(&h.ledger, escrow_id, investor, 300).unwrap();
    assert_eq!(h.token.allowance(&h.ledger, investor, escrow_id).unwrap(), 700);
    assert_eq!(h.token.balance(investor).unwrap(), 700);
}

#[test]
fn transfers_are_locked_before_settlement_and_unlocked_after() {
    let mut h = Harness::new(1_000);
    let recipient = h.generate();
    let investor = h.investor;
    let before = h.token.transfer(&h.ledger, investor, recipient, 100);
    assert_eq!(before, Err(Error::TransferLocked));

    h.burn_on_settlement(400).unwrap();
    assert!(!h.token.transfer_locked().unwrap());

    h.token.transfer(&h.ledger, investor, recipient, 100).unwrap();
    assert_eq!(h.token.balance(recipient).unwrap(), 100);
}

#[test]
fn residual_balance_persists_accurately_after_partial_settlement() {
    let mut h = Harness::new(1_000);
    h.burn_on_settlement(350).unwrap();
    assert_eq!(h.token.balance(h.investor).unwrap(), 650);
    assert_eq!(h.token.total_supply().unwrap(), 650);

    h.burn_on_settlement(650).unwrap();
    assert_eq!(h.token.balance(h.investor).unwrap(), 0);
    assert_eq!(h.token.total_supply().unwrap(), 0);
}

#[test]
fn burn_on_settlement_rejects_insufficient_balance() {
    let mut h = Harness::new(100);
    assert_eq!(h.burn_on_settlement(101), Err(Error::InsufficientBalance));
    assert_eq!(h.token.balance(h.investor).unwrap(), 100);
    assert!(h.token.transfer_locked().unwrap());
}

#[test]
fn burn_on_settlement_rejects_invalid_amount() {
    let mut h = Harness::new(100);
    assert_eq!(h.burn_on_settlement(0), Err(Error::InvalidAmount));
    assert_eq!(h.burn_on_settlement(-1), Err(Error::InvalidAmount));
}

#[test]
fn burn_from_on_settlement_rejects_insufficient_allowance() {
    let mut h = Harness::new(1_000);
    let (investor, escrow_id) = (h.investor, h.escrow_id);
    h.token.approve(&h.ledger, investor, escrow_id, 100, 1_000).unwrap();
    assert_eq!(h.burn_from_on_settlement(101), Err(Error::InsufficientAllowance));
    assert_eq!(h.token.balance(investor).unwrap(), 1_000);
}

#[test]
fn burn_from_on_settlement_rejects_a_missing_allowance() {
    let mut h = Harness::new(1_000);
    assert_eq!(h.burn_from_on_settlement(1), Err(Error::InsufficientAllowance));
}

#[test]
fn burn_from_on_settlement_rejects_an_expired_allowance() {
    let mut h = Harness::new(1_000);
    let (investor, escrow_id) = (h.investor, h.escrow_id);
    h.token.approve(&h.ledger, investor, escrow_id, 500, 5).unwrap();
    h.ledger.sequence = 10;
    assert_eq!(h.burn_from_on_settlement(100), Err(Error::AllowanceExpired));
}

#[test]
fn burn_on_settlement_rejects_when_paused() {
    let mut h = Harness::new(1_000);
    assert_eq!(h.token.get_role_admin(0).unwrap(), h.admin);
    h.token.set_paused(true).unwrap();
    assert_eq!(h.burn_on_settlement(100), Err(Error::Paused));
}

#[test]
fn burn_from_on_settlement_rejects_when_paused() {
    let mut h = Harness::new(1_000);
    let (investor, escrow_id) = (h.investor, h.escrow_id);
    h.token.approve(&h.ledger, investor, escrow_id, 1_000, 1_000).unwrap();
    h.token.set_paused(true).unwrap();
    assert_eq!(h.burn_from_on_settlement(100), Err(Error::Paused));
}
