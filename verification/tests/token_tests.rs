//! Unit tests for the invoice token.

use stellar_settle::address::{Address, ZERO_CONTRACT_ADDRESS};
use stellar_settle::auth::AuthRequest;
use stellar_settle::env::Env;
use stellar_settle::token::contract::InvoiceToken;
use stellar_settle::token::errors::Error;
use stellar_settle::token::events::{EventName, EventValue, TokenEvent};
use stellar_settle::token::types::{ADMIN_ROLE, MINTER_ROLE};

/// Ledger state and fresh addresses for a test.
struct TestEnv {
    next: Address,
    ledger: Env,
}

impl TestEnv {
    fn default() -> TestEnv {
        TestEnv { next: 100, ledger: Env::new(0, 0, 1) }
    }

    fn generate(&mut self) -> Address {
        self.next += 1;
        self.next
    }

    fn sequence(&self) -> u32 {
        self.ledger.sequence
    }

    fn set_sequence(&mut self, sequence: u32) {
        self.ledger.sequence = sequence;
    }
}

fn setup_token(env: &mut TestEnv) -> (InvoiceToken, Address, Address) {
    let mut client = InvoiceToken::new();
    let admin = env.generate();
    let minter = env.generate();
    client
        .initialize(
            admin,
            "Invoice INV-001".to_string(),
            "INV001".to_string(),
            7,
            "inv_001".to_string(),
            minter,
        )
        .unwrap();
    (client, admin, minter)
}

fn last_event(client: &InvoiceToken) -> TokenEvent {
    *client.events().last().unwrap()
}

// ========== Lifecycle Tests ==========

#[test]
fn test_initialize_and_metadata() {
    let mut env = TestEnv::default();
    let (client, admin, _minter) = setup_token(&mut env);

    assert_eq!(client.name().unwrap(), "Invoice INV-001".to_string());
    assert_eq!(client.symbol().unwrap(), "INV001".to_string());
    assert_eq!(client.decimals().unwrap(), 7);
    assert_eq!(client.total_supply().unwrap(), 0);
    assert_eq!(client.balance(admin).unwrap(), 0);
    assert_eq!(client.invoice_id().unwrap(), "inv_001".to_string());
    assert!(client.transfer_locked().unwrap());

    let other = env.generate();
    assert_eq!(client.balance(other).unwrap(), 0);
    assert_eq!(client.allowance(&env.ledger, admin, other).unwrap(), 0);
}

#[test]
fn test_transfer_locked_non_admin_fails() {
    let mut env = TestEnv::default();
    let (mut client, _admin, minter) = setup_token(&mut env);

    let user = env.generate();
    client.mint(user, 1000, minter).unwrap();
    assert_eq!(client.balance(user).unwrap(), 1000);
    assert!(client.transfer_locked().unwrap());

    let recipient = env.generate();
    let result = client.transfer(&env.ledger, user, recipient, 100);
    assert_eq!(result, Err(Error::TransferLocked));
}

#[test]
fn test_transfer_locked_admin_succeeds() {
    let mut env = TestEnv::default();
    let (mut client, admin, minter) = setup_token(&mut env);

    client.mint(admin, 1000, minter).unwrap();
    assert_eq!(client.balance(admin).unwrap(), 1000);
    assert!(client.transfer_locked().unwrap());

    let recipient = env.generate();
    client.transfer(&env.ledger, admin, recipient, 100).unwrap();
    assert_eq!(client.balance(admin).unwrap(), 900);
    assert_eq!(client.balance(recipient).unwrap(), 100);
}

#[test]
fn test_transfer_from_locked_non_admin_fails() {
    let mut env = TestEnv::default();
    let (mut client, _admin, minter) = setup_token(&mut env);

    let user = env.generate();
    client.mint(user, 1000, minter).unwrap();

    let spender = env.generate();
    let expiration = env.sequence() + 100;
    client.approve(&env.ledger, user, spender, 500, expiration).unwrap();

    assert!(client.transfer_locked().unwrap());

    let recipient = env.generate();
    let result = client.transfer_from(&env.ledger, spender, user, recipient, 100);
    assert_eq!(result, Err(Error::TransferLocked));
}

#[test]
fn test_transfer_from_locked_admin_succeeds() {
    let mut env = TestEnv::default();
    let (mut client, admin, minter) = setup_token(&mut env);

    client.mint(admin, 1000, minter).unwrap();

    let spender = env.generate();
    let expiration = env.sequence() + 100;
    client.approve(&env.ledger, admin, spender, 500, expiration).unwrap();

    assert!(client.transfer_locked().unwrap());

    let recipient = env.generate();
    client.transfer_from(&env.ledger, spender, admin, recipient, 100).unwrap();
    assert_eq!(client.balance(admin).unwrap(), 900);
    assert_eq!(client.balance(recipient).unwrap(), 100);
    assert_eq!(client.allowance(&env.ledger, admin, spender).unwrap(), 400);
}

#[test]
fn test_transfer_unlocked_all_succeed() {
    let mut env = TestEnv::default();
    let (mut client, admin, minter) = setup_token(&mut env);

    let user1 = env.generate();
    let user2 = env.generate();
    client.mint(user1, 1000, minter).unwrap();
    client.mint(user2, 1000, minter).unwrap();

    client.set_transfer_locked(admin, false).unwrap();
    assert!(!client.transfer_locked().unwrap());

    let recipient = env.generate();
    client.transfer(&env.ledger, user1, recipient, 100).unwrap();
    assert_eq!(client.balance(user1).unwrap(), 900);
    assert_eq!(client.balance(recipient).unwrap(), 100);

    let spender = env.generate();
    let expiration = env.sequence() + 100;
    client.approve(&env.ledger, user2, spender, 500, expiration).unwrap();

    let recipient2 = env.generate();
    client.transfer_from(&env.ledger, spender, user2, recipient2, 200).unwrap();
    assert_eq!(client.balance(user2).unwrap(), 800);
    assert_eq!(client.balance(recipient2).unwrap(), 200);
    assert_eq!(client.allowance(&env.ledger, user2, spender).unwrap(), 300);
}

#[test]
fn test_set_transfer_locked_toggle() {
    let mut env = TestEnv::default();
    let (mut client, admin, minter) = setup_token(&mut env);

    let user = env.generate();
    client.mint(user, 1000, minter).unwrap();

    assert!(client.transfer_locked().unwrap());
    let recipient = env.generate();
    let result = client.transfer(&env.ledger, user, recipient, 100);
    assert_eq!(result, Err(Error::TransferLocked));

    client.set_transfer_locked(admin, false).unwrap();
    assert!(!client.transfer_locked().unwrap());
    client.transfer(&env.ledger, user, recipient, 100).unwrap();
    assert_eq!(client.balance(user).unwrap(), 900);
    assert_eq!(client.balance(recipient).unwrap(), 100);

    client.set_transfer_locked(admin, true).unwrap();
    assert!(client.transfer_locked().unwrap());
    let result = client.transfer(&env.ledger, user, recipient, 100);
    assert_eq!(result, Err(Error::TransferLocked));
}

#[test]
fn test_set_transfer_locked_event_emission() {
    let mut env = TestEnv::default();
    let (mut client, admin, minter) = setup_token(&mut env);

    client.mint(admin, 1000, minter).unwrap();
    client.set_transfer_locked(admin, false).unwrap();

    assert_eq!(
        last_event(&client),
        TokenEvent::TransferLockedUpdated { old_value: true, new_value: false }
    );
}

#[test]
fn test_set_transfer_locked_by_minter() {
    let mut env = TestEnv::default();
    let (mut client, _admin, minter) = setup_token(&mut env);

    let user = env.generate();
    client.mint(user, 1000, minter).unwrap();

    assert!(client.transfer_locked().unwrap());
    client.set_transfer_locked(minter, false).unwrap();
    assert!(!client.transfer_locked().unwrap());

    client.set_transfer_locked(minter, true).unwrap();
    assert!(client.transfer_locked().unwrap());
}

#[test]
fn test_set_minter_event_emission() {
    let mut env = TestEnv::default();
    let (mut client, _admin, old_minter) = setup_token(&mut env);

    let new_minter = env.generate();
    client.set_minter(new_minter).unwrap();

    assert_eq!(last_event(&client), TokenEvent::MinterUpdated { old_minter, new_minter });
}

#[test]
fn test_set_transfer_locked_unauthorized_fails() {
    let mut env = TestEnv::default();
    let (mut client, _admin, _minter) = setup_token(&mut env);

    let stranger = env.generate();
    let result = client.set_transfer_locked(stranger, false);
    assert_eq!(result, Err(Error::Unauthorized));
    assert!(client.transfer_locked().unwrap());
}

#[test]
fn test_transfer_locked_with_sufficient_balance() {
    let mut env = TestEnv::default();
    let (mut client, _admin, minter) = setup_token(&mut env);

    let user = env.generate();
    client.mint(user, 10000, minter).unwrap();
    assert_eq!(client.balance(user).unwrap(), 10000);

    assert!(client.transfer_locked().unwrap());
    let recipient = env.generate();
    let result = client.transfer(&env.ledger, user, recipient, 100);
    assert_eq!(result, Err(Error::TransferLocked));

    assert_eq!(client.balance(user).unwrap(), 10000);
    assert_eq!(client.balance(recipient).unwrap(), 0);
}

#[test]
fn test_transfer_insufficient_balance_fails() {
    let mut env = TestEnv::default();
    let (mut client, admin, minter) = setup_token(&mut env);

    client.set_transfer_locked(admin, false).unwrap();

    let sender = env.generate();
    let recipient = env.generate();
    client.mint(sender, 50, minter).unwrap();

    let result = client.transfer(&env.ledger, sender, recipient, 100);
    assert_eq!(result, Err(Error::InsufficientBalance));
    assert_eq!(client.balance(sender).unwrap(), 50);
    assert_eq!(client.balance(recipient).unwrap(), 0);
}

#[test]
fn test_transfer_event_emission() {
    let mut env = TestEnv::default();
    let (mut client, admin, minter) = setup_token(&mut env);

    client.mint(admin, 1000, minter).unwrap();
    client.set_transfer_locked(admin, false).unwrap();

    let recipient = env.generate();
    client.transfer(&env.ledger, admin, recipient, 250).unwrap();

    assert_eq!(last_event(&client), TokenEvent::Transfer { from: admin, to: recipient, amount: 250 });
}

#[test]
fn test_approve_event_emission() {
    let mut env = TestEnv::default();
    let (mut client, admin, _minter) = setup_token(&mut env);

    let spender = env.generate();
    let amount = 500;
    let expiration = env.sequence() + 100;

    client.approve(&env.ledger, admin, spender, amount, expiration).unwrap();

    assert_eq!(
        last_event(&client),
        TokenEvent::Approve { from: admin, spender, amount, expiration_ledger: expiration }
    );
}

#[test]
fn test_mint_event_emission() {
    let mut env = TestEnv::default();
    let (mut client, _admin, minter) = setup_token(&mut env);

    let recipient = env.generate();
    let amount = 5000;

    client.mint(recipient, amount, minter).unwrap();

    assert_eq!(last_event(&client), TokenEvent::Mint { to: recipient, amount });
}

#[test]
fn test_mint_authorization_and_invalid_amount() {
    let mut env = TestEnv::default();
    let (mut client, admin, minter) = setup_token(&mut env);

    let recipient = env.generate();
    let stranger = env.generate();

    client.mint(recipient, 100, admin).unwrap();
    assert_eq!(client.balance(recipient).unwrap(), 100);
    assert_eq!(client.total_supply().unwrap(), 100);

    client.mint(recipient, 50, minter).unwrap();
    assert_eq!(client.balance(recipient).unwrap(), 150);
    assert_eq!(client.total_supply().unwrap(), 150);

    let unauthorized = client.mint(recipient, 25, stranger);
    assert_eq!(unauthorized, Err(Error::Unauthorized));

    let invalid_amount = client.mint(recipient, 0, minter);
    assert_eq!(invalid_amount, Err(Error::InvalidAmount));
    assert_eq!(client.balance(recipient).unwrap(), 150);
    assert_eq!(client.total_supply().unwrap(), 150);
}

#[test]
fn test_burn_event_emission() {
    let mut env = TestEnv::default();
    let (mut client, admin, minter) = setup_token(&mut env);

    client.mint(admin, 1000, minter).unwrap();

    let burn_amount = 300;
    client.burn(admin, burn_amount).unwrap();

    assert_eq!(last_event(&client), TokenEvent::Burn { from: admin, amount: burn_amount });
}

#[test]
fn test_burn_insufficient_balance_fails() {
    let mut env = TestEnv::default();
    let (mut client, admin, minter) = setup_token(&mut env);

    client.mint(admin, 100, minter).unwrap();

    let result = client.burn(admin, 200);
    assert_eq!(result, Err(Error::InsufficientBalance));
    assert_eq!(client.balance(admin).unwrap(), 100);
    assert_eq!(client.total_supply().unwrap(), 100);
}

#[test]
fn test_transfer_from_event_emission() {
    let mut env = TestEnv::default();
    let (mut client, admin, minter) = setup_token(&mut env);

    client.mint(admin, 1000, minter).unwrap();
    client.set_transfer_locked(admin, false).unwrap();

    let spender = env.generate();
    let expiration = env.sequence() + 100;
    client.approve(&env.ledger, admin, spender, 500, expiration).unwrap();

    let recipient = env.generate();
    client.transfer_from(&env.ledger, spender, admin, recipient, 200).unwrap();

    assert_eq!(last_event(&client), TokenEvent::Transfer { from: admin, to: recipient, amount: 200 });
}

#[test]
fn test_burn_from_event_emission() {
    let mut env = TestEnv::default();
    let (mut client, admin, minter) = setup_token(&mut env);

    client.mint(admin, 1000, minter).unwrap();

    let spender = env.generate();
    let expiration = env.sequence() + 100;
    client.approve(&env.ledger, admin, spender, 500, expiration).unwrap();

    let burn_amount = 150;
    client.burn_from(&env.ledger, spender, admin, burn_amount).unwrap();

    assert_eq!(last_event(&client), TokenEvent::Burn { from: admin, amount: burn_amount });
}

#[test]
fn test_burn_updates_balance_and_total_supply() {
    let mut env = TestEnv::default();
    let (mut client, admin, minter) = setup_token(&mut env);

    client.mint(admin, 1000, minter).unwrap();

    client.burn(admin, 300).unwrap();
    assert_eq!(client.balance(admin).unwrap(), 700);
    assert_eq!(client.total_supply().unwrap(), 700);
}

#[test]
fn test_burn_from_updates_balance_allowance_and_total_supply() {
    let mut env = TestEnv::default();
    let (mut client, admin, minter) = setup_token(&mut env);

    client.mint(admin, 1000, minter).unwrap();

    let spender = env.generate();
    let expiration = env.sequence() + 100;
    client.approve(&env.ledger, admin, spender, 500, expiration).unwrap();

    client.burn_from(&env.ledger, spender, admin, 150).unwrap();
    assert_eq!(client.balance(admin).unwrap(), 850);
    assert_eq!(client.total_supply().unwrap(), 850);
    assert_eq!(client.allowance(&env.ledger, admin, spender).unwrap(), 350);
}

#[test]
fn test_burn_from_allowance_and_balance_checks() {
    let mut env = TestEnv::default();
    let (mut client, admin, minter) = setup_token(&mut env);

    client.mint(admin, 100, minter).unwrap();

    let spender = env.generate();
    let current_ledger = env.sequence();

    client.approve(&env.ledger, admin, spender, 50, current_ledger + 100).unwrap();
    let allowance_fail = client.burn_from(&env.ledger, spender, admin, 60);
    assert_eq!(allowance_fail, Err(Error::InsufficientAllowance));

    client.approve(&env.ledger, admin, spender, 200, current_ledger + 100).unwrap();
    let balance_fail = client.burn_from(&env.ledger, spender, admin, 150);
    assert_eq!(balance_fail, Err(Error::InsufficientBalance));
    assert_eq!(client.balance(admin).unwrap(), 100);
    assert_eq!(client.total_supply().unwrap(), 100);
    assert_eq!(client.allowance(&env.ledger, admin, spender).unwrap(), 200);
}

#[test]
fn test_no_transfer_event_on_locked_failure() {
    let mut env = TestEnv::default();
    let (mut client, _admin, minter) = setup_token(&mut env);

    let user = env.generate();
    client.mint(user, 1000, minter).unwrap();

    assert!(client.transfer_locked().unwrap());

    let recipient = env.generate();
    let events_before = client.events().len();

    let result = client.transfer(&env.ledger, user, recipient, 100);
    assert!(result.is_err());

    let events_after = client.events();
    for event in &events_after[events_before..] {
        assert!(!matches!(event, TokenEvent::Transfer { .. }));
    }
    assert_eq!(events_after.len(), events_before);
}

#[test]
fn test_multiple_events_in_sequence() {
    let mut env = TestEnv::default();
    let (mut client, admin, minter) = setup_token(&mut env);

    client.set_transfer_locked(admin, false).unwrap();

    let user1 = env.generate();
    let user2 = env.generate();

    client.mint(user1, 1000, minter).unwrap();
    let mint_event = last_event(&client);
    client.transfer(&env.ledger, user1, user2, 300).unwrap();
    let transfer_event = last_event(&client);
    client.burn(user2, 100).unwrap();
    let burn_event = last_event(&client);

    assert_eq!(mint_event, TokenEvent::Mint { to: user1, amount: 1000 });
    assert_eq!(transfer_event, TokenEvent::Transfer { from: user1, to: user2, amount: 300 });
    assert_eq!(burn_event, TokenEvent::Burn { from: user2, amount: 100 });
}

// ========== Allowance Expiration Boundary Tests ==========

#[test]
fn test_approve_expiration_at_current_ledger() {
    let mut env = TestEnv::default();
    let (mut client, admin, _minter) = setup_token(&mut env);

    let spender = env.generate();
    let current_ledger = env.sequence();
    client.approve(&env.ledger, admin, spender, 500, current_ledger).unwrap();
    assert_eq!(client.allowance(&env.ledger, admin, spender).unwrap(), 500);
}

#[test]
fn test_approve_expiration_below_current_ledger() {
    let mut env = TestEnv::default();
    let (mut client, admin, _minter) = setup_token(&mut env);

    let spender = env.generate();
    env.set_sequence(10);
    let current_ledger = env.sequence();

    let result = client.approve(&env.ledger, admin, spender, 500, current_ledger - 1);
    assert!(result.is_err());
}

#[test]
fn test_approve_expiration_zero_amount_allows_past() {
    let mut env = TestEnv::default();
    let (mut client, admin, _minter) = setup_token(&mut env);

    let spender = env.generate();
    env.set_sequence(10);
    let current_ledger = env.sequence();

    client.approve(&env.ledger, admin, spender, 500, current_ledger + 100).unwrap();
    assert_eq!(client.allowance(&env.ledger, admin, spender).unwrap(), 500);

    client.approve(&env.ledger, admin, spender, 0, current_ledger - 5).unwrap();
    assert_eq!(client.allowance(&env.ledger, admin, spender).unwrap(), 0);
}

#[test]
fn test_transfer_from_expiration_at_current_ledger() {
    let mut env = TestEnv::default();
    let (mut client, admin, minter) = setup_token(&mut env);

    client.mint(admin, 1000, minter).unwrap();
    client.set_transfer_locked(admin, false).unwrap();

    let spender = env.generate();
    let recipient = env.generate();
    let current_ledger = env.sequence();

    client.approve(&env.ledger, admin, spender, 500, current_ledger).unwrap();
    client.transfer_from(&env.ledger, spender, admin, recipient, 200).unwrap();

    assert_eq!(client.balance(admin).unwrap(), 800);
    assert_eq!(client.balance(recipient).unwrap(), 200);
    assert_eq!(client.allowance(&env.ledger, admin, spender).unwrap(), 300);
}

#[test]
fn test_transfer_from_expiration_one_below_current() {
    let mut env = TestEnv::default();
    let (mut client, admin, minter) = setup_token(&mut env);

    client.mint(admin, 1000, minter).unwrap();
    client.set_transfer_locked(admin, false).unwrap();

    let spender = env.generate();
    let recipient = env.generate();
    let initial_ledger = env.sequence();

    client.approve(&env.ledger, admin, spender, 500, initial_ledger).unwrap();
    env.set_sequence(initial_ledger + 1);

    let result = client.transfer_from(&env.ledger, spender, admin, recipient, 200);
    assert!(result.is_err());

    assert_eq!(client.balance(admin).unwrap(), 1000);
    assert_eq!(client.balance(recipient).unwrap(), 0);
}

#[test]
fn test_transfer_from_expiration_above_current() {
    let mut env = TestEnv::default();
    let (mut client, admin, minter) = setup_token(&mut env);

    client.mint(admin, 1000, minter).unwrap();
    client.set_transfer_locked(admin, false).unwrap();

    let spender = env.generate();
    let recipient = env.generate();
    let current_ledger = env.sequence();

    client.approve(&env.ledger, admin, spender, 500, current_ledger + 100).unwrap();
    client.transfer_from(&env.ledger, spender, admin, recipient, 200).unwrap();

    assert_eq!(client.balance(admin).unwrap(), 800);
    assert_eq!(client.balance(recipient).unwrap(), 200);
    assert_eq!(client.allowance(&env.ledger, admin, spender).unwrap(), 300);
}

#[test]
fn test_transfer_from_insufficient_allowance_fails() {
    let mut env = TestEnv::default();
    let (mut client, admin, minter) = setup_token(&mut env);

    client.mint(admin, 1000, minter).unwrap();
    client.set_transfer_locked(admin, false).unwrap();

    let spender = env.generate();
    let recipient = env.generate();
    let expiration = env.sequence() + 100;
    client.approve(&env.ledger, admin, spender, 50, expiration).unwrap();

    let result = client.transfer_from(&env.ledger, spender, admin, recipient, 100);
    assert_eq!(result, Err(Error::InsufficientAllowance));
    assert_eq!(client.balance(admin).unwrap(), 1000);
    assert_eq!(client.balance(recipient).unwrap(), 0);
    assert_eq!(client.allowance(&env.ledger, admin, spender).unwrap(), 50);
}

#[test]
fn test_burn_from_expiration_at_current_ledger() {
    let mut env = TestEnv::default();
    let (mut client, admin, minter) = setup_token(&mut env);

    client.mint(admin, 1000, minter).unwrap();

    let spender = env.generate();
    let current_ledger = env.sequence();

    client.approve(&env.ledger, admin, spender, 500, current_ledger).unwrap();
    client.burn_from(&env.ledger, spender, admin, 200).unwrap();

    assert_eq!(client.balance(admin).unwrap(), 800);
    assert_eq!(client.total_supply().unwrap(), 800);
    assert_eq!(client.allowance(&env.ledger, admin, spender).unwrap(), 300);
}

#[test]
fn test_burn_from_expiration_one_below_current() {
    let mut env = TestEnv::default();
    let (mut client, admin, minter) = setup_token(&mut env);

    client.mint(admin, 1000, minter).unwrap();

    let spender = env.generate();
    let initial_ledger = env.sequence();

    client.approve(&env.ledger, admin, spender, 500, initial_ledger).unwrap();
    env.set_sequence(initial_ledger + 1);

    let result = client.burn_from(&env.ledger, spender, admin, 200);
    assert!(result.is_err());

    assert_eq!(client.balance(admin).unwrap(), 1000);
    assert_eq!(client.total_supply().unwrap(), 1000);
}

#[test]
fn test_burn_from_expiration_above_current() {
    let mut env = TestEnv::default();
    let (mut client, admin, minter) = setup_token(&mut env);

    client.mint(admin, 1000, minter).unwrap();

    let spender = env.generate();
    let current_ledger = env.sequence();

    client.approve(&env.ledger, admin, spender, 500, current_ledger + 100).unwrap();
    client.burn_from(&env.ledger, spender, admin, 200).unwrap();

    assert_eq!(client.balance(admin).unwrap(), 800);
    assert_eq!(client.total_supply().unwrap(), 800);
    assert_eq!(client.allowance(&env.ledger, admin, spender).unwrap(), 300);
}

#[test]
fn test_allowance_returns_zero_when_expired() {
    let mut env = TestEnv::default();
    let (mut client, admin, _minter) = setup_token(&mut env);

    let spender = env.generate();
    let initial_ledger = env.sequence();

    client.approve(&env.ledger, admin, spender, 500, initial_ledger).unwrap();
    assert_eq!(client.allowance(&env.ledger, admin, spender).unwrap(), 500);

    env.set_sequence(initial_ledger + 1);

    assert_eq!(client.allowance(&env.ledger, admin, spender).unwrap(), 0);
}

#[test]
fn test_allowance_boundary_multiple_ledgers() {
    let mut env = TestEnv::default();
    let (mut client, admin, _minter) = setup_token(&mut env);

    let spender = env.generate();
    let initial_ledger = env.sequence();
    let expiration = initial_ledger + 5;

    client.approve(&env.ledger, admin, spender, 500, expiration).unwrap();

    for i in 0..=5 {
        env.set_sequence(initial_ledger + i);
        let expected = if i <= 5 { 500 } else { 0 };
        assert_eq!(client.allowance(&env.ledger, admin, spender).unwrap(), expected);
    }

    env.set_sequence(expiration + 1);
    assert_eq!(client.allowance(&env.ledger, admin, spender).unwrap(), 0);
}

#[test]
fn test_approve_update_expiration_extends() {
    let mut env = TestEnv::default();
    let (mut client, admin, _minter) = setup_token(&mut env);

    let spender = env.generate();
    let initial_ledger = env.sequence();

    client.approve(&env.ledger, admin, spender, 500, initial_ledger + 2).unwrap();

    env.set_sequence(initial_ledger + 1);

    client.approve(&env.ledger, admin, spender, 600, initial_ledger + 10).unwrap();

    env.set_sequence(initial_ledger + 3);

    assert_eq!(client.allowance(&env.ledger, admin, spender).unwrap(), 600);
}

#[test]
fn test_approve_update_expiration_shortens() {
    let mut env = TestEnv::default();
    let (mut client, admin, _minter) = setup_token(&mut env);

    let spender = env.generate();
    let initial_ledger = env.sequence();

    client.approve(&env.ledger, admin, spender, 500, initial_ledger + 100).unwrap();

    let new_expiration = initial_ledger + 2;
    client.approve(&env.ledger, admin, spender, 600, new_expiration).unwrap();

    env.set_sequence(new_expiration);
    assert_eq!(client.allowance(&env.ledger, admin, spender).unwrap(), 600);

    env.set_sequence(new_expiration + 1);
    assert_eq!(client.allowance(&env.ledger, admin, spender).unwrap(), 0);
}

// ========== Negative Amount Tests ==========

#[test]
fn test_approve_negative_amount_rejected() {
    let mut env = TestEnv::default();
    let (mut client, admin, _minter) = setup_token(&mut env);

    let spender = env.generate();
    let expiration = env.sequence() + 100;

    let result = client.approve(&env.ledger, admin, spender, -100i128, expiration);
    assert_eq!(result, Err(Error::InvalidAmount));
    assert_eq!(client.allowance(&env.ledger, admin, spender).unwrap(), 0);
}

#[test]
fn test_approve_zero_amount_accepted() {
    let mut env = TestEnv::default();
    let (mut client, admin, _minter) = setup_token(&mut env);

    let spender = env.generate();
    let expiration = env.sequence() + 100;

    client.approve(&env.ledger, admin, spender, 500, expiration).unwrap();
    assert_eq!(client.allowance(&env.ledger, admin, spender).unwrap(), 500);

    client.approve(&env.ledger, admin, spender, 0, expiration).unwrap();
    assert_eq!(client.allowance(&env.ledger, admin, spender).unwrap(), 0);
}

#[test]
fn test_approve_positive_amount_invalid_expiration_rejected() {
    let mut env = TestEnv::default();
    let (mut client, admin, _minter) = setup_token(&mut env);

    let spender = env.generate();
    env.set_sequence(10);
    let current_ledger = env.sequence();

    let result = client.approve(&env.ledger, admin, spender, 500, current_ledger - 1);
    assert_eq!(result, Err(Error::InvalidExpiration));
    assert_eq!(client.allowance(&env.ledger, admin, spender).unwrap(), 0);
}

// ========== Nonce Tests ==========

#[test]
fn test_get_nonce_initial_is_zero() {
    let mut env = TestEnv::default();
    let (mut client, admin, _minter) = setup_token(&mut env);

    let nonce = client.get_nonce(admin).unwrap();
    assert_eq!(nonce, 0);
}

#[test]
fn test_get_nonce_returns_zero_for_unknown_account() {
    let mut env = TestEnv::default();
    let (mut client, _admin, _minter) = setup_token(&mut env);

    let unknown = env.generate();
    let nonce = client.get_nonce(unknown).unwrap();
    assert_eq!(nonce, 0);
}

#[test]
fn test_get_nonce_emits_event() {
    let mut env = TestEnv::default();
    let (mut client, admin, _minter) = setup_token(&mut env);

    let _nonce = client.get_nonce(admin).unwrap();

    let event = last_event(&client);
    assert_eq!(event, TokenEvent::NonceQueried { account: admin, nonce: 0 });
    assert_eq!(event.topics(), vec![EventValue::Name(EventName::NonceQueried)]);
    assert_eq!(event.name().symbol(), "nonce_queried");
    assert_eq!(event.data(), vec![EventValue::Addr(admin), EventValue::U64(0)]);
}

#[test]
fn allowance_extended_event_is_published_under_its_topic() {
    let mut env = TestEnv::default();
    let (mut client, admin, minter) = setup_token(&mut env);
    let spender = env.generate();

    client.mint(admin, 1000, minter).unwrap();
    let expiration = env.sequence() + 100;
    client.approve(&env.ledger, admin, spender, 500, expiration).unwrap();
    client.extend_allowance(&env.ledger, admin, spender, expiration + 200).unwrap();

    let event = last_event(&client);
    assert_eq!(
        event.topics(),
        vec![EventValue::Name(EventName::AllowanceExtended), EventValue::Addr(admin), EventValue::Addr(spender)]
    );
    assert_eq!(event.name().symbol(), "allowance_extended");
    assert_eq!(event.data(), vec![EventValue::U32(expiration + 200)]);
}

#[test]
fn transfer_and_approval_events_follow_the_token_standard_layout() {
    let mut env = TestEnv::default();
    let (mut client, admin, minter) = setup_token(&mut env);
    let spender = env.generate();

    client.mint(admin, 1000, minter).unwrap();
    let event = last_event(&client);
    assert_eq!(event.topics(), vec![EventValue::Name(EventName::Mint), EventValue::Addr(admin)]);
    assert_eq!(event.data(), vec![EventValue::I128(1000)]);

    let expiration = env.sequence() + 100;
    client.approve(&env.ledger, admin, spender, 500, expiration).unwrap();
    let event = last_event(&client);
    assert_eq!(event.name().symbol(), "approve");
    assert_eq!(
        event.topics(),
        vec![EventValue::Name(EventName::Approve), EventValue::Addr(admin), EventValue::Addr(spender)]
    );
    assert_eq!(event.data(), vec![EventValue::I128(500), EventValue::U32(expiration)]);

    client.revoke_approval(admin, spender).unwrap();
    let event = last_event(&client);
    assert_eq!(event.name().symbol(), "approval_revoked");
    assert_eq!(event.data(), vec![]);
}

// ========== Fee Deduction Tests ==========

#[test]
fn test_get_fee_bps_initial_zero() {
    let mut env = TestEnv::default();
    let (client, _admin, _minter) = setup_token(&mut env);

    assert_eq!(client.get_fee_bps().unwrap(), 0);
}

#[test]
fn test_set_fee_bps_by_admin() {
    let mut env = TestEnv::default();
    let (mut client, admin, _minter) = setup_token(&mut env);

    client.set_fee_bps(admin, 250).unwrap();
    assert_eq!(client.get_fee_bps().unwrap(), 250);
}

#[test]
fn test_set_fee_bps_unauthorized_fails() {
    let mut env = TestEnv::default();
    let (mut client, _admin, _minter) = setup_token(&mut env);

    let stranger = env.generate();
    let result = client.set_fee_bps(stranger, 250);
    assert_eq!(result, Err(Error::Unauthorized));
    assert_eq!(client.get_fee_bps().unwrap(), 0);
}

#[test]
fn test_set_fee_bps_invalid_range() {
    let mut env = TestEnv::default();
    let (mut client, admin, _minter) = setup_token(&mut env);

    let result = client.set_fee_bps(admin, 10_001);
    assert_eq!(result, Err(Error::InvalidFeeBps));
    assert_eq!(client.get_fee_bps().unwrap(), 0);

    let result = client.set_fee_bps(admin, -1);
    assert_eq!(result, Err(Error::InvalidFeeBps));
    assert_eq!(client.get_fee_bps().unwrap(), 0);
}

#[test]
fn test_set_fee_bps_event_emission() {
    let mut env = TestEnv::default();
    let (mut client, admin, _minter) = setup_token(&mut env);

    client.set_fee_bps(admin, 250).unwrap();

    assert_eq!(last_event(&client), TokenEvent::FeeUpdated { old_bps: 0, new_bps: 250 });
}

#[test]
fn test_transfer_with_fee_deducts_from_sender() {
    let mut env = TestEnv::default();
    let (mut client, admin, minter) = setup_token(&mut env);

    client.set_fee_bps(admin, 1000).unwrap();
    client.set_transfer_locked(admin, false).unwrap();

    let user = env.generate();
    client.mint(user, 5000, minter).unwrap();
    assert_eq!(client.balance(user).unwrap(), 5000);

    let recipient = env.generate();
    client.transfer(&env.ledger, user, recipient, 1000).unwrap();

    assert_eq!(client.balance(user).unwrap(), 5000 - 1000 - 100);
    assert_eq!(client.balance(recipient).unwrap(), 1000);
    assert_eq!(client.balance(admin).unwrap(), 100);
}

#[test]
fn test_transfer_fee_insufficient_for_total_debit() {
    let mut env = TestEnv::default();
    let (mut client, admin, minter) = setup_token(&mut env);

    client.set_fee_bps(admin, 1000).unwrap();
    client.set_transfer_locked(admin, false).unwrap();

    let user = env.generate();
    client.mint(user, 1050, minter).unwrap();

    let recipient = env.generate();
    let result = client.transfer(&env.ledger, user, recipient, 1000);
    assert_eq!(result, Err(Error::InsufficientBalanceForFee));
    assert_eq!(client.balance(user).unwrap(), 1050);
}

#[test]
fn test_transfer_zero_fee_no_deduction() {
    let mut env = TestEnv::default();
    let (mut client, admin, minter) = setup_token(&mut env);

    assert_eq!(client.get_fee_bps().unwrap(), 0);

    let user = env.generate();
    client.mint(user, 1000, minter).unwrap();
    client.set_transfer_locked(admin, false).unwrap();

    let recipient = env.generate();
    client.transfer(&env.ledger, user, recipient, 500).unwrap();

    assert_eq!(client.balance(user).unwrap(), 500);
    assert_eq!(client.balance(recipient).unwrap(), 500);
    assert_eq!(client.balance(admin).unwrap(), 0);
}

#[test]
fn test_transfer_from_with_fee() {
    let mut env = TestEnv::default();
    let (mut client, admin, minter) = setup_token(&mut env);

    client.set_fee_bps(admin, 500).unwrap();
    client.set_transfer_locked(admin, false).unwrap();

    client.mint(admin, 2000, minter).unwrap();
    let spender = env.generate();
    let expiration = env.sequence() + 100;
    client.approve(&env.ledger, admin, spender, 1000, expiration).unwrap();

    let recipient = env.generate();
    client.transfer_from(&env.ledger, spender, admin, recipient, 1000).unwrap();

    assert_eq!(client.balance(recipient).unwrap(), 1000);
    assert_eq!(client.balance(admin).unwrap(), 1000);
    assert_eq!(client.allowance(&env.ledger, admin, spender).unwrap(), 0);
}

#[test]
fn test_sub_asset_decimals_can_be_updated_within_supported_range() {
    let mut env = TestEnv::default();
    let (mut client, _admin, _minter) = setup_token(&mut env);

    client.set_decimals(18).unwrap();
    assert_eq!(client.decimals().unwrap(), 18);

    assert_eq!(last_event(&client), TokenEvent::DecimalsUpdated { old_value: 7, new_value: 18 });
}

#[test]
fn test_sub_asset_decimals_reject_unsupported_precision() {
    let mut env = TestEnv::default();
    let (mut client, _admin, _minter) = setup_token(&mut env);

    let result = client.set_decimals(19);
    assert_eq!(result, Err(Error::InvalidDecimals));
    assert_eq!(client.decimals().unwrap(), 7);
}

#[test]
fn test_initialize_rejects_unsupported_precision() {
    let mut env = TestEnv::default();
    let mut client = InvoiceToken::new();
    let admin = env.generate();
    let minter = env.generate();

    let result = client.initialize(
        admin,
        "Invoice INV-001".to_string(),
        "INV001".to_string(),
        19,
        "inv_001".to_string(),
        minter,
    );
    assert_eq!(result, Err(Error::InvalidDecimals));
}

#[test]
fn test_balance_batch_preserves_order_and_includes_zero_balances() {
    let mut env = TestEnv::default();
    let (mut client, _admin, minter) = setup_token(&mut env);
    let first = env.generate();
    let empty = env.generate();
    let second = env.generate();
    client.mint(first, 25, minter).unwrap();
    client.mint(second, 50, minter).unwrap();

    let ids = vec![first, empty, second, first];

    let balances = client.balance_batch(&ids).unwrap();
    assert_eq!(balances, vec![25i128, 0, 50, 25]);
}

#[test]
fn test_balance_batch_requires_initialization() {
    let mut env = TestEnv::default();
    let client = InvoiceToken::new();
    let ids = vec![env.generate()];

    assert_eq!(client.balance_batch(&ids), Err(Error::NotInit));
}

#[test]
fn test_revoke_approval_clears_allowance_and_emits_event() {
    let mut env = TestEnv::default();
    let (mut client, admin, _minter) = setup_token(&mut env);
    let spender = env.generate();
    let expiration = env.sequence() + 100;
    client.approve(&env.ledger, admin, spender, 500, expiration).unwrap();

    client.revoke_approval(admin, spender).unwrap();
    assert_eq!(client.allowance(&env.ledger, admin, spender).unwrap(), 0);

    assert_eq!(last_event(&client), TokenEvent::ApprovalRevoked { from: admin, spender });
}

#[test]
fn test_pause_blocks_burn_and_burn_from() {
    let mut env = TestEnv::default();
    let (mut client, admin, minter) = setup_token(&mut env);
    let spender = env.generate();
    let expiration = env.sequence() + 100;
    client.mint(admin, 100, minter).unwrap();
    client.approve(&env.ledger, admin, spender, 100, expiration).unwrap();
    client.set_paused(true).unwrap();

    assert_eq!(client.burn(admin, 10), Err(Error::Paused));
    assert_eq!(client.burn_from(&env.ledger, spender, admin, 10), Err(Error::Paused));
    assert_eq!(client.balance(admin).unwrap(), 100);
    assert_eq!(client.total_supply().unwrap(), 100);
    assert_eq!(client.allowance(&env.ledger, admin, spender).unwrap(), 100);
}

#[test]
fn test_initialize_rejects_empty_name() {
    let mut env = TestEnv::default();
    let mut client = InvoiceToken::new();
    let admin = env.generate();
    let minter = env.generate();

    let result = client.initialize(
        admin,
        "".to_string(),
        "INV001".to_string(),
        7,
        "inv_001".to_string(),
        minter,
    );
    assert_eq!(result, Err(Error::InvalidMetadata));
}

#[test]
fn test_initialize_rejects_empty_symbol() {
    let mut env = TestEnv::default();
    let mut client = InvoiceToken::new();
    let admin = env.generate();
    let minter = env.generate();

    let result = client.initialize(
        admin,
        "Invoice INV-001".to_string(),
        "".to_string(),
        7,
        "inv_001".to_string(),
        minter,
    );
    assert_eq!(result, Err(Error::InvalidMetadata));
}

#[test]
fn test_extend_allowance_updates_expiration_only() {
    let mut env = TestEnv::default();
    let (mut client, admin, minter) = setup_token(&mut env);
    let spender = env.generate();

    client.mint(admin, 1000, minter).unwrap();
    let expiration = env.sequence() + 100;
    client.approve(&env.ledger, admin, spender, 500, expiration).unwrap();

    let new_expiration = expiration + 200;
    client.extend_allowance(&env.ledger, admin, spender, new_expiration).unwrap();

    assert_eq!(client.allowance(&env.ledger, admin, spender).unwrap(), 500);

    env.set_sequence(expiration + 1);
    assert_eq!(client.allowance(&env.ledger, admin, spender).unwrap(), 500);
}

#[test]
fn test_extend_allowance_requires_later_expiration() {
    let mut env = TestEnv::default();
    let (mut client, admin, minter) = setup_token(&mut env);
    let spender = env.generate();

    client.mint(admin, 1000, minter).unwrap();
    let expiration = env.sequence() + 100;
    client.approve(&env.ledger, admin, spender, 500, expiration).unwrap();

    let result = client.extend_allowance(&env.ledger, admin, spender, expiration);
    assert_eq!(result, Err(Error::InvalidExpiration));

    let result = client.extend_allowance(&env.ledger, admin, spender, expiration - 1);
    assert_eq!(result, Err(Error::InvalidExpiration));
}

#[test]
fn test_extend_allowance_fails_without_existing_allowance() {
    let mut env = TestEnv::default();
    let (mut client, admin, _minter) = setup_token(&mut env);
    let spender = env.generate();

    let result = client.extend_allowance(&env.ledger, admin, spender, env.sequence() + 100);
    assert_eq!(result, Err(Error::AllowanceNotFound));
}

#[test]
fn test_extend_allowance_fails_after_expiry() {
    let mut env = TestEnv::default();
    let (mut client, admin, minter) = setup_token(&mut env);
    let spender = env.generate();

    client.mint(admin, 1000, minter).unwrap();
    let current = env.sequence();
    let expiration = current + 10;
    client.approve(&env.ledger, admin, spender, 500, expiration).unwrap();

    env.set_sequence(expiration + 1);
    let result = client.extend_allowance(&env.ledger, admin, spender, expiration + 100);
    assert_eq!(result, Err(Error::AllowanceExpired));
}

// ========== Storage lifecycle tests ==========

#[test]
fn test_storage_key_total_supply_storage_lifecycle() {
    let mut env = TestEnv::default();
    let mut client = InvoiceToken::new();
    let admin = env.generate();
    let minter = env.generate();
    client
        .initialize(admin, "Test".to_string(), "TST".to_string(), 7, "inv".to_string(), minter)
        .unwrap();

    assert_eq!(client.total_supply().unwrap(), 0);

    let user = env.generate();
    client.mint(user, 5000, minter).unwrap();
    assert_eq!(client.total_supply().unwrap(), 5000);

    client.burn(user, 2000).unwrap();
    assert_eq!(client.total_supply().unwrap(), 3000);
}

#[test]
fn test_storage_key_metadata_storage_lifecycle() {
    let mut env = TestEnv::default();
    let (mut client, _admin, _minter) = setup_token(&mut env);

    assert_eq!(client.name().unwrap(), "Invoice INV-001".to_string());
    assert_eq!(client.symbol().unwrap(), "INV001".to_string());
    assert_eq!(client.decimals().unwrap(), 7);
    assert!(client.transfer_locked().unwrap());

    client.set_decimals(12).unwrap();
    assert_eq!(client.decimals().unwrap(), 12);
}

#[test]
fn test_storage_key_balance_storage_lifecycle() {
    let mut env = TestEnv::default();
    let (mut client, admin, minter) = setup_token(&mut env);
    client.set_transfer_locked(admin, false).unwrap();

    let alice = env.generate();
    let bob = env.generate();

    client.mint(alice, 1000, minter).unwrap();
    assert_eq!(client.balance(alice).unwrap(), 1000);

    client.transfer(&env.ledger, alice, bob, 400).unwrap();
    assert_eq!(client.balance(alice).unwrap(), 600);
    assert_eq!(client.balance(bob).unwrap(), 400);

    let charlie = env.generate();
    assert_eq!(client.balance(charlie).unwrap(), 0);
}

#[test]
fn test_storage_key_allowance_storage_lifecycle() {
    let mut env = TestEnv::default();
    let (mut client, admin, minter) = setup_token(&mut env);
    client.set_transfer_locked(admin, false).unwrap();
    client.mint(admin, 2000, minter).unwrap();

    let spender = env.generate();
    let recipient = env.generate();
    let expiration = env.sequence() + 100;

    client.approve(&env.ledger, admin, spender, 1000, expiration).unwrap();
    assert_eq!(client.allowance(&env.ledger, admin, spender).unwrap(), 1000);

    client.transfer_from(&env.ledger, spender, admin, recipient, 300).unwrap();
    assert_eq!(client.allowance(&env.ledger, admin, spender).unwrap(), 700);
    assert_eq!(client.balance(recipient).unwrap(), 300);

    client.revoke_approval(admin, spender).unwrap();
    assert_eq!(client.allowance(&env.ledger, admin, spender).unwrap(), 0);
}

#[test]
fn test_storage_key_nonce_storage_lifecycle() {
    let mut env = TestEnv::default();
    let (mut client, admin, _minter) = setup_token(&mut env);

    assert_eq!(client.get_nonce(admin).unwrap(), 0);
    assert_eq!(client.get_nonce(admin).unwrap(), 0);

    let unknown = env.generate();
    assert_eq!(client.get_nonce(unknown).unwrap(), 0);
}

#[test]
fn test_storage_key_history_storage_lifecycle() {
    let mut env = TestEnv::default();
    let (mut client, admin, minter) = setup_token(&mut env);
    client.set_transfer_locked(admin, false).unwrap();

    let alice = env.generate();
    let bob = env.generate();

    client.mint(alice, 1000, minter).unwrap();
    client.transfer(&env.ledger, alice, bob, 400).unwrap();

    let alice_history = client.get_token_history(alice).unwrap();
    assert!(alice_history.len() > 0, "Alice should have history after transferring out");

    let bob_history = client.get_token_history(bob).unwrap();
    assert!(bob_history.len() > 0, "Bob should have history after receiving tokens");
}

#[test]
fn test_storage_key_fee_bps_storage_lifecycle() {
    let mut env = TestEnv::default();
    let (mut client, admin, _minter) = setup_token(&mut env);

    assert_eq!(client.get_fee_bps().unwrap(), 0);

    client.set_fee_bps(admin, 500).unwrap();
    assert_eq!(client.get_fee_bps().unwrap(), 500);

    client.set_fee_bps(admin, 1000).unwrap();
    assert_eq!(client.get_fee_bps().unwrap(), 1000);
}

#[test]
fn test_storage_key_role_storage_lifecycle() {
    let mut env = TestEnv::default();
    let (mut client, admin, _minter) = setup_token(&mut env);

    let account = env.generate();
    let role = ADMIN_ROLE;

    let role_admin = client.get_role_admin(role).unwrap();
    assert_eq!(role_admin, admin);

    let new_admin = env.generate();
    client.set_role_admin(admin, role, new_admin).unwrap();
    let updated_admin = client.get_role_admin(role).unwrap();
    assert_eq!(updated_admin, new_admin);

    assert!(!client.has_role(role, account).unwrap());

    client.grant_role(new_admin, role, account).unwrap();
    assert!(client.has_role(role, account).unwrap());

    client.revoke_role(new_admin, role, account).unwrap();
    assert!(!client.has_role(role, account).unwrap());
}

#[test]
fn test_storage_key_unconfigured_role_returns_error() {
    let mut env = TestEnv::default();
    let (client, _admin, _minter) = setup_token(&mut env);

    let custom_role = 77;
    let result = client.get_role_admin(custom_role);
    assert_eq!(result, Err(Error::RoleNotGranted));
}

#[test]
fn test_storage_key_role_grant_cross_role_distinct() {
    let mut env = TestEnv::default();
    let (mut client, admin, _minter) = setup_token(&mut env);
    let account = env.generate();

    let role_a = ADMIN_ROLE;
    let role_b = MINTER_ROLE;

    client.grant_role(admin, role_a, account).unwrap();
    client.grant_role(admin, role_b, account).unwrap();

    assert!(client.has_role(role_a, account).unwrap());
    assert!(client.has_role(role_b, account).unwrap());

    client.revoke_role(admin, role_a, account).unwrap();
    assert!(!client.has_role(role_a, account).unwrap());
    assert!(
        client.has_role(role_b, account).unwrap(),
        "Role B must still be granted after revoking role A"
    );
}

/// A call as the host runs it when only `signers` have consented: when the call
/// asks for any other consent the host refuses it (`Err(None)`) and the token goes
/// back to its state before the call.
fn with_signers<T>(
    client: &mut InvoiceToken,
    signers: &[Address],
    call: impl FnOnce(&mut InvoiceToken) -> Result<T, Error>,
) -> Result<T, Option<Error>> {
    let before = client.clone();
    let asked_before = client.required_auths().len();
    let r = call(client);
    let asked = client.required_auths();
    let missing = asked[asked_before..].iter().any(|q| match q {
        AuthRequest::Invocation(a) => !signers.contains(a),
        AuthRequest::FundingApproval { buyer, .. } => !signers.contains(buyer),
    });
    if missing {
        *client = before;
        return Err(None);
    }
    r.map_err(Some)
}

#[test]
fn test_revoke_approval_requires_from_authorization() {
    let mut env = TestEnv::default();
    let (mut client, admin, _minter) = setup_token(&mut env);
    let spender = env.generate();

    assert!(with_signers(&mut client, &[], |c| c.revoke_approval(admin, spender)).is_err());
}

#[test]
fn each_call_asks_for_the_consent_of_its_acting_party() {
    let mut env = TestEnv::default();
    let (mut client, admin, minter) = setup_token(&mut env);
    let spender = env.generate();
    let other = env.generate();
    client.mint(admin, 1000, minter).unwrap();
    assert_eq!(*client.required_auths().last().unwrap(), AuthRequest::Invocation(minter));
    client.set_transfer_locked(admin, false).unwrap();
    client.approve(&env.ledger, admin, spender, 500, env.sequence() + 10).unwrap();
    assert_eq!(*client.required_auths().last().unwrap(), AuthRequest::Invocation(admin));

    // A delegated transfer needs the spender, not the owner.
    assert_eq!(
        with_signers(&mut client, &[admin], |c| c.transfer_from(&env.ledger, spender, admin, other, 100)),
        Err(None)
    );
    assert_eq!(client.balance(other).unwrap(), 0);
    with_signers(&mut client, &[spender], |c| c.transfer_from(&env.ledger, spender, admin, other, 100)).unwrap();
    assert_eq!(client.balance(other).unwrap(), 100);

    // Admin-only settings need the token admin, whoever sends them.
    assert_eq!(with_signers(&mut client, &[minter], |c| c.set_decimals(6)), Err(None));
    with_signers(&mut client, &[admin], |c| c.set_decimals(6)).unwrap();
    assert_eq!(client.decimals().unwrap(), 6);

    // A call refused for a zero address stops before asking anything.
    let n = client.required_auths().len();
    assert_eq!(client.transfer(&env.ledger, admin, ZERO_CONTRACT_ADDRESS, 1), Err(Error::InvalidAddress));
    assert_eq!(client.required_auths().len(), n);
}
