//! End-to-end escrow scenarios: the escrow runs beside a real invoice token and
//! a payment-asset ledger; the transfers and calls it asks for are carried out
//! by the harness after each successful invocation.

use std::collections::HashMap;

use stellar_settle::address::Address;
use stellar_settle::env::Env;
use stellar_settle::escrow::contract::InvoiceEscrow;
use stellar_settle::escrow::effects::{Effect, EscrowEvent};
use stellar_settle::escrow::errors::Error;
use stellar_settle::escrow::types::{Commitment, EscrowStatus, InvoiceId};
use stellar_settle::token::contract::InvoiceToken;

// ─── harness ────────────────────────────────────────────────────────────────

/// A short symbol as an invoice id.
fn symbol(s: &str) -> InvoiceId {
    let mut h: u64 = 0xcbf2_9ce4_8422_2325;
    for b in s.bytes() {
        h ^= b as u64;
        h = h.wrapping_mul(0x0100_0000_01b3);
    }
    h
}

/// A deterministic 32-byte commitment from an ASCII string (padded with 0s).
fn test_commitment(data: &str) -> Commitment {
    let mut array = [0u8; 32];
    let bytes = data.as_bytes();
    let len = bytes.len().min(32);
    array[..len].copy_from_slice(&bytes[..len]);
    array
}

enum Contract {
    Asset,
    Invoice(InvoiceToken),
}

/// The escrow contract and everything it talks to.
struct World {
    ledger: Env,
    escrow_id: Address,
    escrow: InvoiceEscrow,
    contracts: HashMap<Address, Contract>,
    balances: HashMap<(Address, Address), i128>,
    applied: usize,
    next: Address,
}

impl World {
    fn new() -> World {
        let escrow_id: Address = 1;
        World {
            ledger: Env::new(0, 0, escrow_id),
            escrow_id,
            escrow: InvoiceEscrow::new(),
            contracts: HashMap::new(),
            balances: HashMap::new(),
            applied: 0,
            next: 1_000,
        }
    }

    fn generate(&mut self) -> Address {
        self.next += 1;
        self.next
    }

    fn set_timestamp(&mut self, t: u64) {
        self.ledger.timestamp = t;
    }

    fn register_asset(&mut self) -> Address {
        let id = self.generate();
        self.contracts.insert(id, Contract::Asset);
        id
    }

    fn register_invoice_token(&mut self, admin: Address, name: &str, sym: &str, invoice_id: &str, minter: Address) -> Address {
        let id = self.generate();
        let mut t = InvoiceToken::new();
        t.initialize(admin, name.to_string(), sym.to_string(), 7, invoice_id.to_string(), minter).unwrap();
        self.contracts.insert(id, Contract::Invoice(t));
        id
    }

    fn inv_token(&mut self, id: Address) -> &mut InvoiceToken {
        match self.contracts.get_mut(&id) {
            Some(Contract::Invoice(t)) => t,
            _ => panic!("not an invoice token"),
        }
    }

    fn mint_asset(&mut self, to: Address, token: Address, amount: i128) {
        *self.balances.entry((token, to)).or_insert(0) += amount;
    }

    fn balance(&self, token: Address, who: Address) -> i128 {
        *self.balances.get(&(token, who)).unwrap_or(&0)
    }

    fn decimals(&self, token: Address) -> Option<u32> {
        match self.contracts.get(&token) {
            Some(Contract::Asset) => Some(7),
            Some(Contract::Invoice(t)) => t.decimals().ok(),
            None => None,
        }
    }

    /// Carry out one effect; false when the token refuses the transfer.
    fn apply(&mut self, e: Effect) -> bool {
        match e {
            Effect::Transfer { token, from, to, amount } => {
                assert!(matches!(self.contracts.get(&token), Some(Contract::Asset)), "no such token");
                let have = self.balance(token, from);
                if amount < 0 || have < amount {
                    return false;
                }
                self.balances.insert((token, from), have - amount);
                *self.balances.entry((token, to)).or_insert(0) += amount;
            }
            Effect::Mint { inv_token, to, amount, by } => {
                self.inv_token(inv_token).mint(to, amount, by).unwrap();
            }
            Effect::SetTransferLocked { inv_token, caller, locked } => {
                self.inv_token(inv_token).set_transfer_locked(caller, locked).unwrap();
            }
            Effect::DistributeRefund { .. } | Effect::DistributePayment { .. } => {
                panic!("no payment distributor deployed");
            }
            Effect::Event(_) => {}
        }
        true
    }

    fn run<F: FnOnce(&mut InvoiceEscrow, &Env) -> Result<(), Error>>(&mut self, f: F) -> Result<(), Error> {
        let ledger = self.ledger;
        let escrow_before = self.escrow.clone();
        let balances_before = self.balances.clone();
        let r = f(&mut self.escrow, &ledger);
        let effects = self.escrow.effects();
        if r.is_ok() {
            for e in effects[self.applied..].iter() {
                if !self.apply(*e) {
                    // The call fails as a whole: go back to the state before it.
                    self.escrow = escrow_before;
                    self.balances = balances_before;
                    return Err(Error::TransferFailed);
                }
            }
        } else {
            assert_eq!(effects.len(), self.applied, "a refused call has no effects");
        }
        self.applied = effects.len();
        r
    }

    fn events(&self) -> Vec<EscrowEvent> {
        self.escrow
            .effects()
            .iter()
            .filter_map(|e| match e {
                Effect::Event(ev) => Some(*ev),
                _ => None,
            })
            .collect()
    }

    fn initialize(&mut self, admin: Address, fee_bps: u32) -> Result<(), Error> {
        self.run(|e, _| e.initialize(admin, fee_bps))
    }

    #[allow(clippy::too_many_arguments)]
    fn create_escrow(
        &mut self,
        invoice_id: InvoiceId,
        seller: Address,
        debtor: Address,
        face_value: i128,
        purchase_price: i128,
        due_date: u64,
        payment_token: Address,
        invoice_token: Address,
        commitment: Commitment,
        funding_milestone: Option<i128>,
    ) -> Result<(), Error> {
        let inv_decimals = self.decimals(invoice_token);
        let pay_decimals = self.decimals(payment_token);
        self.run(|e, env| {
            e.create_escrow(
                env,
                invoice_id,
                seller,
                debtor,
                face_value,
                purchase_price,
                due_date,
                payment_token,
                invoice_token,
                commitment,
                funding_milestone,
                inv_decimals,
                pay_decimals,
            )
        })
    }

    fn fund_escrow(&mut self, invoice_id: InvoiceId, buyer: Address, amount: i128) -> Result<(), Error> {
        self.run(|e, env| e.fund_escrow(env, invoice_id, buyer, amount))
    }

    fn record_payment(&mut self, invoice_id: InvoiceId, payer: Address, amount: i128) -> Result<(), Error> {
        self.run(|e, env| e.record_payment(env, invoice_id, payer, amount))
    }

    fn refund(&mut self, invoice_id: InvoiceId) -> Result<(), Error> {
        self.run(|e, env| e.refund(env, invoice_id))
    }

    fn cancel_escrow(&mut self, invoice_id: InvoiceId, seller: Address) -> Result<(), Error> {
        self.run(|e, env| e.cancel_escrow(env, invoice_id, seller))
    }

    fn set_paused(&mut self, paused: bool) -> Result<(), Error> {
        self.run(|e, _| e.set_paused(paused))
    }

    fn update_platform_fee_bps(&mut self, fee: u32) -> Result<(), Error> {
        self.run(|e, _| e.update_platform_fee_bps(fee))
    }
}

/// All addresses needed by most tests.
struct Ctx {
    w: World,
    admin: Address,
    seller: Address,
    buyer: Address,
    payer: Address,
    escrow_id: Address,
    inv_token_id: Address,
    payment_token: Address,
    invoice_id: InvoiceId,
}

impl Ctx {
    fn pay_balance(&self, who: Address) -> i128 {
        self.w.balance(self.payment_token, who)
    }

    fn transfer_locked(&mut self) -> bool {
        let id = self.inv_token_id;
        self.w.inv_token(id).transfer_locked().unwrap()
    }

    fn status(&self) -> EscrowStatus {
        self.w.escrow.get_escrow_status(self.invoice_id).unwrap()
    }
}

/// Stand up the escrow, an invoice token and a payment asset, and mint payment
/// tokens to the buyer and payer.
fn setup(fee_bps: u32, inv_id_str: &str, buyer_balance: i128, payer_balance: i128) -> Ctx {
    let mut w = World::new();
    let admin = w.generate();
    let seller = w.generate();
    let buyer = w.generate();
    let payer = w.generate();
    let escrow_id = w.escrow_id;
    let inv_token_id = w.register_invoice_token(escrow_id, "Test Invoice Token", "TIT", inv_id_str, escrow_id);
    let payment_token = w.register_asset();
    w.initialize(admin, fee_bps).unwrap();
    if buyer_balance > 0 {
        w.mint_asset(buyer, payment_token, buyer_balance);
    }
    if payer_balance > 0 {
        w.mint_asset(payer, payment_token, payer_balance);
    }
    Ctx {
        w,
        admin,
        seller,
        buyer,
        payer,
        escrow_id,
        inv_token_id,
        payment_token,
        invoice_id: symbol(inv_id_str),
    }
}

/// Create an escrow with face value == purchase price == `amount`.
fn create(ctx: &mut Ctx, amount: i128, due_date: u64, label: &str) -> Result<(), Error> {
    let (id, seller, payer, pt, it) = (ctx.invoice_id, ctx.seller, ctx.payer, ctx.payment_token, ctx.inv_token_id);
    ctx.w.create_escrow(id, seller, payer, amount, amount, due_date, pt, it, test_commitment(label), None)
}

/// Create and fully fund an escrow using face_value == purchase_price == `amount`.
fn create_and_fund(ctx: &mut Ctx, amount: i128, due_date: u64) {
    create(ctx, amount, due_date, "commitment").unwrap();
    let (id, buyer) = (ctx.invoice_id, ctx.buyer);
    ctx.w.fund_escrow(id, buyer, amount).unwrap();
}

// ─── lifecycle ──────────────────────────────────────────────────────────────

#[test]
fn test_integration_escrow_lifecycle_happy_path() {
    let mut ctx = setup(300, "INV001", 1_000, 1_000);
    let due_date = 100_000u64;
    create_and_fund(&mut ctx, 1_000, due_date);
    let (id, payer, buyer, inv) = (ctx.invoice_id, ctx.payer, ctx.buyer, ctx.inv_token_id);

    assert_eq!(ctx.pay_balance(buyer), 0);
    assert_eq!(ctx.pay_balance(ctx.escrow_id), 1_000);
    assert_eq!(ctx.w.inv_token(inv).balance(buyer).unwrap(), 1_000);
    assert!(ctx.transfer_locked());
    assert_eq!(ctx.status(), EscrowStatus::Funded);

    ctx.w.record_payment(id, payer, 1_000).unwrap();

    assert_eq!(ctx.pay_balance(ctx.admin), 30);
    assert_eq!(ctx.pay_balance(buyer), 970);
    assert_eq!(ctx.pay_balance(ctx.seller), 1_000);
    assert_eq!(ctx.pay_balance(ctx.escrow_id), 0);
    assert_eq!(ctx.pay_balance(payer), 0);
    assert_eq!(ctx.status(), EscrowStatus::Settled);
    assert!(!ctx.transfer_locked());

    let recipient = ctx.w.generate();
    let ledger = ctx.w.ledger;
    ctx.w.inv_token(inv).transfer(&ledger, buyer, recipient, 1_000).unwrap();
    assert_eq!(ctx.w.inv_token(inv).balance(buyer).unwrap(), 0);
    assert_eq!(ctx.w.inv_token(inv).balance(recipient).unwrap(), 1_000);
}

#[test]
fn test_integration_refund_lifecycle() {
    let mut ctx = setup(300, "INVREF", 1_000, 0);
    ctx.w.set_timestamp(5_000);
    let due_date = 10_000u64;
    create_and_fund(&mut ctx, 1_000, due_date);
    let id = ctx.invoice_id;

    assert!(ctx.w.refund(id).is_err());

    ctx.w.set_timestamp(due_date + 1);
    ctx.w.refund(id).unwrap();

    assert_eq!(ctx.pay_balance(ctx.buyer), 1_000);
    assert_eq!(ctx.pay_balance(ctx.escrow_id), 0);
    assert_eq!(ctx.status(), EscrowStatus::Refunded);
    assert!(!ctx.transfer_locked());
}

#[test]
fn test_integration_token_locked_during_active_escrow() {
    let mut ctx = setup(300, "INVLCK", 500, 500);
    create_and_fund(&mut ctx, 500, 20_000);
    assert!(ctx.transfer_locked());

    let other = ctx.w.generate();
    let (buyer, inv, id, payer) = (ctx.buyer, ctx.inv_token_id, ctx.invoice_id, ctx.payer);
    let ledger = ctx.w.ledger;
    assert!(ctx.w.inv_token(inv).transfer(&ledger, buyer, other, 100).is_err());

    ctx.w.record_payment(id, payer, 500).unwrap();
    assert!(!ctx.transfer_locked());
    ctx.w.inv_token(inv).transfer(&ledger, buyer, other, 100).unwrap();
    assert_eq!(ctx.w.inv_token(inv).balance(buyer).unwrap(), 400);
    assert_eq!(ctx.w.inv_token(inv).balance(other).unwrap(), 100);
}

#[test]
fn test_integration_partial_payments_accumulate_to_settlement() {
    let mut ctx = setup(500, "INVPART", 1_000, 1_000);
    create_and_fund(&mut ctx, 1_000, 99_999);
    let (id, payer) = (ctx.invoice_id, ctx.payer);

    ctx.w.record_payment(id, payer, 400).unwrap();
    assert_eq!(ctx.status(), EscrowStatus::Funded);
    assert_eq!(ctx.pay_balance(ctx.admin), 20);
    assert_eq!(ctx.pay_balance(ctx.buyer), 380);
    assert_eq!(ctx.pay_balance(ctx.seller), 400);
    assert!(ctx.transfer_locked());

    ctx.w.record_payment(id, payer, 600).unwrap();
    assert_eq!(ctx.status(), EscrowStatus::Settled);
    assert_eq!(ctx.pay_balance(ctx.admin), 50);
    assert_eq!(ctx.pay_balance(ctx.buyer), 950);
    assert_eq!(ctx.pay_balance(ctx.seller), 1_000);
    assert_eq!(ctx.pay_balance(ctx.escrow_id), 0);
    assert_eq!(ctx.pay_balance(payer), 0);
    assert!(!ctx.transfer_locked());
}

#[test]
fn test_integration_partial_payment_then_refund() {
    let mut ctx = setup(300, "INVPREF", 1_000, 1_000);
    ctx.w.set_timestamp(1_000);
    create_and_fund(&mut ctx, 1_000, 5_000);
    let (id, payer) = (ctx.invoice_id, ctx.payer);

    ctx.w.record_payment(id, payer, 400).unwrap();
    assert_eq!(ctx.pay_balance(ctx.seller), 400);
    assert_eq!(ctx.pay_balance(ctx.buyer), 388);
    assert_eq!(ctx.pay_balance(ctx.admin), 12);
    assert_eq!(ctx.pay_balance(ctx.escrow_id), 600);

    ctx.w.set_timestamp(5_001);
    ctx.w.refund(id).unwrap();
    assert_eq!(ctx.status(), EscrowStatus::Refunded);
    assert_eq!(ctx.pay_balance(ctx.buyer), 388 + 600);
    assert_eq!(ctx.pay_balance(ctx.escrow_id), 0);
    assert!(!ctx.transfer_locked());
}

#[test]
fn test_integration_cancel_escrow_happy_path() {
    let mut ctx = setup(300, "INVCAN", 0, 0);
    create(&mut ctx, 1_000, 99_999, "cancel_test").unwrap();
    assert_eq!(ctx.status(), EscrowStatus::Created);
    let (id, seller) = (ctx.invoice_id, ctx.seller);
    ctx.w.cancel_escrow(id, seller).unwrap();
    assert_eq!(ctx.status(), EscrowStatus::Cancelled);
}

#[test]
fn test_integration_cancel_funded_escrow_fails() {
    let mut ctx = setup(300, "INVCNF", 1_000, 0);
    create_and_fund(&mut ctx, 1_000, 99_999);
    let (id, seller) = (ctx.invoice_id, ctx.seller);
    assert_eq!(ctx.w.cancel_escrow(id, seller), Err(Error::EscrowFunded));
}

#[test]
fn test_integration_cancel_non_seller_rejected() {
    let mut ctx = setup(300, "INVCNR", 0, 0);
    create(&mut ctx, 1_000, 99_999, "cancel_non_seller").unwrap();
    let intruder = ctx.w.generate();
    let id = ctx.invoice_id;
    assert_eq!(ctx.w.cancel_escrow(id, intruder), Err(Error::Unauthorized));
}

#[test]
fn test_integration_fund_cancelled_escrow_rejected() {
    let mut ctx = setup(300, "INVCFC", 1_000, 0);
    create(&mut ctx, 1_000, 99_999, "fund_cancelled").unwrap();
    let (id, seller, buyer) = (ctx.invoice_id, ctx.seller, ctx.buyer);
    ctx.w.cancel_escrow(id, seller).unwrap();
    assert_eq!(ctx.w.fund_escrow(id, buyer, 1_000), Err(Error::EscrowCancelled));
}

#[test]
fn test_integration_pause_blocks_fund_and_payment() {
    let mut ctx = setup(300, "INVPSE", 1_000, 1_000);
    create(&mut ctx, 1_000, 99_999, "pause_test").unwrap();
    let (id, buyer, payer) = (ctx.invoice_id, ctx.buyer, ctx.payer);

    ctx.w.set_paused(true).unwrap();
    assert!(ctx.w.escrow.paused().unwrap());
    assert_eq!(ctx.w.fund_escrow(id, buyer, 1_000), Err(Error::Paused));

    ctx.w.set_paused(false).unwrap();
    ctx.w.fund_escrow(id, buyer, 1_000).unwrap();

    ctx.w.set_paused(true).unwrap();
    assert_eq!(ctx.w.record_payment(id, payer, 1_000), Err(Error::Paused));

    ctx.w.set_paused(false).unwrap();
    ctx.w.record_payment(id, payer, 1_000).unwrap();
    assert_eq!(ctx.status(), EscrowStatus::Settled);
}

#[test]
fn test_integration_pause_blocks_refund() {
    let mut ctx = setup(300, "INVPSR", 1_000, 0);
    ctx.w.set_timestamp(1_000);
    create_and_fund(&mut ctx, 1_000, 5_000);
    let id = ctx.invoice_id;

    ctx.w.set_timestamp(5_001);
    ctx.w.set_paused(true).unwrap();
    assert_eq!(ctx.w.refund(id), Err(Error::Paused));

    ctx.w.set_paused(false).unwrap();
    ctx.w.refund(id).unwrap();
    assert_eq!(ctx.status(), EscrowStatus::Refunded);
}

#[test]
fn test_integration_zero_fee_full_investor_return() {
    let mut ctx = setup(0, "INVZF", 1_000, 1_000);
    create_and_fund(&mut ctx, 1_000, 99_999);
    let (id, payer) = (ctx.invoice_id, ctx.payer);
    ctx.w.record_payment(id, payer, 1_000).unwrap();
    assert_eq!(ctx.pay_balance(ctx.admin), 0);
    assert_eq!(ctx.pay_balance(ctx.buyer), 1_000);
    assert_eq!(ctx.pay_balance(ctx.seller), 1_000);
}

#[test]
fn test_integration_max_fee_investor_receives_nothing() {
    let mut ctx = setup(10_000, "INVMF", 1_000, 1_000);
    create_and_fund(&mut ctx, 1_000, 99_999);
    let (id, payer) = (ctx.invoice_id, ctx.payer);
    ctx.w.record_payment(id, payer, 1_000).unwrap();
    assert_eq!(ctx.pay_balance(ctx.admin), 1_000);
    assert_eq!(ctx.pay_balance(ctx.buyer), 0);
    assert_eq!(ctx.pay_balance(ctx.seller), 1_000);
    assert_eq!(ctx.pay_balance(ctx.escrow_id), 0);
}

#[test]
fn test_integration_wrong_payer_rejected() {
    let mut ctx = setup(300, "INVWP", 1_000, 0);
    create_and_fund(&mut ctx, 1_000, 99_999);
    let impostor = ctx.w.generate();
    let (pt, id) = (ctx.payment_token, ctx.invoice_id);
    ctx.w.mint_asset(impostor, pt, 1_000);
    assert_eq!(ctx.w.record_payment(id, impostor, 1_000), Err(Error::InvalidPayer));
}

#[test]
fn test_integration_overpayment_rejected() {
    let mut ctx = setup(300, "INVOVR", 1_000, 2_000);
    create_and_fund(&mut ctx, 1_000, 99_999);
    let (id, payer) = (ctx.invoice_id, ctx.payer);
    assert_eq!(ctx.w.record_payment(id, payer, 1_001), Err(Error::InvalidAmount));
}

#[test]
fn test_integration_over_funding_rejected() {
    let mut ctx = setup(300, "INVOVF", 2_000, 0);
    create(&mut ctx, 1_000, 99_999, "over_fund").unwrap();
    let (id, buyer) = (ctx.invoice_id, ctx.buyer);
    assert_eq!(ctx.w.fund_escrow(id, buyer, 1_001), Err(Error::InvalidAmount));
}

#[test]
fn test_integration_fee_update_affects_subsequent_payment() {
    let mut ctx = setup(300, "INVFUP", 1_000, 1_000);
    create_and_fund(&mut ctx, 1_000, 99_999);
    let (id, payer) = (ctx.invoice_id, ctx.payer);

    ctx.w.record_payment(id, payer, 500).unwrap();
    assert_eq!(ctx.pay_balance(ctx.admin), 15);
    assert_eq!(ctx.pay_balance(ctx.buyer), 485);
    assert_eq!(ctx.pay_balance(ctx.seller), 500);

    ctx.w.update_platform_fee_bps(1_000).unwrap();
    assert_eq!(ctx.w.escrow.get_config().unwrap().fee_bps, 1_000);

    ctx.w.record_payment(id, payer, 500).unwrap();
    assert_eq!(ctx.pay_balance(ctx.admin), 15 + 50);
    assert_eq!(ctx.pay_balance(ctx.buyer), 485 + 450);
    assert_eq!(ctx.pay_balance(ctx.seller), 1_000);
    assert_eq!(ctx.status(), EscrowStatus::Settled);
}

#[test]
fn test_integration_duplicate_invoice_id_rejected() {
    let mut ctx = setup(300, "INVDUP", 0, 0);
    let commitment = test_commitment("dup");
    let (id, seller, payer, pt, it) = (ctx.invoice_id, ctx.seller, ctx.payer, ctx.payment_token, ctx.inv_token_id);
    ctx.w.create_escrow(id, seller, payer, 1_000, 1_000, 99_999, pt, it, commitment, None).unwrap();
    let result = ctx.w.create_escrow(id, seller, payer, 2_000, 2_000, 99_999, pt, it, commitment, None);
    assert_eq!(result, Err(Error::EscrowExists));
}

#[test]
fn test_integration_past_due_date_rejected() {
    let mut ctx = setup(300, "INVPDD", 0, 0);
    ctx.w.set_timestamp(50_000);
    assert_eq!(create(&mut ctx, 1_000, 49_999, "past_due"), Err(Error::InvalidDueDate));
}

#[test]
fn test_integration_zero_due_date_rejected() {
    let mut ctx = setup(300, "INVZDD", 0, 0);
    assert_eq!(create(&mut ctx, 1_000, 0, "zero_due"), Err(Error::InvalidDueDate));
}

#[test]
fn test_integration_create_escrow_not_initialized() {
    let mut w = World::new();
    let seller = w.generate();
    let payer = w.generate();
    let token = w.generate();
    let inv_token = w.generate();
    let result = w.create_escrow(symbol("INV"), seller, payer, 1_000, 1_000, 99_999, token, inv_token, test_commitment("no_init"), None);
    assert_eq!(result, Err(Error::NotInit));
}

#[test]
fn test_integration_state_persistence_after_create() {
    let mut ctx = setup(300, "INVPST", 0, 0);
    let commitment = test_commitment("persistence");
    let (id, seller, payer, pt, it) = (ctx.invoice_id, ctx.seller, ctx.payer, ctx.payment_token, ctx.inv_token_id);
    ctx.w.create_escrow(id, seller, payer, 2_000, 1_800, 88_888, pt, it, commitment, None).unwrap();

    let data = ctx.w.escrow.get_escrow(id).unwrap();
    assert_eq!(data.inv_id, id);
    assert_eq!(data.seller, seller);
    assert_eq!(data.debtor, payer);
    assert_eq!(data.face_value, 2_000);
    assert_eq!(data.purchase_price, 1_800);
    assert_eq!(data.funded_amt, 0);
    assert_eq!(data.due_dt, 88_888);
    assert_eq!(data.paid_amt, 0);
    assert_eq!(data.status, EscrowStatus::Created);
    assert_eq!(data.commitment, commitment);
    assert!(data.funder.is_none());
}

#[test]
fn test_integration_state_persistence_after_fund() {
    let mut ctx = setup(300, "INVPSF", 1_000, 0);
    create_and_fund(&mut ctx, 1_000, 99_999);
    let data = ctx.w.escrow.get_escrow(ctx.invoice_id).unwrap();
    assert_eq!(data.status, EscrowStatus::Funded);
    assert_eq!(data.funded_amt, 1_000);
    assert_eq!(data.funder, Some(ctx.buyer));
}

#[test]
fn test_integration_state_persistence_after_settlement() {
    let mut ctx = setup(300, "INVPSS", 1_000, 1_000);
    create_and_fund(&mut ctx, 1_000, 99_999);
    let (id, payer) = (ctx.invoice_id, ctx.payer);
    ctx.w.record_payment(id, payer, 1_000).unwrap();
    let data = ctx.w.escrow.get_escrow(id).unwrap();
    assert_eq!(data.status, EscrowStatus::Settled);
    assert_eq!(data.paid_amt, 1_000);
}

#[test]
fn test_integration_state_persistence_after_refund() {
    let mut ctx = setup(300, "INVPSR", 1_000, 0);
    create_and_fund(&mut ctx, 1_000, 5_000);
    ctx.w.set_timestamp(5_001);
    let id = ctx.invoice_id;
    ctx.w.refund(id).unwrap();
    assert_eq!(ctx.w.escrow.get_escrow(id).unwrap().status, EscrowStatus::Refunded);
}

#[test]
fn test_integration_get_escrow_not_found() {
    let ctx = setup(300, "INVGNF", 0, 0);
    assert_eq!(ctx.w.escrow.get_escrow(symbol("MISSING")), Err(Error::EscrowNotFound));
}

#[test]
fn test_integration_get_escrow_status_not_found() {
    let ctx = setup(300, "INVSGNF", 0, 0);
    assert_eq!(ctx.w.escrow.get_escrow_status(symbol("MISSING")), Err(Error::EscrowNotFound));
}

#[test]
fn test_integration_commitment_immutable_after_lifecycle() {
    let mut ctx = setup(300, "INVCMT", 1_000, 1_000);
    let initial = test_commitment("original_pdf_hash");
    let (id, seller, payer, pt, it, buyer) =
        (ctx.invoice_id, ctx.seller, ctx.payer, ctx.payment_token, ctx.inv_token_id, ctx.buyer);
    ctx.w.create_escrow(id, seller, payer, 1_000, 1_000, 99_999, pt, it, initial, None).unwrap();

    ctx.w.fund_escrow(id, buyer, 1_000).unwrap();
    assert_eq!(ctx.w.escrow.get_escrow(id).unwrap().commitment, initial);

    ctx.w.record_payment(id, payer, 1_000).unwrap();
    assert_eq!(ctx.w.escrow.get_escrow(id).unwrap().commitment, initial);
}

#[test]
fn test_integration_two_independent_escrows() {
    let mut ctx = setup(300, "INVA01", 1_000, 1_000);
    create_and_fund(&mut ctx, 1_000, 99_999);

    let inv_b_id = symbol("INVB01");
    let (admin, escrow_id) = (ctx.admin, ctx.escrow_id);
    let inv_token_b_id = ctx.w.register_invoice_token(admin, "Invoice B", "INVB", "INVB01", escrow_id);

    let buyer_b = ctx.w.generate();
    let payer_b = ctx.w.generate();
    let pt = ctx.payment_token;
    ctx.w.mint_asset(buyer_b, pt, 500);
    ctx.w.mint_asset(payer_b, pt, 500);

    let seller = ctx.seller;
    ctx.w
        .create_escrow(inv_b_id, seller, payer_b, 500, 500, 99_999, pt, inv_token_b_id, test_commitment("inv_b"), None)
        .unwrap();
    ctx.w.fund_escrow(inv_b_id, buyer_b, 500).unwrap();

    let (id, payer) = (ctx.invoice_id, ctx.payer);
    ctx.w.record_payment(id, payer, 1_000).unwrap();
    assert_eq!(ctx.status(), EscrowStatus::Settled);
    assert_eq!(ctx.w.escrow.get_escrow_status(inv_b_id).unwrap(), EscrowStatus::Funded);

    ctx.w.record_payment(inv_b_id, payer_b, 500).unwrap();
    assert_eq!(ctx.w.escrow.get_escrow_status(inv_b_id).unwrap(), EscrowStatus::Settled);

    assert!(!ctx.transfer_locked());
    assert!(!ctx.w.inv_token(inv_token_b_id).transfer_locked().unwrap());
}

// ─── events ─────────────────────────────────────────────────────────────────

#[test]
fn test_integration_escrow_created_event_emitted() {
    let mut ctx = setup(300, "INVECE", 0, 0);
    let commitment = test_commitment("event_emitted");
    let (id, seller, payer, pt, it) = (ctx.invoice_id, ctx.seller, ctx.payer, ctx.payment_token, ctx.inv_token_id);
    ctx.w.create_escrow(id, seller, payer, 1_000, 900, 55_555, pt, it, commitment, None).unwrap();

    let evt = ctx
        .w
        .events()
        .into_iter()
        .rev()
        .find(|e| matches!(e, EscrowEvent::Created { .. }))
        .expect("expected escrow_created event");
    match evt {
        EscrowEvent::Created { inv_id, seller: s, debtor, face_value, purchase_price, due_dt, commitment: c, .. } => {
            assert_eq!(inv_id, id);
            assert_eq!(s, seller);
            assert_eq!(debtor, payer);
            assert_eq!(face_value, 1_000);
            assert_eq!(purchase_price, 900);
            assert_eq!(due_dt, 55_555);
            assert_eq!(c, commitment);
        }
        _ => unreachable!(),
    }
}

#[test]
fn test_integration_escrow_cancelled_event_emitted() {
    let mut ctx = setup(300, "INVCNE", 0, 0);
    create(&mut ctx, 1_000, 99_999, "cancel_event").unwrap();
    let (id, seller) = (ctx.invoice_id, ctx.seller);
    ctx.w.cancel_escrow(id, seller).unwrap();

    let evt = ctx
        .w
        .events()
        .into_iter()
        .rev()
        .find(|e| matches!(e, EscrowEvent::Cancelled { .. }))
        .expect("expected escrow_cancelled event");
    assert_eq!(evt, EscrowEvent::Cancelled { inv_id: id, seller });
}

#[test]
fn test_integration_payment_settled_event_emitted() {
    let mut ctx = setup(300, "INVPSE", 1_000, 1_000);
    create_and_fund(&mut ctx, 1_000, 99_999);
    let (id, payer) = (ctx.invoice_id, ctx.payer);
    ctx.w.record_payment(id, payer, 1_000).unwrap();

    let evt = ctx
        .w
        .events()
        .into_iter()
        .rev()
        .find(|e| matches!(e, EscrowEvent::PaymentSettled { .. }))
        .expect("expected payment_settled event");
    assert_eq!(
        evt,
        EscrowEvent::PaymentSettled { inv_id: id, amount: 1_000, platform_fee: 30, investor_amount: 970 }
    );
}

#[test]
fn test_integration_escrow_refunded_event_emitted() {
    let mut ctx = setup(300, "INVREF", 1_000, 0);
    create_and_fund(&mut ctx, 1_000, 5_000);
    ctx.w.set_timestamp(5_001);
    let id = ctx.invoice_id;
    ctx.w.refund(id).unwrap();

    let evt = ctx
        .w
        .events()
        .into_iter()
        .rev()
        .find(|e| matches!(e, EscrowEvent::Refunded { .. }))
        .expect("expected escrow_refunded event");
    assert_eq!(evt, EscrowEvent::Refunded { inv_id: id, amount: 1_000 });
}

#[test]
fn test_integration_discounted_purchase_price() {
    let mut ctx = setup(0, "INVDSC", 900, 900);
    create(&mut ctx, 900, 99_999, "discount").unwrap();
    let (id, buyer, payer) = (ctx.invoice_id, ctx.buyer, ctx.payer);
    ctx.w.fund_escrow(id, buyer, 900).unwrap();
    assert_eq!(ctx.pay_balance(buyer), 0);
    assert_eq!(ctx.pay_balance(ctx.escrow_id), 900);
    assert_eq!(ctx.status(), EscrowStatus::Funded);

    ctx.w.record_payment(id, payer, 900).unwrap();
    assert_eq!(ctx.pay_balance(ctx.admin), 0);
    assert_eq!(ctx.pay_balance(buyer), 900);
    assert_eq!(ctx.pay_balance(ctx.seller), 900);
    assert_eq!(ctx.pay_balance(ctx.escrow_id), 0);
}

#[test]
fn test_integration_refund_at_exact_due_date_blocked() {
    let mut ctx = setup(300, "INVBND", 1_000, 0);
    create_and_fund(&mut ctx, 1_000, 5_000);
    let id = ctx.invoice_id;

    ctx.w.set_timestamp(4_999);
    assert_eq!(ctx.w.refund(id), Err(Error::RefundNotAllowed));

    ctx.w.set_timestamp(5_000);
    ctx.w.refund(id).unwrap();
    assert_eq!(ctx.status(), EscrowStatus::Refunded);
}

#[test]
fn test_integration_double_refund_rejected() {
    let mut ctx = setup(300, "INVDR", 1_000, 0);
    create_and_fund(&mut ctx, 1_000, 5_000);
    ctx.w.set_timestamp(5_001);
    let id = ctx.invoice_id;
    ctx.w.refund(id).unwrap();
    assert_eq!(ctx.w.refund(id), Err(Error::RefundNotAllowed));
}

#[test]
fn test_integration_get_config_returns_correct_values() {
    let ctx = setup(750, "INVCFG", 0, 0);
    let cfg = ctx.w.escrow.get_config().unwrap();
    assert_eq!(cfg.admin, ctx.admin);
    assert_eq!(cfg.fee_bps, 750);
    assert!(!cfg.paused);
    assert!(cfg.payment_distributor.is_none());
}

#[test]
fn test_integration_cancel_after_partial_payment_preserves_state() {
    let mut ctx = setup(300, "INVCPP", 1_000, 1_000);
    create_and_fund(&mut ctx, 1_000, 99_999);
    let (id, payer, seller) = (ctx.invoice_id, ctx.payer, ctx.seller);
    ctx.w.record_payment(id, payer, 400).unwrap();

    assert_eq!(ctx.w.cancel_escrow(id, seller), Err(Error::EscrowFunded));

    let data = ctx.w.escrow.get_escrow(id).unwrap();
    assert_eq!(data.status, EscrowStatus::Funded);
    assert_eq!(data.funded_amt, 1_000);
    assert_eq!(data.paid_amt, 400);
    assert_eq!(ctx.pay_balance(payer), 600);
    assert_eq!(ctx.pay_balance(ctx.escrow_id), 600);
    assert_eq!(ctx.pay_balance(seller), 400);
    assert_eq!(ctx.pay_balance(ctx.admin), 12);
    assert_eq!(ctx.pay_balance(ctx.buyer), 388);
    assert!(ctx.transfer_locked());
}

#[test]
fn test_integration_pause_blocks_settlement() {
    let mut ctx = setup(300, "INVPAUSES", 1_000, 1_000);
    create_and_fund(&mut ctx, 1_000, 99_999);
    ctx.w.set_paused(true).unwrap();
    let (id, payer) = (ctx.invoice_id, ctx.payer);
    assert_eq!(ctx.w.record_payment(id, payer, 1_000), Err(Error::Paused));
    assert_eq!(ctx.status(), EscrowStatus::Funded);
    assert_eq!(ctx.pay_balance(ctx.escrow_id), 1_000);
}

#[test]
fn test_integration_pause_blocks_refund_after_deadline() {
    let mut ctx = setup(300, "INVPAUSER", 1_000, 0);
    ctx.w.set_timestamp(5_000);
    create_and_fund(&mut ctx, 1_000, 99_999);
    ctx.w.set_timestamp(100_000);
    ctx.w.set_paused(true).unwrap();
    let id = ctx.invoice_id;
    assert_eq!(ctx.w.refund(id), Err(Error::Paused));
    assert_eq!(ctx.status(), EscrowStatus::Funded);
    assert_eq!(ctx.pay_balance(ctx.escrow_id), 1_000);
}

#[test]
fn test_integration_unpause_restores_behavior() {
    let mut ctx = setup(300, "INVUNP", 1_000, 1_000);
    ctx.w.set_timestamp(5_000);
    create_and_fund(&mut ctx, 1_000, 99_999);
    let (id, payer) = (ctx.invoice_id, ctx.payer);
    ctx.w.set_paused(true).unwrap();
    assert_eq!(ctx.w.record_payment(id, payer, 1_000), Err(Error::Paused));
    ctx.w.set_paused(false).unwrap();
    ctx.w.record_payment(id, payer, 1_000).unwrap();
    assert_eq!(ctx.status(), EscrowStatus::Settled);
}

#[test]
fn test_integration_refund_after_deadline() {
    let mut ctx = setup(300, "INVREFD", 1_000, 0);
    ctx.w.set_timestamp(5_000);
    create_and_fund(&mut ctx, 1_000, 99_999);
    ctx.w.set_timestamp(100_000);
    let id = ctx.invoice_id;
    ctx.w.refund(id).unwrap();
    assert_eq!(ctx.status(), EscrowStatus::Refunded);
    assert_eq!(ctx.pay_balance(ctx.buyer), 1_000);
    assert_eq!(ctx.pay_balance(ctx.escrow_id), 0);
    assert!(!ctx.transfer_locked());
}

#[test]
fn test_integration_refund_before_deadline_rejected() {
    let mut ctx = setup(300, "INVREFB", 1_000, 0);
    ctx.w.set_timestamp(5_000);
    create_and_fund(&mut ctx, 1_000, 99_999);
    let id = ctx.invoice_id;
    assert_eq!(ctx.w.refund(id), Err(Error::RefundNotAllowed));
}

#[test]
fn test_integration_partial_payment_refund() {
    let mut ctx = setup(300, "INVREFP", 1_000, 1_000);
    ctx.w.set_timestamp(5_000);
    create_and_fund(&mut ctx, 1_000, 99_999);
    let (id, payer) = (ctx.invoice_id, ctx.payer);
    ctx.w.record_payment(id, payer, 400).unwrap();
    assert_eq!(ctx.pay_balance(ctx.escrow_id), 600);

    ctx.w.set_timestamp(100_000);
    ctx.w.refund(id).unwrap();
    assert_eq!(ctx.pay_balance(ctx.buyer), 988);
    assert_eq!(ctx.pay_balance(ctx.escrow_id), 0);
    assert_eq!(ctx.status(), EscrowStatus::Refunded);
}

#[test]
fn test_integration_duplicate_refund_rejected() {
    let mut ctx = setup(300, "INVREFDD", 1_000, 0);
    ctx.w.set_timestamp(5_000);
    create_and_fund(&mut ctx, 1_000, 99_999);
    ctx.w.set_timestamp(100_000);
    let id = ctx.invoice_id;
    ctx.w.refund(id).unwrap();
    assert_eq!(ctx.w.refund(id), Err(Error::RefundNotAllowed));
}

#[test]
fn test_integration_refund_restores_capacity() {
    let mut ctx = setup(300, "INVREFC", 1_000, 0);
    ctx.w.set_timestamp(5_000);
    create_and_fund(&mut ctx, 1_000, 99_999);
    ctx.w.set_timestamp(100_000);
    let id = ctx.invoice_id;
    ctx.w.refund(id).unwrap();

    let mut ctx2 = setup(300, "INVREFC2", 1_000, 0);
    ctx2.w.set_timestamp(100_000);
    create(&mut ctx2, 1_000, 200_000, "commitment2").unwrap();
    let (id2, buyer2) = (ctx2.invoice_id, ctx2.buyer);
    ctx2.w.fund_escrow(id2, buyer2, 1_000).unwrap();
    assert_eq!(ctx2.pay_balance(buyer2), 0);
    assert_eq!(ctx2.pay_balance(ctx2.escrow_id), 1_000);
}

// ─── edge cases ─────────────────────────────────────────────────────────────

#[test]
fn test_edge_minimum_amount_one_stroop() {
    let mut ctx = setup(0, "EDGEMIN", 1, 1);
    create(&mut ctx, 1, 99_999, "min_amt").unwrap();
    let (id, buyer, payer) = (ctx.invoice_id, ctx.buyer, ctx.payer);
    ctx.w.fund_escrow(id, buyer, 1).unwrap();
    assert_eq!(ctx.status(), EscrowStatus::Funded);
    ctx.w.record_payment(id, payer, 1).unwrap();
    assert_eq!(ctx.status(), EscrowStatus::Settled);
    assert_eq!(ctx.pay_balance(buyer), 1);
    assert_eq!(ctx.pay_balance(ctx.seller), 1);
}

#[test]
fn test_edge_large_amounts_near_max() {
    let large = i128::MAX / 2;
    let mut ctx = setup(0, "EDGELRG", large, large);
    create(&mut ctx, large, 99_999, "large").unwrap();
    let (id, buyer) = (ctx.invoice_id, ctx.buyer);
    ctx.w.fund_escrow(id, buyer, large).unwrap();
    assert_eq!(ctx.status(), EscrowStatus::Funded);
}

#[test]
fn test_edge_fund_zero_amount_rejected() {
    let mut ctx = setup(300, "EDGEZ", 0, 0);
    create(&mut ctx, 1_000, 99_999, "zero").unwrap();
    let (id, buyer) = (ctx.invoice_id, ctx.buyer);
    assert_eq!(ctx.w.fund_escrow(id, buyer, 0), Err(Error::ZeroAmount));
}

#[test]
fn test_edge_negative_amount_rejected() {
    let mut ctx = setup(300, "EDGENEG", 0, 0);
    let (id, seller, payer, pt, it) = (ctx.invoice_id, ctx.seller, ctx.payer, ctx.payment_token, ctx.inv_token_id);
    let result = ctx.w.create_escrow(id, seller, payer, -1_000, 1_000, 99_999, pt, it, test_commitment("neg"), None);
    assert_eq!(result, Err(Error::InvalidAmount));
}

#[test]
fn test_edge_state_persists_after_failed_fund() {
    let mut ctx = setup(300, "EDGESPF", 1_000, 0);
    create(&mut ctx, 1_000, 99_999, "persist").unwrap();
    let (id, buyer) = (ctx.invoice_id, ctx.buyer);
    let data_before = ctx.w.escrow.get_escrow(id).unwrap();
    assert_eq!(ctx.w.fund_escrow(id, buyer, 2_000), Err(Error::InvalidAmount));
    let data_after = ctx.w.escrow.get_escrow(id).unwrap();
    assert_eq!(data_before, data_after);
    assert_eq!(data_after.status, EscrowStatus::Created);
    assert_eq!(data_after.funded_amt, 0);
}

#[test]
fn test_edge_state_persists_after_failed_payment() {
    let mut ctx = setup(300, "EDGESPP", 1_000, 1_000);
    create_and_fund(&mut ctx, 1_000, 99_999);
    let (id, payer) = (ctx.invoice_id, ctx.payer);
    let data_before = ctx.w.escrow.get_escrow(id).unwrap();
    assert_eq!(ctx.w.record_payment(id, payer, 2_000), Err(Error::InvalidAmount));
    let data_after = ctx.w.escrow.get_escrow(id).unwrap();
    assert_eq!(data_before.status, data_after.status);
    assert_eq!(data_before.paid_amt, data_after.paid_amt);
    assert_eq!(data_after.paid_amt, 0);
}

#[test]
fn test_edge_concurrent_multiple_fundings() {
    let mut ctx = setup(300, "EDGEMF", 0, 1_000);
    create(&mut ctx, 1_000, 99_999, "multi").unwrap();
    let buyer1 = ctx.w.generate();
    let buyer2 = ctx.w.generate();
    let buyer3 = ctx.w.generate();
    let pt = ctx.payment_token;
    ctx.w.mint_asset(buyer1, pt, 300);
    ctx.w.mint_asset(buyer2, pt, 400);
    ctx.w.mint_asset(buyer3, pt, 300);
    let (id, payer) = (ctx.invoice_id, ctx.payer);

    ctx.w.fund_escrow(id, buyer1, 300).unwrap();
    assert_eq!(ctx.w.escrow.get_escrow(id).unwrap().funded_amt, 300);
    assert_eq!(ctx.status(), EscrowStatus::Created);

    ctx.w.fund_escrow(id, buyer2, 400).unwrap();
    assert_eq!(ctx.w.escrow.get_escrow(id).unwrap().funded_amt, 700);
    assert_eq!(ctx.status(), EscrowStatus::Created);

    ctx.w.fund_escrow(id, buyer3, 300).unwrap();
    assert_eq!(ctx.w.escrow.get_escrow(id).unwrap().funded_amt, 1_000);
    assert_eq!(ctx.status(), EscrowStatus::Funded);

    ctx.w.record_payment(id, payer, 1_000).unwrap();
    assert_eq!(ctx.status(), EscrowStatus::Settled);
}

#[test]
fn test_edge_due_date_at_current_timestamp_rejected() {
    let mut ctx = setup(300, "EDGEDDT", 0, 0);
    ctx.w.set_timestamp(10_000);
    assert_eq!(create(&mut ctx, 1_000, 10_000, "exact"), Err(Error::InvalidDueDate));
}

#[test]
fn test_edge_refund_at_exact_due_date_allowed() {
    let mut ctx = setup(300, "EDGERBD", 1_000, 0);
    ctx.w.set_timestamp(1_000);
    create_and_fund(&mut ctx, 1_000, 10_000);
    let id = ctx.invoice_id;
    ctx.w.set_timestamp(9_999);
    assert_eq!(ctx.w.refund(id), Err(Error::RefundNotAllowed));
    ctx.w.set_timestamp(10_000);
    ctx.w.refund(id).unwrap();
    assert_eq!(ctx.status(), EscrowStatus::Refunded);
}

#[test]
fn test_edge_multiple_invalid_transitions() {
    let mut ctx = setup(300, "EDGEMST", 1_000, 1_000);
    create_and_fund(&mut ctx, 1_000, 99_999);
    let (id, buyer, seller, payer) = (ctx.invoice_id, ctx.buyer, ctx.seller, ctx.payer);

    assert_eq!(ctx.w.fund_escrow(id, buyer, 1), Err(Error::EscrowFunded));
    assert_eq!(ctx.w.cancel_escrow(id, seller), Err(Error::EscrowFunded));

    ctx.w.record_payment(id, payer, 1_000).unwrap();

    let buyer2 = ctx.w.generate();
    let pt = ctx.payment_token;
    ctx.w.mint_asset(buyer2, pt, 100);
    assert_eq!(ctx.w.fund_escrow(id, buyer2, 100), Err(Error::EscrowFunded));
    assert_eq!(ctx.w.record_payment(id, payer, 1), Err(Error::AlreadySettled));
}

#[test]
fn test_edge_fee_100_percent() {
    let mut ctx = setup(10_000, "EDGEF100", 1_000, 1_000);
    create_and_fund(&mut ctx, 1_000, 99_999);
    let (id, payer) = (ctx.invoice_id, ctx.payer);
    ctx.w.record_payment(id, payer, 1_000).unwrap();
    assert_eq!(ctx.pay_balance(ctx.admin), 1_000);
    assert_eq!(ctx.pay_balance(ctx.buyer), 0);
    assert_eq!(ctx.pay_balance(ctx.seller), 1_000);
}

#[test]
fn test_edge_tiny_partial_payments() {
    let mut ctx = setup(0, "EDGEPAY", 10, 10);
    create(&mut ctx, 10, 99_999, "tiny").unwrap();
    let (id, buyer, payer) = (ctx.invoice_id, ctx.buyer, ctx.payer);
    ctx.w.fund_escrow(id, buyer, 10).unwrap();
    for i in 1..=10 {
        ctx.w.record_payment(id, payer, 1).unwrap();
        let data = ctx.w.escrow.get_escrow(id).unwrap();
        assert_eq!(data.paid_amt, i);
        if i < 10 {
            assert_eq!(data.status, EscrowStatus::Funded);
        } else {
            assert_eq!(data.status, EscrowStatus::Settled);
        }
    }
}

#[test]
fn test_edge_initialize_fee_over_max_rejected() {
    let mut w = World::new();
    let admin = w.generate();
    assert_eq!(w.initialize(admin, 10_001), Err(Error::InvalidFeeBps));
}

#[test]
fn test_edge_commitment_immutable_lifecycle() {
    let mut ctx = setup(300, "EDGECMT", 1_000, 1_000);
    let commitment = test_commitment("immutable_hash_data");
    let (id, seller, payer, pt, it, buyer) =
        (ctx.invoice_id, ctx.seller, ctx.payer, ctx.payment_token, ctx.inv_token_id, ctx.buyer);
    ctx.w.create_escrow(id, seller, payer, 1_000, 1_000, 99_999, pt, it, commitment, None).unwrap();
    assert_eq!(ctx.w.escrow.get_escrow(id).unwrap().commitment, commitment);

    ctx.w.fund_escrow(id, buyer, 500).unwrap();
    assert_eq!(ctx.w.escrow.get_escrow(id).unwrap().commitment, commitment);
    ctx.w.fund_escrow(id, buyer, 500).unwrap();
    assert_eq!(ctx.w.escrow.get_escrow(id).unwrap().commitment, commitment);
    ctx.w.record_payment(id, payer, 500).unwrap();
    assert_eq!(ctx.w.escrow.get_escrow(id).unwrap().commitment, commitment);
    ctx.w.record_payment(id, payer, 500).unwrap();
    assert_eq!(ctx.w.escrow.get_escrow(id).unwrap().commitment, commitment);
}

#[test]
fn test_edge_wrong_payer_rejected() {
    let mut ctx = setup(300, "EDGEWP", 1_000, 0);
    create_and_fund(&mut ctx, 1_000, 99_999);
    let impostor = ctx.w.generate();
    let (pt, id) = (ctx.payment_token, ctx.invoice_id);
    ctx.w.mint_asset(impostor, pt, 1_000);
    assert_eq!(ctx.w.record_payment(id, impostor, 1_000), Err(Error::InvalidPayer));
}

#[test]
fn test_edge_overpayment_rejected() {
    let mut ctx = setup(300, "EDGEOVR", 1_000, 2_000);
    create_and_fund(&mut ctx, 1_000, 99_999);
    let (id, payer) = (ctx.invoice_id, ctx.payer);
    assert_eq!(ctx.w.record_payment(id, payer, 1_001), Err(Error::InvalidAmount));
}

#[test]
fn test_edge_over_funding_rejected() {
    let mut ctx = setup(300, "EDGEOVF", 2_000, 0);
    create(&mut ctx, 1_000, 99_999, "overfund").unwrap();
    let (id, buyer) = (ctx.invoice_id, ctx.buyer);
    assert_eq!(ctx.w.fund_escrow(id, buyer, 1_001), Err(Error::InvalidAmount));
}

#[test]
fn test_edge_payment_on_cancelled_escrow_rejected() {
    let mut ctx = setup(300, "EDGEPCN", 0, 1_000);
    create(&mut ctx, 1_000, 99_999, "pay_cancel").unwrap();
    let (id, seller, payer) = (ctx.invoice_id, ctx.seller, ctx.payer);
    ctx.w.cancel_escrow(id, seller).unwrap();
    assert_eq!(ctx.w.record_payment(id, payer, 1_000), Err(Error::AlreadySettled));
}

#[test]
fn test_edge_discounted_invoice() {
    let mut ctx = setup(0, "EDGEDSC", 800, 1_000);
    // The escrow pays out the face value to both the investor and the seller, so it
    // needs the discount (200) on hand besides the 800 funded and 1000 paid.
    let (pt, escrow_id) = (ctx.payment_token, ctx.escrow_id);
    ctx.w.mint_asset(escrow_id, pt, 200);
    let (id, seller, payer, it, buyer) = (ctx.invoice_id, ctx.seller, ctx.payer, ctx.inv_token_id, ctx.buyer);
    ctx.w.create_escrow(id, seller, payer, 1_000, 800, 99_999, pt, it, test_commitment("discount"), None).unwrap();
    ctx.w.fund_escrow(id, buyer, 800).unwrap();
    assert_eq!(ctx.status(), EscrowStatus::Funded);
    ctx.w.record_payment(id, payer, 1_000).unwrap();
    assert_eq!(ctx.status(), EscrowStatus::Settled);
    assert_eq!(ctx.pay_balance(buyer), 1_000);
    assert_eq!(ctx.pay_balance(seller), 1_000);
}

#[test]
fn test_edge_state_after_failed_cancel() {
    // A partly funded escrow can be cancelled: `cancel_escrow` refunds what was
    // contributed instead of refusing with `EscrowFunded`, which only a fully
    // funded escrow gets.
    let mut ctx = setup(300, "EDGECAN", 1_000, 0);
    let (id, seller, payer, pt, it, buyer) =
        (ctx.invoice_id, ctx.seller, ctx.payer, ctx.payment_token, ctx.inv_token_id, ctx.buyer);
    ctx.w.create_escrow(id, seller, payer, 1_000, 1_000, 99_999, pt, it, test_commitment("cancel_fail"), None).unwrap();
    ctx.w.mint_asset(buyer, pt, 500);
    let before = ctx.pay_balance(buyer);
    ctx.w.fund_escrow(id, buyer, 500).unwrap();
    assert_eq!(ctx.status(), EscrowStatus::Created);
    assert_eq!(ctx.w.cancel_escrow(id, seller), Ok(()));
    assert_eq!(ctx.status(), EscrowStatus::Cancelled);
    assert_eq!(ctx.pay_balance(buyer), before);
}
