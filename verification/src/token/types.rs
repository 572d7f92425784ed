//! Data types of the invoice token.
use vstd::prelude::*;

use crate::address::Address;

verus! {

/// Largest supported number of fractional digits for an invoice sub-asset.
pub const MAX_DECIMALS: u32 = 18;

/// Largest transfer fee, in basis points (100%).
pub const MAX_FEE_BPS: i128 = 10_000;

/// A role of the role-based administration, named by a numeric handle.
pub type Role = u64;

/// The role of the token administrator.
pub const ADMIN_ROLE: Role = 0;
/// The role of accounts allowed to mint.
pub const MINTER_ROLE: Role = 1;
/// The role of accounts allowed to pause.
pub const PAUSER_ROLE: Role = 2;
/// The role of accounts allowed to lock and unlock transfers.
pub const TRANSFER_LOCKER_ROLE: Role = 3;

/// Token metadata and admin config.
#[derive(Debug, PartialEq, Eq)]
pub struct TokenMetadata {
    /// Admin address (can mint, set minter, set transfer_locked).
    pub admin: Address,
    /// Escrow contract (or minter) address allowed to mint.
    pub minter: Address,
    /// Token name (e.g. "Invoice INV-001 Token").
    pub name: String,
    /// Token symbol (e.g. "INV001").
    pub symbol: String,
    /// Number of decimals (e.g. 7).
    pub decimals: u32,
    /// Invoice identifier this token represents.
    pub invoice_id: String,
    /// If true, transfers restricted until settlement (admin can still transfer).
    pub transfer_locked: bool,
    /// Emergency pause flag for sensitive token operations.
    pub paused: bool,
}

impl Clone for TokenMetadata {
    fn clone(&self) -> (r: Self)
        ensures
            r == *self,
    {
        TokenMetadata {
            admin: self.admin,
            minter: self.minter,
            name: self.name.clone(),
            symbol: self.symbol.clone(),
            decimals: self.decimals,
            invoice_id: self.invoice_id.clone(),
            transfer_locked: self.transfer_locked,
            paused: self.paused,
        }
    }
}

/// Allowance entry: amount and expiration ledger.
#[derive(Clone, Copy, Debug, PartialEq, Eq)]
pub struct AllowanceData {
    pub amount: i128,
    pub expiration_ledger: u32,
}

/// A single ownership history record for a token holder.
#[derive(Clone, Copy, Debug, PartialEq, Eq)]
pub struct OwnershipHistoryRecord {
    /// The previous owner before this transfer.
    pub from: Address,
    /// The new owner (recipient) of the tokens.
    pub to: Address,
    /// Amount of tokens transferred in this event.
    pub amount: i128,
    /// Ledger sequence at the time of the transfer.
    pub ledger: u32,
}

} // verus!
