//! The account of the token program, and what the program asks of others.
use vstd::prelude::*;

use crate::account::{Instruction, Pubkey};
use crate::rift_token::events::IssueRiftEvent;

verus! {

/// The state of the token program.
#[derive(Clone, Copy, Debug, PartialEq, Eq)]
pub struct RiftTokenState {
    /// The key that alone may rebase.
    pub authority: Pubkey,
    /// The core state that the program is bound to.
    pub core_state: Pubkey,
    /// The recipient of the genesis share and of the fees.
    pub admin_vault: Pubkey,
    pub decimals: u8,
    pub fee_bps: u16,
    pub total_shares: u64,
    /// The mint rate as of the last rebase. Nothing is minted by it.
    pub rift_multiplier: u128,
    pub bump: u8,
}

impl RiftTokenState {
    /// The bytes that the account takes: discriminator, three keys and the five
    /// numbers.
    pub const SPACE: usize = 8 + 32 * 3 + 1 + 2 + 8 + 16 + 1;
}

/// A request to the token mint: `amount` new tokens of `mint` for `to`, signed by
/// `authority` through its seeds.
#[derive(Debug, PartialEq, Eq)]
pub struct MintTo {
    pub mint: Pubkey,
    pub to: Pubkey,
    pub authority: Pubkey,
    pub signer_seeds: Vec<Vec<u8>>,
    pub amount: u64,
}

/// What an accepted issue asks for, in this order: the fee is paid, the shares
/// are minted, the event is emitted. Where one of these fails, nothing of the
/// issue stands.
#[derive(Debug)]
pub struct Issuance {
    pub fee_transfer: Instruction,
    pub mint: MintTo,
    pub event: IssueRiftEvent,
}

} // verus!
