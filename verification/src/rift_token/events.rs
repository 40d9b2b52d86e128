//! What the token program reports.
use vstd::prelude::*;

use crate::account::Pubkey;

verus! {

#[derive(Clone, Copy, Debug, PartialEq, Eq)]
pub struct IssueRiftEvent {
    pub user: Pubkey,
    pub base_amount: u64,
    pub fee_amount: u64,
    pub shares_minted: u64,
    pub global_field: i128,
    pub rift_multiplier: u128,
}

#[derive(Clone, Copy, Debug, PartialEq, Eq)]
pub struct RiftRebaseEvent {
    pub old_multiplier: u128,
    pub new_multiplier: u128,
    pub global_field: i128,
}

} // verus!
