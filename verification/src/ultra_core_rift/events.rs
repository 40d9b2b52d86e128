//! What the core program reports. An instruction that succeeds returns its
//! events in the order in which they are to be emitted.
use vstd::prelude::*;

use crate::account::Pubkey;

verus! {

#[derive(Clone, Copy, Debug, PartialEq, Eq)]
pub struct TransferEvent {
    pub from: Pubkey,
    pub to: Pubkey,
    pub amount: u128,
}

#[derive(Clone, Copy, Debug, PartialEq, Eq)]
pub struct RedistributeEvent {
    pub amount: u128,
    pub per_user: u128,
    pub dust_retained: u128,
}

#[derive(Clone, Copy, Debug, PartialEq, Eq)]
pub struct FieldUpdateEvent {
    pub new_global_field: i128,
}

#[derive(Clone, Copy, Debug, PartialEq, Eq)]
pub struct RegisteredEvent {
    pub user: Pubkey,
}

#[derive(Clone, Copy, Debug, PartialEq, Eq)]
pub struct UnregisteredEvent {
    pub user: Pubkey,
}

#[derive(Clone, Copy, Debug, PartialEq, Eq)]
pub struct BurnEvent {
    pub user: Pubkey,
    pub amount: u128,
}

#[derive(Clone, Copy, Debug, PartialEq, Eq)]
pub struct MintEvent {
    pub user: Pubkey,
    pub amount: u128,
}

#[derive(Clone, Copy, Debug, PartialEq, Eq)]
pub struct PausedEvent {
    pub paused: bool,
}

/// One event of the core program.
#[derive(Clone, Copy, Debug, PartialEq, Eq)]
pub enum CoreEvent {
    Transfer(TransferEvent),
    Redistribute(RedistributeEvent),
    FieldUpdate(FieldUpdateEvent),
    Registered(RegisteredEvent),
    Unregistered(UnregisteredEvent),
    Burn(BurnEvent),
    Mint(MintEvent),
    Paused(PausedEvent),
}

} // verus!
