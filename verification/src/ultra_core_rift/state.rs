//! The accounts of the core program.
use vstd::prelude::*;

use crate::account::Pubkey;
use crate::rift_common::{RiftError, MAX_SUPPLY, MIN_ABS_DEBT};
use crate::ultra_core_rift::ledger::Ledger;

verus! {

/// The global state of the core program.
#[derive(Clone, Copy, Debug, PartialEq, Eq)]
pub struct CoreState {
    pub gate: Pubkey,
    pub paused: bool,
    pub global_field: i128,
    pub total_base_sum: i128,
    pub total_supply: u128,
    pub total_minted: u128,
    pub total_burned: u128,
    pub p: u64,
    pub dust_accumulator: u128,
}

impl View for CoreState {
    type V = Ledger;

    open spec fn view(&self) -> Ledger {
        Ledger {
            global_field: self.global_field as int,
            total_base_sum: self.total_base_sum as int,
            total_supply: self.total_supply as int,
            total_minted: self.total_minted as int,
            total_burned: self.total_burned as int,
            p: self.p as int,
            dust_accumulator: self.dust_accumulator as int,
        }
    }
}

impl CoreState {
    /// The bytes that the account takes: discriminator, gate, pause flag, six
    /// quantities of 16 bytes and the number of participants.
    pub const SPACE: usize = 8 + 32 + 1 + 16 * 6 + 8;

    /// `self` is `before` with the ledger `ledger`.
    pub open spec fn moved(self, before: CoreState, ledger: Ledger) -> bool {
        &&& self@ == ledger
        &&& self.gate == before.gate
        &&& self.paused == before.paused
    }

    /// The debt floor: `-total_supply / (10 * p)`, or `MIN_ABS_DEBT` while there
    /// are no participants.
    pub fn debt_limit(&self) -> (limit: Result<i128, RiftError>)
        ensures
            limit matches Ok(floor) && floor == self@.debt_floor(),
    {
        let factor: u128 = (self.p as u128).checked_mul(10).ok_or(RiftError::MathOverflow)?;
        if factor == 0 {
            return Ok(MIN_ABS_DEBT);
        }
        let limit: u128 = self.total_supply.checked_div(factor).ok_or(RiftError::MathOverflow)?;
        // A tenth of any `u128` is an `i128`.
        assert(limit <= u128::MAX / 10) by (nonlinear_arith)
            requires
                10 <= factor,
                limit == self.total_supply / factor,
                self.total_supply <= u128::MAX,
        ;
        Ok(-(limit as i128))
    }

    /// Checks the economic invariant:
    /// the supply is the base sum and the field's contribution, it is what was
    /// minted and not burned, it is an `i128`, and the dust is less than the
    /// number of participants while there are any.
    pub fn check_invariant(&self) -> (verdict: Result<(), RiftError>)
        ensures
            verdict == (match self@.fault() {
                Some(error) => Err::<(), RiftError>(error),
                None => Ok(()),
            }),
    {
        if self.total_supply > MAX_SUPPLY {
            return Err(RiftError::MathOverflow);
        }
        let field_contrib: i128 = self.global_field.checked_mul(self.p as i128).ok_or(
            RiftError::MathOverflow,
        )?;
        let expected: i128 = self.total_base_sum.checked_add(field_contrib).ok_or(
            RiftError::MathOverflow,
        )?;
        if self.total_supply as i128 != expected {
            return Err(RiftError::InvariantViolation);
        }
        if self.total_minted < self.total_burned {
            return Err(RiftError::InvariantViolation);
        }
        let net_supply: u128 = self.total_minted.checked_sub(self.total_burned).ok_or(
            RiftError::MathOverflow,
        )?;
        if self.total_supply != net_supply {
            return Err(RiftError::InvariantViolation);
        }
        if self.p > 0 && self.dust_accumulator >= self.p as u128 {
            return Err(RiftError::InvariantViolation);
        }
        Ok(())
    }
}

/// The account of a participant.
#[derive(Clone, Copy, Debug, PartialEq, Eq)]
pub struct UserAccount {
    pub authority: Pubkey,
    pub base_balance: i128,
}

impl UserAccount {
    /// The bytes that the account takes: discriminator, authority and balance.
    pub const SPACE: usize = 8 + 32 + 16;
}

/// The weight of a directed edge between two participants.
#[derive(Clone, Copy, Debug, PartialEq, Eq)]
pub struct EdgeAccount {
    pub weight: i128,
}

impl EdgeAccount {
    /// The bytes that the account takes: discriminator and weight.
    pub const SPACE: usize = 8 + 16;
}

} // verus!
