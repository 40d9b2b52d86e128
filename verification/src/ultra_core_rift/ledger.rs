//! The ledger as mathematical integers, and what each instruction does to it.
use vstd::prelude::*;

use crate::rift_common;
use crate::rift_common::{RiftError, MIN_ABS_DEBT, NEG_E};

verus! {

/// The quantities of a core state.
pub struct Ledger {
    pub global_field: int,
    pub total_base_sum: int,
    pub total_supply: int,
    pub total_minted: int,
    pub total_burned: int,
    pub p: int,
    pub dust_accumulator: int,
}

impl Ledger {
    /// The ledger of a new protocol.
    pub open spec fn empty() -> Ledger {
        Ledger {
            global_field: 0,
            total_base_sum: 0,
            total_supply: 0,
            total_minted: 0,
            total_burned: 0,
            p: 0,
            dust_accumulator: 0,
        }
    }

    /// Each quantity is a value of the type that holds it.
    pub open spec fn fits(self) -> bool {
        &&& rift_common::is_i128(self.global_field)
        &&& rift_common::is_i128(self.total_base_sum)
        &&& rift_common::is_u128(self.total_supply)
        &&& rift_common::is_u128(self.total_minted)
        &&& rift_common::is_u128(self.total_burned)
        &&& 0 <= self.p <= u64::MAX
        &&& rift_common::is_u128(self.dust_accumulator)
    }

    /// What the field contributes over all participants.
    pub open spec fn field_contrib(self) -> int {
        self.global_field * self.p
    }

    /// The supply is the base sum and the field's contribution.
    pub open spec fn supply_is_distributed(self) -> bool {
        self.total_supply == self.total_base_sum + self.field_contrib()
    }

    /// The supply is what was minted and not burned.
    pub open spec fn supply_is_net_mint(self) -> bool {
        &&& self.total_minted >= self.total_burned
        &&& self.total_supply == self.total_minted - self.total_burned
    }

    /// The remainder kept is less than one unit per participant.
    pub open spec fn dust_is_small(self) -> bool {
        self.p > 0 ==> self.dust_accumulator < self.p
    }

    /// The economic invariant.
    pub open spec fn sound(self) -> bool {
        &&& self.supply_is_distributed()
        &&& self.supply_is_net_mint()
        &&& self.total_supply <= i128::MAX
        &&& self.dust_is_small()
    }

    /// The terms of the invariant can be computed within `i128`.
    pub open spec fn measurable(self) -> bool {
        &&& self.total_supply <= i128::MAX
        &&& rift_common::is_i128(self.field_contrib())
        &&& rift_common::is_i128(self.total_base_sum + self.field_contrib())
    }

    /// The ledger passes the check of the invariant.
    pub open spec fn holds(self) -> bool {
        self.sound() && self.measurable()
    }

    /// What the check of the invariant finds wrong.
    pub open spec fn fault(self) -> Option<RiftError> {
        if !self.measurable() {
            Some(RiftError::MathOverflow)
        } else if !self.sound() {
            Some(RiftError::InvariantViolation)
        } else {
            None
        }
    }

    /// What an instruction that arrives at this ledger finds wrong: a quantity
    /// that leaves its type, or a breach of the invariant.
    pub open spec fn closing_fault(self) -> Option<RiftError> {
        if !self.fits() {
            Some(RiftError::MathOverflow)
        } else {
            self.fault()
        }
    }

    /// The lowest base balance that a sender may reach: a tenth of the mean
    /// supply per participant, as debt.
    pub open spec fn debt_floor(self) -> int {
        if self.p == 0 {
            MIN_ABS_DEBT as int
        } else {
            -(self.total_supply / (10 * self.p))
        }
    }

    /// A participant with base balance 0 joins.
    pub open spec fn registered(self) -> Ledger {
        Ledger {
            total_base_sum: self.total_base_sum - self.global_field,
            p: self.p + 1,
            ..self
        }
    }

    /// A participant with base balance `base` leaves, and the balance is burned.
    pub open spec fn unregistered(self, base: int) -> Ledger {
        Ledger {
            total_base_sum: self.total_base_sum - base + self.global_field,
            total_supply: self.total_supply - base,
            total_burned: self.total_burned + base,
            p: self.p - 1,
            ..self
        }
    }

    /// A sender pays `cost` over a transfer: burned where positive, minted where
    /// negative.
    pub open spec fn charged(self, cost: int) -> Ledger {
        Ledger {
            total_base_sum: self.total_base_sum - cost,
            total_supply: self.total_supply - cost,
            total_burned: self.total_burned + if cost > 0 { cost } else { 0 },
            total_minted: self.total_minted + if cost < 0 { -cost } else { 0 },
            ..self
        }
    }

    /// What each participant gets when `amount` and the dust are shared out.
    pub open spec fn share_of(self, amount: int) -> int {
        (amount + self.dust_accumulator) / self.p
    }

    /// `amount` and the dust are shared out; the remainder becomes the dust.
    pub open spec fn redistributed(self, amount: int) -> Ledger {
        Ledger {
            global_field: self.global_field + self.share_of(amount),
            total_supply: self.total_supply + self.share_of(amount) * self.p,
            total_minted: self.total_minted + self.share_of(amount) * self.p,
            dust_accumulator: (amount + self.dust_accumulator) % self.p,
            ..self
        }
    }

    /// One tick of negative entropy.
    pub open spec fn cooled(self) -> Ledger {
        Ledger {
            global_field: self.global_field + NEG_E,
            total_base_sum: self.total_base_sum - self.p * NEG_E,
            ..self
        }
    }
}

} // verus!
