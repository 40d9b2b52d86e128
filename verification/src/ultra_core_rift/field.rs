//! Changes of the global field.
use vstd::prelude::*;

use crate::account::{Context, Pubkey};
use crate::rift_common;
use crate::rift_common::{RiftError, MAX_SUPPLY, NEG_E, NEG_E_MAX_P};
use crate::ultra_core_rift::events::{CoreEvent, FieldUpdateEvent, RedistributeEvent};
use crate::ultra_core_rift::ledger::Ledger;
use crate::ultra_core_rift::state::CoreState;

verus! {

/// The accounts of the instruction `redistribute`. `gate` has signed.
#[derive(Debug, PartialEq, Eq)]
pub struct Redistribute {
    pub core_state: CoreState,
    pub gate: Pubkey,
}

/// The accounts of the instruction `apply_neg_entropy`. `gate` has signed.
#[derive(Debug, PartialEq, Eq)]
pub struct ApplyNegEntropy {
    pub core_state: CoreState,
    pub gate: Pubkey,
}

impl Redistribute {
    /// Why the redistribution of `amount` is refused, if it is.
    pub open spec fn refusal(self, amount: int) -> Option<RiftError> {
        let ledger = self.core_state@;
        if self.core_state.gate != self.gate {
            Some(RiftError::UnauthorizedGate)
        } else if ledger.p == 0 {
            Some(RiftError::ZeroParticipants)
        } else if !rift_common::is_u128(amount + ledger.dust_accumulator)
            || !rift_common::is_i128(ledger.share_of(amount)) {
            Some(RiftError::MathOverflow)
        } else {
            ledger.redistributed(amount).closing_fault()
        }
    }

    /// The events of an accepted redistribution.
    pub open spec fn report(self, amount: u128) -> Seq<CoreEvent> {
        let after = self.core_state@.redistributed(amount as int);
        seq![
            CoreEvent::Redistribute(
                RedistributeEvent {
                    amount,
                    per_user: self.core_state@.share_of(amount as int) as u128,
                    dust_retained: after.dust_accumulator as u128,
                },
            ),
            CoreEvent::FieldUpdate(
                FieldUpdateEvent { new_global_field: after.global_field as i128 },
            ),
        ]
    }
}

impl ApplyNegEntropy {
    /// Why the tick is refused, if it is.
    pub open spec fn refusal(self) -> Option<RiftError> {
        let ledger = self.core_state@;
        if self.core_state.gate != self.gate {
            Some(RiftError::UnauthorizedGate)
        } else if ledger.p > NEG_E_MAX_P {
            Some(RiftError::PhysicalOverflowLimit)
        } else {
            ledger.cooled().closing_fault()
        }
    }
}

impl Context<Redistribute> {
    /// What an accepted redistribution makes of the context, and what it reports.
    pub open spec fn settled(
        self,
        before: Context<Redistribute>,
        amount: u128,
        events: Vec<CoreEvent>,
    ) -> bool {
        &&& self.program_id == before.program_id
        &&& self.accounts.gate == before.accounts.gate
        &&& self.accounts.core_state.moved(
            before.accounts.core_state,
            before.accounts.core_state@.redistributed(amount as int),
        )
        &&& events@ == before.accounts.report(amount)
    }
}

/// Gate-only: shares `amount` and the dust of earlier calls out evenly by raising
/// the global field. The remainder is kept as dust.
pub fn redistribute(ctx: &mut Context<Redistribute>, amount: u128) -> (outcome: Result<
    Vec<CoreEvent>,
    RiftError,
>)
    ensures
        match outcome {
            Ok(events) => {
                &&& old(ctx).accounts.refusal(amount as int) is None
                &&& final(ctx).settled(*old(ctx), amount, events)
            },
            Err(error) => old(ctx).accounts.refusal(amount as int) == Some(error) && *final(ctx) == *old(ctx),
        },
{
    if ctx.accounts.core_state.gate != ctx.accounts.gate {
        return Err(RiftError::UnauthorizedGate);
    }
    let mut state: CoreState = ctx.accounts.core_state;
    if state.p == 0 {
        return Err(RiftError::ZeroParticipants);
    }
    let ghost before: Ledger = state@;
    let p: u128 = state.p as u128;
    let total: u128 = amount.checked_add(state.dust_accumulator).ok_or(RiftError::MathOverflow)?;
    let q: u128 = total.checked_div(p).ok_or(RiftError::MathOverflow)?;
    let r: u128 = total.checked_rem(p).ok_or(RiftError::MathOverflow)?;
    assert(q * p + r == total) by (nonlinear_arith)
        requires
            p > 0,
            q == total / p,
            r == total % p,
    ;
    if q > MAX_SUPPLY {
        return Err(RiftError::MathOverflow);
    }
    state.global_field = state.global_field.checked_add(q as i128).ok_or(RiftError::MathOverflow)?;
    let distributed: u128 = q.checked_mul(p).ok_or(RiftError::MathOverflow)?;
    state.total_supply = state.total_supply.checked_add(distributed).ok_or(
        RiftError::MathOverflow,
    )?;
    state.total_minted = state.total_minted.checked_add(distributed).ok_or(
        RiftError::MathOverflow,
    )?;
    state.dust_accumulator = r;
    assert(state@ == before.redistributed(amount as int));
    state.check_invariant()?;
    ctx.accounts.core_state = state;
    Ok(
        vec![
            CoreEvent::Redistribute(
                RedistributeEvent { amount, per_user: q, dust_retained: r },
            ),
            CoreEvent::FieldUpdate(FieldUpdateEvent { new_global_field: state.global_field }),
        ],
    )
}

impl Context<ApplyNegEntropy> {
    /// What an accepted tick makes of the context, and what it reports.
    pub open spec fn settled(
        self,
        before: Context<ApplyNegEntropy>,
        events: Vec<CoreEvent>,
    ) -> bool {
        let after = before.accounts.core_state@.cooled();
        &&& self.program_id == before.program_id
        &&& self.accounts.gate == before.accounts.gate
        &&& self.accounts.core_state.moved(before.accounts.core_state, after)
        &&& events@ =~= seq![
            CoreEvent::FieldUpdate(
                FieldUpdateEvent { new_global_field: after.global_field as i128 },
            ),
        ]
    }
}

/// Gate-only: applies one tick of negative entropy. The field falls by `-NEG_E`,
/// and the base sum rises so that the supply stays.
pub fn apply_neg_entropy(ctx: &mut Context<ApplyNegEntropy>) -> (outcome: Result<
    Vec<CoreEvent>,
    RiftError,
>)
    ensures
        match outcome {
            Ok(events) => {
                &&& old(ctx).accounts.refusal() is None
                &&& final(ctx).settled(*old(ctx), events)
            },
            Err(error) => old(ctx).accounts.refusal() == Some(error) && *final(ctx) == *old(ctx),
        },
{
    if ctx.accounts.core_state.gate != ctx.accounts.gate {
        return Err(RiftError::UnauthorizedGate);
    }
    let mut state: CoreState = ctx.accounts.core_state;
    let p: i128 = state.p as i128;
    if p > NEG_E_MAX_P {
        return Err(RiftError::PhysicalOverflowLimit);
    }
    let delta: i128 = p.checked_mul(NEG_E).ok_or(RiftError::MathOverflow)?;
    state.global_field = state.global_field.checked_add(NEG_E).ok_or(RiftError::MathOverflow)?;
    // The field's contribution changes by `delta`, and the base sum makes up for it.
    state.total_base_sum = state.total_base_sum.checked_sub(delta).ok_or(
        RiftError::MathOverflow,
    )?;
    assert(state@ == ctx.accounts.core_state@.cooled());
    state.check_invariant()?;
    ctx.accounts.core_state = state;
    Ok(
        vec![
            CoreEvent::FieldUpdate(FieldUpdateEvent { new_global_field: state.global_field }),
        ],
    )
}

} // verus!
