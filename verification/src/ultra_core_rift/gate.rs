//! Set-up and settings of the core program.
use vstd::prelude::*;

use crate::account::{Account, Context, Error, Pubkey};
use crate::address;
use crate::rift_common::{RiftError, MAX_EDGE_COST};
use crate::solana;
use crate::ultra_core_rift::events::{CoreEvent, PausedEvent};
use crate::ultra_core_rift::ledger::Ledger;
use crate::ultra_core_rift::state::{CoreState, EdgeAccount};

verus! {

/// The accounts of the instruction `initialize`. `core_state` is new.
#[derive(Debug, PartialEq, Eq)]
pub struct Initialize {
    pub core_state: CoreState,
}

/// The accounts of the instruction `set_paused`. `gate` has signed.
#[derive(Debug, PartialEq, Eq)]
pub struct SetPaused {
    pub core_state: CoreState,
    pub gate: Pubkey,
}

/// The accounts of the instruction `set_edge`. `gate` has signed;
/// `edge_account` may be new.
#[derive(Debug, PartialEq, Eq)]
pub struct SetEdge {
    pub core_state: CoreState,
    pub edge_account: Account<EdgeAccount>,
    pub gate: Pubkey,
}

impl Context<Initialize> {
    /// The context once the protocol has started under `gate`.
    pub open spec fn settled(self, before: Context<Initialize>, gate: Pubkey) -> bool {
        &&& self.program_id == before.program_id
        &&& self.accounts.core_state.gate == gate
        &&& !self.accounts.core_state.paused
        &&& self.accounts.core_state@ == Ledger::empty()
    }
}

/// Starts the protocol under `gate`, with nothing in it.
pub fn initialize(ctx: &mut Context<Initialize>, gate: Pubkey) -> (outcome: Result<
    (),
    RiftError,
>)
    ensures
        outcome is Ok,
        final(ctx).settled(*old(ctx), gate),
{
    let state: CoreState = CoreState {
        gate,
        paused: false,
        global_field: 0,
        total_base_sum: 0,
        total_supply: 0,
        total_minted: 0,
        total_burned: 0,
        p: 0,
        dust_accumulator: 0,
    };
    state.check_invariant()?;
    ctx.accounts.core_state = state;
    Ok(())
}

impl Context<SetPaused> {
    /// Why the pause or its end is refused, if it is.
    pub open spec fn refusal(self) -> Option<RiftError> {
        if self.accounts.core_state.gate != self.accounts.gate {
            Some(RiftError::UnauthorizedGate)
        } else {
            None
        }
    }

    /// What an accepted pause, or its end, makes of the context, and what it
    /// reports.
    pub open spec fn settled(
        self,
        before: Context<SetPaused>,
        paused: bool,
        events: Vec<CoreEvent>,
    ) -> bool {
        &&& self.program_id == before.program_id
        &&& self.accounts.gate == before.accounts.gate
        &&& self.accounts.core_state == (CoreState { paused, ..before.accounts.core_state })
        &&& events@ =~= seq![CoreEvent::Paused(PausedEvent { paused })]
    }
}

/// Gate-only: pauses or resumes transfers and issuance.
pub fn set_paused(ctx: &mut Context<SetPaused>, paused: bool) -> (outcome: Result<
    Vec<CoreEvent>,
    RiftError,
>)
    ensures
        match outcome {
            Ok(events) => {
                &&& old(ctx).refusal() is None
                &&& final(ctx).settled(*old(ctx), paused, events)
            },
            Err(error) => old(ctx).refusal() == Some(error) && *final(ctx) == *old(ctx),
        },
{
    if ctx.accounts.core_state.gate != ctx.accounts.gate {
        return Err(RiftError::UnauthorizedGate);
    }
    ctx.accounts.core_state.paused = paused;
    Ok(vec![CoreEvent::Paused(PausedEvent { paused })])
}

impl SetEdge {
    /// Why the weight is refused, if it is, where `derived` is the address
    /// derived from the two ends of the edge.
    pub open spec fn refusal(self, weight: int, derived: Option<(Seq<u8>, u8)>) -> Option<Error> {
        if !address::is_at(self.edge_account.key, derived) {
            Some(Error::ConstraintSeeds)
        } else if self.core_state.gate != self.gate {
            Some(Error::Rift(RiftError::UnauthorizedGate))
        } else if !(-MAX_EDGE_COST <= weight <= MAX_EDGE_COST) {
            Some(Error::Rift(RiftError::EdgeLimitExceeded))
        } else {
            None
        }
    }

    /// What an accepted weight makes of the accounts.
    pub open spec fn settled(self, before: SetEdge, weight: i128) -> bool {
        &&& self.core_state == before.core_state
        &&& self.gate == before.gate
        &&& self.edge_account.key == before.edge_account.key
        &&& self.edge_account.data.weight == weight
    }

    /// Sets the weight of the edge, once its derived address is known.
    pub fn apply(&mut self, weight: i128, derived: Option<(Pubkey, u8)>) -> (outcome: Result<
        (),
        Error,
    >)
        ensures
            match outcome {
                Ok(_) => {
                    &&& old(self).refusal(weight as int, solana::address_view(derived)) is None
                    &&& final(self).settled(*old(self), weight)
                },
                Err(error) => {
                    &&& old(self).refusal(weight as int, solana::address_view(derived)) == Some(
                        error,
                    )
                    &&& *final(self) == *old(self)
                },
            },
    {
        if !address::stands_at(&self.edge_account.key, &derived) {
            return Err(Error::ConstraintSeeds);
        }
        if self.core_state.gate != self.gate {
            return Err(Error::Rift(RiftError::UnauthorizedGate));
        }
        if weight < -MAX_EDGE_COST || weight > MAX_EDGE_COST {
            return Err(Error::Rift(RiftError::EdgeLimitExceeded));
        }
        self.edge_account.data.weight = weight;
        Ok(())
    }
}

impl Context<SetEdge> {
    /// Why the weight of the edge from `from` to `to` is refused, if it is.
    pub open spec fn refusal(self, from: Pubkey, to: Pubkey, weight: int) -> Option<Error> {
        self.accounts.refusal(weight, address::edge_derivation(self.program_id, from, to))
    }

    /// What an accepted weight makes of the context.
    pub open spec fn settled(self, before: Context<SetEdge>, weight: i128) -> bool {
        &&& self.program_id == before.program_id
        &&& self.accounts.settled(before.accounts, weight)
    }
}

/// Gate-only: sets the weight of the directed edge from `from` to `to`.
pub fn set_edge(ctx: &mut Context<SetEdge>, from: Pubkey, to: Pubkey, weight: i128) -> (outcome:
    Result<(), Error>)
    ensures
        match outcome {
            Ok(_) => {
                &&& old(ctx).refusal(from, to, weight as int) is None
                &&& final(ctx).settled(*old(ctx), weight)
            },
            Err(error) => {
                &&& old(ctx).refusal(from, to, weight as int) == Some(error)
                &&& *final(ctx) == *old(ctx)
            },
        },
{
    let derived: Option<(Pubkey, u8)> = address::edge_address(&ctx.program_id, &from, &to);
    ctx.accounts.apply(weight, derived)
}

} // verus!
