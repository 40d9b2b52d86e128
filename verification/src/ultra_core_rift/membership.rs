//! Registration and exit of participants.
use vstd::prelude::*;

use crate::account::{Account, Context, Error, Pubkey};
use crate::address;
use crate::rift_common;
use crate::rift_common::{RiftError, MAX_PARTICIPANTS};
use crate::solana;
use crate::ultra_core_rift::events::{BurnEvent, CoreEvent, RegisteredEvent, UnregisteredEvent};
use crate::ultra_core_rift::state::{CoreState, UserAccount};

verus! {

/// The accounts of the instruction `register`. `gate` has signed; `user_account`
/// is new.
#[derive(Debug, PartialEq, Eq)]
pub struct Register {
    pub core_state: CoreState,
    pub user_account: Account<UserAccount>,
    pub gate: Pubkey,
}

/// The accounts of the instruction `unregister`. `gate` has signed;
/// `user_account` is closed once the instruction has succeeded.
#[derive(Debug, PartialEq, Eq)]
pub struct Unregister {
    pub core_state: CoreState,
    pub user_account: Account<UserAccount>,
    pub gate: Pubkey,
}

impl Register {
    /// Why the registration is refused, if it is, where `derived` is the address
    /// derived from the new participant.
    pub open spec fn refusal(self, derived: Option<(Seq<u8>, u8)>) -> Option<Error> {
        let ledger = self.core_state@;
        if !address::is_at(self.user_account.key, derived) {
            Some(Error::ConstraintSeeds)
        } else if self.core_state.gate != self.gate {
            Some(Error::Rift(RiftError::UnauthorizedGate))
        } else if ledger.p >= MAX_PARTICIPANTS {
            Some(Error::Rift(RiftError::MaxParticipantsReached))
        } else {
            Error::of_rift(ledger.registered().closing_fault())
        }
    }

    /// What an accepted registration of `user` makes of the accounts.
    pub open spec fn settled(self, before: Register, user: Pubkey) -> bool {
        &&& self.core_state.moved(before.core_state, before.core_state@.registered())
        &&& self.user_account.key == before.user_account.key
        &&& self.user_account.data == (UserAccount { authority: user, base_balance: 0 })
        &&& self.gate == before.gate
    }

    /// Registers `user`, once the address derived from it is known.
    pub fn apply(&mut self, user: Pubkey, derived: Option<(Pubkey, u8)>) -> (outcome: Result<
        Vec<CoreEvent>,
        Error,
    >)
        ensures
            match outcome {
                Ok(events) => {
                    &&& old(self).refusal(solana::address_view(derived)) is None
                    &&& final(self).settled(*old(self), user)
                    &&& events@ == seq![CoreEvent::Registered(RegisteredEvent { user })]
                },
                Err(error) => {
                    &&& old(self).refusal(solana::address_view(derived)) == Some(error)
                    &&& *final(self) == *old(self)
                },
            },
    {
        if !address::stands_at(&self.user_account.key, &derived) {
            return Err(Error::ConstraintSeeds);
        }
        if self.core_state.gate != self.gate {
            return Err(Error::Rift(RiftError::UnauthorizedGate));
        }
        let mut state: CoreState = self.core_state;
        if state.p >= MAX_PARTICIPANTS {
            return Err(Error::Rift(RiftError::MaxParticipantsReached));
        }
        // The field's contribution grows by the field once `p` has grown.
        state.total_base_sum = state.total_base_sum.checked_sub(state.global_field).ok_or(
            Error::Rift(RiftError::MathOverflow),
        )?;
        state.p = state.p.checked_add(1).ok_or(Error::Rift(RiftError::MathOverflow))?;
        assert(state@ == self.core_state@.registered());
        match state.check_invariant() {
            Ok(()) => {
                self.core_state = state;
                self.user_account.data = UserAccount { authority: user, base_balance: 0 };
                Ok(vec![CoreEvent::Registered(RegisteredEvent { user })])
            },
            Err(error) => Err(Error::Rift(error)),
        }
    }
}

impl Unregister {
    /// Why the exit is refused, if it is, where `derived` is the address derived
    /// from the authority that the account names.
    pub open spec fn refusal(self, derived: Option<(Seq<u8>, u8)>) -> Option<Error> {
        let ledger = self.core_state@;
        let base = self.user_account.data.base_balance as int;
        if self.core_state.gate != self.gate {
            Some(Error::Rift(RiftError::UnauthorizedGate))
        } else if !address::is_at(self.user_account.key, derived) {
            Some(Error::ConstraintSeeds)
        } else if base < 0 {
            Some(Error::Rift(RiftError::DebtOnExitNotAllowed))
        } else if ledger.total_supply < base {
            Some(Error::Rift(RiftError::SupplyUnderflow))
        } else if !rift_common::is_i128(ledger.total_base_sum - base) {
            Some(Error::Rift(RiftError::MathOverflow))
        } else {
            Error::of_rift(ledger.unregistered(base).closing_fault())
        }
    }

    /// What an accepted exit makes of the accounts.
    pub open spec fn settled(self, before: Unregister) -> bool {
        &&& self.core_state.moved(
            before.core_state,
            before.core_state@.unregistered(before.user_account.data.base_balance as int),
        )
        &&& self.user_account == before.user_account
        &&& self.gate == before.gate
    }

    /// The events of an accepted exit.
    pub open spec fn report(self) -> Seq<CoreEvent> {
        let user = self.user_account.data.authority;
        let base = self.user_account.data.base_balance;
        let exit = CoreEvent::Unregistered(UnregisteredEvent { user });
        if base > 0 {
            seq![CoreEvent::Burn(BurnEvent { user, amount: base as u128 }), exit]
        } else {
            seq![exit]
        }
    }

    /// Removes the participant and burns what it holds, once the address derived
    /// from its authority is known.
    pub fn apply(&mut self, derived: Option<(Pubkey, u8)>) -> (outcome: Result<
        Vec<CoreEvent>,
        Error,
    >)
        ensures
            match outcome {
                Ok(events) => {
                    &&& old(self).refusal(solana::address_view(derived)) is None
                    &&& final(self).settled(*old(self))
                    &&& events@ == old(self).report()
                },
                Err(error) => {
                    &&& old(self).refusal(solana::address_view(derived)) == Some(error)
                    &&& *final(self) == *old(self)
                },
            },
    {
        if self.core_state.gate != self.gate {
            return Err(Error::Rift(RiftError::UnauthorizedGate));
        }
        if !address::stands_at(&self.user_account.key, &derived) {
            return Err(Error::ConstraintSeeds);
        }
        let mut events: Vec<CoreEvent> = Vec::new();
        let mut state: CoreState = self.core_state;
        let user: Pubkey = self.user_account.data.authority;
        let base: i128 = self.user_account.data.base_balance;
        if base < 0 {
            return Err(Error::Rift(RiftError::DebtOnExitNotAllowed));
        }
        if base > 0 {
            let burn: u128 = base as u128;
            if state.total_supply < burn {
                return Err(Error::Rift(RiftError::SupplyUnderflow));
            }
            state.total_supply = state.total_supply.checked_sub(burn).ok_or(
                Error::Rift(RiftError::MathOverflow),
            )?;
            state.total_burned = state.total_burned.checked_add(burn).ok_or(
                Error::Rift(RiftError::MathOverflow),
            )?;
            events.push(CoreEvent::Burn(BurnEvent { user, amount: burn }));
        }
        // The field's contribution shrinks by the field once `p` has shrunk.
        state.total_base_sum = state.total_base_sum.checked_sub(base).ok_or(
            Error::Rift(RiftError::MathOverflow),
        )?.checked_add(state.global_field).ok_or(Error::Rift(RiftError::MathOverflow))?;
        state.p = state.p.checked_sub(1).ok_or(Error::Rift(RiftError::MathOverflow))?;
        events.push(CoreEvent::Unregistered(UnregisteredEvent { user }));
        assert(state@ == self.core_state@.unregistered(base as int));
        match state.check_invariant() {
            Ok(()) => {
                self.core_state = state;
                Ok(events)
            },
            Err(error) => Err(Error::Rift(error)),
        }
    }
}

impl Context<Register> {
    /// Why the registration of `user` is refused, if it is.
    pub open spec fn refusal(self, user: Pubkey) -> Option<Error> {
        self.accounts.refusal(address::user_derivation(self.program_id, user))
    }

    /// What an accepted registration of `user` makes of the context, and what it
    /// reports.
    pub open spec fn settled(
        self,
        before: Context<Register>,
        user: Pubkey,
        events: Vec<CoreEvent>,
    ) -> bool {
        &&& self.program_id == before.program_id
        &&& self.accounts.settled(before.accounts, user)
        &&& events@ == seq![CoreEvent::Registered(RegisteredEvent { user })]
    }
}

/// Gate-only: registers `user` as a participant with base balance 0.
pub fn register(ctx: &mut Context<Register>, user: Pubkey) -> (outcome: Result<
    Vec<CoreEvent>,
    Error,
>)
    ensures
        match outcome {
            Ok(events) => {
                &&& old(ctx).refusal(user) is None
                &&& final(ctx).settled(*old(ctx), user, events)
            },
            Err(error) => old(ctx).refusal(user) == Some(error) && *final(ctx) == *old(ctx),
        },
{
    let derived: Option<(Pubkey, u8)> = address::user_address(&ctx.program_id, &user);
    ctx.accounts.apply(user, derived)
}

impl Context<Unregister> {
    /// Why the exit is refused, if it is.
    pub open spec fn refusal(self) -> Option<Error> {
        self.accounts.refusal(
            address::user_derivation(
                self.program_id,
                self.accounts.user_account.data.authority,
            ),
        )
    }

    /// What an accepted exit makes of the context, and what it reports.
    pub open spec fn settled(self, before: Context<Unregister>, events: Vec<CoreEvent>) -> bool {
        &&& self.program_id == before.program_id
        &&& self.accounts.settled(before.accounts)
        &&& events@ == before.accounts.report()
    }
}

/// Gate-only: removes a participant that owes nothing and burns what it holds.
pub fn unregister(ctx: &mut Context<Unregister>) -> (outcome: Result<Vec<CoreEvent>, Error>)
    ensures
        match outcome {
            Ok(events) => {
                &&& old(ctx).refusal() is None
                &&& final(ctx).settled(*old(ctx), events)
            },
            Err(error) => old(ctx).refusal() == Some(error) && *final(ctx) == *old(ctx),
        },
{
    let derived: Option<(Pubkey, u8)> = address::user_address(
        &ctx.program_id,
        &ctx.accounts.user_account.data.authority,
    );
    ctx.accounts.apply(derived)
}

} // verus!
