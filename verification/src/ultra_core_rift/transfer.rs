//! Transfers between two participants.
use vstd::prelude::*;

use crate::account::{Account, Context, Error, Pubkey};
use crate::address;
use crate::rift_common;
use crate::rift_common::{RiftError, MAX_SUPPLY};
use crate::solana;
use crate::ultra_core_rift::events::{BurnEvent, CoreEvent, MintEvent, TransferEvent};
use crate::ultra_core_rift::state::{CoreState, EdgeAccount, UserAccount};

verus! {

/// The accounts of a transfer. `from_authority` has signed.
#[derive(Debug, PartialEq, Eq)]
pub struct TransferCtx {
    pub core_state: CoreState,
    pub from_user: Account<UserAccount>,
    pub to_user: Account<UserAccount>,
    pub from_authority: Pubkey,
    pub to_authority: Pubkey,
}

impl TransferCtx {
    /// What the sender is left with.
    pub open spec fn balance_left(self, amount: int, edge_cost: int) -> int {
        self.from_user.data.base_balance - amount - edge_cost
    }

    /// Sender and recipient are one account, which is then loaded twice.
    pub open spec fn to_self(self) -> bool {
        self.from_user.key == self.to_user.key
    }

    /// What the recipient ends with: `amount` on top of its balance, or on top of
    /// what the sender is left with where the two are one account.
    pub open spec fn balance_reached(self, amount: int, edge_cost: int) -> int {
        if self.to_self() {
            self.balance_left(amount, edge_cost) + amount
        } else {
            self.to_user.data.base_balance + amount
        }
    }

    /// Why the transfer is refused, if it is.
    pub open spec fn refusal(self, amount: int, edge_cost: int) -> Option<RiftError> {
        let ledger = self.core_state@;
        let left = self.balance_left(amount, edge_cost);
        if self.core_state.paused {
            Some(RiftError::ProtocolPaused)
        } else if amount == 0 && edge_cost == 0 {
            None
        } else if amount > i128::MAX || !rift_common::is_i128(left + edge_cost)
            || !rift_common::is_i128(left) {
            Some(RiftError::MathOverflow)
        } else if left < ledger.debt_floor() {
            Some(RiftError::DebtLimitExceeded)
        } else if !rift_common::is_i128(self.balance_reached(amount, edge_cost))
            || !rift_common::is_i128(ledger.total_base_sum - edge_cost) {
            Some(RiftError::MathOverflow)
        } else if ledger.total_supply < edge_cost {
            Some(RiftError::SupplyUnderflow)
        } else {
            ledger.charged(edge_cost).closing_fault()
        }
    }

    /// What an accepted transfer makes of the accounts: nothing where nothing is
    /// moved and nothing charged. Where sender and recipient are one account, both
    /// copies end at its balance less the cost.
    pub open spec fn settled(self, before: TransferCtx, amount: int, edge_cost: int) -> bool {
        if amount == 0 && edge_cost == 0 {
            self == before
        } else {
            &&& self.core_state.moved(before.core_state, before.core_state@.charged(edge_cost))
            &&& self.from_user.key == before.from_user.key
            &&& self.from_user.data.authority == before.from_user.data.authority
            &&& self.from_user.data.base_balance == if before.to_self() {
                before.from_user.data.base_balance - edge_cost
            } else {
                before.balance_left(amount, edge_cost)
            }
            &&& self.to_user.key == before.to_user.key
            &&& self.to_user.data.authority == before.to_user.data.authority
            &&& self.to_user.data.base_balance == before.balance_reached(amount, edge_cost)
            &&& self.from_authority == before.from_authority
            &&& self.to_authority == before.to_authority
        }
    }

    /// The events of an accepted transfer.
    pub open spec fn report(self, amount: u128, edge_cost: int) -> Seq<CoreEvent> {
        let user = self.from_user.data.authority;
        let transfer = CoreEvent::Transfer(
            TransferEvent { from: user, to: self.to_user.data.authority, amount },
        );
        if amount == 0 && edge_cost == 0 {
            Seq::empty()
        } else if edge_cost > 0 {
            seq![CoreEvent::Burn(BurnEvent { user, amount: edge_cost as u128 }), transfer]
        } else if edge_cost < 0 {
            seq![CoreEvent::Mint(MintEvent { user, amount: (-edge_cost) as u128 }), transfer]
        } else {
            seq![transfer]
        }
    }

    /// Moves `amount` from the sender to the recipient. The sender pays
    /// `edge_cost` on top: it is burned from the supply where positive and
    /// minted into it where negative. Nothing moved at no cost changes nothing.
    pub fn perform_transfer(&mut self, amount: u128, edge_cost: i128) -> (outcome: Result<
        Vec<CoreEvent>,
        RiftError,
    >)
        ensures
            match outcome {
                Ok(events) => {
                    &&& old(self).refusal(amount as int, edge_cost as int) is None
                    &&& final(self).settled(*old(self), amount as int, edge_cost as int)
                    &&& events@ == old(self).report(amount, edge_cost as int)
                },
                Err(error) => {
                    &&& old(self).refusal(amount as int, edge_cost as int) == Some(error)
                    &&& *final(self) == *old(self)
                },
            },
    {
        let mut events: Vec<CoreEvent> = Vec::new();
        let mut state: CoreState = self.core_state;
        if state.paused {
            return Err(RiftError::ProtocolPaused);
        }
        if amount == 0 && edge_cost == 0 {
            return Ok(events);
        }
        if amount > MAX_SUPPLY {
            return Err(RiftError::MathOverflow);
        }
        let amt: i128 = amount as i128;
        let new_from: i128 = self.from_user.data.base_balance.checked_sub(amt).ok_or(
            RiftError::MathOverflow,
        )?.checked_sub(edge_cost).ok_or(RiftError::MathOverflow)?;
        if new_from < state.debt_limit()? {
            return Err(RiftError::DebtLimitExceeded);
        }
        let to_self: bool = self.from_user.key == self.to_user.key;
        let held: i128 = if to_self {
            new_from
        } else {
            self.to_user.data.base_balance
        };
        let new_to: i128 = held.checked_add(amt).ok_or(RiftError::MathOverflow)?;
        let user: Pubkey = self.from_user.data.authority;
        if edge_cost != 0 {
            state.total_base_sum = state.total_base_sum.checked_sub(edge_cost).ok_or(
                RiftError::MathOverflow,
            )?;
            if edge_cost > 0 {
                let burn: u128 = edge_cost as u128;
                if state.total_supply < burn {
                    return Err(RiftError::SupplyUnderflow);
                }
                state.total_supply = state.total_supply.checked_sub(burn).ok_or(
                    RiftError::MathOverflow,
                )?;
                state.total_burned = state.total_burned.checked_add(burn).ok_or(
                    RiftError::MathOverflow,
                )?;
                events.push(CoreEvent::Burn(BurnEvent { user, amount: burn }));
            } else {
                let mint: u128 = rift_common::magnitude(edge_cost);
                state.total_supply = state.total_supply.checked_add(mint).ok_or(
                    RiftError::MathOverflow,
                )?;
                state.total_minted = state.total_minted.checked_add(mint).ok_or(
                    RiftError::MathOverflow,
                )?;
                events.push(CoreEvent::Mint(MintEvent { user, amount: mint }));
            }
        }
        events.push(
            CoreEvent::Transfer(
                TransferEvent { from: user, to: self.to_user.data.authority, amount },
            ),
        );
        assert(state@ == self.core_state@.charged(edge_cost as int));
        state.check_invariant()?;
        self.from_user.data.base_balance = if to_self {
            new_to
        } else {
            new_from
        };
        self.to_user.data.base_balance = new_to;
        self.core_state = state;
        Ok(events)
    }
}

/// The accounts of the instruction `transfer`.
#[derive(Debug, PartialEq, Eq)]
pub struct Transfer {
    pub transfer_ctx: TransferCtx,
}

/// The accounts of the instruction `transfer_with_edge`.
#[derive(Debug, PartialEq, Eq)]
pub struct TransferWithEdge {
    pub transfer_ctx: TransferCtx,
    pub edge_account: Account<EdgeAccount>,
}

impl Transfer {
    /// Why the transfer is refused, if it is, where `from_derived` and
    /// `to_derived` are the addresses derived from the two authorities.
    pub open spec fn refusal(
        self,
        amount: int,
        from_derived: Option<(Seq<u8>, u8)>,
        to_derived: Option<(Seq<u8>, u8)>,
    ) -> Option<Error> {
        if !address::is_at(self.transfer_ctx.from_user.key, from_derived) || !address::is_at(
            self.transfer_ctx.to_user.key,
            to_derived,
        ) {
            Some(Error::ConstraintSeeds)
        } else {
            Error::of_rift(self.transfer_ctx.refusal(amount, 0))
        }
    }

    /// Transfers `amount` without a cost, once the addresses derived from the
    /// two authorities are known.
    pub fn apply(
        &mut self,
        amount: u128,
        from_derived: Option<(Pubkey, u8)>,
        to_derived: Option<(Pubkey, u8)>,
    ) -> (outcome: Result<Vec<CoreEvent>, Error>)
        ensures
            ({
                let refusal = old(self).refusal(
                    amount as int,
                    solana::address_view(from_derived),
                    solana::address_view(to_derived),
                );
                match outcome {
                    Ok(events) => {
                        &&& refusal is None
                        &&& final(self).transfer_ctx.settled(
                            old(self).transfer_ctx,
                            amount as int,
                            0,
                        )
                        &&& events@ == old(self).transfer_ctx.report(amount, 0)
                    },
                    Err(error) => refusal == Some(error) && *final(self) == *old(self),
                }
            }),
    {
        if !address::stands_at(&self.transfer_ctx.from_user.key, &from_derived)
            || !address::stands_at(&self.transfer_ctx.to_user.key, &to_derived) {
            return Err(Error::ConstraintSeeds);
        }
        match self.transfer_ctx.perform_transfer(amount, 0) {
            Ok(events) => Ok(events),
            Err(error) => Err(Error::Rift(error)),
        }
    }
}

impl TransferWithEdge {
    /// Why the transfer is refused, if it is, where the three addresses are
    /// those derived from the sender, the recipient and the pair.
    pub open spec fn refusal(
        self,
        amount: int,
        from_derived: Option<(Seq<u8>, u8)>,
        to_derived: Option<(Seq<u8>, u8)>,
        edge_derived: Option<(Seq<u8>, u8)>,
    ) -> Option<Error> {
        let transfer = self.transfer_ctx;
        if !address::is_at(transfer.from_user.key, from_derived) || !address::is_at(
            transfer.to_user.key,
            to_derived,
        ) || !address::is_at(self.edge_account.key, edge_derived) {
            Some(Error::ConstraintSeeds)
        } else if transfer.to_user.data.authority != transfer.to_authority {
            Some(Error::Rift(RiftError::UnauthorizedAuthority))
        } else {
            Error::of_rift(transfer.refusal(amount, self.edge_account.data.weight as int))
        }
    }

    /// Transfers `amount` at the cost of the edge, once the derived addresses
    /// are known.
    pub fn apply(
        &mut self,
        amount: u128,
        from_derived: Option<(Pubkey, u8)>,
        to_derived: Option<(Pubkey, u8)>,
        edge_derived: Option<(Pubkey, u8)>,
    ) -> (outcome: Result<Vec<CoreEvent>, Error>)
        ensures
            final(self).edge_account == old(self).edge_account,
            ({
                let weight = old(self).edge_account.data.weight as int;
                let refusal = old(self).refusal(
                    amount as int,
                    solana::address_view(from_derived),
                    solana::address_view(to_derived),
                    solana::address_view(edge_derived),
                );
                match outcome {
                    Ok(events) => {
                        &&& refusal is None
                        &&& final(self).transfer_ctx.settled(
                            old(self).transfer_ctx,
                            amount as int,
                            weight,
                        )
                        &&& events@ == old(self).transfer_ctx.report(amount, weight)
                    },
                    Err(error) => refusal == Some(error) && *final(self) == *old(self),
                }
            }),
    {
        if !address::stands_at(&self.transfer_ctx.from_user.key, &from_derived)
            || !address::stands_at(&self.transfer_ctx.to_user.key, &to_derived)
            || !address::stands_at(&self.edge_account.key, &edge_derived) {
            return Err(Error::ConstraintSeeds);
        }
        let edge_cost: i128 = self.edge_account.data.weight;
        if self.transfer_ctx.to_user.data.authority != self.transfer_ctx.to_authority {
            return Err(Error::Rift(RiftError::UnauthorizedAuthority));
        }
        match self.transfer_ctx.perform_transfer(amount, edge_cost) {
            Ok(events) => Ok(events),
            Err(error) => Err(Error::Rift(error)),
        }
    }
}

impl Context<Transfer> {
    /// Why the transfer is refused, if it is.
    pub open spec fn refusal(self, amount: int) -> Option<Error> {
        let ctx = self.accounts.transfer_ctx;
        self.accounts.refusal(
            amount,
            address::user_derivation(self.program_id, ctx.from_authority),
            address::user_derivation(self.program_id, ctx.to_authority),
        )
    }

    /// What an accepted transfer makes of the context, and what it reports.
    pub open spec fn settled(
        self,
        before: Context<Transfer>,
        amount: u128,
        events: Vec<CoreEvent>,
    ) -> bool {
        &&& self.program_id == before.program_id
        &&& self.accounts.transfer_ctx.settled(before.accounts.transfer_ctx, amount as int, 0)
        &&& events@ == before.accounts.transfer_ctx.report(amount, 0)
    }
}

/// Transfers `amount` from the signer's account to the account of
/// `to_authority`, without a cost.
pub fn transfer(ctx: &mut Context<Transfer>, amount: u128) -> (outcome: Result<
    Vec<CoreEvent>,
    Error,
>)
    ensures
        match outcome {
            Ok(events) => {
                &&& old(ctx).refusal(amount as int) is None
                &&& final(ctx).settled(*old(ctx), amount, events)
            },
            Err(error) => old(ctx).refusal(amount as int) == Some(error) && *final(ctx) == *old(ctx),
        },
{
    let from_derived: Option<(Pubkey, u8)> = address::user_address(
        &ctx.program_id,
        &ctx.accounts.transfer_ctx.from_authority,
    );
    let to_derived: Option<(Pubkey, u8)> = address::user_address(
        &ctx.program_id,
        &ctx.accounts.transfer_ctx.to_authority,
    );
    ctx.accounts.apply(amount, from_derived, to_derived)
}

impl Context<TransferWithEdge> {
    /// Why the transfer is refused, if it is.
    pub open spec fn refusal(self, amount: int) -> Option<Error> {
        let ctx = self.accounts.transfer_ctx;
        self.accounts.refusal(
            amount,
            address::user_derivation(self.program_id, ctx.from_authority),
            address::user_derivation(self.program_id, ctx.to_authority),
            address::edge_derivation(self.program_id, ctx.from_authority, ctx.to_authority),
        )
    }

    /// What an accepted transfer makes of the context, and what it reports.
    pub open spec fn settled(
        self,
        before: Context<TransferWithEdge>,
        amount: u128,
        events: Vec<CoreEvent>,
    ) -> bool {
        let weight = before.accounts.edge_account.data.weight as int;
        &&& self.program_id == before.program_id
        &&& self.accounts.edge_account == before.accounts.edge_account
        &&& self.accounts.transfer_ctx.settled(
            before.accounts.transfer_ctx,
            amount as int,
            weight,
        )
        &&& events@ == before.accounts.transfer_ctx.report(amount, weight)
    }
}

/// Transfers `amount` from the signer's account to the account of
/// `to_authority` over the edge between them; the sender bears its weight.
pub fn transfer_with_edge(ctx: &mut Context<TransferWithEdge>, amount: u128) -> (outcome: Result<
    Vec<CoreEvent>,
    Error,
>)
    ensures
        match outcome {
            Ok(events) => {
                &&& old(ctx).refusal(amount as int) is None
                &&& final(ctx).settled(*old(ctx), amount, events)
            },
            Err(error) => old(ctx).refusal(amount as int) == Some(error) && *final(ctx) == *old(ctx),
        },
{
    let from: Pubkey = ctx.accounts.transfer_ctx.from_authority;
    let to: Pubkey = ctx.accounts.transfer_ctx.to_authority;
    let from_derived: Option<(Pubkey, u8)> = address::user_address(&ctx.program_id, &from);
    let to_derived: Option<(Pubkey, u8)> = address::user_address(&ctx.program_id, &to);
    let edge_derived: Option<(Pubkey, u8)> = address::edge_address(&ctx.program_id, &from, &to);
    ctx.accounts.apply(amount, from_derived, to_derived, edge_derived)
}

} // verus!
