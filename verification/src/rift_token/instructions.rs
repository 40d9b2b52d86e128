//! The instructions of the token program.
use vstd::prelude::*;

use crate::account::{Account, Context, Error, Instruction, Pubkey};
use crate::address;
use crate::rift_common::RiftError;
use crate::rift_token::error::TokenError;
use crate::rift_token::events::{IssueRiftEvent, RiftRebaseEvent};
use crate::rift_token::pricing;
use crate::rift_token::pricing::{MAX_FEE_BPS, MULTIPLIER_SCALE};
use crate::rift_token::state::{Issuance, MintTo, RiftTokenState};
use crate::solana;
use crate::ultra_core_rift::state::CoreState;

verus! {

/// The accounts of the instruction `initialize`. `gate` has signed;
/// `rift_token_state` is new.
#[derive(Debug, PartialEq, Eq)]
pub struct Initialize {
    pub rift_token_state: Account<RiftTokenState>,
    pub core_state: Account<CoreState>,
    pub rift_mint: Pubkey,
    pub admin_vault_token_account: Pubkey,
    pub admin_vault: Pubkey,
    pub rift_authority: Pubkey,
    pub gate: Pubkey,
}

/// The accounts of the instruction `issue_rift`. `user` has signed.
#[derive(Debug, PartialEq, Eq)]
pub struct IssueRift {
    pub rift_token_state: Account<RiftTokenState>,
    pub core_state: Account<CoreState>,
    pub rift_mint: Pubkey,
    pub user_token_account: Pubkey,
    pub rift_authority: Pubkey,
    pub user: Pubkey,
    pub admin_vault: Pubkey,
}

/// The accounts of the instruction `rebase`. `authority` has signed.
#[derive(Debug, PartialEq, Eq)]
pub struct Rebase {
    pub rift_token_state: Account<RiftTokenState>,
    pub core_state: Account<CoreState>,
    pub authority: Pubkey,
}

impl MintTo {
    /// The request mints `amount` of `mint` for `to`, signed by `authority`, the
    /// mint authority with bump `bump`.
    pub open spec fn asks(
        self,
        mint: Pubkey,
        to: Pubkey,
        authority: Pubkey,
        bump: u8,
        amount: int,
    ) -> bool {
        &&& self.mint == mint
        &&& self.to == to
        &&& self.authority == authority
        &&& solana::seed_bytes(self.signer_seeds@) == seq![
            address::mint_authority_tag(),
            seq![bump],
        ]
        &&& self.amount == amount
    }
}

/// The seeds by which the mint authority with bump `bump` signs.
fn mint_signer_seeds(bump: u8) -> (seeds: Vec<Vec<u8>>)
    ensures
        solana::seed_bytes(seeds@) == seq![address::mint_authority_tag(), seq![bump]],
{
    let seeds: Vec<Vec<u8>> = vec![address::mint_authority_seed(), vec![bump]];
    assert(solana::seed_bytes(seeds@) =~~= seq![address::mint_authority_tag(), seq![bump]]);
    seeds
}

impl Initialize {
    /// Why the set-up is refused, if it is, where the addresses are those
    /// derived for the program's state and for the mint authority.
    pub open spec fn refusal(
        self,
        fee_bps: int,
        state_derived: Option<(Seq<u8>, u8)>,
        authority_derived: Option<(Seq<u8>, u8)>,
    ) -> Option<Error> {
        if !address::is_at(self.rift_token_state.key, state_derived) || !address::is_at(
            self.rift_authority,
            authority_derived,
        ) {
            Some(Error::ConstraintSeeds)
        } else if self.core_state.data.gate != self.gate {
            Some(Error::Rift(RiftError::UnauthorizedGate))
        } else if fee_bps > MAX_FEE_BPS {
            Some(Error::Token(TokenError::FeeTooHigh))
        } else {
            None
        }
    }

    /// The state after an accepted set-up.
    pub open spec fn founded(
        self,
        decimals: u8,
        fee_bps: u16,
        initial_supply: u64,
        bump: u8,
    ) -> Initialize {
        Initialize {
            rift_token_state: Account {
                data: RiftTokenState {
                    authority: self.gate,
                    core_state: self.core_state.key,
                    admin_vault: self.admin_vault,
                    decimals,
                    fee_bps,
                    total_shares: pricing::portion(
                        initial_supply as int,
                        pricing::FOUNDER_SHARE_BPS as int,
                    ) as u64,
                    rift_multiplier: MULTIPLIER_SCALE,
                    bump,
                },
                ..self.rift_token_state
            },
            ..self
        }
    }

    /// The mint request of an accepted set-up: the genesis share, if it is not 0.
    pub open spec fn genesis(self, initial_supply: int, bump: u8, mint: Option<MintTo>) -> bool {
        let share = pricing::portion(initial_supply, pricing::FOUNDER_SHARE_BPS as int);
        match mint {
            Some(request) => {
                &&& share > 0
                &&& request.asks(
                    self.rift_mint,
                    self.admin_vault_token_account,
                    self.rift_authority,
                    bump,
                    share,
                )
            },
            None => share == 0,
        }
    }

    /// Sets the program up, once the derived addresses are known.
    pub fn apply(
        &mut self,
        decimals: u8,
        fee_bps: u16,
        initial_supply: u64,
        state_derived: Option<(Pubkey, u8)>,
        authority_derived: Option<(Pubkey, u8)>,
    ) -> (outcome: Result<Option<MintTo>, Error>)
        ensures
            ({
                let refusal = old(self).refusal(
                    fee_bps as int,
                    solana::address_view(state_derived),
                    solana::address_view(authority_derived),
                );
                match outcome {
                    Ok(mint) => {
                        &&& refusal is None
                        &&& state_derived matches Some((_, state_bump)) && *final(self)
                            == old(self).founded(decimals, fee_bps, initial_supply, state_bump)
                        &&& authority_derived matches Some((_, authority_bump)) && old(
                            self,
                        ).genesis(initial_supply as int, authority_bump, mint)
                    },
                    Err(error) => refusal == Some(error) && *final(self) == *old(self),
                }
            }),
    {
        if !address::stands_at(&self.rift_token_state.key, &state_derived)
            || !address::stands_at(&self.rift_authority, &authority_derived) {
            return Err(Error::ConstraintSeeds);
        }
        let (state_bump, authority_bump): (u8, u8) = match (state_derived, authority_derived) {
            (Some((_, state_bump)), Some((_, authority_bump))) => (state_bump, authority_bump),
            _ => return Err(Error::ConstraintSeeds),
        };
        if self.core_state.data.gate != self.gate {
            return Err(Error::Rift(RiftError::UnauthorizedGate));
        }
        if fee_bps > MAX_FEE_BPS {
            return Err(Error::Token(TokenError::FeeTooHigh));
        }
        let founder_share: u64 = pricing::founder_share(initial_supply);
        self.rift_token_state.data = RiftTokenState {
            authority: self.gate,
            core_state: self.core_state.key,
            admin_vault: self.admin_vault,
            decimals,
            fee_bps,
            total_shares: founder_share,
            rift_multiplier: MULTIPLIER_SCALE,
            bump: state_bump,
        };
        if founder_share == 0 {
            return Ok(None);
        }
        Ok(
            Some(
                MintTo {
                    mint: self.rift_mint,
                    to: self.admin_vault_token_account,
                    authority: self.rift_authority,
                    signer_seeds: mint_signer_seeds(authority_bump),
                    amount: founder_share,
                },
            ),
        )
    }
}

impl IssueRift {
    /// The fee on `base_amount`.
    pub open spec fn fee(self, base_amount: int) -> int {
        pricing::portion(base_amount, self.rift_token_state.data.fee_bps as int)
    }

    /// The shares minted for `base_amount`.
    pub open spec fn shares(self, base_amount: int) -> int {
        pricing::shares_issued(
            base_amount,
            self.rift_token_state.data.fee_bps as int,
            self.core_state.data.global_field as int,
        )
    }

    /// Why the issue is refused, if it is, where the addresses are those derived
    /// for the program's state and for the mint authority.
    pub open spec fn refusal(
        self,
        base_amount: int,
        state_derived: Option<(Seq<u8>, u8)>,
        authority_derived: Option<(Seq<u8>, u8)>,
    ) -> Option<Error> {
        let state = self.rift_token_state.data;
        let core = self.core_state.data;
        if !address::is_at(self.rift_token_state.key, state_derived) {
            Some(Error::ConstraintSeeds)
        } else if self.core_state.key != state.core_state {
            Some(Error::Token(TokenError::InvalidCoreState))
        } else if !address::is_at(self.rift_authority, authority_derived) {
            Some(Error::ConstraintSeeds)
        } else if self.admin_vault != state.admin_vault {
            Some(Error::Token(TokenError::InvalidAdminVault))
        } else if core@.fault() is Some {
            Error::of_rift(core@.fault())
        } else if core.paused {
            Some(Error::Rift(RiftError::ProtocolPaused))
        } else if self.fee(base_amount) > base_amount {
            Some(Error::Rift(RiftError::MathOverflow))
        } else if self.shares(base_amount) == 0 {
            Some(Error::Token(TokenError::ZeroSharesMinted))
        } else if state.total_shares + self.shares(base_amount) > u64::MAX {
            Some(Error::Rift(RiftError::MathOverflow))
        } else {
            None
        }
    }

    /// The accounts after an accepted issue: only the count of shares changes.
    pub open spec fn issued(self, base_amount: int) -> IssueRift {
        IssueRift {
            rift_token_state: Account {
                data: RiftTokenState {
                    total_shares: (self.rift_token_state.data.total_shares + self.shares(
                        base_amount,
                    )) as u64,
                    ..self.rift_token_state.data
                },
                ..self.rift_token_state
            },
            ..self
        }
    }

    /// What an accepted issue asks for: the user pays the fee to the vault, and
    /// the user's token account gets the shares.
    pub open spec fn orders(self, base_amount: u64, bump: u8, issuance: Issuance) -> bool {
        let fee = self.fee(base_amount as int);
        let minted = self.shares(base_amount as int);
        &&& solana::moves_lamports(
            issuance.fee_transfer,
            self.user,
            self.admin_vault,
            fee as nat,
        )
        &&& issuance.mint.asks(
            self.rift_mint,
            self.user_token_account,
            self.rift_authority,
            bump,
            minted,
        )
        &&& issuance.event == (IssueRiftEvent {
            user: self.user,
            base_amount,
            fee_amount: fee as u64,
            shares_minted: minted as u64,
            global_field: self.core_state.data.global_field,
            rift_multiplier: self.rift_token_state.data.rift_multiplier,
        })
    }

    /// Issues shares for `base_amount`, once the derived addresses are known.
    pub fn apply(
        &mut self,
        base_amount: u64,
        state_derived: Option<(Pubkey, u8)>,
        authority_derived: Option<(Pubkey, u8)>,
    ) -> (outcome: Result<Issuance, Error>)
        ensures
            ({
                let refusal = old(self).refusal(
                    base_amount as int,
                    solana::address_view(state_derived),
                    solana::address_view(authority_derived),
                );
                match outcome {
                    Ok(issuance) => {
                        &&& refusal is None
                        &&& *final(self) == old(self).issued(base_amount as int)
                        &&& authority_derived matches Some((_, bump)) && old(self).orders(
                            base_amount,
                            bump,
                            issuance,
                        )
                    },
                    Err(error) => refusal == Some(error) && *final(self) == *old(self),
                }
            }),
    {
        let state: RiftTokenState = self.rift_token_state.data;
        let core: CoreState = self.core_state.data;
        if !address::stands_at(&self.rift_token_state.key, &state_derived) {
            return Err(Error::ConstraintSeeds);
        }
        if self.core_state.key != state.core_state {
            return Err(Error::Token(TokenError::InvalidCoreState));
        }
        if !address::stands_at(&self.rift_authority, &authority_derived) {
            return Err(Error::ConstraintSeeds);
        }
        let bump: u8 = match authority_derived {
            Some((_, bump)) => bump,
            None => return Err(Error::ConstraintSeeds),
        };
        if self.admin_vault != state.admin_vault {
            return Err(Error::Token(TokenError::InvalidAdminVault));
        }
        match core.check_invariant() {
            Ok(()) => {},
            Err(error) => return Err(Error::Rift(error)),
        }
        if core.paused {
            return Err(Error::Rift(RiftError::ProtocolPaused));
        }
        let fee_amount: u64 = match pricing::fee_amount(base_amount, state.fee_bps) {
            Ok(fee) => fee,
            Err(error) => return Err(Error::Rift(error)),
        };
        let shares: u64 = pricing::shares_to_mint(base_amount - fee_amount, core.global_field);
        if shares == 0 {
            return Err(Error::Token(TokenError::ZeroSharesMinted));
        }
        let total_shares: u64 = state.total_shares.checked_add(shares).ok_or(
            Error::Rift(RiftError::MathOverflow),
        )?;
        let fee_transfer: Instruction = solana::system_transfer(
            &self.user,
            &self.admin_vault,
            fee_amount,
        );
        let mint: MintTo = MintTo {
            mint: self.rift_mint,
            to: self.user_token_account,
            authority: self.rift_authority,
            signer_seeds: mint_signer_seeds(bump),
            amount: shares,
        };
        let event: IssueRiftEvent = IssueRiftEvent {
            user: self.user,
            base_amount,
            fee_amount,
            shares_minted: shares,
            global_field: core.global_field,
            rift_multiplier: state.rift_multiplier,
        };
        self.rift_token_state.data.total_shares = total_shares;
        Ok(Issuance { fee_transfer, mint, event })
    }
}

impl Rebase {
    /// Why the rebase is refused, if it is, where `derived` is the address derived
    /// for the program's state.
    pub open spec fn refusal(self, derived: Option<(Seq<u8>, u8)>) -> Option<Error> {
        let state = self.rift_token_state.data;
        if !address::is_at(self.rift_token_state.key, derived) {
            Some(Error::ConstraintSeeds)
        } else if state.authority != self.authority {
            Some(Error::Rift(RiftError::UnauthorizedGate))
        } else if self.core_state.key != state.core_state {
            Some(Error::Token(TokenError::InvalidCoreState))
        } else {
            Error::of_rift(self.core_state.data@.fault())
        }
    }

    /// The accounts after an accepted rebase: only the cached multiplier changes.
    pub open spec fn rebased(self) -> Rebase {
        Rebase {
            rift_token_state: Account {
                data: RiftTokenState {
                    rift_multiplier: pricing::multiplier(
                        self.core_state.data.global_field as int,
                    ) as u128,
                    ..self.rift_token_state.data
                },
                ..self.rift_token_state
            },
            ..self
        }
    }

    /// The event of an accepted rebase.
    pub open spec fn report(self) -> RiftRebaseEvent {
        RiftRebaseEvent {
            old_multiplier: self.rift_token_state.data.rift_multiplier,
            new_multiplier: self.rebased().rift_token_state.data.rift_multiplier,
            global_field: self.core_state.data.global_field,
        }
    }

    /// Sets the cached multiplier, once the derived address is known.
    pub fn apply(&mut self, derived: Option<(Pubkey, u8)>) -> (outcome: Result<
        RiftRebaseEvent,
        Error,
    >)
        ensures
            ({
                let refusal = old(self).refusal(solana::address_view(derived));
                match outcome {
                    Ok(event) => {
                        &&& refusal is None
                        &&& *final(self) == old(self).rebased()
                        &&& event == old(self).report()
                    },
                    Err(error) => refusal == Some(error) && *final(self) == *old(self),
                }
            }),
    {
        let state: RiftTokenState = self.rift_token_state.data;
        let core: CoreState = self.core_state.data;
        if !address::stands_at(&self.rift_token_state.key, &derived) {
            return Err(Error::ConstraintSeeds);
        }
        if state.authority != self.authority {
            return Err(Error::Rift(RiftError::UnauthorizedGate));
        }
        if self.core_state.key != state.core_state {
            return Err(Error::Token(TokenError::InvalidCoreState));
        }
        match core.check_invariant() {
            Ok(()) => {},
            Err(error) => return Err(Error::Rift(error)),
        }
        let old_multiplier: u128 = state.rift_multiplier;
        let new_multiplier: u128 = pricing::mint_multiplier(core.global_field);
        self.rift_token_state.data.rift_multiplier = new_multiplier;
        Ok(RiftRebaseEvent { old_multiplier, new_multiplier, global_field: core.global_field })
    }
}

impl Context<Initialize> {
    /// Why the set-up is refused, if it is.
    pub open spec fn refusal(self, fee_bps: int) -> Option<Error> {
        self.accounts.refusal(
            fee_bps,
            address::token_state_derivation(self.program_id),
            address::mint_authority_derivation(self.program_id),
        )
    }

    /// What an accepted set-up makes of the context, and what it orders.
    pub open spec fn settled(
        self,
        before: Context<Initialize>,
        decimals: u8,
        fee_bps: u16,
        initial_supply: u64,
        mint: Option<MintTo>,
    ) -> bool {
        &&& self.program_id == before.program_id
        &&& address::token_state_derivation(before.program_id) matches Some((_, state_bump))
            && self.accounts == before.accounts.founded(
            decimals,
            fee_bps,
            initial_supply,
            state_bump,
        )
        &&& address::mint_authority_derivation(before.program_id) matches Some(
            (_, authority_bump),
        ) && before.accounts.genesis(initial_supply as int, authority_bump, mint)
    }
}

/// Sets the token program up and orders the genesis share for the admin vault.
/// Gate-only: the signer is the key that the core state names as its gate.
pub fn initialize(
    ctx: &mut Context<Initialize>,
    decimals: u8,
    fee_bps: u16,
    initial_supply: u64,
) -> (outcome: Result<Option<MintTo>, Error>)
    ensures
        match outcome {
            Ok(mint) => {
                &&& old(ctx).refusal(fee_bps as int) is None
                &&& final(ctx).settled(*old(ctx), decimals, fee_bps, initial_supply, mint)
            },
            Err(error) => {
                &&& old(ctx).refusal(fee_bps as int) == Some(error)
                &&& *final(ctx) == *old(ctx)
            },
        },
{
    let state_derived: Option<(Pubkey, u8)> = address::token_state_address(&ctx.program_id);
    let authority_derived: Option<(Pubkey, u8)> = address::mint_authority_address(
        &ctx.program_id,
    );
    ctx.accounts.apply(decimals, fee_bps, initial_supply, state_derived, authority_derived)
}

impl Context<IssueRift> {
    /// Why the issue is refused, if it is.
    pub open spec fn refusal(self, base_amount: int) -> Option<Error> {
        self.accounts.refusal(
            base_amount,
            address::token_state_derivation(self.program_id),
            address::mint_authority_derivation(self.program_id),
        )
    }

    /// What an accepted issue makes of the context, and what it orders.
    pub open spec fn settled(
        self,
        before: Context<IssueRift>,
        base_amount: u64,
        issuance: Issuance,
    ) -> bool {
        &&& self.program_id == before.program_id
        &&& self.accounts == before.accounts.issued(base_amount as int)
        &&& address::mint_authority_derivation(before.program_id) matches Some((_, bump))
            && before.accounts.orders(base_amount, bump, issuance)
    }
}

/// Issues shares to the user for `base_amount`: the amount less the fee, times
/// the mint multiplier of the current field.
pub fn issue_rift(ctx: &mut Context<IssueRift>, base_amount: u64) -> (outcome: Result<
    Issuance,
    Error,
>)
    ensures
        match outcome {
            Ok(issuance) => {
                &&& old(ctx).refusal(base_amount as int) is None
                &&& final(ctx).settled(*old(ctx), base_amount, issuance)
            },
            Err(error) => old(ctx).refusal(base_amount as int) == Some(error) && *final(ctx) == *old(ctx),
        },
{
    let state_derived: Option<(Pubkey, u8)> = address::token_state_address(&ctx.program_id);
    let authority_derived: Option<(Pubkey, u8)> = address::mint_authority_address(
        &ctx.program_id,
    );
    ctx.accounts.apply(base_amount, state_derived, authority_derived)
}

impl Context<Rebase> {
    /// Why the rebase is refused, if it is.
    pub open spec fn refusal(self) -> Option<Error> {
        self.accounts.refusal(address::token_state_derivation(self.program_id))
    }

    /// What an accepted rebase makes of the context, and what it reports.
    pub open spec fn settled(self, before: Context<Rebase>, event: RiftRebaseEvent) -> bool {
        &&& self.program_id == before.program_id
        &&& self.accounts == before.accounts.rebased()
        &&& event == before.accounts.report()
    }
}

/// Gate-only: sets the cached multiplier to the mint rate of the current field.
pub fn rebase(ctx: &mut Context<Rebase>) -> (outcome: Result<RiftRebaseEvent, Error>)
    ensures
        match outcome {
            Ok(event) => {
                &&& old(ctx).refusal() is None
                &&& final(ctx).settled(*old(ctx), event)
            },
            Err(error) => old(ctx).refusal() == Some(error) && *final(ctx) == *old(ctx),
        },
{
    let derived: Option<(Pubkey, u8)> = address::token_state_address(&ctx.program_id);
    ctx.accounts.apply(derived)
}

} // verus!
