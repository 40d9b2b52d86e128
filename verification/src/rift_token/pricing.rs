//! The formulas of the token program.
use vstd::prelude::*;

use crate::rift_common;
use crate::rift_common::RiftError;

verus! {

/// The genesis share of the admin vault, in hundredths of a percent.
pub const FOUNDER_SHARE_BPS: u16 = 314;

/// The largest protocol fee, in hundredths of a percent.
pub const MAX_FEE_BPS: u16 = 10;

/// The least field pressure. It caps the mint multiplier at 10^9.
pub const MIN_FIELD_PRESSURE: u128 = 1_000_000;

/// The multiplier at field pressure 1.
pub const MULTIPLIER_SCALE: u128 = 1_000_000_000_000_000;

/// The multiplier at which one unit buys one share.
pub const SHARE_SCALE: u128 = 1_000_000_000_000;

/// `bps` hundredths of a percent of `amount`, rounded down.
pub open spec fn portion(amount: int, bps: int) -> int {
    amount * bps / 10_000
}

/// The magnitude of the global field, but at least `MIN_FIELD_PRESSURE`.
pub open spec fn pressure(global_field: int) -> int {
    let size = if global_field < 0 { -global_field } else { global_field };
    if size < MIN_FIELD_PRESSURE {
        MIN_FIELD_PRESSURE as int
    } else {
        size
    }
}

/// The rate at which shares are minted under `global_field`.
pub open spec fn multiplier(global_field: int) -> int {
    MULTIPLIER_SCALE as int / pressure(global_field)
}

/// The shares that `net` units buy under `global_field`.
pub open spec fn shares(net: int, global_field: int) -> int {
    net * multiplier(global_field) / SHARE_SCALE as int
}

/// The shares minted for `base_amount` at a fee of `fee_bps`.
pub open spec fn shares_issued(base_amount: int, fee_bps: int, global_field: int) -> int {
    shares(base_amount - portion(base_amount, fee_bps), global_field)
}

/// The multiplier is never above 10^9, which it reaches at the least pressure.
pub proof fn law_multiplier_bounded(global_field: int)
    ensures
        0 <= multiplier(global_field) <= 1_000_000_000,
        pressure(global_field) == MIN_FIELD_PRESSURE ==> multiplier(global_field)
            == 1_000_000_000,
{
    let pressure = pressure(global_field);
    assert(0 <= 1_000_000_000_000_000int / pressure <= 1_000_000_000_000_000int / 1_000_000)
        by (nonlinear_arith)
        requires
            1_000_000 <= pressure,
    ;
}

/// `net` units never buy more than a thousandth of a share each.
pub proof fn lemma_shares_bounded(net: int, global_field: int)
    requires
        0 <= net,
    ensures
        0 <= net * multiplier(global_field) <= net * 1_000_000_000,
        0 <= shares(net, global_field) <= net / 1_000,
{
    law_multiplier_bounded(global_field);
    let rate = multiplier(global_field);
    assert(0 <= net * rate <= net * 1_000_000_000) by (nonlinear_arith)
        requires
            0 <= net,
            0 <= rate <= 1_000_000_000,
    ;
}

/// A portion of at most the whole lies between nothing and the whole.
pub proof fn lemma_portion_bounded(amount: int, bps: int)
    requires
        0 <= amount,
        0 <= bps,
    ensures
        0 <= amount * bps,
        0 <= portion(amount, bps),
        bps <= 10_000 ==> portion(amount, bps) <= amount,
{
    assert(0 <= amount * bps) by (nonlinear_arith)
        requires
            0 <= amount,
            0 <= bps,
    ;
    if bps <= 10_000 {
        assert(amount * bps <= amount * 10_000) by (nonlinear_arith)
            requires
                0 <= amount,
                bps <= 10_000,
        ;
    }
}

/// The genesis share of `initial_supply`.
pub fn founder_share(initial_supply: u64) -> (share: u64)
    ensures
        share == portion(initial_supply as int, FOUNDER_SHARE_BPS as int),
{
    proof {
        lemma_portion_bounded(initial_supply as int, FOUNDER_SHARE_BPS as int);
    }
    (initial_supply as u128 * FOUNDER_SHARE_BPS as u128 / 10_000) as u64
}

/// The protocol fee on `base_amount`. A fee above the amount is an overflow.
pub fn fee_amount(base_amount: u64, fee_bps: u16) -> (fee: Result<u64, RiftError>)
    ensures
        match fee {
            Ok(amount) => {
                &&& amount == portion(base_amount as int, fee_bps as int)
                &&& amount <= base_amount
            },
            Err(error) => {
                &&& error == RiftError::MathOverflow
                &&& portion(base_amount as int, fee_bps as int) > base_amount
            },
        },
{
    assert(base_amount * fee_bps <= u64::MAX * u16::MAX) by (nonlinear_arith)
        requires
            base_amount <= u64::MAX,
            fee_bps <= u16::MAX,
    ;
    let fee: u128 = (base_amount as u128).checked_mul(fee_bps as u128).ok_or(
        RiftError::MathOverflow,
    )?.checked_div(10_000).ok_or(RiftError::MathOverflow)?;
    if fee > base_amount as u128 {
        return Err(RiftError::MathOverflow);
    }
    Ok(fee as u64)
}

/// The rate at which shares are minted under `global_field`.
pub fn mint_multiplier(global_field: i128) -> (rate: u128)
    ensures
        rate == multiplier(global_field as int),
{
    let size: u128 = rift_common::magnitude(global_field);
    let field_pressure: u128 = if size < MIN_FIELD_PRESSURE {
        MIN_FIELD_PRESSURE
    } else {
        size
    };
    MULTIPLIER_SCALE / field_pressure
}

/// The shares that `net` units buy under `global_field`.
pub fn shares_to_mint(net: u64, global_field: i128) -> (minted: u64)
    ensures
        minted == shares(net as int, global_field as int),
{
    proof {
        lemma_shares_bounded(net as int, global_field as int);
    }
    (net as u128 * mint_multiplier(global_field) / SHARE_SCALE) as u64
}

} // verus!
