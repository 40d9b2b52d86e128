//! What holds of the token program as a whole.
use vstd::prelude::*;

use crate::account::{Account, Error};
use crate::address;
use crate::rift_common::RiftError;
use crate::rift_token::error::TokenError;
use crate::rift_token::instructions::{Initialize, IssueRift, Rebase};
use crate::rift_token::pricing;
use crate::rift_token::pricing::{FOUNDER_SHARE_BPS, MAX_FEE_BPS};
use crate::rift_token::state::RiftTokenState;

verus! {

// Prices.

/// The more pressure, the fewer shares: a field of greater magnitude has no
/// greater multiplier, and the same amount buys no more shares under it.
pub proof fn law_pressure_lowers_shares(weak: int, strong: int, net: int)
    requires
        vstd::math::abs(weak) <= vstd::math::abs(strong),
        0 <= net,
    ensures
        pricing::multiplier(strong) <= pricing::multiplier(weak),
        pricing::shares(net, strong) <= pricing::shares(net, weak),
{
    let low = pricing::pressure(weak);
    let high = pricing::pressure(strong);
    vstd::arithmetic::div_mod::lemma_div_is_ordered_by_denominator(
        pricing::MULTIPLIER_SCALE as int,
        low,
        high,
    );
    let few = pricing::multiplier(strong);
    let many = pricing::multiplier(weak);
    assert(net * few <= net * many) by (nonlinear_arith)
        requires
            0 <= net,
            few <= many,
    ;
}

/// Only the magnitude of the field counts, and below `MIN_FIELD_PRESSURE` not
/// even that.
pub proof fn law_pressure_is_symmetric(field: int)
    ensures
        pricing::pressure(-field) == pricing::pressure(field),
        pricing::multiplier(-field) == pricing::multiplier(field),
        pricing::pressure(field) >= pricing::MIN_FIELD_PRESSURE,
        -pricing::MIN_FIELD_PRESSURE <= field <= pricing::MIN_FIELD_PRESSURE
            ==> pricing::multiplier(field) == 1_000_000_000,
{
    pricing::law_multiplier_bounded(field);
}

/// A fee within the limit is at most a thousandth of the amount.
pub proof fn law_fee_is_at_most_a_thousandth(base_amount: int, fee_bps: int)
    requires
        0 <= base_amount,
        0 <= fee_bps <= MAX_FEE_BPS,
    ensures
        0 <= pricing::portion(base_amount, fee_bps) <= base_amount / 1_000,
{
    assert(0 <= base_amount * fee_bps <= base_amount * 10) by (nonlinear_arith)
        requires
            0 <= base_amount,
            0 <= fee_bps <= 10,
    ;
}

/// The genesis share is 3.14 percent of the initial supply, rounded down.
pub proof fn law_genesis_share(initial_supply: int)
    requires
        0 <= initial_supply,
    ensures
        ({
            let share = pricing::portion(initial_supply, FOUNDER_SHARE_BPS as int);
            &&& 0 <= share <= initial_supply
            &&& share * 10_000 <= initial_supply * 314 < (share + 1) * 10_000
        }),
{
}

/// The shares are never more than a thousandth of the amount, so they fit a `u64`
/// whatever the field is.
pub proof fn law_shares_are_bounded(base_amount: u64, fee_bps: u16, field: i128)
    requires
        pricing::portion(base_amount as int, fee_bps as int) <= base_amount,
    ensures
        0 <= pricing::shares_issued(base_amount as int, fee_bps as int, field as int)
            <= base_amount / 1_000,
{
    let net = base_amount - pricing::portion(base_amount as int, fee_bps as int);
    pricing::lemma_portion_bounded(base_amount as int, fee_bps as int);
    pricing::lemma_shares_bounded(net, field as int);
}

// Settings.

/// The fee is within its limit.
pub open spec fn fee_is_limited(state: RiftTokenState) -> bool {
    state.fee_bps <= MAX_FEE_BPS
}

/// The set-up puts the fee within its limit, and issues and rebases leave it
/// there.
pub proof fn law_fee_stays_limited(
    setup: Initialize,
    decimals: u8,
    fee_bps: u16,
    initial_supply: u64,
    bump: u8,
    state_derived: Option<(Seq<u8>, u8)>,
    authority_derived: Option<(Seq<u8>, u8)>,
    issue: IssueRift,
    base_amount: u64,
    rebase: Rebase,
)
    ensures
        setup.refusal(fee_bps as int, state_derived, authority_derived) is None
            ==> fee_is_limited(
            setup.founded(decimals, fee_bps, initial_supply, bump).rift_token_state.data,
        ),
        fee_is_limited(issue.rift_token_state.data) ==> fee_is_limited(
            issue.issued(base_amount as int).rift_token_state.data,
        ),
        fee_is_limited(rebase.rift_token_state.data) ==> fee_is_limited(
            rebase.rebased().rift_token_state.data,
        ),
{
}

/// While the fee is within its limit, an issue fails for an overflow only where
/// the count of shares would leave `u64`, or the core state's own check
/// overflows.
pub proof fn law_overflow_only_of_the_count(
    issue: IssueRift,
    base_amount: u64,
    state_derived: Option<(Seq<u8>, u8)>,
    authority_derived: Option<(Seq<u8>, u8)>,
)
    requires
        fee_is_limited(issue.rift_token_state.data),
        issue.core_state.data@.holds(),
        issue.refusal(base_amount as int, state_derived, authority_derived) == Some(
            Error::Rift(RiftError::MathOverflow),
        ),
    ensures
        issue.rift_token_state.data.total_shares + issue.shares(base_amount as int) > u64::MAX,
{
    law_fee_is_at_most_a_thousandth(
        base_amount as int,
        issue.rift_token_state.data.fee_bps as int,
    );
}

// Issues.

/// An accepted issue mints at least one share, and the count of shares grows by
/// what is minted.
pub proof fn law_issue_mints(
    issue: IssueRift,
    base_amount: u64,
    state_derived: Option<(Seq<u8>, u8)>,
    authority_derived: Option<(Seq<u8>, u8)>,
)
    requires
        issue.refusal(base_amount as int, state_derived, authority_derived) is None,
    ensures
        0 < issue.shares(base_amount as int) <= base_amount / 1_000,
        issue.issued(base_amount as int).rift_token_state.data.total_shares
            == issue.rift_token_state.data.total_shares + issue.shares(base_amount as int),
{
    law_shares_are_bounded(
        base_amount,
        issue.rift_token_state.data.fee_bps,
        issue.core_state.data.global_field,
    );
}

/// The cached multiplier has no effect on what an issue does: with another one
/// it is refused for the same reasons, costs the same and mints the same.
pub proof fn law_cached_multiplier_is_advisory(
    issue: IssueRift,
    cached: u128,
    base_amount: u64,
    state_derived: Option<(Seq<u8>, u8)>,
    authority_derived: Option<(Seq<u8>, u8)>,
)
    ensures
        ({
            let other = IssueRift {
                rift_token_state: Account {
                    data: RiftTokenState {
                        rift_multiplier: cached,
                        ..issue.rift_token_state.data
                    },
                    ..issue.rift_token_state
                },
                ..issue
            };
            &&& other.refusal(base_amount as int, state_derived, authority_derived)
                == issue.refusal(base_amount as int, state_derived, authority_derived)
            &&& other.fee(base_amount as int) == issue.fee(base_amount as int)
            &&& other.shares(base_amount as int) == issue.shares(base_amount as int)
        }),
{
}

/// Right after a rebase the cached multiplier is the rate at which an issue
/// against the same core state mints.
pub proof fn law_rebased_multiplier_is_the_rate(
    rebase: Rebase,
    issue: IssueRift,
    base_amount: u64,
)
    requires
        issue.rift_token_state == rebase.rebased().rift_token_state,
        issue.core_state == rebase.core_state,
    ensures
        issue.shares(base_amount as int) == (base_amount - issue.fee(base_amount as int))
            * issue.rift_token_state.data.rift_multiplier / pricing::SHARE_SCALE as int,
{
    pricing::law_multiplier_bounded(rebase.core_state.data.global_field as int);
}

/// A second rebase against the same core state changes nothing.
pub proof fn law_rebase_is_idempotent(
    rebase: Rebase,
    state_derived: Option<(Seq<u8>, u8)>,
)
    ensures
        rebase.rebased().rebased() == rebase.rebased(),
        rebase.rebased().refusal(state_derived) == rebase.refusal(state_derived),
{
}

/// The set-up, issues and rebases leave the core state alone.
pub proof fn law_core_is_only_read(
    setup: Initialize,
    decimals: u8,
    fee_bps: u16,
    initial_supply: u64,
    bump: u8,
    issue: IssueRift,
    base_amount: u64,
    rebase: Rebase,
)
    ensures
        setup.founded(decimals, fee_bps, initial_supply, bump).core_state == setup.core_state,
        issue.issued(base_amount as int).core_state == issue.core_state,
        rebase.rebased().core_state == rebase.core_state,
{
}

/// While the core is paused, no shares are issued. Where nothing else is wrong
/// with the accounts, the issue is refused for the pause.
pub proof fn law_pause_stops_issues(
    issue: IssueRift,
    base_amount: u64,
    state_derived: Option<(Seq<u8>, u8)>,
    authority_derived: Option<(Seq<u8>, u8)>,
)
    requires
        issue.core_state.data.paused,
    ensures
        issue.refusal(base_amount as int, state_derived, authority_derived) is Some,
        is_bound(issue, state_derived, authority_derived) && issue.core_state.data@.holds()
            ==> issue.refusal(base_amount as int, state_derived, authority_derived) == Some(
            Error::Rift(RiftError::ProtocolPaused),
        ),
{
}

/// While the core state breaches its invariant, no shares are issued and nothing
/// is rebased. Where the accounts are the right ones, the refusal is what the
/// check of the invariant finds wrong.
pub proof fn law_breach_stops_the_token(
    issue: IssueRift,
    rebase: Rebase,
    base_amount: u64,
    state_derived: Option<(Seq<u8>, u8)>,
    authority_derived: Option<(Seq<u8>, u8)>,
)
    ensures
        !issue.core_state.data@.holds() ==> issue.refusal(
            base_amount as int,
            state_derived,
            authority_derived,
        ) is Some,
        !issue.core_state.data@.holds() && is_bound(issue, state_derived, authority_derived)
            ==> issue.refusal(base_amount as int, state_derived, authority_derived)
            == Error::of_rift(issue.core_state.data@.fault()),
        !rebase.core_state.data@.holds() ==> rebase.refusal(state_derived) is Some,
        !rebase.core_state.data@.holds() && address::is_at(
            rebase.rift_token_state.key,
            state_derived,
        ) && rebase.authority == rebase.rift_token_state.data.authority && rebase.core_state.key
            == rebase.rift_token_state.data.core_state ==> rebase.refusal(state_derived)
            == Error::of_rift(rebase.core_state.data@.fault()),
{
}

// Authority.

/// The accounts of an issue are the program's state at its derived address, the
/// core state and the admin vault that it names, and the mint authority that was
/// derived.
pub open spec fn is_bound(
    issue: IssueRift,
    state_derived: Option<(Seq<u8>, u8)>,
    authority_derived: Option<(Seq<u8>, u8)>,
) -> bool {
    &&& address::is_at(issue.rift_token_state.key, state_derived)
    &&& issue.core_state.key == issue.rift_token_state.data.core_state
    &&& issue.admin_vault == issue.rift_token_state.data.admin_vault
    &&& address::is_at(issue.rift_authority, authority_derived)
}

/// Issues and rebases are accepted only in the state at its derived address and
/// against the core state that it names, and issues only with the admin vault
/// that it names. An account off the derived address and a foreign core state are
/// refused as such.
pub proof fn law_accounts_are_bound(
    issue: IssueRift,
    rebase: Rebase,
    base_amount: u64,
    state_derived: Option<(Seq<u8>, u8)>,
    authority_derived: Option<(Seq<u8>, u8)>,
)
    ensures
        issue.refusal(base_amount as int, state_derived, authority_derived) is None ==> is_bound(
            issue,
            state_derived,
            authority_derived,
        ),
        address::is_at(issue.rift_token_state.key, state_derived) && issue.core_state.key
            != issue.rift_token_state.data.core_state ==> issue.refusal(
            base_amount as int,
            state_derived,
            authority_derived,
        ) == Some(Error::Token(TokenError::InvalidCoreState)),
        !address::is_at(issue.rift_token_state.key, state_derived) ==> issue.refusal(
            base_amount as int,
            state_derived,
            authority_derived,
        ) == Some(Error::ConstraintSeeds),
        rebase.refusal(state_derived) is None ==> address::is_at(
            rebase.rift_token_state.key,
            state_derived,
        ) && rebase.core_state.key == rebase.rift_token_state.data.core_state,
        !address::is_at(rebase.rift_token_state.key, state_derived) ==> rebase.refusal(
            state_derived,
        ) == Some(Error::ConstraintSeeds),
{
}

/// Only the key that the state names as its authority may rebase.
pub proof fn law_only_the_authority_rebases(
    rebase: Rebase,
    state_derived: Option<(Seq<u8>, u8)>,
)
    ensures
        rebase.refusal(state_derived) is None ==> rebase.authority
            == rebase.rift_token_state.data.authority,
        address::is_at(rebase.rift_token_state.key, state_derived) ==> (rebase.authority
            != rebase.rift_token_state.data.authority <==> rebase.refusal(state_derived) == Some(
            Error::Rift(RiftError::UnauthorizedGate),
        )),
{
}

/// Only the key that the core state names as its gate sets the program up. Where
/// the addresses are the derived ones, another signer is refused as such.
pub proof fn law_only_the_gate_sets_up(
    setup: Initialize,
    fee_bps: u16,
    state_derived: Option<(Seq<u8>, u8)>,
    authority_derived: Option<(Seq<u8>, u8)>,
)
    requires
        setup.gate != setup.core_state.data.gate,
    ensures
        setup.refusal(fee_bps as int, state_derived, authority_derived) is Some,
        address::is_at(setup.rift_token_state.key, state_derived) && address::is_at(
            setup.rift_authority,
            authority_derived,
        ) ==> setup.refusal(fee_bps as int, state_derived, authority_derived) == Some(
            Error::Rift(RiftError::UnauthorizedGate),
        ),
{
}

/// Two states name the same authority, core state and admin vault.
pub open spec fn same_binding(one: RiftTokenState, other: RiftTokenState) -> bool {
    &&& one.authority == other.authority
    &&& one.core_state == other.core_state
    &&& one.admin_vault == other.admin_vault
}

/// Neither an issue nor a rebase changes what the state is bound to.
pub proof fn law_binding_is_kept(issue: IssueRift, base_amount: u64, rebase: Rebase)
    ensures
        same_binding(
            issue.issued(base_amount as int).rift_token_state.data,
            issue.rift_token_state.data,
        ),
        same_binding(rebase.rebased().rift_token_state.data, rebase.rift_token_state.data),
{
}

/// What an accepted set-up stores is what later instructions are held to, while
/// the binding is kept: issues and rebases take the core state that it was given,
/// issues its vault, and rebases the signature of the key that the core state then
/// named as its gate.
pub proof fn law_setup_binds(
    setup: Initialize,
    decimals: u8,
    fee_bps: u16,
    initial_supply: u64,
    bump: u8,
    issue: IssueRift,
    base_amount: u64,
    state_derived: Option<(Seq<u8>, u8)>,
    authority_derived: Option<(Seq<u8>, u8)>,
    rebase: Rebase,
)
    requires
        setup.refusal(fee_bps as int, state_derived, authority_derived) is None,
        ({
            let state = setup.founded(
                decimals,
                fee_bps,
                initial_supply,
                bump,
            ).rift_token_state.data;
            &&& same_binding(issue.rift_token_state.data, state)
            &&& same_binding(rebase.rift_token_state.data, state)
        }),
    ensures
        issue.refusal(base_amount as int, state_derived, authority_derived) is None
            ==> issue.core_state.key == setup.core_state.key && issue.admin_vault
            == setup.admin_vault,
        rebase.refusal(state_derived) is None ==> rebase.core_state.key == setup.core_state.key
            && rebase.authority == setup.core_state.data.gate,
{
}

} // verus!
