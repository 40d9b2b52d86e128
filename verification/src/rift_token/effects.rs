//! What the token program computes, stores and orders, and exactly when it is
//! accepted or refused, over the fields of the accounts alone.
use vstd::prelude::*;

use crate::account::{AccountMeta, Context, Error, Pubkey};
use crate::rift_common::RiftError;
use crate::rift_token::error::TokenError;
use crate::rift_token::events::RiftRebaseEvent;
use crate::rift_token::instructions::{Initialize, IssueRift, Rebase};
use crate::rift_token::pricing;
use crate::rift_token::state::{Issuance, MintTo, RiftTokenState};
use crate::solana;
use crate::ultra_core_rift::effects;

verus! {

// Prices.

/// `m` is the rate under the field `g`: so many times the magnitude of the field,
/// but at least 10^6, as go into 10^15.
pub open spec fn is_rate(g: int, m: int) -> bool {
    let at = if -1_000_000 < g < 1_000_000 {
        1_000_000
    } else if g < 0 {
        -g
    } else {
        g
    };
    m * at <= 1_000_000_000_000_000 < (m + 1) * at
}

/// `f` is `bps` hundredths of a percent of `amount`, rounded down.
pub open spec fn is_portion(amount: int, bps: int, f: int) -> bool {
    f * 10_000 <= amount * bps < (f + 1) * 10_000
}

/// `s` is what `net` units buy at the rate `m`, rounded down.
pub open spec fn buys(net: int, m: int, s: int) -> bool {
    s * 1_000_000_000_000 <= net * m < (s + 1) * 1_000_000_000_000
}

/// A portion is the amount times its hundredths of a percent, rounded down, whatever
/// the amount and the rate; and it is the only such number.
pub proof fn law_portion_is_rounded_down(amount: int, bps: int, f: int)
    ensures
        is_portion(amount, bps, pricing::portion(amount, bps)),
        is_portion(amount, bps, f) ==> f == pricing::portion(amount, bps),
{
}

/// Under a field of at least the least pressure, the multiplier times the field's
/// magnitude is at most 10^15, and one more would be beyond it.
pub proof fn law_multiplier_is_the_quotient(g: int)
    ensures
        is_rate(g, pricing::multiplier(g)),
        g >= 1_000_000 ==> pricing::multiplier(g) * g <= 1_000_000_000_000_000 < (
        pricing::multiplier(g) + 1) * g,
        g <= -1_000_000 ==> pricing::multiplier(g) * -g <= 1_000_000_000_000_000 < (
        pricing::multiplier(g) + 1) * -g,
        -1_000_000 <= g <= 1_000_000 ==> pricing::multiplier(g) == 1_000_000_000,
{
    let at = if -1_000_000 < g < 1_000_000 {
        1_000_000
    } else if g < 0 {
        -g
    } else {
        g
    };
    let m = 1_000_000_000_000_000int / at;
    assert(m * at <= 1_000_000_000_000_000 < (m + 1) * at) by (nonlinear_arith)
        requires
            0 < at,
            m == 1_000_000_000_000_000int / at,
    ;
}

/// There is one rate under each field.
pub proof fn law_rate_is_unique(g: int, m: int)
    requires
        is_rate(g, m),
    ensures
        m == pricing::multiplier(g),
{
    law_multiplier_is_the_quotient(g);
    let at = if -1_000_000 < g < 1_000_000 {
        1_000_000
    } else if g < 0 {
        -g
    } else {
        g
    };
    let other = pricing::multiplier(g);
    assert(m == other) by (nonlinear_arith)
        requires
            0 < at,
            m * at <= 1_000_000_000_000_000 < (m + 1) * at,
            other * at <= 1_000_000_000_000_000 < (other + 1) * at,
    ;
}

/// Units buy what they are worth at the rate of the field, rounded down.
pub proof fn law_shares_are_bought_at_the_rate(net: int, g: int, m: int)
    requires
        is_rate(g, m),
    ensures
        buys(net, m, pricing::shares(net, g)),
{
    law_rate_is_unique(g, m);
}

/// The fee of an issue is its portion of the base amount, and what is left of the
/// base amount buys the shares at the rate of the field.
pub proof fn law_issue_is_priced(issue: IssueRift, base_amount: u64, m: int)
    requires
        is_rate(issue.core_state.data.global_field as int, m),
    ensures
        ({
            let f = issue.fee(base_amount as int);
            let s = issue.shares(base_amount as int);
            &&& f * 10_000 <= base_amount * issue.rift_token_state.data.fee_bps < (f + 1)
                * 10_000
            &&& buys(base_amount - f, m, s)
        }),
{
    let g = issue.core_state.data.global_field as int;
    law_portion_is_rounded_down(
        base_amount as int,
        issue.rift_token_state.data.fee_bps as int,
        0,
    );
    law_shares_are_bought_at_the_rate(base_amount - issue.fee(base_amount as int), g, m);
}

/// Of two amounts the greater pays no smaller fee, and of two rates the greater
/// takes no smaller one; the fees of two amounts are at most one unit short of the
/// fee of their sum.
pub proof fn law_fees_add_up(first: int, second: int, bps: int, higher: int)
    requires
        0 <= first,
        0 <= second,
        0 <= bps <= higher,
    ensures
        pricing::portion(first, bps) <= pricing::portion(first + second, bps),
        pricing::portion(first, bps) <= pricing::portion(first, higher),
        pricing::portion(first, bps) + pricing::portion(second, bps) <= pricing::portion(
            first + second,
            bps,
        ) <= pricing::portion(first, bps) + pricing::portion(second, bps) + 1,
{
    assert((first + second) * bps == first * bps + second * bps) by (nonlinear_arith);
    assert(0 <= second * bps) by (nonlinear_arith)
        requires
            0 <= second,
            0 <= bps,
    ;
    assert(first * bps <= first * higher) by (nonlinear_arith)
        requires
            0 <= first,
            bps <= higher,
    ;
}

// Issues.

/// An issue is accepted exactly where the state, the core state, the mint authority
/// and the vault are the right ones, the core's quantities are computable and
/// balanced, nothing is paused, the amount covers the fee, at least one share is
/// bought and the count of shares stays a `u64`; and it is refused for the first of
/// these that fails.
pub proof fn law_issue_acceptance(
    issue: IssueRift,
    base_amount: u64,
    state_derived: Option<(Seq<u8>, u8)>,
    authority_derived: Option<(Seq<u8>, u8)>,
)
    ensures
        ({
            let state = issue.rift_token_state.data;
            let core = effects::quantities(issue.core_state.data);
            let f = issue.fee(base_amount as int);
            let s = issue.shares(base_amount as int);
            let placed = effects::leads_to(state_derived, issue.rift_token_state.key);
            let bound = placed && issue.core_state.key == state.core_state;
            let signed_for = bound && effects::leads_to(authority_derived, issue.rift_authority);
            let paid_to = signed_for && issue.admin_vault == state.admin_vault;
            let sound = paid_to && effects::computable(core) && effects::balanced(core);
            let running = sound && !issue.core_state.data.paused;
            let covered = running && f <= base_amount;
            let counted = state.total_shares + s < 0x1_0000_0000_0000_0000;
            let refusal = issue.refusal(base_amount as int, state_derived, authority_derived);
            &&& refusal is None <==> covered && s != 0 && counted
            &&& refusal == Some(Error::ConstraintSeeds) <==> !placed || bound && !signed_for
            &&& refusal == Some(Error::Token(TokenError::InvalidCoreState)) <==> placed && !bound
            &&& refusal == Some(Error::Token(TokenError::InvalidAdminVault)) <==> signed_for
                && !paid_to
            &&& refusal == Some(Error::Rift(RiftError::InvariantViolation)) <==> paid_to
                && effects::computable(core) && !effects::balanced(core)
            &&& refusal == Some(Error::Rift(RiftError::ProtocolPaused)) <==> sound && !running
            &&& refusal == Some(Error::Token(TokenError::ZeroSharesMinted)) <==> covered && s == 0
            &&& refusal == Some(Error::Rift(RiftError::MathOverflow)) <==> paid_to
                && !effects::computable(core) || running && !covered || covered && s != 0
                && !counted
        }),
{
    effects::law_check_is_exact(issue.core_state.data);
    effects::lemma_leads_to(state_derived, issue.rift_token_state.key);
    effects::lemma_leads_to(authority_derived, issue.rift_authority);
}

/// An accepted issue adds the shares to their count. Nothing else changes.
pub proof fn law_issue_effect(
    issue: IssueRift,
    base_amount: u64,
    state_derived: Option<(Seq<u8>, u8)>,
    authority_derived: Option<(Seq<u8>, u8)>,
)
    requires
        issue.refusal(base_amount as int, state_derived, authority_derived) is None,
    ensures
        ({
            let after = issue.issued(base_amount as int);
            let old_state = issue.rift_token_state.data;
            let new_state = after.rift_token_state.data;
            &&& new_state.total_shares - old_state.total_shares == issue.shares(
                base_amount as int,
            )
            &&& new_state.authority == old_state.authority
            &&& new_state.core_state == old_state.core_state
            &&& new_state.admin_vault == old_state.admin_vault
            &&& new_state.decimals == old_state.decimals
            &&& new_state.fee_bps == old_state.fee_bps
            &&& new_state.rift_multiplier == old_state.rift_multiplier
            &&& new_state.bump == old_state.bump
            &&& after.rift_token_state.key == issue.rift_token_state.key
            &&& after.core_state == issue.core_state
            &&& after.rift_mint == issue.rift_mint
            &&& after.user_token_account == issue.user_token_account
            &&& after.rift_authority == issue.rift_authority
            &&& after.user == issue.user
            &&& after.admin_vault == issue.admin_vault
        }),
{
    crate::rift_token::laws::law_issue_mints(
        issue,
        base_amount,
        state_derived,
        authority_derived,
    );
}

/// A mint request names the mint, the recipient, the authority and the amount, and
/// the authority signs by its tag and its bump.
pub proof fn law_mint_request(
    request: MintTo,
    mint: Pubkey,
    to: Pubkey,
    authority: Pubkey,
    bump: u8,
    amount: int,
)
    requires
        request.asks(mint, to, authority, bump, amount),
    ensures
        request.mint == mint,
        request.to == to,
        request.authority == authority,
        request.amount == amount,
        request.signer_seeds@.len() == 2,
        request.signer_seeds@[0]@ == vstd::utf8::encode_utf8("rift_mint_authority"@),
        request.signer_seeds@[1]@ == seq![bump],
{
    let seeds = solana::seed_bytes(request.signer_seeds@);
    assert(seeds.len() == 2);
    assert(seeds[0] == request.signer_seeds@[0]@);
    assert(seeds[1] == request.signer_seeds@[1]@);
}

/// An accepted issue orders the fee from the user to the vault, the shares for the
/// user's token account, and an event that says both.
pub proof fn law_issue_orders(
    issue: IssueRift,
    base_amount: u64,
    bump: u8,
    issuance: Issuance,
    state_derived: Option<(Seq<u8>, u8)>,
    authority_derived: Option<(Seq<u8>, u8)>,
)
    requires
        issue.refusal(base_amount as int, state_derived, authority_derived) is None,
        issue.orders(base_amount, bump, issuance),
    ensures
        ({
            let f = issue.fee(base_amount as int);
            let s = issue.shares(base_amount as int);
            let pay = issuance.fee_transfer;
            &&& pay.program_id.bytes@ == Seq::new(32, |i: int| 0u8)
            &&& pay.accounts@ == seq![
                AccountMeta { pubkey: issue.user, is_signer: true, is_writable: true },
                AccountMeta { pubkey: issue.admin_vault, is_signer: false, is_writable: true },
            ]
            &&& pay.data@.len() == 12
            &&& solana::number(pay.data@.take(4)) == 2
            &&& solana::number(pay.data@.skip(4)) == f
            &&& issuance.mint.mint == issue.rift_mint
            &&& issuance.mint.to == issue.user_token_account
            &&& issuance.mint.authority == issue.rift_authority
            &&& issuance.mint.amount == s
            &&& issuance.mint.signer_seeds@.len() == 2
            &&& issuance.mint.signer_seeds@[0]@ == vstd::utf8::encode_utf8(
                "rift_mint_authority"@,
            )
            &&& issuance.mint.signer_seeds@[1]@ == seq![bump]
            &&& issuance.event.user == issue.user
            &&& issuance.event.base_amount == base_amount
            &&& issuance.event.fee_amount == f
            &&& issuance.event.shares_minted == s
            &&& issuance.event.global_field == issue.core_state.data.global_field
            &&& issuance.event.rift_multiplier == issue.rift_token_state.data.rift_multiplier
        }),
{
    let f = issue.fee(base_amount as int);
    let s = issue.shares(base_amount as int);
    let data = issuance.fee_transfer.data@;
    law_mint_request(
        issuance.mint,
        issue.rift_mint,
        issue.user_token_account,
        issue.rift_authority,
        bump,
        s,
    );
    crate::rift_token::laws::law_issue_mints(
        issue,
        base_amount,
        state_derived,
        authority_derived,
    );
    pricing::lemma_portion_bounded(
        base_amount as int,
        issue.rift_token_state.data.fee_bps as int,
    );
    solana::law_little_endian_is_read_back(2, 4);
    solana::law_little_endian_is_read_back(f as nat, 8);
    assert(data.take(4) =~= solana::little_endian(2, 4));
    assert(data.skip(4) =~= solana::little_endian(f as nat, 8));
}

// Set-up.

/// A set-up is accepted exactly where the state and the mint authority are the
/// derived ones, the signer is the key that the core state names and the fee is at
/// most 10 hundredths of a percent; and it is refused for the first of these that
/// fails.
pub proof fn law_setup_acceptance(
    setup: Initialize,
    fee_bps: u16,
    state_derived: Option<(Seq<u8>, u8)>,
    authority_derived: Option<(Seq<u8>, u8)>,
)
    ensures
        ({
            let placed = effects::leads_to(state_derived, setup.rift_token_state.key)
                && effects::leads_to(authority_derived, setup.rift_authority);
            let signed_for = placed && setup.gate == setup.core_state.data.gate;
            let refusal = setup.refusal(fee_bps as int, state_derived, authority_derived);
            &&& refusal is None <==> signed_for && fee_bps <= 10
            &&& refusal == Some(Error::ConstraintSeeds) <==> !placed
            &&& refusal == Some(Error::Rift(RiftError::UnauthorizedGate)) <==> placed
                && !signed_for
            &&& refusal == Some(Error::Token(TokenError::FeeTooHigh)) <==> signed_for && fee_bps
                > 10
        }),
{
    effects::lemma_leads_to(state_derived, setup.rift_token_state.key);
    effects::lemma_leads_to(authority_derived, setup.rift_authority);
}

/// A set-up stores its signer, the core state and the vault it was given and its
/// settings. The count of shares starts with the genesis share, and the cached
/// multiplier at 10^15. The other accounts stay.
pub proof fn law_setup_effect(
    setup: Initialize,
    decimals: u8,
    fee_bps: u16,
    initial_supply: u64,
    bump: u8,
)
    ensures
        ({
            let after = setup.founded(decimals, fee_bps, initial_supply, bump);
            let state = after.rift_token_state.data;
            &&& state.authority == setup.gate
            &&& state.core_state == setup.core_state.key
            &&& state.admin_vault == setup.admin_vault
            &&& state.decimals == decimals
            &&& state.fee_bps == fee_bps
            &&& is_portion(initial_supply as int, 314, state.total_shares as int)
            &&& state.rift_multiplier == 1_000_000_000_000_000
            &&& state.bump == bump
            &&& after.rift_token_state.key == setup.rift_token_state.key
            &&& after.core_state == setup.core_state
            &&& after.rift_mint == setup.rift_mint
            &&& after.admin_vault_token_account == setup.admin_vault_token_account
            &&& after.admin_vault == setup.admin_vault
            &&& after.rift_authority == setup.rift_authority
            &&& after.gate == setup.gate
        }),
{
    pricing::lemma_portion_bounded(initial_supply as int, 314);
}

/// A set-up orders the genesis share for the vault's token account, and nothing
/// exactly where the share is nothing.
pub proof fn law_setup_orders(
    setup: Initialize,
    initial_supply: u64,
    bump: u8,
    mint: Option<MintTo>,
)
    requires
        setup.genesis(initial_supply as int, bump, mint),
    ensures
        mint is Some <==> initial_supply * 314 >= 10_000,
        mint matches Some(request) ==> {
            &&& is_portion(initial_supply as int, 314, request.amount as int)
            &&& request.mint == setup.rift_mint
            &&& request.to == setup.admin_vault_token_account
            &&& request.authority == setup.rift_authority
            &&& request.signer_seeds@.len() == 2
            &&& request.signer_seeds@[0]@ == vstd::utf8::encode_utf8("rift_mint_authority"@)
            &&& request.signer_seeds@[1]@ == seq![bump]
        },
{
    if let Some(request) = mint {
        law_mint_request(
            request,
            setup.rift_mint,
            setup.admin_vault_token_account,
            setup.rift_authority,
            bump,
            pricing::portion(initial_supply as int, 314),
        );
    }
}

// Rebases.

/// A rebase is accepted exactly where the state is the derived one, the signer is
/// the authority and the core state the one that it names, and the core's quantities
/// are computable and balanced; and it is refused for the first of these that fails.
pub proof fn law_rebase_acceptance(rebase: Rebase, derived: Option<(Seq<u8>, u8)>)
    ensures
        ({
            let state = rebase.rift_token_state.data;
            let core = effects::quantities(rebase.core_state.data);
            let placed = effects::leads_to(derived, rebase.rift_token_state.key);
            let signed_for = placed && rebase.authority == state.authority;
            let bound = signed_for && rebase.core_state.key == state.core_state;
            let refusal = rebase.refusal(derived);
            &&& refusal is None <==> bound && effects::computable(core) && effects::balanced(core)
            &&& refusal == Some(Error::ConstraintSeeds) <==> !placed
            &&& refusal == Some(Error::Rift(RiftError::UnauthorizedGate)) <==> placed
                && !signed_for
            &&& refusal == Some(Error::Token(TokenError::InvalidCoreState)) <==> signed_for
                && !bound
            &&& refusal == Some(Error::Rift(RiftError::MathOverflow)) <==> bound
                && !effects::computable(core)
            &&& refusal == Some(Error::Rift(RiftError::InvariantViolation)) <==> bound
                && effects::computable(core) && !effects::balanced(core)
        }),
{
    effects::law_check_is_exact(rebase.core_state.data);
    effects::lemma_leads_to(derived, rebase.rift_token_state.key);
}

/// A rebase caches the rate of the field and reports the old and the new one.
/// Nothing else changes.
pub proof fn law_rebase_effect(rebase: Rebase)
    ensures
        ({
            let after = rebase.rebased();
            let old_state = rebase.rift_token_state.data;
            let new_state = after.rift_token_state.data;
            let event = rebase.report();
            &&& is_rate(
                rebase.core_state.data.global_field as int,
                new_state.rift_multiplier as int,
            )
            &&& new_state == (RiftTokenState {
                rift_multiplier: new_state.rift_multiplier,
                ..old_state
            })
            &&& after.rift_token_state.key == rebase.rift_token_state.key
            &&& after.core_state == rebase.core_state
            &&& after.authority == rebase.authority
            &&& event.old_multiplier == old_state.rift_multiplier
            &&& event.new_multiplier == new_state.rift_multiplier
            &&& event.global_field == rebase.core_state.data.global_field
        }),
{
    let g = rebase.core_state.data.global_field as int;
    law_multiplier_is_the_quotient(g);
    pricing::law_multiplier_bounded(g);
}

// Instructions as a whole.

/// Each instruction is held to the addresses derived for its program: the state's
/// from its tag, the mint authority's from its own.
pub proof fn law_token_addresses(
    setup: Context<Initialize>,
    fee_bps: u16,
    issue: Context<IssueRift>,
    base_amount: u64,
    rebase: Context<Rebase>,
)
    ensures
        setup.refusal(fee_bps as int) == setup.accounts.refusal(
            fee_bps as int,
            state_address(setup.program_id),
            authority_address(setup.program_id),
        ),
        issue.refusal(base_amount as int) == issue.accounts.refusal(
            base_amount as int,
            state_address(issue.program_id),
            authority_address(issue.program_id),
        ),
        rebase.refusal() == rebase.accounts.refusal(state_address(rebase.program_id)),
{
}

/// The address of the state, by its tag.
pub open spec fn state_address(program_id: Pubkey) -> Option<(Seq<u8>, u8)> {
    solana::program_address(
        seq![vstd::utf8::encode_utf8("rift_token_state"@)],
        program_id.bytes@,
    )
}

/// The address of the mint authority, by its tag.
pub open spec fn authority_address(program_id: Pubkey) -> Option<(Seq<u8>, u8)> {
    solana::program_address(
        seq![vstd::utf8::encode_utf8("rift_mint_authority"@)],
        program_id.bytes@,
    )
}

/// An accepted set-up stores the bump of the state's address, and the mint authority
/// signs the genesis share by the bump of its own.
pub proof fn law_initialize(
    before: Context<Initialize>,
    after: Context<Initialize>,
    decimals: u8,
    fee_bps: u16,
    initial_supply: u64,
    mint: Option<MintTo>,
)
    requires
        after.settled(before, decimals, fee_bps, initial_supply, mint),
    ensures
        after.program_id == before.program_id,
        state_address(before.program_id) matches Some((_, bump)) && after.accounts
            == before.accounts.founded(decimals, fee_bps, initial_supply, bump)
            && after.accounts.rift_token_state.data.bump == bump,
        authority_address(before.program_id) matches Some((_, bump)) && before.accounts.genesis(
            initial_supply as int,
            bump,
            mint,
        ),
{
}

/// An accepted issue changes the accounts and orders the payments as said, and the
/// mint authority signs by the bump of its address.
pub proof fn law_issue_rift(
    before: Context<IssueRift>,
    after: Context<IssueRift>,
    base_amount: u64,
    issuance: Issuance,
)
    requires
        after.settled(before, base_amount, issuance),
    ensures
        after.program_id == before.program_id,
        after.accounts == before.accounts.issued(base_amount as int),
        authority_address(before.program_id) matches Some((_, bump)) && before.accounts.orders(
            base_amount,
            bump,
            issuance,
        ),
{
}

/// An accepted rebase caches the rate and reports it.
pub proof fn law_rebase(before: Context<Rebase>, after: Context<Rebase>, event: RiftRebaseEvent)
    requires
        after.settled(before, event),
    ensures
        after.program_id == before.program_id,
        after.accounts == before.accounts.rebased(),
        event == before.accounts.report(),
        is_rate(
            before.accounts.core_state.data.global_field as int,
            after.accounts.rift_token_state.data.rift_multiplier as int,
        ),
        event.new_multiplier == after.accounts.rift_token_state.data.rift_multiplier,
        event.old_multiplier == before.accounts.rift_token_state.data.rift_multiplier,
{
    law_rebase_effect(before.accounts);
}

} // verus!
