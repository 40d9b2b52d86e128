use rift::account::{Account, Context, Error, Pubkey};
use rift::address::{mint_authority_address, token_state_address};
use rift::rift_common::RiftError;
use rift::rift_token::error::TokenError;
use rift::rift_token::events::{IssueRiftEvent, RiftRebaseEvent};
use rift::rift_token::instructions::{Initialize, IssueRift, Rebase};
use rift::rift_token::pricing::{
    fee_amount, founder_share, mint_multiplier, shares_to_mint, FOUNDER_SHARE_BPS, MAX_FEE_BPS,
    MIN_FIELD_PRESSURE,
};
use rift::rift_token::state::{MintTo, RiftTokenState};
use rift::rift_token::{initialize, issue_rift, rebase};
use rift::ultra_core_rift::state::CoreState;

fn key(n: u8) -> Pubkey {
    Pubkey { bytes: [n; 32] }
}

const PROGRAM: u8 = 8;
const GATE: u8 = 1;
const CORE: u8 = 2;
const VAULT: u8 = 3;
const VAULT_TOKENS: u8 = 4;
const MINT: u8 = 5;
const USER: u8 = 6;
const USER_TOKENS: u8 = 7;

fn mint_authority() -> (Pubkey, u8) {
    mint_authority_address(&key(PROGRAM)).unwrap()
}

fn seeds() -> Vec<Vec<u8>> {
    vec![b"rift_mint_authority".to_vec(), vec![mint_authority().1]]
}

fn core_with(global_field: i128, paused: bool) -> CoreState {
    CoreState {
        gate: key(GATE),
        paused,
        global_field,
        total_base_sum: 100 - global_field,
        total_supply: 100,
        total_minted: 100,
        total_burned: 0,
        p: 1,
        dust_accumulator: 0,
    }
}

fn token_state() -> RiftTokenState {
    RiftTokenState {
        authority: key(GATE),
        core_state: key(CORE),
        admin_vault: key(VAULT),
        decimals: 9,
        fee_bps: 10,
        total_shares: 40,
        rift_multiplier: 123,
        bump: 250,
    }
}

fn state_account(data: RiftTokenState) -> Account<RiftTokenState> {
    Account { key: token_state_address(&key(PROGRAM)).unwrap().0, data }
}

fn setup() -> Context<Initialize> {
    Context {
        program_id: key(PROGRAM),
        accounts: Initialize {
            rift_token_state: state_account(token_state()),
            core_state: Account { key: key(CORE), data: core_with(0, false) },
            rift_mint: key(MINT),
            admin_vault_token_account: key(VAULT_TOKENS),
            admin_vault: key(VAULT),
            rift_authority: mint_authority().0,
            gate: key(GATE),
        },
    }
}

fn issue(state: RiftTokenState, core_state: CoreState) -> Context<IssueRift> {
    Context {
        program_id: key(PROGRAM),
        accounts: IssueRift {
            rift_token_state: state_account(state),
            core_state: Account { key: key(CORE), data: core_state },
            rift_mint: key(MINT),
            user_token_account: key(USER_TOKENS),
            rift_authority: mint_authority().0,
            user: key(USER),
            admin_vault: key(VAULT),
        },
    }
}

fn rebasing(core_state: CoreState) -> Context<Rebase> {
    Context {
        program_id: key(PROGRAM),
        accounts: Rebase {
            rift_token_state: state_account(token_state()),
            core_state: Account { key: key(CORE), data: core_state },
            authority: key(GATE),
        },
    }
}

// Prices.

#[test]
fn token_constants_have_their_values() {
    assert_eq!(FOUNDER_SHARE_BPS, 314);
    assert_eq!(MAX_FEE_BPS, 10);
    assert_eq!(MIN_FIELD_PRESSURE, 1_000_000);
    assert_eq!(RiftTokenState::SPACE, 132);
}

#[test]
fn multiplier_is_capped_and_falls_with_pressure() {
    assert_eq!(mint_multiplier(0), 1_000_000_000);
    assert_eq!(mint_multiplier(-999_999), 1_000_000_000);
    assert_eq!(mint_multiplier(1_000_000), 1_000_000_000);
    assert_eq!(mint_multiplier(1_000_001), 999_999_000);
    assert_eq!(mint_multiplier(-2_000_000), 500_000_000);
    assert_eq!(mint_multiplier(1_000_000_000_000_000), 1);
    assert_eq!(mint_multiplier(1_000_000_000_000_001), 0);
    assert_eq!(mint_multiplier(i128::MIN), 0);
}

#[test]
fn shares_follow_the_formula() {
    assert_eq!(shares_to_mint(999, 0), 0);
    assert_eq!(shares_to_mint(1_000, 0), 1);
    assert_eq!(shares_to_mint(123_456_789, 3_000_000), 41_152);
    assert_eq!(shares_to_mint(u64::MAX, 0), 18_446_744_073_709_551);
}

#[test]
fn fee_is_a_portion() {
    assert_eq!(fee_amount(1_000_000, 10), Ok(1_000));
    assert_eq!(fee_amount(999, 10), Ok(0));
    assert_eq!(fee_amount(u64::MAX, 10), Ok(18_446_744_073_709_551));
    assert_eq!(fee_amount(5, 10_000), Ok(5));
    assert_eq!(fee_amount(10_000, 10_001), Err(RiftError::MathOverflow));
    assert_eq!(fee_amount(u64::MAX, u16::MAX), Err(RiftError::MathOverflow));
}

#[test]
fn founder_share_is_rounded_down() {
    assert_eq!(founder_share(1_000_000), 31_400);
    assert_eq!(founder_share(31), 0);
    assert_eq!(founder_share(32), 1);
    assert_eq!(founder_share(u64::MAX), 579_227_763_914_479_920);
}

#[test]
fn token_errors_have_codes_names_and_messages() {
    assert_eq!(TokenError::FeeTooHigh.code(), 6000);
    assert_eq!(TokenError::InvalidAdminVault.code(), 6001);
    assert_eq!(TokenError::InvalidCoreState.code(), 6002);
    assert_eq!(TokenError::ZeroSharesMinted.code(), 6003);
    assert_eq!(TokenError::FeeTooHigh.name(), "FeeTooHigh");
    assert_eq!(TokenError::InvalidCoreState.message(), "Invalid core state address.");
}

// Set-up.

#[test]
fn initialize_orders_the_genesis_share() {
    let mut ctx = setup();
    assert_eq!(
        initialize(&mut ctx, 6, 7, 1_000_000),
        Ok(Some(MintTo {
            mint: key(MINT),
            to: key(VAULT_TOKENS),
            authority: mint_authority().0,
            signer_seeds: seeds(),
            amount: 31_400,
        }))
    );
    assert_eq!(
        ctx.accounts.rift_token_state.data,
        RiftTokenState {
            authority: key(GATE),
            core_state: key(CORE),
            admin_vault: key(VAULT),
            decimals: 6,
            fee_bps: 7,
            total_shares: 31_400,
            rift_multiplier: 1_000_000_000_000_000,
            bump: token_state_address(&key(PROGRAM)).unwrap().1,
        }
    );
}

#[test]
fn initialize_without_share_mints_nothing() {
    let mut ctx = setup();
    assert_eq!(initialize(&mut ctx, 6, 0, 31), Ok(None));
    assert_eq!(ctx.accounts.rift_token_state.data.total_shares, 0);
}

#[test]
fn initialize_refuses() {
    let mut ctx = setup();
    assert_eq!(
        initialize(&mut ctx, 6, 11, 1),
        Err(Error::Token(TokenError::FeeTooHigh))
    );
    assert_eq!(ctx, setup());
    ctx.accounts.rift_authority = key(77);
    assert_eq!(initialize(&mut ctx, 6, 10, 1), Err(Error::ConstraintSeeds));
    let mut ctx = setup();
    ctx.accounts.rift_token_state.key = key(77);
    assert_eq!(initialize(&mut ctx, 6, 10, 1), Err(Error::ConstraintSeeds));
}

#[test]
fn only_the_gate_of_the_core_sets_up() {
    let mut ctx = setup();
    ctx.accounts.gate = key(USER);
    let refused = Err(Error::Rift(RiftError::UnauthorizedGate));
    assert_eq!(initialize(&mut ctx, 6, 10, 1_000_000), refused);
    assert_eq!(initialize(&mut ctx, 6, 11, 1_000_000), refused);
    assert_eq!(ctx.accounts.rift_token_state, setup().accounts.rift_token_state);
    ctx.accounts.core_state.data.gate = key(USER);
    assert!(initialize(&mut ctx, 6, 10, 1_000_000).is_ok());
    assert_eq!(ctx.accounts.rift_token_state.data.authority, key(USER));
}

#[test]
fn token_addresses_are_the_runtime_derivations() {
    let program = anchor_lang::prelude::Pubkey::new_from_array([PROGRAM; 32]);
    let (authority, bump) =
        anchor_lang::prelude::Pubkey::find_program_address(&[b"rift_mint_authority"], &program);
    assert_eq!(mint_authority(), (Pubkey { bytes: authority.to_bytes() }, bump));
    let (state, bump) =
        anchor_lang::prelude::Pubkey::find_program_address(&[b"rift_token_state"], &program);
    assert_eq!(
        token_state_address(&key(PROGRAM)),
        Some((Pubkey { bytes: state.to_bytes() }, bump))
    );
}

// Issues.

#[test]
fn issue_mints_shares_and_takes_the_fee() {
    let core_state = core_with(2_000_000, false);
    let mut ctx = issue(token_state(), core_state);
    let issuance = issue_rift(&mut ctx, 1_000_000).unwrap();
    assert_eq!(
        issuance.mint,
        MintTo {
            mint: key(MINT),
            to: key(USER_TOKENS),
            authority: mint_authority().0,
            signer_seeds: seeds(),
            amount: 499,
        }
    );
    assert_eq!(
        issuance.event,
        IssueRiftEvent {
            user: key(USER),
            base_amount: 1_000_000,
            fee_amount: 1_000,
            shares_minted: 499,
            global_field: 2_000_000,
            rift_multiplier: 123,
        }
    );
    assert_eq!(
        ctx.accounts.rift_token_state.data,
        RiftTokenState { total_shares: 539, ..token_state() }
    );
    assert_eq!(ctx.accounts.core_state.data, core_state);
}

#[test]
fn fee_transfer_is_the_runtime_instruction() {
    let mut ctx = issue(token_state(), core_with(0, false));
    let built = issue_rift(&mut ctx, 70_000_000).unwrap().fee_transfer;
    let expected = anchor_lang::solana_program::system_instruction::transfer(
        &anchor_lang::prelude::Pubkey::new_from_array([USER; 32]),
        &anchor_lang::prelude::Pubkey::new_from_array([VAULT; 32]),
        70_000,
    );
    assert_eq!(built.program_id.bytes, expected.program_id.to_bytes());
    assert_eq!(built.program_id.bytes, [0u8; 32]);
    assert_eq!(built.data, expected.data);
    assert_eq!(built.data, vec![2, 0, 0, 0, 0x70, 0x11, 1, 0, 0, 0, 0, 0]);
    assert_eq!(built.accounts.len(), 2);
    assert_eq!(built.accounts[0].pubkey, key(USER));
    assert!(built.accounts[0].is_signer && built.accounts[0].is_writable);
    assert_eq!(built.accounts[1].pubkey, key(VAULT));
    assert!(!built.accounts[1].is_signer && built.accounts[1].is_writable);
}

#[test]
fn issue_refuses_foreign_accounts() {
    let mut ctx = issue(token_state(), core_with(0, true));
    ctx.accounts.admin_vault = key(70);
    assert_eq!(
        issue_rift(&mut ctx, 1_000_000).unwrap_err(),
        Error::Token(TokenError::InvalidAdminVault)
    );
    ctx.accounts.rift_authority = key(71);
    assert_eq!(issue_rift(&mut ctx, 1_000_000).unwrap_err(), Error::ConstraintSeeds);
    ctx.accounts.core_state.key = key(72);
    assert_eq!(
        issue_rift(&mut ctx, 1_000_000).unwrap_err(),
        Error::Token(TokenError::InvalidCoreState)
    );
    ctx.accounts.rift_token_state.key = key(73);
    assert_eq!(issue_rift(&mut ctx, 1_000_000).unwrap_err(), Error::ConstraintSeeds);
    let mut ctx = issue(token_state(), core_with(0, false));
    ctx.accounts.rift_token_state.key = key(73);
    assert_eq!(issue_rift(&mut ctx, 1_000_000).unwrap_err(), Error::ConstraintSeeds);
}

#[test]
fn issue_refuses_while_paused_or_broken() {
    let mut ctx = issue(token_state(), core_with(0, true));
    assert_eq!(
        issue_rift(&mut ctx, 1_000_000).unwrap_err(),
        Error::Rift(RiftError::ProtocolPaused)
    );
    let mut ctx = issue(token_state(), CoreState { total_supply: 7, ..core_with(0, true) });
    assert_eq!(
        issue_rift(&mut ctx, 1_000_000).unwrap_err(),
        Error::Rift(RiftError::InvariantViolation)
    );
    let mut ctx = issue(token_state(), CoreState { total_supply: u128::MAX, ..core_with(0, false) });
    assert_eq!(
        issue_rift(&mut ctx, 1_000_000).unwrap_err(),
        Error::Rift(RiftError::MathOverflow)
    );
}

#[test]
fn issue_refuses_to_mint_nothing() {
    let mut ctx = issue(token_state(), core_with(0, false));
    assert_eq!(
        issue_rift(&mut ctx, 999).unwrap_err(),
        Error::Token(TokenError::ZeroSharesMinted)
    );
    assert_eq!(
        issue_rift(&mut ctx, 0).unwrap_err(),
        Error::Token(TokenError::ZeroSharesMinted)
    );
    assert_eq!(ctx.accounts.rift_token_state.data, token_state());
}

#[test]
fn issue_refuses_overflows() {
    let greedy = RiftTokenState { fee_bps: 10_001, ..token_state() };
    let mut ctx = issue(greedy, core_with(0, false));
    assert_eq!(
        issue_rift(&mut ctx, 1_000_000).unwrap_err(),
        Error::Rift(RiftError::MathOverflow)
    );
    let full = RiftTokenState { total_shares: u64::MAX - 998, ..token_state() };
    let mut ctx = issue(full, core_with(0, false));
    assert_eq!(
        issue_rift(&mut ctx, 1_000_000).unwrap_err(),
        Error::Rift(RiftError::MathOverflow)
    );
    assert_eq!(ctx.accounts.rift_token_state.data, full);
    assert!(issue_rift(&mut ctx, 999_000).is_ok());
    assert_eq!(ctx.accounts.rift_token_state.data.total_shares, u64::MAX);
}

#[test]
fn cached_multiplier_does_not_price_issues() {
    let mut ctx = issue(
        RiftTokenState { rift_multiplier: 0, ..token_state() },
        core_with(2_000_000, false),
    );
    assert_eq!(issue_rift(&mut ctx, 1_000_000).unwrap().mint.amount, 499);
}

#[test]
fn pressure_lowers_shares() {
    let mut weak = issue(token_state(), core_with(-1_500_000, false));
    let mut strong = issue(token_state(), core_with(4_000_000, false));
    assert_eq!(issue_rift(&mut weak, 1_000_000).unwrap().mint.amount, 665);
    assert_eq!(issue_rift(&mut strong, 1_000_000).unwrap().mint.amount, 249);
}

// Rebase.

#[test]
fn rebase_caches_the_rate() {
    let mut ctx = rebasing(core_with(-4_000_000, true));
    assert_eq!(
        rebase(&mut ctx),
        Ok(RiftRebaseEvent {
            old_multiplier: 123,
            new_multiplier: 250_000_000,
            global_field: -4_000_000,
        })
    );
    assert_eq!(
        ctx.accounts.rift_token_state.data,
        RiftTokenState { rift_multiplier: 250_000_000, ..token_state() }
    );
    assert_eq!(ctx.accounts.core_state.data, core_with(-4_000_000, true));
}

#[test]
fn rebase_refuses() {
    let mut ctx = rebasing(CoreState { total_supply: 7, ..core_with(0, false) });
    assert_eq!(rebase(&mut ctx), Err(Error::Rift(RiftError::InvariantViolation)));
    ctx.accounts.core_state.key = key(72);
    assert_eq!(rebase(&mut ctx), Err(Error::Token(TokenError::InvalidCoreState)));
    ctx.accounts.authority = key(USER);
    assert_eq!(rebase(&mut ctx), Err(Error::Rift(RiftError::UnauthorizedGate)));
    ctx.accounts.rift_token_state.key = key(73);
    assert_eq!(rebase(&mut ctx), Err(Error::ConstraintSeeds));
    assert_eq!(ctx.accounts.rift_token_state.data, token_state());
}

#[test]
fn rebased_multiplier_is_the_rate() {
    let mut rebased = rebasing(core_with(4_000_000, false));
    assert!(rebase(&mut rebased).is_ok());
    let state = rebased.accounts.rift_token_state.data;
    let mut ctx = issue(state, core_with(4_000_000, false));
    let minted = issue_rift(&mut ctx, 1_000_000).unwrap().mint.amount;
    assert_eq!(minted as u128, 999_000 * state.rift_multiplier / 1_000_000_000_000);
}

#[test]
fn second_rebase_changes_nothing() {
    let mut ctx = rebasing(core_with(4_000_000, false));
    assert!(rebase(&mut ctx).is_ok());
    let once = ctx.accounts.rift_token_state.data;
    let event = rebase(&mut ctx).unwrap();
    assert_eq!(event.old_multiplier, 250_000_000);
    assert_eq!(event.new_multiplier, 250_000_000);
    assert_eq!(ctx.accounts.rift_token_state.data, once);
}

#[test]
fn issues_and_rebases_keep_the_binding() {
    let core = core_with(4_000_000, false);
    let mut issued = issue(token_state(), core);
    assert!(issue_rift(&mut issued, 1_000_000).is_ok());
    let mut rebased = rebasing(core);
    assert!(rebase(&mut rebased).is_ok());
    for state in [issued.accounts.rift_token_state.data, rebased.accounts.rift_token_state.data] {
        assert_eq!(state.authority, key(GATE));
        assert_eq!(state.core_state, key(CORE));
        assert_eq!(state.admin_vault, key(VAULT));
        assert_eq!(state.fee_bps, 10);
    }
    assert_eq!(issued.accounts.core_state.data, core);
    assert_eq!(rebased.accounts.core_state.data, core);
}

#[test]
fn setup_binds_later_issues() {
    let mut founded = setup();
    assert!(initialize(&mut founded, 9, 10, 1_000).is_ok());
    let state = founded.accounts.rift_token_state.data;
    let mut ctx = issue(state, core_with(0, false));
    assert!(issue_rift(&mut ctx, 1_000_000).is_ok());
    assert_eq!(ctx.accounts.rift_token_state.data.total_shares, 31 + 999);
    ctx.accounts.core_state.key = key(99);
    assert_eq!(
        issue_rift(&mut ctx, 1_000_000).unwrap_err(),
        Error::Token(TokenError::InvalidCoreState)
    );
}
