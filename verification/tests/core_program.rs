use rift::account::{Account, Context, Error, Pubkey};
use rift::address::{edge_address, user_address};
use rift::rift_common::{
    magnitude, RiftError, MAX_EDGE_COST, MAX_PARTICIPANTS, MAX_SUPPLY, MIN_ABS_DEBT, NEG_E,
    NEG_E_MAX_P,
};
use rift::ultra_core_rift::events::{
    BurnEvent, CoreEvent, FieldUpdateEvent, MintEvent, PausedEvent, RedistributeEvent,
    RegisteredEvent, TransferEvent, UnregisteredEvent,
};
use rift::ultra_core_rift::field::{ApplyNegEntropy, Redistribute};
use rift::ultra_core_rift::gate::{Initialize, SetEdge, SetPaused};
use rift::ultra_core_rift::membership::{Register, Unregister};
use rift::ultra_core_rift::state::{CoreState, EdgeAccount, UserAccount};
use rift::ultra_core_rift::transfer::{Transfer, TransferCtx, TransferWithEdge};
use rift::ultra_core_rift::{
    apply_neg_entropy, initialize, redistribute, register, set_edge, set_paused, transfer,
    transfer_with_edge, unregister,
};

fn key(n: u8) -> Pubkey {
    Pubkey { bytes: [n; 32] }
}

const GATE: u8 = 1;
const PROGRAM: u8 = 9;
const ALICE: u8 = 20;
const BOB: u8 = 21;

fn empty_state() -> CoreState {
    CoreState {
        gate: key(GATE),
        paused: false,
        global_field: 0,
        total_base_sum: 0,
        total_supply: 0,
        total_minted: 0,
        total_burned: 0,
        p: 0,
        dust_accumulator: 0,
    }
}

/// Two participants, 1000 units in circulation, 100 of them through the field.
fn running_state() -> CoreState {
    CoreState {
        global_field: 50,
        total_base_sum: 900,
        total_supply: 1000,
        total_minted: 1200,
        total_burned: 200,
        p: 2,
        dust_accumulator: 1,
        ..empty_state()
    }
}

fn user_at(at: Pubkey, authority: u8, base_balance: i128) -> Account<UserAccount> {
    Account { key: at, data: UserAccount { authority: key(authority), base_balance } }
}

fn user_account(authority: u8, base_balance: i128) -> Account<UserAccount> {
    let at = user_address(&key(PROGRAM), &key(authority)).unwrap().0;
    user_at(at, authority, base_balance)
}

fn transfer_ctx(state: CoreState, from: i128, to: i128) -> TransferCtx {
    TransferCtx {
        core_state: state,
        from_user: user_account(ALICE, from),
        to_user: user_account(BOB, to),
        from_authority: key(ALICE),
        to_authority: key(BOB),
    }
}

fn context<T>(accounts: T) -> Context<T> {
    Context { program_id: key(PROGRAM), accounts }
}

fn redistribution(state: CoreState) -> Context<Redistribute> {
    context(Redistribute { core_state: state, gate: key(GATE) })
}

fn entropy(state: CoreState) -> Context<ApplyNegEntropy> {
    context(ApplyNegEntropy { core_state: state, gate: key(GATE) })
}

// Constants and errors.

#[test]
fn constants_have_their_values() {
    assert_eq!(MAX_SUPPLY, i128::MAX as u128);
    assert_eq!(NEG_E_MAX_P, i128::MAX / (-NEG_E));
    assert_eq!(NEG_E, -2_718_281_828_459_045_235);
    assert_eq!(MAX_PARTICIPANTS, 1_000_000_000_000);
    assert_eq!(MAX_EDGE_COST, 1_000_000_000_000_000_000_000);
    assert_eq!(MIN_ABS_DEBT, -1_000_000_000_000_000_000);
    assert_eq!(CoreState::SPACE, 145);
    assert_eq!(UserAccount::SPACE, 56);
    assert_eq!(EdgeAccount::SPACE, 24);
}

#[test]
fn magnitude_covers_the_whole_range() {
    assert_eq!(magnitude(i128::MIN), 1u128 << 127);
    assert_eq!(magnitude(i128::MAX), i128::MAX as u128);
    assert_eq!(magnitude(-7), 7);
    assert_eq!(magnitude(0), 0);
}

#[test]
fn rift_errors_have_codes_names_and_messages() {
    assert_eq!(RiftError::InvariantViolation.code(), 6000);
    assert_eq!(RiftError::UnauthorizedGate.code(), 6001);
    assert_eq!(RiftError::ProtocolPaused.code(), 6002);
    assert_eq!(RiftError::MaxParticipantsReached.code(), 6003);
    assert_eq!(RiftError::DebtLimitExceeded.code(), 6004);
    assert_eq!(RiftError::SupplyUnderflow.code(), 6005);
    assert_eq!(RiftError::EdgeLimitExceeded.code(), 6006);
    assert_eq!(RiftError::ZeroParticipants.code(), 6007);
    assert_eq!(RiftError::PhysicalOverflowLimit.code(), 6008);
    assert_eq!(RiftError::DebtOnExitNotAllowed.code(), 6009);
    assert_eq!(RiftError::MathOverflow.code(), 6010);
    assert_eq!(RiftError::UnauthorizedAuthority.code(), 6011);
    assert_eq!(RiftError::MathOverflow.name(), "MathOverflow");
    assert_eq!(
        RiftError::ProtocolPaused.message(),
        "Operation denied: The protocol is currently paused."
    );
}

// Addresses.

#[test]
fn user_address_is_the_runtime_derivation() {
    let program = anchor_lang::prelude::Pubkey::new_from_array([PROGRAM; 32]);
    let (expected, bump) = anchor_lang::prelude::Pubkey::find_program_address(
        &[b"user", &[ALICE; 32]],
        &program,
    );
    let (found, found_bump) = user_address(&key(PROGRAM), &key(ALICE)).unwrap();
    assert_eq!(found.bytes, expected.to_bytes());
    assert_eq!(found_bump, bump);
}

#[test]
fn edge_address_is_directed() {
    let program = anchor_lang::prelude::Pubkey::new_from_array([PROGRAM; 32]);
    let (expected, bump) = anchor_lang::prelude::Pubkey::find_program_address(
        &[b"edge", &[ALICE; 32], &[BOB; 32]],
        &program,
    );
    let (there, there_bump) = edge_address(&key(PROGRAM), &key(ALICE), &key(BOB)).unwrap();
    let (back, _) = edge_address(&key(PROGRAM), &key(BOB), &key(ALICE)).unwrap();
    assert_eq!(there.bytes, expected.to_bytes());
    assert_eq!(there_bump, bump);
    assert_ne!(there, back);
}

// The invariant and the debt floor.

#[test]
fn check_accepts_a_sound_state() {
    assert_eq!(empty_state().check_invariant(), Ok(()));
    assert_eq!(running_state().check_invariant(), Ok(()));
}

#[test]
fn check_refuses_each_breach() {
    let breach = Err(RiftError::InvariantViolation);
    assert_eq!(CoreState { total_base_sum: 901, ..running_state() }.check_invariant(), breach);
    assert_eq!(CoreState { total_minted: 1201, ..running_state() }.check_invariant(), breach);
    assert_eq!(
        CoreState { total_minted: 0, total_burned: 1, ..empty_state() }.check_invariant(),
        breach
    );
    assert_eq!(CoreState { dust_accumulator: 2, ..running_state() }.check_invariant(), breach);
    assert_eq!(CoreState { dust_accumulator: 2, ..empty_state() }.check_invariant(), Ok(()));
}

#[test]
fn check_refuses_what_it_cannot_compute() {
    let overflow = Err(RiftError::MathOverflow);
    assert_eq!(
        CoreState { total_supply: MAX_SUPPLY + 1, ..running_state() }.check_invariant(),
        overflow
    );
    assert_eq!(CoreState { global_field: i128::MAX, ..running_state() }.check_invariant(), overflow);
    assert_eq!(
        CoreState { total_base_sum: i128::MAX, ..running_state() }.check_invariant(),
        overflow
    );
}

#[test]
fn debt_limit_is_a_tenth_of_the_mean() {
    assert_eq!(running_state().debt_limit(), Ok(-50));
    assert_eq!(CoreState { total_supply: 1019, ..running_state() }.debt_limit(), Ok(-50));
    assert_eq!(CoreState { total_supply: 1020, ..running_state() }.debt_limit(), Ok(-51));
    assert_eq!(empty_state().debt_limit(), Ok(MIN_ABS_DEBT));
}

#[test]
fn debt_limit_covers_the_whole_range_of_the_supply() {
    let state = CoreState { total_supply: MAX_SUPPLY + 1, p: 1, ..empty_state() };
    assert_eq!(state.debt_limit(), Ok(-17_014_118_346_046_923_173_168_730_371_588_410_572));
    let state = CoreState { total_supply: u128::MAX, p: 1, ..empty_state() };
    assert_eq!(state.debt_limit(), Ok(-34_028_236_692_093_846_346_337_460_743_176_821_145));
    let state = CoreState { total_supply: u128::MAX, p: u64::MAX, ..empty_state() };
    assert_eq!(state.debt_limit(), Ok(-1_844_674_407_370_955_161));
}

// Set-up and settings.

#[test]
fn initialize_starts_empty() {
    let mut ctx = context(Initialize { core_state: running_state() });
    assert_eq!(initialize(&mut ctx, key(GATE)), Ok(()));
    assert_eq!(ctx.accounts.core_state, empty_state());
}

#[test]
fn set_paused_is_for_the_gate() {
    let mut ctx = context(SetPaused { core_state: running_state(), gate: key(GATE) });
    assert_eq!(
        set_paused(&mut ctx, true),
        Ok(vec![CoreEvent::Paused(PausedEvent { paused: true })])
    );
    assert_eq!(ctx.accounts.core_state, CoreState { paused: true, ..running_state() });
    let mut ctx = context(SetPaused { core_state: running_state(), gate: key(ALICE) });
    assert_eq!(set_paused(&mut ctx, true), Err(RiftError::UnauthorizedGate));
    assert_eq!(ctx.accounts.core_state, running_state());
}

fn edge_setting(gate: u8) -> Context<SetEdge> {
    let at = edge_address(&key(PROGRAM), &key(ALICE), &key(BOB)).unwrap().0;
    context(SetEdge {
        core_state: running_state(),
        edge_account: Account { key: at, data: EdgeAccount { weight: 0 } },
        gate: key(gate),
    })
}

#[test]
fn set_edge_keeps_to_the_limit() {
    let mut ctx = edge_setting(GATE);
    assert_eq!(set_edge(&mut ctx, key(ALICE), key(BOB), MAX_EDGE_COST), Ok(()));
    assert_eq!(ctx.accounts.edge_account.data.weight, MAX_EDGE_COST);
    assert_eq!(set_edge(&mut ctx, key(ALICE), key(BOB), -MAX_EDGE_COST), Ok(()));
    assert_eq!(ctx.accounts.edge_account.data.weight, -MAX_EDGE_COST);
    for weight in [MAX_EDGE_COST + 1, -MAX_EDGE_COST - 1, i128::MIN, i128::MAX] {
        assert_eq!(
            set_edge(&mut ctx, key(ALICE), key(BOB), weight),
            Err(Error::Rift(RiftError::EdgeLimitExceeded))
        );
    }
    assert_eq!(ctx.accounts.edge_account.data.weight, -MAX_EDGE_COST);
}

#[test]
fn set_edge_checks_address_before_gate() {
    let mut ctx = edge_setting(ALICE);
    assert_eq!(
        set_edge(&mut ctx, key(ALICE), key(BOB), 1),
        Err(Error::Rift(RiftError::UnauthorizedGate))
    );
    assert_eq!(set_edge(&mut ctx, key(BOB), key(ALICE), 1), Err(Error::ConstraintSeeds));
}

// Registration and exit.

fn registration(state: CoreState) -> Context<Register> {
    context(Register {
        core_state: state,
        user_account: user_account(ALICE, 77),
        gate: key(GATE),
    })
}

#[test]
fn register_adds_a_participant() {
    let mut ctx = registration(running_state());
    assert_eq!(
        register(&mut ctx, key(ALICE)),
        Ok(vec![CoreEvent::Registered(RegisteredEvent { user: key(ALICE) })])
    );
    assert_eq!(
        ctx.accounts.core_state,
        CoreState { total_base_sum: 850, p: 3, ..running_state() }
    );
    assert_eq!(ctx.accounts.user_account, user_account(ALICE, 0));
}

#[test]
fn register_refuses() {
    let mut ctx = registration(running_state());
    assert_eq!(register(&mut ctx, key(BOB)), Err(Error::ConstraintSeeds));
    ctx.accounts.gate = key(BOB);
    assert_eq!(
        register(&mut ctx, key(ALICE)),
        Err(Error::Rift(RiftError::UnauthorizedGate))
    );
    let mut ctx = registration(CoreState { p: MAX_PARTICIPANTS, ..empty_state() });
    assert_eq!(
        register(&mut ctx, key(ALICE)),
        Err(Error::Rift(RiftError::MaxParticipantsReached))
    );
    let mut ctx = registration(CoreState {
        global_field: i128::MAX,
        total_base_sum: -2,
        ..empty_state()
    });
    assert_eq!(register(&mut ctx, key(ALICE)), Err(Error::Rift(RiftError::MathOverflow)));
    let mut ctx = registration(CoreState { total_base_sum: 1, ..empty_state() });
    assert_eq!(
        register(&mut ctx, key(ALICE)),
        Err(Error::Rift(RiftError::InvariantViolation))
    );
    assert_eq!(ctx.accounts.user_account, user_account(ALICE, 77));
    assert_eq!(ctx.accounts.core_state.p, 0);
}

#[test]
fn register_fills_the_last_place() {
    let mut ctx = registration(CoreState { p: MAX_PARTICIPANTS - 1, ..empty_state() });
    assert!(register(&mut ctx, key(ALICE)).is_ok());
    assert_eq!(ctx.accounts.core_state.p, MAX_PARTICIPANTS);
}

fn exit(state: CoreState, base: i128) -> Context<Unregister> {
    context(Unregister {
        core_state: state,
        user_account: user_account(ALICE, base),
        gate: key(GATE),
    })
}

#[test]
fn unregister_burns_the_balance() {
    let mut ctx = exit(CoreState { dust_accumulator: 0, ..running_state() }, 300);
    assert_eq!(
        unregister(&mut ctx),
        Ok(vec![
            CoreEvent::Burn(BurnEvent { user: key(ALICE), amount: 300 }),
            CoreEvent::Unregistered(UnregisteredEvent { user: key(ALICE) }),
        ])
    );
    assert_eq!(
        ctx.accounts.core_state,
        CoreState {
            total_base_sum: 650,
            total_supply: 700,
            total_burned: 500,
            p: 1,
            dust_accumulator: 0,
            ..running_state()
        }
    );
}

#[test]
fn unregister_without_balance_burns_nothing() {
    let mut ctx = exit(CoreState { dust_accumulator: 0, ..running_state() }, 0);
    assert_eq!(
        unregister(&mut ctx),
        Ok(vec![CoreEvent::Unregistered(UnregisteredEvent { user: key(ALICE) })])
    );
    assert_eq!(ctx.accounts.core_state.total_supply, 1000);
    assert_eq!(ctx.accounts.core_state.total_burned, 200);
}

#[test]
fn unregister_refuses() {
    let state = CoreState { dust_accumulator: 0, ..running_state() };
    let mut ctx = exit(state, -1);
    assert_eq!(unregister(&mut ctx), Err(Error::Rift(RiftError::DebtOnExitNotAllowed)));
    let mut ctx = exit(state, 1001);
    assert_eq!(unregister(&mut ctx), Err(Error::Rift(RiftError::SupplyUnderflow)));
    let mut ctx = exit(empty_state(), 0);
    assert_eq!(unregister(&mut ctx), Err(Error::Rift(RiftError::MathOverflow)));
    let mut ctx = exit(state, 5);
    ctx.accounts.user_account.key = key(ALICE);
    assert_eq!(unregister(&mut ctx), Err(Error::ConstraintSeeds));
    ctx.accounts.gate = key(BOB);
    assert_eq!(unregister(&mut ctx), Err(Error::Rift(RiftError::UnauthorizedGate)));
    assert_eq!(ctx.accounts.core_state, state);
}

#[test]
fn unregister_is_blocked_by_dust() {
    let mut ctx = exit(running_state(), 0);
    assert_eq!(unregister(&mut ctx), Err(Error::Rift(RiftError::InvariantViolation)));
    assert_eq!(ctx.accounts.core_state, running_state());
}

#[test]
fn exit_undoes_registration() {
    let mut joining = registration(running_state());
    assert!(register(&mut joining, key(ALICE)).is_ok());
    let mut leaving = exit(joining.accounts.core_state, 0);
    assert!(unregister(&mut leaving).is_ok());
    assert_eq!(leaving.accounts.core_state, running_state());
}

// Transfers.

#[test]
fn transfer_moves_units() {
    let mut ctx = context(Transfer { transfer_ctx: transfer_ctx(running_state(), 400, 500) });
    assert_eq!(
        transfer(&mut ctx, 100),
        Ok(vec![CoreEvent::Transfer(TransferEvent {
            from: key(ALICE),
            to: key(BOB),
            amount: 100,
        })])
    );
    assert_eq!(ctx.accounts.transfer_ctx, transfer_ctx(running_state(), 300, 600));
}

#[test]
fn transfer_stops_at_the_debt_floor() {
    let mut at_floor = transfer_ctx(running_state(), 0, 900);
    assert!(at_floor.perform_transfer(50, 0).is_ok());
    assert_eq!(at_floor.from_user.data.base_balance, -50);
    let mut below = transfer_ctx(running_state(), 0, 900);
    assert_eq!(below.perform_transfer(51, 0), Err(RiftError::DebtLimitExceeded));
    assert_eq!(below, transfer_ctx(running_state(), 0, 900));
}

#[test]
fn rebate_lowers_the_floor() {
    let mut accounts = transfer_ctx(running_state(), 0, 900);
    assert!(accounts.perform_transfer(80, -30).is_ok());
    assert_eq!(accounts.from_user.data.base_balance, -50);
    assert_eq!(accounts.core_state.debt_limit(), Ok(-51));
}

#[test]
fn burn_may_raise_the_floor_above_the_sender() {
    let mut accounts = transfer_ctx(running_state(), 400, 500);
    assert!(accounts.perform_transfer(50, 400).is_ok());
    assert_eq!(accounts.from_user.data.base_balance, -50);
    assert_eq!(accounts.core_state.debt_limit(), Ok(-30));
}

#[test]
fn transfer_of_nothing_changes_nothing() {
    let broken = CoreState { total_supply: 3, ..running_state() };
    let mut accounts = transfer_ctx(broken, -1000, 0);
    assert_eq!(accounts.perform_transfer(0, 0), Ok(vec![]));
    assert_eq!(accounts, transfer_ctx(broken, -1000, 0));
}

#[test]
fn cost_is_charged_on_an_amount_of_nothing() {
    let state = CoreState {
        total_base_sum: 100,
        total_supply: 100,
        total_minted: 100,
        p: 2,
        ..empty_state()
    };
    let mut accounts = transfer_ctx(state, 60, 40);
    assert_eq!(
        accounts.perform_transfer(0, 5),
        Ok(vec![
            CoreEvent::Burn(BurnEvent { user: key(ALICE), amount: 5 }),
            CoreEvent::Transfer(TransferEvent { from: key(ALICE), to: key(BOB), amount: 0 }),
        ])
    );
    let burned = CoreState { total_base_sum: 95, total_supply: 95, total_burned: 5, ..state };
    assert_eq!(accounts, transfer_ctx(burned, 55, 40));
    let mut accounts = transfer_ctx(state, 60, 40);
    assert!(accounts.perform_transfer(0, -5).is_ok());
    let minted = CoreState { total_base_sum: 105, total_supply: 105, total_minted: 105, ..state };
    assert_eq!(accounts, transfer_ctx(minted, 65, 40));
}

fn to_self(state: CoreState, base: i128) -> TransferCtx {
    TransferCtx {
        core_state: state,
        from_user: user_account(ALICE, base),
        to_user: user_account(ALICE, base),
        from_authority: key(ALICE),
        to_authority: key(ALICE),
    }
}

#[test]
fn transfer_to_oneself_costs_only_the_edge() {
    let mut ctx = context(Transfer { transfer_ctx: to_self(running_state(), 400) });
    assert!(transfer(&mut ctx, 100).is_ok());
    assert_eq!(ctx.accounts.transfer_ctx, to_self(running_state(), 400));
    let mut accounts = to_self(running_state(), 400);
    assert!(accounts.perform_transfer(100, 30).is_ok());
    let after = CoreState {
        total_base_sum: 870,
        total_supply: 970,
        total_burned: 230,
        ..running_state()
    };
    assert_eq!(accounts, to_self(after, 370));
}

#[test]
fn transfer_to_oneself_keeps_to_the_limits() {
    let mut accounts = to_self(running_state(), 0);
    assert_eq!(accounts.perform_transfer(51, 0), Err(RiftError::DebtLimitExceeded));
    let mut accounts = to_self(running_state(), i128::MAX);
    assert!(accounts.perform_transfer(5, 0).is_ok());
    assert_eq!(accounts, to_self(running_state(), i128::MAX));
    assert_eq!(accounts.perform_transfer(5, -1), Err(RiftError::MathOverflow));
    assert_eq!(accounts, to_self(running_state(), i128::MAX));
}

#[test]
fn positive_edge_cost_is_burned() {
    let mut accounts = transfer_ctx(running_state(), 400, 500);
    assert_eq!(
        accounts.perform_transfer(100, 30),
        Ok(vec![
            CoreEvent::Burn(BurnEvent { user: key(ALICE), amount: 30 }),
            CoreEvent::Transfer(TransferEvent { from: key(ALICE), to: key(BOB), amount: 100 }),
        ])
    );
    let after = CoreState {
        total_base_sum: 870,
        total_supply: 970,
        total_burned: 230,
        ..running_state()
    };
    assert_eq!(accounts, transfer_ctx(after, 270, 600));
}

#[test]
fn negative_edge_cost_is_minted() {
    let mut accounts = transfer_ctx(running_state(), 400, 500);
    assert_eq!(
        accounts.perform_transfer(100, -30),
        Ok(vec![
            CoreEvent::Mint(MintEvent { user: key(ALICE), amount: 30 }),
            CoreEvent::Transfer(TransferEvent { from: key(ALICE), to: key(BOB), amount: 100 }),
        ])
    );
    let after = CoreState {
        total_base_sum: 930,
        total_supply: 1030,
        total_minted: 1230,
        ..running_state()
    };
    assert_eq!(accounts, transfer_ctx(after, 330, 600));
}

#[test]
fn transfer_refuses_overflows() {
    let overflow = Err(RiftError::MathOverflow);
    let mut accounts = transfer_ctx(running_state(), 400, 500);
    assert_eq!(accounts.perform_transfer(MAX_SUPPLY + 1, 0), overflow);
    let mut accounts = transfer_ctx(running_state(), i128::MIN, 500);
    assert_eq!(accounts.perform_transfer(1, 0), overflow);
    let mut accounts = transfer_ctx(running_state(), 400, i128::MAX);
    assert_eq!(accounts.perform_transfer(1, 0), overflow);
    let mut accounts = transfer_ctx(running_state(), -10, 500);
    assert_eq!(accounts.perform_transfer(1, i128::MIN), overflow);
    let full = CoreState {
        global_field: 0,
        total_base_sum: i128::MAX,
        total_supply: MAX_SUPPLY,
        total_minted: MAX_SUPPLY,
        total_burned: 0,
        ..running_state()
    };
    let mut accounts = transfer_ctx(full, 400, 500);
    assert_eq!(accounts.perform_transfer(1, -1), overflow);
    assert_eq!(accounts, transfer_ctx(full, 400, 500));
}

#[test]
fn transfer_refuses_to_burn_more_than_the_supply() {
    let mut accounts = transfer_ctx(running_state(), 5000, 500);
    assert_eq!(accounts.perform_transfer(1, 1001), Err(RiftError::SupplyUnderflow));
}

#[test]
fn transfer_refuses_in_a_broken_state() {
    let broken = CoreState { total_minted: 1300, ..running_state() };
    let mut accounts = transfer_ctx(broken, 400, 500);
    assert_eq!(accounts.perform_transfer(1, 0), Err(RiftError::InvariantViolation));
    assert_eq!(accounts, transfer_ctx(broken, 400, 500));
}

#[test]
fn transfer_checks_both_addresses() {
    let mut ctx = context(Transfer { transfer_ctx: transfer_ctx(running_state(), 400, 500) });
    ctx.accounts.transfer_ctx.from_user.key = key(ALICE);
    assert_eq!(transfer(&mut ctx, 1), Err(Error::ConstraintSeeds));
    let mut ctx = context(Transfer { transfer_ctx: transfer_ctx(running_state(), 400, 500) });
    ctx.accounts.transfer_ctx.to_user.key = key(BOB);
    assert_eq!(transfer(&mut ctx, 1), Err(Error::ConstraintSeeds));
}

fn edge_transfer(state: CoreState, weight: i128) -> Context<TransferWithEdge> {
    let at = edge_address(&key(PROGRAM), &key(ALICE), &key(BOB)).unwrap().0;
    context(TransferWithEdge {
        transfer_ctx: transfer_ctx(state, 400, 500),
        edge_account: Account { key: at, data: EdgeAccount { weight } },
    })
}

#[test]
fn transfer_with_edge_applies_the_weight() {
    let mut ctx = edge_transfer(running_state(), 30);
    assert!(transfer_with_edge(&mut ctx, 100).is_ok());
    assert_eq!(ctx.accounts.transfer_ctx.from_user.data.base_balance, 270);
    assert_eq!(ctx.accounts.transfer_ctx.core_state.total_supply, 970);
    assert_eq!(ctx.accounts.edge_account.data.weight, 30);
}

#[test]
fn weightless_edge_is_a_plain_transfer() {
    let mut edge = edge_transfer(running_state(), 0);
    let mut plain = context(Transfer { transfer_ctx: transfer_ctx(running_state(), 400, 500) });
    assert_eq!(transfer_with_edge(&mut edge, 7), transfer(&mut plain, 7));
    assert_eq!(edge.accounts.transfer_ctx, plain.accounts.transfer_ctx);
}

#[test]
fn transfer_with_edge_refuses() {
    let mut ctx = edge_transfer(running_state(), 0);
    ctx.accounts.edge_account.key = key(3);
    assert_eq!(transfer_with_edge(&mut ctx, 1), Err(Error::ConstraintSeeds));
    let mut ctx = edge_transfer(CoreState { paused: true, ..running_state() }, 0);
    ctx.accounts.transfer_ctx.to_user.data.authority = key(3);
    assert_eq!(
        transfer_with_edge(&mut ctx, 1),
        Err(Error::Rift(RiftError::UnauthorizedAuthority))
    );
    let mut ctx = edge_transfer(running_state(), 451);
    assert_eq!(
        transfer_with_edge(&mut ctx, 0),
        Err(Error::Rift(RiftError::DebtLimitExceeded))
    );
    let mut ctx = edge_transfer(running_state(), 450);
    assert_eq!(
        transfer_with_edge(&mut ctx, 1),
        Err(Error::Rift(RiftError::DebtLimitExceeded))
    );
    assert!(transfer_with_edge(&mut ctx, 0).is_ok());
    assert_eq!(ctx.accounts.transfer_ctx.from_user.data.base_balance, -50);
    assert_eq!(ctx.accounts.transfer_ctx.core_state.total_supply, 550);
}

#[test]
fn pause_stops_transfers() {
    let paused = CoreState { paused: true, ..running_state() };
    let mut plain = context(Transfer { transfer_ctx: transfer_ctx(paused, 400, 500) });
    assert_eq!(transfer(&mut plain, 1), Err(Error::Rift(RiftError::ProtocolPaused)));
    assert_eq!(transfer(&mut plain, 0), Err(Error::Rift(RiftError::ProtocolPaused)));
    let mut edge = edge_transfer(paused, 3);
    assert_eq!(transfer_with_edge(&mut edge, 1), Err(Error::Rift(RiftError::ProtocolPaused)));
}

#[test]
fn pause_spares_the_gate() {
    let paused = CoreState { paused: true, ..running_state() };
    assert!(register(&mut registration(paused), key(ALICE)).is_ok());
    let no_dust = CoreState { dust_accumulator: 0, ..paused };
    assert!(unregister(&mut exit(no_dust, 3)).is_ok());
    assert!(redistribute(&mut redistribution(paused), 10).is_ok());
    assert!(apply_neg_entropy(&mut entropy(paused)).is_ok());
}

// The field.

#[test]
fn redistribute_raises_the_field() {
    let mut ctx = redistribution(running_state());
    assert_eq!(
        redistribute(&mut ctx, 10),
        Ok(vec![
            CoreEvent::Redistribute(RedistributeEvent {
                amount: 10,
                per_user: 5,
                dust_retained: 1,
            }),
            CoreEvent::FieldUpdate(FieldUpdateEvent { new_global_field: 55 }),
        ])
    );
    assert_eq!(
        ctx.accounts.core_state,
        CoreState {
            global_field: 55,
            total_supply: 1010,
            total_minted: 1210,
            dust_accumulator: 1,
            ..running_state()
        }
    );
}

#[test]
fn redistributions_add_up() {
    let mut parts = redistribution(running_state());
    assert!(redistribute(&mut parts, 4).is_ok());
    assert_eq!(parts.accounts.core_state.dust_accumulator, 1);
    assert!(redistribute(&mut parts, 5).is_ok());
    assert_eq!(parts.accounts.core_state.dust_accumulator, 0);
    let mut whole = redistribution(running_state());
    assert!(redistribute(&mut whole, 9).is_ok());
    assert_eq!(parts, whole);
}

#[test]
fn redistribute_refuses() {
    let mut ctx = redistribution(empty_state());
    assert_eq!(redistribute(&mut ctx, 1), Err(RiftError::ZeroParticipants));
    ctx.accounts.gate = key(BOB);
    assert_eq!(redistribute(&mut ctx, 1), Err(RiftError::UnauthorizedGate));
    let mut ctx = redistribution(running_state());
    assert_eq!(redistribute(&mut ctx, u128::MAX), Err(RiftError::MathOverflow));
    let lone = CoreState { p: 1, ..empty_state() };
    let mut ctx = redistribution(lone);
    assert_eq!(redistribute(&mut ctx, MAX_SUPPLY + 1), Err(RiftError::MathOverflow));
    let mut ctx = redistribution(CoreState { total_base_sum: 5, ..lone });
    assert_eq!(redistribute(&mut ctx, 1), Err(RiftError::InvariantViolation));
    assert_eq!(ctx.accounts.core_state, CoreState { total_base_sum: 5, ..lone });
}

#[test]
fn redistribute_up_to_the_largest_supply() {
    let mut ctx = redistribution(CoreState { p: 1, ..empty_state() });
    assert!(redistribute(&mut ctx, MAX_SUPPLY).is_ok());
    assert_eq!(ctx.accounts.core_state.total_supply, MAX_SUPPLY);
    assert_eq!(ctx.accounts.core_state.global_field, i128::MAX);
}

#[test]
fn entropy_lowers_the_field_and_keeps_the_supply() {
    let mut ctx = entropy(running_state());
    assert_eq!(
        apply_neg_entropy(&mut ctx),
        Ok(vec![CoreEvent::FieldUpdate(FieldUpdateEvent { new_global_field: 50 + NEG_E })])
    );
    assert_eq!(
        ctx.accounts.core_state,
        CoreState {
            global_field: 50 + NEG_E,
            total_base_sum: 900 - 2 * NEG_E,
            ..running_state()
        }
    );
}

#[test]
fn entropy_refuses() {
    let mut ctx = entropy(running_state());
    ctx.accounts.gate = key(BOB);
    assert_eq!(apply_neg_entropy(&mut ctx), Err(RiftError::UnauthorizedGate));
    let mut ctx = entropy(CoreState { global_field: i128::MIN, ..empty_state() });
    assert_eq!(apply_neg_entropy(&mut ctx), Err(RiftError::MathOverflow));
    let mut ctx = entropy(CoreState { total_base_sum: 5, ..empty_state() });
    assert_eq!(apply_neg_entropy(&mut ctx), Err(RiftError::InvariantViolation));
    assert_eq!(ctx.accounts.core_state.global_field, 0);
}

// A history of a new protocol.

#[test]
fn history_keeps_the_invariant() {
    let mut state = empty_state();
    let mut minted = 0;
    let mut burned = 0;
    for round in 0..6u128 {
        let mut joining = registration(state);
        assert!(register(&mut joining, key(ALICE)).is_ok());
        state = joining.accounts.core_state;
        let mut sharing = redistribution(state);
        assert!(redistribute(&mut sharing, 1000 + 7 * round).is_ok());
        state = sharing.accounts.core_state;
        let mut paying = transfer_ctx(state, 10, 10);
        assert!(paying.perform_transfer(3, 5 - 2 * round as i128).is_ok());
        state = paying.core_state;
        assert_eq!(state.check_invariant(), Ok(()));
        assert!(state.dust_accumulator < state.p as u128);
        assert!(state.total_minted >= minted && state.total_burned >= burned);
        minted = state.total_minted;
        burned = state.total_burned;
    }
    assert_eq!(state.p, 6);
}

#[test]
fn balances_add_up_while_the_field_rests() {
    let state = CoreState {
        total_base_sum: 900,
        total_supply: 900,
        total_minted: 900,
        p: 2,
        ..empty_state()
    };
    let mut accounts = transfer_ctx(state, 400, 500);
    assert!(accounts.perform_transfer(120, 11).is_ok());
    let sum = accounts.from_user.data.base_balance + accounts.to_user.data.base_balance;
    assert_eq!(accounts.core_state.total_base_sum, sum);
    assert_eq!(accounts.core_state.total_supply, sum as u128);
}
