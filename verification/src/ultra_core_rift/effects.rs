//! What each instruction of the core program does to every quantity, and exactly
//! when it is accepted or refused, over the fields of the accounts alone.
use vstd::prelude::*;

use crate::account::{Context, Error, Pubkey};
use crate::address;
use crate::rift_common::{RiftError, MAX_EDGE_COST, MAX_PARTICIPANTS, NEG_E};
use crate::solana;
use crate::ultra_core_rift::events::{
    BurnEvent, CoreEvent, FieldUpdateEvent, PausedEvent, RedistributeEvent, RegisteredEvent,
    TransferEvent, UnregisteredEvent,
};
use crate::ultra_core_rift::field::{ApplyNegEntropy, Redistribute};
use crate::ultra_core_rift::gate::{Initialize, SetEdge, SetPaused};
use crate::ultra_core_rift::ledger::Ledger;
use crate::ultra_core_rift::membership::{Register, Unregister};
use crate::ultra_core_rift::state::CoreState;
use crate::ultra_core_rift::transfer::{Transfer, TransferCtx, TransferWithEdge};

verus! {

// The words of the laws.

/// `x` lies in the range of `i128`.
pub open spec fn signed(x: int) -> bool {
    -0x8000_0000_0000_0000_0000_0000_0000_0000 <= x < 0x8000_0000_0000_0000_0000_0000_0000_0000
}

/// `x` lies in the range of `u128`.
pub open spec fn unsigned(x: int) -> bool {
    0 <= x < 0x1_0000_0000_0000_0000_0000_0000_0000_0000
}

/// The quantities lie in the ranges of their types, and so do the supply and both
/// terms of the first identity in that of `i128`.
pub open spec fn computable(l: Ledger) -> bool {
    &&& signed(l.global_field)
    &&& signed(l.total_base_sum)
    &&& unsigned(l.total_supply) && signed(l.total_supply)
    &&& unsigned(l.total_minted)
    &&& unsigned(l.total_burned)
    &&& 0 <= l.p < 0x1_0000_0000_0000_0000
    &&& unsigned(l.dust_accumulator)
    &&& signed(l.global_field * l.p)
    &&& signed(l.total_base_sum + l.global_field * l.p)
}

/// Both identities of the supply hold, and the dust is less than the number of
/// participants while there are any.
pub open spec fn balanced(l: Ledger) -> bool {
    &&& l.total_supply == l.total_base_sum + l.global_field * l.p
    &&& l.total_minted - l.total_burned == l.total_supply
    &&& l.total_burned <= l.total_minted
    &&& l.p == 0 || l.dust_accumulator < l.p
}

/// The quantities that a state holds.
pub open spec fn quantities(state: CoreState) -> Ledger {
    Ledger {
        global_field: state.global_field as int,
        total_base_sum: state.total_base_sum as int,
        total_supply: state.total_supply as int,
        total_minted: state.total_minted as int,
        total_burned: state.total_burned as int,
        p: state.p as int,
        dust_accumulator: state.dust_accumulator as int,
    }
}

/// The derivation led to `key`.
pub open spec fn leads_to(derived: Option<(Seq<u8>, u8)>, key: Pubkey) -> bool {
    exists|bump: u8| derived == Some((key.bytes@, bump))
}

/// A sender may be left with `balance` while the supply is `supply` and there are
/// `p` participants: ten times what each of them would owe at that debt is at most
/// the supply.
pub open spec fn may_owe(supply: int, p: int, balance: int) -> bool {
    if p == 0 {
        balance >= -1_000_000_000_000_000_000
    } else {
        10 * p * -balance <= supply
    }
}

/// The two ways of saying that a key is the derived address agree.
pub proof fn lemma_leads_to(derived: Option<(Seq<u8>, u8)>, key: Pubkey)
    ensures
        leads_to(derived, key) == address::is_at(key, derived),
{
    if let Some((_, bump)) = derived {
        assert(address::is_at(key, derived) ==> derived == Some((key.bytes@, bump)));
    }
}

/// The floor under which a balance may not fall divides those that may be owed
/// from those that may not.
proof fn lemma_floor_divides(ledger: Ledger, balance: int)
    requires
        0 <= ledger.total_supply,
        0 <= ledger.p,
    ensures
        balance >= ledger.debt_floor() <==> may_owe(ledger.total_supply, ledger.p, balance),
{
    if ledger.p > 0 {
        law_debt_floor_is_a_tenth_of_the_mean(ledger);
        let unit = 10 * ledger.p;
        let q = -ledger.debt_floor();
        let owed = -balance;
        assert(owed <= q ==> owed * unit <= q * unit) by (nonlinear_arith)
            requires
                0 < unit,
        ;
        assert(owed >= q + 1 ==> owed * unit >= (q + 1) * unit) by (nonlinear_arith)
            requires
                0 < unit,
        ;
        assert(q * unit == q * 10 * ledger.p) by (nonlinear_arith)
            requires
                unit == 10 * ledger.p,
        ;
        assert((q + 1) * unit == (q + 1) * 10 * ledger.p) by (nonlinear_arith)
            requires
                unit == 10 * ledger.p,
        ;
        assert(owed * unit == unit * owed) by (nonlinear_arith);
    }
}

// The check and the floor.

/// The check passes exactly the states whose quantities are computable and
/// balanced. It calls an overflow what is not computable, and a violation what is
/// computable and out of balance.
pub proof fn law_check_is_exact(state: CoreState)
    ensures
        state@ == quantities(state),
        state@.fault() is None <==> computable(quantities(state)) && balanced(quantities(state)),
        state@.fault() == Some(RiftError::MathOverflow) <==> !computable(quantities(state)),
        state@.fault() == Some(RiftError::InvariantViolation) <==> computable(quantities(state))
            && !balanced(quantities(state)),
{
}

/// The debt floor is the debt that, ten times over and for every participant, the
/// supply still covers, while one unit more it would not. Without participants it
/// is the constant one.
pub proof fn law_debt_floor_is_a_tenth_of_the_mean(ledger: Ledger)
    requires
        0 <= ledger.total_supply,
        0 <= ledger.p,
    ensures
        ledger.debt_floor() <= 0,
        ledger.p > 0 ==> -ledger.debt_floor() * 10 * ledger.p <= ledger.total_supply < (
        -ledger.debt_floor() + 1) * 10 * ledger.p,
        ledger.p == 0 ==> ledger.debt_floor() == -1_000_000_000_000_000_000,
{
    if ledger.p > 0 {
        let supply = ledger.total_supply;
        let unit = 10 * ledger.p;
        let q = supply / unit;
        assert(0 <= q && q * unit <= supply < (q + 1) * unit) by (nonlinear_arith)
            requires
                0 <= supply,
                0 < unit,
                q == supply / unit,
        ;
        assert(q * unit == q * 10 * ledger.p) by (nonlinear_arith)
            requires
                unit == 10 * ledger.p,
        ;
        assert((q + 1) * unit == (q + 1) * 10 * ledger.p) by (nonlinear_arith)
            requires
                unit == 10 * ledger.p,
        ;
    }
}

/// A new protocol holds nothing.
pub proof fn law_new_ledger_is_empty()
    ensures
        ({
            let l = Ledger::empty();
            &&& l.global_field == 0 && l.total_base_sum == 0 && l.total_supply == 0
            &&& l.total_minted == 0 && l.total_burned == 0
            &&& l.p == 0 && l.dust_accumulator == 0
        }),
{
}

// Registration.

/// A registration makes room for one participant and takes the field from the base
/// sum. It changes nothing else, and the new account holds nothing.
pub proof fn law_registration_effect(before: Register, after: Register, user: Pubkey)
    requires
        after.settled(before, user),
    ensures
        quantities(after.core_state) == (Ledger {
            p: before.core_state.p + 1,
            total_base_sum: before.core_state.total_base_sum - before.core_state.global_field,
            ..quantities(before.core_state)
        }),
        after.core_state.gate == before.core_state.gate,
        after.core_state.paused == before.core_state.paused,
        after.user_account.key == before.user_account.key,
        after.user_account.data.authority == user,
        after.user_account.data.base_balance == 0,
        after.gate == before.gate,
{
}

/// A registration is accepted exactly where the account is the derived one, the
/// signer is the right one, there is a place left and the quantities it arrives at
/// are computable and balanced; and it is refused for the first of these that
/// fails.
pub proof fn law_registration_acceptance(before: Register, derived: Option<(Seq<u8>, u8)>)
    ensures
        ({
            let s = before.core_state;
            let arrived = Ledger {
                p: s.p + 1,
                total_base_sum: s.total_base_sum - s.global_field,
                ..quantities(s)
            };
            let placed = leads_to(derived, before.user_account.key);
            let signed_for = before.gate == s.gate;
            let room = s.p < MAX_PARTICIPANTS;
            let refusal = before.refusal(derived);
            &&& refusal is None <==> placed && signed_for && room && computable(arrived)
                && balanced(arrived)
            &&& refusal == Some(Error::ConstraintSeeds) <==> !placed
            &&& refusal == Some(Error::Rift(RiftError::UnauthorizedGate)) <==> placed
                && !signed_for
            &&& refusal == Some(Error::Rift(RiftError::MaxParticipantsReached)) <==> placed
                && signed_for && !room
            &&& refusal == Some(Error::Rift(RiftError::MathOverflow)) <==> placed && signed_for
                && room && !computable(arrived)
            &&& refusal == Some(Error::Rift(RiftError::InvariantViolation)) <==> placed
                && signed_for && room && computable(arrived) && !balanced(arrived)
        }),
{
    lemma_leads_to(derived, before.user_account.key);
}

// Exit.

/// An exit burns the balance of the one who leaves, for every field and every
/// number of participants: the supply falls and the burned total rises by it, and
/// nothing is minted. The base sum falls by it and gets the field back.
pub proof fn law_exit_effect(before: Unregister, after: Unregister)
    requires
        after.settled(before),
    ensures
        ({
            let s = before.core_state;
            let base = before.user_account.data.base_balance;
            &&& quantities(after.core_state) == (Ledger {
                p: s.p - 1,
                total_base_sum: s.total_base_sum - base + s.global_field,
                total_supply: s.total_supply - base,
                total_burned: s.total_burned + base,
                ..quantities(s)
            })
            &&& after.core_state.total_supply + base == s.total_supply
            &&& after.core_state.total_burned - base == s.total_burned
            &&& after.core_state.total_minted == s.total_minted
        }),
        after.core_state.gate == before.core_state.gate,
        after.core_state.paused == before.core_state.paused,
        after.user_account == before.user_account,
        after.gate == before.gate,
{
}

/// An exit is accepted exactly where the signer and the account are the right
/// ones, nothing is owed, the supply covers the balance and the quantities it
/// arrives at are computable and balanced; and it is refused for the first of
/// these that fails.
pub proof fn law_exit_acceptance(before: Unregister, derived: Option<(Seq<u8>, u8)>)
    ensures
        ({
            let s = before.core_state;
            let base = before.user_account.data.base_balance;
            let arrived = Ledger {
                p: s.p - 1,
                total_base_sum: s.total_base_sum - base + s.global_field,
                total_supply: s.total_supply - base,
                total_burned: s.total_burned + base,
                ..quantities(s)
            };
            let bound = before.gate == s.gate && leads_to(derived, before.user_account.key);
            let covered = bound && 0 <= base <= s.total_supply;
            let within = signed(s.total_base_sum - base) && computable(arrived);
            let refusal = before.refusal(derived);
            &&& refusal is None <==> covered && within && balanced(arrived)
            &&& refusal == Some(Error::Rift(RiftError::UnauthorizedGate)) <==> before.gate
                != s.gate
            &&& refusal == Some(Error::ConstraintSeeds) <==> before.gate == s.gate && !leads_to(
                derived,
                before.user_account.key,
            )
            &&& refusal == Some(Error::Rift(RiftError::DebtOnExitNotAllowed)) <==> bound && base
                < 0
            &&& refusal == Some(Error::Rift(RiftError::SupplyUnderflow)) <==> bound && base
                > s.total_supply
            &&& refusal == Some(Error::Rift(RiftError::MathOverflow)) <==> covered && !within
            &&& refusal == Some(Error::Rift(RiftError::InvariantViolation)) <==> covered
                && within && !balanced(arrived)
        }),
{
    lemma_leads_to(derived, before.user_account.key);
}

/// An exit reports that the participant left, after the burn of what it held, if
/// it held anything.
pub proof fn law_exit_report(before: Unregister)
    ensures
        ({
            let user = before.user_account.data.authority;
            let base = before.user_account.data.base_balance;
            let report = before.report();
            &&& report.len() == if base > 0 { 2int } else { 1int }
            &&& report.last() == CoreEvent::Unregistered(UnregisteredEvent { user })
            &&& base > 0 ==> report.first() == CoreEvent::Burn(
                BurnEvent { user, amount: base as u128 },
            )
        }),
{
}

// Transfers.

/// A transfer moves the amount and charges the cost: the sender loses both, the
/// recipient gains the amount, and one who sends to itself loses the cost alone.
/// The base sum and the supply lose the cost; it is burned where positive and
/// minted where negative. Nothing else changes.
pub proof fn law_transfer_effect(
    before: TransferCtx,
    after: TransferCtx,
    amount: u128,
    edge_cost: i128,
)
    requires
        after.settled(before, amount as int, edge_cost as int),
    ensures
        ({
            let s = before.core_state;
            let t = after.core_state;
            let from = before.from_user.data.base_balance;
            let to = before.to_user.data.base_balance;
            let one = before.from_user.key == before.to_user.key;
            &&& !one ==> after.from_user.data.base_balance == from - amount - edge_cost
            &&& !one ==> after.to_user.data.base_balance == to + amount
            &&& one ==> after.from_user.data.base_balance == from - edge_cost
            &&& one && (from == to || amount != 0 || edge_cost != 0)
                ==> after.to_user.data.base_balance == from - edge_cost
            &&& amount == 0 && edge_cost == 0 ==> after == before
            &&& t.total_base_sum == s.total_base_sum - edge_cost
            &&& t.total_supply == s.total_supply - edge_cost
            &&& edge_cost >= 0 ==> t.total_burned == s.total_burned + edge_cost && t.total_minted
                == s.total_minted
            &&& edge_cost <= 0 ==> t.total_minted == s.total_minted - edge_cost && t.total_burned
                == s.total_burned
            &&& t.global_field == s.global_field
            &&& t.p == s.p
            &&& t.dust_accumulator == s.dust_accumulator
            &&& t.gate == s.gate
            &&& t.paused == s.paused
        }),
        after.from_user.key == before.from_user.key,
        after.to_user.key == before.to_user.key,
        after.from_user.data.authority == before.from_user.data.authority,
        after.to_user.data.authority == before.to_user.data.authority,
        after.from_authority == before.from_authority,
        after.to_authority == before.to_authority,
{
}

/// An accepted transfer leaves the sender owing at most a tenth of the mean
/// supply: ten times the debt, for every participant, is at most the supply.
pub proof fn law_sender_owes_at_most_a_tenth(
    before: TransferCtx,
    after: TransferCtx,
    amount: u128,
    edge_cost: i128,
)
    requires
        amount > 0 || edge_cost != 0,
        before.refusal(amount as int, edge_cost as int) is None,
        after.settled(before, amount as int, edge_cost as int),
    ensures
        before.core_state.p > 0 ==> 10 * before.core_state.p
            * -(after.from_user.data.base_balance as int) <= before.core_state.total_supply,
        before.core_state.p == 0 ==> after.from_user.data.base_balance
            >= -1_000_000_000_000_000_000,
{
    lemma_floor_divides(before.core_state@, after.from_user.data.base_balance as int);
}

/// A transfer is accepted exactly where the protocol is not paused and either
/// nothing is moved and charged, or the debit is an `i128`, the sender may owe what
/// it is left with, the credit and the base sum are `i128`, the supply covers the
/// cost, and the quantities it arrives at are computable and balanced. It is
/// refused for the first of these that fails.
pub proof fn law_transfer_acceptance(before: TransferCtx, amount: u128, edge_cost: i128)
    ensures
        ({
            let s = before.core_state;
            let from = before.from_user.data.base_balance;
            let to = before.to_user.data.base_balance;
            let left = from - amount - edge_cost;
            let reached = if before.from_user.key == before.to_user.key {
                from - edge_cost
            } else {
                to + amount
            };
            let arrived = Ledger {
                total_base_sum: s.total_base_sum - edge_cost,
                total_supply: s.total_supply - edge_cost,
                total_burned: s.total_burned + if edge_cost > 0 { edge_cost as int } else { 0 },
                total_minted: s.total_minted - if edge_cost < 0 { edge_cost as int } else { 0 },
                ..quantities(s)
            };
            let nothing = amount == 0 && edge_cost == 0;
            let debited = !s.paused && !nothing && signed(amount as int) && signed(from - amount)
                && signed(left);
            let owing = may_owe(s.total_supply as int, s.p as int, left);
            let credited = debited && owing && signed(reached) && signed(
                s.total_base_sum - edge_cost,
            );
            let charged = credited && edge_cost <= s.total_supply;
            let refusal = before.refusal(amount as int, edge_cost as int);
            &&& refusal is None <==> !s.paused && nothing || charged && computable(arrived)
                && balanced(arrived)
            &&& refusal == Some(RiftError::ProtocolPaused) <==> s.paused
            &&& refusal == Some(RiftError::DebtLimitExceeded) <==> debited && !owing
            &&& refusal == Some(RiftError::SupplyUnderflow) <==> credited && !charged
            &&& refusal == Some(RiftError::InvariantViolation) <==> charged && computable(arrived)
                && !balanced(arrived)
            &&& refusal == Some(RiftError::MathOverflow) <==> !s.paused && !nothing && !(debited
                && !owing) && !(credited && !charged) && !(charged && computable(arrived))
        }),
{
    let left = before.balance_left(amount as int, edge_cost as int);
    lemma_floor_divides(before.core_state@, left);
}

/// A transfer reports itself last, after the burn or the mint of its cost if it has
/// one, and a transfer of nothing at no cost reports nothing.
pub proof fn law_transfer_report(before: TransferCtx, amount: u128, edge_cost: i128)
    ensures
        ({
            let user = before.from_user.data.authority;
            let report = before.report(amount, edge_cost as int);
            &&& amount == 0 && edge_cost == 0 ==> report.len() == 0
            &&& amount != 0 && edge_cost == 0 ==> report.len() == 1
            &&& edge_cost != 0 ==> report.len() == 2
            &&& amount != 0 || edge_cost != 0 ==> report.last() == CoreEvent::Transfer(
                TransferEvent { from: user, to: before.to_user.data.authority, amount },
            )
            &&& edge_cost > 0 ==> report.first() == CoreEvent::Burn(
                BurnEvent { user, amount: edge_cost as u128 },
            )
            &&& edge_cost < 0 ==> (report.first() matches CoreEvent::Mint(mint) && mint.user
                == user && mint.amount + edge_cost == 0)
        }),
{
}

/// A plain transfer is refused for an account off its derived address, and
/// otherwise just as a transfer at no cost is.
pub proof fn law_plain_transfer_acceptance(
    accounts: Transfer,
    amount: u128,
    from_derived: Option<(Seq<u8>, u8)>,
    to_derived: Option<(Seq<u8>, u8)>,
)
    ensures
        ({
            let t = accounts.transfer_ctx;
            let placed = leads_to(from_derived, t.from_user.key) && leads_to(
                to_derived,
                t.to_user.key,
            );
            let refusal = accounts.refusal(amount as int, from_derived, to_derived);
            let inner = t.refusal(amount as int, 0);
            &&& refusal is None <==> placed && inner is None
            &&& refusal == Some(Error::ConstraintSeeds) <==> !placed
            &&& placed && inner is Some ==> refusal == Some(Error::Rift(inner->0))
        }),
{
    lemma_leads_to(from_derived, accounts.transfer_ctx.from_user.key);
    lemma_leads_to(to_derived, accounts.transfer_ctx.to_user.key);
}

/// A transfer over an edge is refused for an account off its derived address, then
/// for a recipient that the account does not name, and otherwise just as a transfer
/// at the cost of the edge's weight is.
pub proof fn law_edge_transfer_acceptance(
    accounts: TransferWithEdge,
    amount: u128,
    from_derived: Option<(Seq<u8>, u8)>,
    to_derived: Option<(Seq<u8>, u8)>,
    edge_derived: Option<(Seq<u8>, u8)>,
)
    ensures
        ({
            let t = accounts.transfer_ctx;
            let placed = leads_to(from_derived, t.from_user.key) && leads_to(
                to_derived,
                t.to_user.key,
            ) && leads_to(edge_derived, accounts.edge_account.key);
            let named = t.to_user.data.authority == t.to_authority;
            let refusal = accounts.refusal(
                amount as int,
                from_derived,
                to_derived,
                edge_derived,
            );
            let inner = t.refusal(amount as int, accounts.edge_account.data.weight as int);
            &&& refusal is None <==> placed && named && inner is None
            &&& refusal == Some(Error::ConstraintSeeds) <==> !placed
            &&& placed && !named ==> refusal == Some(
                Error::Rift(RiftError::UnauthorizedAuthority),
            )
            &&& placed && named && inner is Some ==> refusal == Some(Error::Rift(inner->0))
        }),
{
    lemma_leads_to(from_derived, accounts.transfer_ctx.from_user.key);
    lemma_leads_to(to_derived, accounts.transfer_ctx.to_user.key);
    lemma_leads_to(edge_derived, accounts.edge_account.key);
}

// Edges.

/// A weight is accepted exactly where the account is the derived one, the signer is
/// the right one and the weight is within the limit either way; and it is refused
/// for the first of these that fails.
pub proof fn law_edge_acceptance(
    accounts: SetEdge,
    weight: i128,
    derived: Option<(Seq<u8>, u8)>,
)
    ensures
        ({
            let placed = leads_to(derived, accounts.edge_account.key);
            let signed_for = accounts.gate == accounts.core_state.gate;
            let within = weight <= MAX_EDGE_COST && -weight <= MAX_EDGE_COST;
            let refusal = accounts.refusal(weight as int, derived);
            &&& refusal is None <==> placed && signed_for && within
            &&& refusal == Some(Error::ConstraintSeeds) <==> !placed
            &&& refusal == Some(Error::Rift(RiftError::UnauthorizedGate)) <==> placed
                && !signed_for
            &&& refusal == Some(Error::Rift(RiftError::EdgeLimitExceeded)) <==> placed
                && signed_for && !within
        }),
{
    lemma_leads_to(derived, accounts.edge_account.key);
}

// Redistribution.

/// A redistribution shares the amount and the dust out evenly: what the field
/// gains, over all participants, and the new dust are the amount and the old dust,
/// and the new dust is less than one unit each. What is shared out is minted into
/// the supply. Nothing else changes.
pub proof fn law_redistribution_effect(before: CoreState, after: CoreState, amount: u128)
    requires
        before.p > 0,
        after.moved(before, before@.redistributed(amount as int)),
    ensures
        ({
            let share = after.global_field - before.global_field;
            &&& share * before.p + after.dust_accumulator == amount + before.dust_accumulator
            &&& after.dust_accumulator < before.p
            &&& after.total_supply - before.total_supply == share * before.p
            &&& after.total_minted - before.total_minted == share * before.p
        }),
        after.total_base_sum == before.total_base_sum,
        after.total_burned == before.total_burned,
        after.p == before.p,
        after.gate == before.gate,
        after.paused == before.paused,
{
    let p = before.p as int;
    let total = amount + before.dust_accumulator;
    assert(0 <= total % p < p && (total / p) * p + total % p == total) by (nonlinear_arith)
        requires
            0 < p,
    ;
}

/// Let `share` each and a remainder `rest` of less than one unit each make up the
/// amount and the dust. Then a redistribution is accepted exactly where the signer
/// is the right one, the amount and the dust are together a `u128`, the share is an
/// `i128`, and the quantities it arrives at are computable and balanced, whatever
/// the sign of the field; and it reports the share and the rest.
pub proof fn law_redistribution_acceptance(
    before: Redistribute,
    amount: u128,
    share: int,
    rest: int,
)
    requires
        0 <= rest < before.core_state.p,
        share * before.core_state.p + rest == amount + before.core_state.dust_accumulator,
    ensures
        ({
            let s = before.core_state;
            let arrived = Ledger {
                global_field: s.global_field + share,
                total_supply: s.total_supply + share * s.p,
                total_minted: s.total_minted + share * s.p,
                dust_accumulator: rest,
                ..quantities(s)
            };
            let signed_for = before.gate == s.gate;
            let within = unsigned(amount + s.dust_accumulator) && signed(share) && computable(
                arrived,
            );
            let refusal = before.refusal(amount as int);
            &&& refusal is None <==> signed_for && within && balanced(arrived)
            &&& refusal == Some(RiftError::UnauthorizedGate) <==> !signed_for
            &&& refusal == Some(RiftError::MathOverflow) <==> signed_for && !within
            &&& refusal == Some(RiftError::InvariantViolation) <==> signed_for && within
                && !balanced(arrived)
            &&& refusal is None ==> before.report(amount) == seq![
                CoreEvent::Redistribute(
                    RedistributeEvent {
                        amount,
                        per_user: share as u128,
                        dust_retained: rest as u128,
                    },
                ),
                CoreEvent::FieldUpdate(
                    FieldUpdateEvent { new_global_field: (s.global_field + share) as i128 },
                ),
            ]
        }),
{
    let p = before.core_state.p as int;
    let total = amount + before.core_state.dust_accumulator;
    vstd::arithmetic::div_mod::lemma_fundamental_div_mod_converse(total, p, share, rest);
}

/// Without participants there is nobody to share among.
pub proof fn law_redistribution_needs_participants(before: Redistribute, amount: u128)
    ensures
        before.refusal(amount as int) == Some(RiftError::ZeroParticipants) <==> before.gate
            == before.core_state.gate && before.core_state.p == 0,
        before.gate != before.core_state.gate ==> before.refusal(amount as int) == Some(
            RiftError::UnauthorizedGate,
        ),
{
}

// Negative entropy.

/// A tick lowers the field by a constant and raises the base sum by as much for
/// every participant. Nothing else changes.
pub proof fn law_entropy_effect(before: CoreState, after: CoreState)
    requires
        after.moved(before, before@.cooled()),
    ensures
        after.global_field == before.global_field - 2_718_281_828_459_045_235,
        after.total_base_sum - before.total_base_sum == 2_718_281_828_459_045_235 * before.p,
        after.total_supply == before.total_supply,
        after.total_minted == before.total_minted,
        after.total_burned == before.total_burned,
        after.p == before.p,
        after.dust_accumulator == before.dust_accumulator,
        after.gate == before.gate,
        after.paused == before.paused,
{
}

/// A tick is accepted exactly where the signer is the right one and the quantities
/// it arrives at are computable and balanced; and it is refused for the first of
/// these that fails.
pub proof fn law_entropy_acceptance(before: ApplyNegEntropy)
    ensures
        ({
            let s = before.core_state;
            let arrived = Ledger {
                global_field: s.global_field + NEG_E,
                total_base_sum: s.total_base_sum - s.p * NEG_E,
                ..quantities(s)
            };
            let signed_for = before.gate == s.gate;
            let refusal = before.refusal();
            &&& refusal is None <==> signed_for && computable(arrived) && balanced(arrived)
            &&& refusal == Some(RiftError::UnauthorizedGate) <==> !signed_for
            &&& refusal == Some(RiftError::MathOverflow) <==> signed_for && !computable(arrived)
            &&& refusal == Some(RiftError::InvariantViolation) <==> signed_for && computable(
                arrived,
            ) && !balanced(arrived)
        }),
{
}

// Instructions as a whole.

/// A new protocol is under the given key, runs, and holds nothing.
pub proof fn law_start(before: Context<Initialize>, after: Context<Initialize>, gate: Pubkey)
    requires
        after.settled(before, gate),
    ensures
        ({
            let s = after.accounts.core_state;
            &&& s.gate == gate && !s.paused
            &&& s.global_field == 0 && s.total_base_sum == 0 && s.total_supply == 0
            &&& s.total_minted == 0 && s.total_burned == 0
            &&& s.p == 0 && s.dust_accumulator == 0
        }),
        after.program_id == before.program_id,
{
}

/// A pause, or its end, is accepted exactly where the signer is the right one. It
/// sets the flag as asked, changes nothing else and reports just itself.
pub proof fn law_pause(
    before: Context<SetPaused>,
    after: Context<SetPaused>,
    paused: bool,
    events: Vec<CoreEvent>,
)
    ensures
        before.refusal() is None <==> before.accounts.gate == before.accounts.core_state.gate,
        before.refusal() is Some ==> before.refusal() == Some(RiftError::UnauthorizedGate),
        after.settled(before, paused, events) ==> {
            &&& after.accounts.core_state.paused == paused
            &&& after.accounts.core_state.gate == before.accounts.core_state.gate
            &&& quantities(after.accounts.core_state) == quantities(before.accounts.core_state)
            &&& after.accounts.gate == before.accounts.gate
            &&& after.program_id == before.program_id
            &&& events@.len() == 1
            &&& events@[0] == CoreEvent::Paused(PausedEvent { paused })
        },
{
}

/// A weight is set on the account of the edge from `from` to `to` and nowhere else.
pub proof fn law_set_edge(
    before: Context<SetEdge>,
    after: Context<SetEdge>,
    from: Pubkey,
    to: Pubkey,
    weight: i128,
)
    ensures
        before.refusal(from, to, weight as int) == before.accounts.refusal(
            weight as int,
            solana::program_address(
                seq![vstd::utf8::encode_utf8("edge"@), from.bytes@, to.bytes@],
                before.program_id.bytes@,
            ),
        ),
        after.settled(before, weight) ==> {
            &&& after.accounts.edge_account.data.weight == weight
            &&& after.accounts.edge_account.key == before.accounts.edge_account.key
            &&& after.accounts.core_state == before.accounts.core_state
            &&& after.accounts.gate == before.accounts.gate
            &&& after.program_id == before.program_id
        },
{
}

/// A registration is held to the address derived from the newcomer, and reports
/// just the newcomer.
pub proof fn law_register(
    before: Context<Register>,
    after: Context<Register>,
    user: Pubkey,
    events: Vec<CoreEvent>,
)
    ensures
        before.refusal(user) == before.accounts.refusal(
            solana::program_address(
                seq![vstd::utf8::encode_utf8("user"@), user.bytes@],
                before.program_id.bytes@,
            ),
        ),
        after.settled(before, user, events) ==> {
            &&& after.accounts.settled(before.accounts, user)
            &&& after.program_id == before.program_id
            &&& events@.len() == 1
            &&& events@[0] == CoreEvent::Registered(RegisteredEvent { user })
        },
{
}

/// An exit is held to the address derived from the authority that the account
/// names.
pub proof fn law_unregister(
    before: Context<Unregister>,
    after: Context<Unregister>,
    events: Vec<CoreEvent>,
)
    ensures
        before.refusal() == before.accounts.refusal(
            solana::program_address(
                seq![
                    vstd::utf8::encode_utf8("user"@),
                    before.accounts.user_account.data.authority.bytes@,
                ],
                before.program_id.bytes@,
            ),
        ),
        after.settled(before, events) ==> {
            &&& after.accounts.settled(before.accounts)
            &&& after.program_id == before.program_id
            &&& events@ == before.accounts.report()
        },
{
}

/// A plain transfer is held to the addresses derived from the signer and from the
/// recipient, each for its own account, and bears no cost.
pub proof fn law_transfer(
    before: Context<Transfer>,
    after: Context<Transfer>,
    amount: u128,
    events: Vec<CoreEvent>,
)
    ensures
        ({
            let t = before.accounts.transfer_ctx;
            before.refusal(amount as int) == before.accounts.refusal(
                amount as int,
                solana::program_address(
                    seq![vstd::utf8::encode_utf8("user"@), t.from_authority.bytes@],
                    before.program_id.bytes@,
                ),
                solana::program_address(
                    seq![vstd::utf8::encode_utf8("user"@), t.to_authority.bytes@],
                    before.program_id.bytes@,
                ),
            )
        }),
        after.settled(before, amount, events) ==> {
            &&& after.accounts.transfer_ctx.settled(
                before.accounts.transfer_ctx,
                amount as int,
                0,
            )
            &&& after.program_id == before.program_id
            &&& events@ == before.accounts.transfer_ctx.report(amount, 0)
        },
{
}

/// A transfer over an edge is held to the addresses derived from the signer, from
/// the recipient and from the pair in this order. It bears the weight of the edge,
/// which stays as it is.
pub proof fn law_transfer_with_edge(
    before: Context<TransferWithEdge>,
    after: Context<TransferWithEdge>,
    amount: u128,
    events: Vec<CoreEvent>,
)
    ensures
        ({
            let t = before.accounts.transfer_ctx;
            before.refusal(amount as int) == before.accounts.refusal(
                amount as int,
                solana::program_address(
                    seq![vstd::utf8::encode_utf8("user"@), t.from_authority.bytes@],
                    before.program_id.bytes@,
                ),
                solana::program_address(
                    seq![vstd::utf8::encode_utf8("user"@), t.to_authority.bytes@],
                    before.program_id.bytes@,
                ),
                solana::program_address(
                    seq![
                        vstd::utf8::encode_utf8("edge"@),
                        t.from_authority.bytes@,
                        t.to_authority.bytes@,
                    ],
                    before.program_id.bytes@,
                ),
            )
        }),
        after.settled(before, amount, events) ==> {
            let weight = before.accounts.edge_account.data.weight as int;
            &&& after.accounts.transfer_ctx.settled(
                before.accounts.transfer_ctx,
                amount as int,
                weight,
            )
            &&& after.accounts.edge_account == before.accounts.edge_account
            &&& after.program_id == before.program_id
            &&& events@ == before.accounts.transfer_ctx.report(amount, weight)
        },
{
}

/// A redistribution changes the core state alone, by what is shared out.
pub proof fn law_redistribute(
    before: Context<Redistribute>,
    after: Context<Redistribute>,
    amount: u128,
    events: Vec<CoreEvent>,
)
    requires
        before.accounts.core_state.p > 0,
        after.settled(before, amount, events),
    ensures
        ({
            let s = before.accounts.core_state;
            let t = after.accounts.core_state;
            let share = t.global_field - s.global_field;
            &&& share * s.p + t.dust_accumulator == amount + s.dust_accumulator
            &&& t.dust_accumulator < s.p
            &&& quantities(t) == (Ledger {
                global_field: s.global_field + share,
                total_supply: s.total_supply + share * s.p,
                total_minted: s.total_minted + share * s.p,
                dust_accumulator: t.dust_accumulator as int,
                ..quantities(s)
            })
            &&& t.gate == s.gate
            &&& t.paused == s.paused
        }),
        after.accounts.gate == before.accounts.gate,
        after.program_id == before.program_id,
        events@ == before.accounts.report(amount),
{
    law_redistribution_effect(before.accounts.core_state, after.accounts.core_state, amount);
}

/// A tick changes the core state alone, and reports just the field it arrives at.
pub proof fn law_apply_neg_entropy(
    before: Context<ApplyNegEntropy>,
    after: Context<ApplyNegEntropy>,
    events: Vec<CoreEvent>,
)
    requires
        after.settled(before, events),
    ensures
        ({
            let s = before.accounts.core_state;
            let t = after.accounts.core_state;
            &&& quantities(t) == (Ledger {
                global_field: s.global_field + NEG_E,
                total_base_sum: s.total_base_sum - s.p * NEG_E,
                ..quantities(s)
            })
            &&& t.gate == s.gate
            &&& t.paused == s.paused
        }),
        after.accounts.gate == before.accounts.gate,
        after.program_id == before.program_id,
        events@.len() == 1,
        events@[0] == CoreEvent::FieldUpdate(
            FieldUpdateEvent { new_global_field: after.accounts.core_state.global_field },
        ),
{
}

} // verus!
