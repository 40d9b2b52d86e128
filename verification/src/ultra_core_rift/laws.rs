//! What holds of the core program as a whole.
use vstd::prelude::*;

use crate::account::{Error, Pubkey};
use crate::address;
use crate::rift_common;
use crate::rift_common::{RiftError, MAX_EDGE_COST, MAX_PARTICIPANTS, NEG_E};
use crate::ultra_core_rift::field::{ApplyNegEntropy, Redistribute};
use crate::ultra_core_rift::gate::SetEdge;
use crate::ultra_core_rift::ledger::Ledger;
use crate::ultra_core_rift::membership::{Register, Unregister};
use crate::ultra_core_rift::state::CoreState;
use crate::ultra_core_rift::transfer::{Transfer, TransferCtx, TransferWithEdge};

verus! {

// The invariant.

/// A ledger of machine values passes the check of the invariant exactly if it is
/// sound and its field contribution is an `i128`.
pub proof fn law_check_decides_invariant(ledger: Ledger)
    requires
        ledger.fits(),
    ensures
        ledger.fault() is None <==> ledger.sound() && rift_common::is_i128(ledger.field_contrib()),
{
}

/// A registration keeps both identities of the supply and the bound on the dust,
/// and it leaves the supply, the minted and the burned total alone.
pub proof fn law_register_keeps_identities(ledger: Ledger)
    requires
        ledger.sound(),
        ledger.fits(),
        ledger.p > 0 || ledger.dust_accumulator == 0,
    ensures
        ledger.registered().sound(),
        ledger.registered().total_supply == ledger.total_supply,
        ledger.registered().total_minted == ledger.total_minted,
        ledger.registered().total_burned == ledger.total_burned,
{
    let field = ledger.global_field;
    let p = ledger.p;
    assert(field * (p + 1) == field * p + field) by (nonlinear_arith);
}

/// An exit keeps both identities of the supply.
pub proof fn law_unregister_keeps_identities(ledger: Ledger, base: int)
    requires
        ledger.sound(),
        0 <= base <= ledger.total_supply,
    ensures
        ledger.unregistered(base).supply_is_distributed(),
        ledger.unregistered(base).supply_is_net_mint(),
        ledger.unregistered(base).total_supply <= i128::MAX,
{
    let field = ledger.global_field;
    let p = ledger.p;
    assert(field * (p - 1) == field * p - field) by (nonlinear_arith);
}

/// The cost of a transfer keeps both identities of the supply and the bound on
/// the dust, whatever its sign: the base sum and the supply change by the same.
pub proof fn law_charge_keeps_identities(ledger: Ledger, cost: int)
    requires
        ledger.sound(),
        0 <= ledger.total_supply - cost <= i128::MAX,
    ensures
        ledger.charged(cost).sound(),
{
}

/// A redistribution keeps both identities of the supply, and its dust is less
/// than the number of participants.
pub proof fn law_redistribution_keeps_identities(ledger: Ledger, amount: int)
    requires
        ledger.sound(),
        ledger.fits(),
        ledger.p > 0,
        0 <= amount,
        ledger.redistributed(amount).total_supply <= i128::MAX,
    ensures
        ledger.redistributed(amount).sound(),
{
    let field = ledger.global_field;
    let p = ledger.p;
    let q = ledger.share_of(amount);
    law_redistribution_conserves(ledger, amount);
    assert((field + q) * p == field * p + q * p) by (nonlinear_arith);
    assert(0 <= q * p) by (nonlinear_arith)
        requires
            0 <= q,
            0 < p,
    ;
}

/// A tick of negative entropy keeps the invariant, and it leaves the supply, the
/// minted and the burned total alone.
pub proof fn law_entropy_keeps_identities(ledger: Ledger)
    requires
        ledger.sound(),
    ensures
        ledger.cooled().sound(),
        ledger.cooled().total_supply == ledger.total_supply,
        ledger.cooled().total_minted == ledger.total_minted,
        ledger.cooled().total_burned == ledger.total_burned,
{
    let field = ledger.global_field;
    let p = ledger.p;
    assert((field + NEG_E) * p == field * p + p * NEG_E) by (nonlinear_arith);
}

/// From a lawful ledger no instruction arrives at a breach of the invariant, with one
/// exception: an exit that leaves fewer participants than there is dust.
pub proof fn law_breach_only_by_exit_over_dust(
    ledger: Ledger,
    base: int,
    cost: int,
    amount: int,
)
    requires
        lawful(ledger),
        0 <= base,
        0 <= amount,
    ensures
        ledger.registered().closing_fault() != Some(RiftError::InvariantViolation),
        ledger.charged(cost).closing_fault() != Some(RiftError::InvariantViolation),
        ledger.p > 0 ==> ledger.redistributed(amount).closing_fault() != Some(
            RiftError::InvariantViolation,
        ),
        ledger.cooled().closing_fault() != Some(RiftError::InvariantViolation),
        ledger.unregistered(base).closing_fault() == Some(RiftError::InvariantViolation)
            ==> 1 < ledger.p && ledger.dust_accumulator == ledger.p - 1,
{
    law_register_keeps_identities(ledger);
    if ledger.charged(cost).fits() && ledger.charged(cost).measurable() {
        law_charge_keeps_identities(ledger, cost);
    }
    if ledger.p > 0 && ledger.redistributed(amount).measurable() {
        law_redistribution_keeps_identities(ledger, amount);
    }
    law_entropy_keeps_identities(ledger);
    if ledger.unregistered(base).fits() {
        law_unregister_keeps_identities(ledger, base);
    }
}

/// A registration followed by the exit of the same participant restores the
/// ledger.
pub proof fn law_exit_undoes_registration(ledger: Ledger)
    ensures
        ledger.registered().unregistered(0) == ledger,
{
}

// Histories.

/// What an instruction does to the ledger. `Stay` is an instruction that leaves
/// it alone: a pause, an edge, a transfer of nothing at no cost, a refusal.
pub enum Step {
    Stay,
    Register,
    Unregister { base: int },
    Charge { cost: int },
    Redistribute { amount: int },
    Cool,
}

/// The ledger after a step.
pub open spec fn after(ledger: Ledger, step: Step) -> Ledger {
    match step {
        Step::Stay => ledger,
        Step::Register => ledger.registered(),
        Step::Unregister { base } => ledger.unregistered(base),
        Step::Charge { cost } => ledger.charged(cost),
        Step::Redistribute { amount } => ledger.redistributed(amount),
        Step::Cool => ledger.cooled(),
    }
}

/// An accepted instruction can take the step from `ledger`.
pub open spec fn admits(ledger: Ledger, step: Step) -> bool {
    &&& step != Step::Stay ==> after(ledger, step).closing_fault() is None
    &&& match step {
        Step::Register => ledger.p < MAX_PARTICIPANTS,
        Step::Unregister { base } => 0 <= base,
        Step::Redistribute { amount } => 0 < ledger.p && 0 <= amount,
        _ => true,
    }
}

/// The ledger after the steps.
pub open spec fn run(ledger: Ledger, steps: Seq<Step>) -> Ledger
    decreases steps.len(),
{
    if steps.len() == 0 {
        ledger
    } else {
        after(run(ledger, steps.drop_last()), steps.last())
    }
}

/// Each of the steps is admitted where it is taken.
pub open spec fn history(ledger: Ledger, steps: Seq<Step>) -> bool
    decreases steps.len(),
{
    steps.len() == 0 || {
        &&& history(ledger, steps.drop_last())
        &&& admits(run(ledger, steps.drop_last()), steps.last())
    }
}

/// What holds of every ledger that a protocol reaches: it fits its types, it
/// passes the check of the invariant, it has no more participants than allowed,
/// and without participants there is no dust.
pub open spec fn lawful(ledger: Ledger) -> bool {
    &&& ledger.fits()
    &&& ledger.holds()
    &&& ledger.p <= MAX_PARTICIPANTS
    &&& ledger.p == 0 ==> ledger.dust_accumulator == 0
}

/// A step keeps the invariant, and neither the minted nor the burned total falls.
pub proof fn law_step_keeps_invariant(ledger: Ledger, step: Step)
    requires
        lawful(ledger),
        admits(ledger, step),
    ensures
        lawful(after(ledger, step)),
        after(ledger, step).total_minted >= ledger.total_minted,
        after(ledger, step).total_burned >= ledger.total_burned,
{
    match step {
        Step::Redistribute { amount } => {
            law_redistribution_conserves(ledger, amount);
            let q = ledger.share_of(amount);
            assert(0 <= q * ledger.p) by (nonlinear_arith)
                requires
                    0 <= q,
                    0 < ledger.p,
            ;
        },
        _ => {},
    }
}

/// At all times: whatever instructions a new protocol has executed, the invariant
/// holds.
pub proof fn law_invariant_at_all_times(steps: Seq<Step>)
    requires
        history(Ledger::empty(), steps),
    ensures
        lawful(run(Ledger::empty(), steps)),
    decreases steps.len(),
{
    if steps.len() > 0 {
        law_invariant_at_all_times(steps.drop_last());
        law_step_keeps_invariant(run(Ledger::empty(), steps.drop_last()), steps.last());
    }
}

/// In every history of a new protocol the minted and the burned total only grow:
/// after `n` of the steps they are at most what they are after all.
pub proof fn law_totals_never_fall(steps: Seq<Step>, n: int)
    requires
        history(Ledger::empty(), steps),
        0 <= n <= steps.len(),
    ensures
        run(Ledger::empty(), steps.take(n)).total_minted <= run(
            Ledger::empty(),
            steps,
        ).total_minted,
        run(Ledger::empty(), steps.take(n)).total_burned <= run(
            Ledger::empty(),
            steps,
        ).total_burned,
    decreases steps.len(),
{
    if n == steps.len() {
        assert(steps.take(n) =~= steps);
    } else {
        let earlier = steps.drop_last();
        law_totals_never_fall(earlier, n);
        assert(earlier.take(n) =~= steps.take(n));
        law_invariant_at_all_times(earlier);
        law_step_keeps_invariant(run(Ledger::empty(), earlier), steps.last());
    }
}

/// An accepted registration is an admitted step.
pub proof fn law_register_is_a_step(
    before: Register,
    after_it: Register,
    user: Pubkey,
    derived: Option<(Seq<u8>, u8)>,
)
    requires
        before.refusal(derived) is None,
        after_it.settled(before, user),
    ensures
        admits(before.core_state@, Step::Register),
        after_it.core_state@ == after(before.core_state@, Step::Register),
{
}

/// An accepted exit is an admitted step.
pub proof fn law_unregister_is_a_step(
    before: Unregister,
    after_it: Unregister,
    derived: Option<(Seq<u8>, u8)>,
)
    requires
        before.refusal(derived) is None,
        after_it.settled(before),
    ensures
        ({
            let step = Step::Unregister { base: before.user_account.data.base_balance as int };
            &&& admits(before.core_state@, step)
            &&& after_it.core_state@ == after(before.core_state@, step)
        }),
{
}

/// An accepted transfer is an admitted step.
pub proof fn law_transfer_is_a_step(
    before: TransferCtx,
    after_it: TransferCtx,
    amount: u128,
    edge_cost: i128,
)
    requires
        before.refusal(amount as int, edge_cost as int) is None,
        after_it.settled(before, amount as int, edge_cost as int),
    ensures
        ({
            let step = if amount == 0 && edge_cost == 0 {
                Step::Stay
            } else {
                Step::Charge { cost: edge_cost as int }
            };
            &&& admits(before.core_state@, step)
            &&& after_it.core_state@ == after(before.core_state@, step)
        }),
{
}

/// An accepted redistribution is an admitted step.
pub proof fn law_redistribution_is_a_step(
    before: Redistribute,
    after_it: CoreState,
    amount: u128,
)
    requires
        before.refusal(amount as int) is None,
        after_it.moved(before.core_state, before.core_state@.redistributed(amount as int)),
    ensures
        admits(before.core_state@, Step::Redistribute { amount: amount as int }),
        after_it@ == after(before.core_state@, Step::Redistribute { amount: amount as int }),
{
}

/// An accepted tick of negative entropy is an admitted step.
pub proof fn law_entropy_is_a_step(before: ApplyNegEntropy, after_it: CoreState)
    requires
        before.refusal() is None,
        after_it.moved(before.core_state, before.core_state@.cooled()),
    ensures
        admits(before.core_state@, Step::Cool),
        after_it@ == after(before.core_state@, Step::Cool),
{
}

/// A pause leaves the ledger alone, and so does its end.
pub proof fn law_pause_is_no_step(before: CoreState, paused: bool)
    ensures
        (CoreState { paused, ..before })@ == before@,
{
}

// Redistribution.

/// Rounding neither makes nor loses a unit: what is shared out and the new dust
/// together are the amount and the old dust, and the supply grows by what is
/// shared out.
pub proof fn law_redistribution_conserves(ledger: Ledger, amount: int)
    requires
        ledger.p > 0,
        0 <= amount,
        0 <= ledger.dust_accumulator,
    ensures
        0 <= ledger.share_of(amount),
        0 <= ledger.redistributed(amount).dust_accumulator < ledger.p,
        ledger.share_of(amount) * ledger.p + ledger.redistributed(amount).dust_accumulator
            == amount + ledger.dust_accumulator,
        ledger.redistributed(amount).total_supply + ledger.redistributed(amount).dust_accumulator
            == ledger.total_supply + ledger.dust_accumulator + amount,
{
    let total = amount + ledger.dust_accumulator;
    let p = ledger.p;
    assert(0 <= total / p && 0 <= total % p < p && (total / p) * p + total % p == total)
        by (nonlinear_arith)
        requires
            0 <= total,
            0 < p,
    ;
}

/// The dust is carried over: two redistributions come to the same as one of the
/// sum.
pub proof fn law_redistributions_add_up(ledger: Ledger, first: int, second: int)
    requires
        ledger.p > 0,
        0 <= first,
        0 <= second,
        0 <= ledger.dust_accumulator,
    ensures
        ledger.redistributed(first).redistributed(second) == ledger.redistributed(first + second),
{
    let p = ledger.p;
    let middle = ledger.redistributed(first);
    let q1 = ledger.share_of(first);
    let q2 = middle.share_of(second);
    let r2 = middle.redistributed(second).dust_accumulator;
    let total = first + second + ledger.dust_accumulator;
    law_redistribution_conserves(ledger, first);
    law_redistribution_conserves(middle, second);
    assert((q1 + q2) * p == q1 * p + q2 * p) by (nonlinear_arith);
    vstd::arithmetic::div_mod::lemma_fundamental_div_mod_converse(total, p, q1 + q2, r2);
}

/// A redistribution never lowers the field, and a tick of negative entropy lowers
/// it by `-NEG_E`.
pub proof fn law_field_moves(ledger: Ledger, amount: int)
    requires
        ledger.p > 0,
        0 <= amount,
        0 <= ledger.dust_accumulator,
    ensures
        ledger.redistributed(amount).global_field >= ledger.global_field,
        ledger.cooled().global_field == ledger.global_field + NEG_E < ledger.global_field,
{
    law_redistribution_conserves(ledger, amount);
}

/// The guard against an overflow of `p * NEG_E` never refuses a tick.
pub proof fn law_entropy_limit_is_never_met(accounts: ApplyNegEntropy)
    ensures
        accounts.refusal() != Some(RiftError::PhysicalOverflowLimit),
{
}

// Debt.

/// The debt floor is not positive, so a sender who is left with nothing owed is
/// never refused for debt.
pub proof fn law_floor_is_not_positive(ledger: Ledger)
    requires
        ledger.fits(),
    ensures
        ledger.debt_floor() <= 0,
{
    let supply = ledger.total_supply;
    let p = ledger.p;
    if p > 0 {
        assert(0 <= supply / (10 * p)) by (nonlinear_arith)
            requires
                0 <= supply,
                0 < p,
        ;
    }
}

/// No transfer takes the sender below the debt floor, and none lowers the balance
/// of a recipient other than the sender.
pub proof fn law_debt_floor(
    before: TransferCtx,
    after_it: TransferCtx,
    amount: u128,
    edge_cost: i128,
)
    requires
        amount > 0 || edge_cost != 0,
        before.refusal(amount as int, edge_cost as int) is None,
        after_it.settled(before, amount as int, edge_cost as int),
    ensures
        after_it.from_user.data.base_balance >= before.core_state@.debt_floor(),
        !before.to_self() ==> after_it.to_user.data.base_balance
            == before.to_user.data.base_balance + amount,
{
}

/// A transfer that burns nothing, or that leaves the sender without debt, leaves
/// the sender at or above the debt floor of the ledger it arrives at, too.
pub proof fn law_debt_floor_after(
    before: TransferCtx,
    after_it: TransferCtx,
    amount: u128,
    edge_cost: i128,
)
    requires
        amount > 0 || edge_cost != 0,
        edge_cost <= 0 || after_it.from_user.data.base_balance >= 0,
        before.refusal(amount as int, edge_cost as int) is None,
        after_it.settled(before, amount as int, edge_cost as int),
    ensures
        after_it.from_user.data.base_balance >= after_it.core_state@.debt_floor(),
{
    let ledger = before.core_state@;
    let p = ledger.p;
    let low = ledger.total_supply;
    let high = low - edge_cost;
    law_floor_is_not_positive(after_it.core_state@);
    if p > 0 && edge_cost <= 0 {
        assert(low / (10 * p) <= high / (10 * p)) by (nonlinear_arith)
            requires
                0 < p,
                0 <= low <= high,
        ;
    }
}

/// A participant in debt cannot leave. Where the signer and the account are the
/// right ones, the exit is refused for the debt.
pub proof fn law_no_exit_in_debt(accounts: Unregister, derived: Option<(Seq<u8>, u8)>)
    requires
        accounts.user_account.data.base_balance < 0,
    ensures
        accounts.refusal(derived) is Some,
        accounts.gate == accounts.core_state.gate && address::is_at(
            accounts.user_account.key,
            derived,
        ) ==> accounts.refusal(derived) == Some(Error::Rift(RiftError::DebtOnExitNotAllowed)),
{
}

// Transfers.

/// A transfer takes from the two balances together just its cost, whatever the
/// amount. Where sender and recipient are one account, its cost is all that the
/// account loses. The ledger loses as much, and without a cost it is left alone.
pub proof fn law_transfer_conserves(
    before: TransferCtx,
    after_it: TransferCtx,
    amount: u128,
    edge_cost: i128,
)
    requires
        before.to_self() ==> before.from_user == before.to_user,
        after_it.settled(before, amount as int, edge_cost as int),
    ensures
        !before.to_self() ==> after_it.from_user.data.base_balance
            + after_it.to_user.data.base_balance == before.from_user.data.base_balance
            + before.to_user.data.base_balance - edge_cost,
        before.to_self() ==> after_it.from_user == after_it.to_user
            && after_it.from_user.data.base_balance == before.from_user.data.base_balance
            - edge_cost,
        after_it.core_state@.total_base_sum == before.core_state@.total_base_sum - edge_cost,
        after_it.core_state@.total_supply == before.core_state@.total_supply - edge_cost,
        edge_cost == 0 ==> after_it.core_state@ == before.core_state@,
{
}

/// Over an edge of weight 0 a transfer to the named recipient is a plain
/// transfer: it is refused for the same reasons, and settles in the same way.
pub proof fn law_weightless_edge_is_plain(
    edge: TransferWithEdge,
    amount: u128,
    from_derived: Option<(Seq<u8>, u8)>,
    to_derived: Option<(Seq<u8>, u8)>,
    edge_derived: Option<(Seq<u8>, u8)>,
)
    requires
        edge.edge_account.data.weight == 0,
        address::is_at(edge.edge_account.key, edge_derived),
        edge.transfer_ctx.to_user.data.authority == edge.transfer_ctx.to_authority,
    ensures
        edge.refusal(amount as int, from_derived, to_derived, edge_derived) == (Transfer {
            transfer_ctx: edge.transfer_ctx,
        }).refusal(amount as int, from_derived, to_derived),
        edge.transfer_ctx.report(amount, edge.edge_account.data.weight as int)
            == edge.transfer_ctx.report(amount, 0),
{
}

/// An accepted weight is within the limit on edge costs.
pub proof fn law_edge_weight_is_bounded(
    accounts: SetEdge,
    weight: i128,
    derived: Option<(Seq<u8>, u8)>,
)
    requires
        accounts.refusal(weight as int, derived) is None,
    ensures
        -MAX_EDGE_COST <= weight <= MAX_EDGE_COST,
{
}

// The participants' balances.

/// The sum of the balances.
pub open spec fn sum(balances: Seq<int>) -> int
    decreases balances.len(),
{
    if balances.len() == 0 {
        0
    } else {
        sum(balances.drop_last()) + balances.last()
    }
}

/// The ledger counts the participants, and its base sum is the sum of their base
/// balances.
pub open spec fn accounts_for(ledger: Ledger, balances: Seq<int>) -> bool {
    &&& ledger.p == balances.len()
    &&& ledger.total_base_sum == sum(balances)
}

/// A change of one balance changes the sum by as much.
proof fn lemma_sum_update(balances: Seq<int>, i: int, balance: int)
    requires
        0 <= i < balances.len(),
    ensures
        sum(balances.update(i, balance)) == sum(balances) - balances[i] + balance,
    decreases balances.len(),
{
    let updated = balances.update(i, balance);
    if i == balances.len() - 1 {
        assert(updated.drop_last() =~= balances.drop_last());
    } else {
        lemma_sum_update(balances.drop_last(), i, balance);
        assert(updated.drop_last() =~= balances.drop_last().update(i, balance));
    }
}

/// The removal of one balance lowers the sum by it.
proof fn lemma_sum_remove(balances: Seq<int>, i: int)
    requires
        0 <= i < balances.len(),
    ensures
        sum(balances.remove(i)) == sum(balances) - balances[i],
    decreases balances.len(),
{
    if i < balances.len() - 1 {
        lemma_sum_remove(balances.drop_last(), i);
        assert(balances.remove(i).drop_last() =~= balances.drop_last().remove(i));
    }
}

/// A transfer keeps the base sum the sum of the balances, also where a participant
/// sends to itself.
pub proof fn law_transfer_keeps_base_sum(
    before: TransferCtx,
    after_it: TransferCtx,
    amount: u128,
    edge_cost: i128,
    balances: Seq<int>,
    from: int,
    to: int,
)
    requires
        0 <= from < balances.len(),
        0 <= to < balances.len(),
        from == to <==> before.to_self(),
        balances[from] == before.from_user.data.base_balance,
        balances[to] == before.to_user.data.base_balance,
        accounts_for(before.core_state@, balances),
        after_it.settled(before, amount as int, edge_cost as int),
    ensures
        accounts_for(
            after_it.core_state@,
            balances.update(from, after_it.from_user.data.base_balance as int).update(
                to,
                after_it.to_user.data.base_balance as int,
            ),
        ),
{
    let paid = balances.update(from, after_it.from_user.data.base_balance as int);
    lemma_sum_update(balances, from, after_it.from_user.data.base_balance as int);
    lemma_sum_update(paid, to, after_it.to_user.data.base_balance as int);
}

/// A redistribution keeps the base sum the sum of the balances, and it raises
/// every effective balance, that is base balance plus field, by the same share.
pub proof fn law_redistribution_keeps_base_sum(ledger: Ledger, amount: int, balances: Seq<int>)
    requires
        accounts_for(ledger, balances),
    ensures
        accounts_for(ledger.redistributed(amount), balances),
        forall|i: int|
            0 <= i < balances.len() ==> #[trigger] balances[i] + ledger.redistributed(
                amount,
            ).global_field == balances[i] + ledger.global_field + ledger.share_of(amount),
{
}

/// A registration keeps the base sum the sum of the balances exactly while the
/// field is 0: the newcomer holds 0, and the base sum falls by the field.
pub proof fn law_register_keeps_base_sum(ledger: Ledger, balances: Seq<int>)
    requires
        accounts_for(ledger, balances),
    ensures
        accounts_for(ledger.registered(), balances.push(0)) <==> ledger.global_field == 0,
{
    assert(balances.push(0).drop_last() =~= balances);
}

/// An exit keeps the base sum the sum of the balances exactly while the field
/// is 0: the base sum falls by the balance and rises by the field.
pub proof fn law_unregister_keeps_base_sum(ledger: Ledger, balances: Seq<int>, i: int)
    requires
        accounts_for(ledger, balances),
        0 <= i < balances.len(),
    ensures
        accounts_for(ledger.unregistered(balances[i]), balances.remove(i))
            <==> ledger.global_field == 0,
{
    lemma_sum_remove(balances, i);
}

/// A tick of negative entropy keeps the base sum the sum of the balances exactly
/// while there are no participants: no balance changes, and the base sum rises.
pub proof fn law_entropy_keeps_base_sum(ledger: Ledger, balances: Seq<int>)
    requires
        accounts_for(ledger, balances),
    ensures
        accounts_for(ledger.cooled(), balances) <==> ledger.p == 0,
{
}

/// While the base sum is the sum of the balances, the supply of a sound ledger is
/// the sum of the effective balances, that is base balance plus field.
pub proof fn law_supply_is_sum_of_effective_balances(ledger: Ledger, balances: Seq<int>)
    requires
        ledger.sound(),
        accounts_for(ledger, balances),
    ensures
        ledger.total_supply == sum(
            Seq::new(balances.len(), |i: int| balances[i] + ledger.global_field),
        ),
{
    lemma_sum_shifted(balances, ledger.global_field);
}

proof fn lemma_sum_shifted(balances: Seq<int>, shift: int)
    ensures
        sum(Seq::new(balances.len(), |i: int| balances[i] + shift)) == sum(balances) + shift
            * balances.len(),
    decreases balances.len(),
{
    let shifted = Seq::new(balances.len(), |i: int| balances[i] + shift);
    if balances.len() > 0 {
        let n = balances.len() as int;
        let shorter = balances.drop_last();
        lemma_sum_shifted(shorter, shift);
        assert(shifted.drop_last() =~= Seq::new(shorter.len(), |i: int| shorter[i] + shift));
        assert(shift * n == shift * (n - 1) + shift) by (nonlinear_arith);
    }
}

// Authority.

/// Registrations, exits, edge weights, redistributions and entropy take the
/// signature of the key that the core state names.
pub proof fn law_only_the_gate(
    register: Register,
    unregister: Unregister,
    set_edge: SetEdge,
    redistribute: Redistribute,
    entropy: ApplyNegEntropy,
    weight: int,
    amount: int,
    derived: Option<(Seq<u8>, u8)>,
)
    ensures
        register.refusal(derived) is None ==> register.gate == register.core_state.gate,
        unregister.refusal(derived) is None ==> unregister.gate == unregister.core_state.gate,
        set_edge.refusal(weight, derived) is None ==> set_edge.gate == set_edge.core_state.gate,
        redistribute.refusal(amount) is None ==> redistribute.gate
            == redistribute.core_state.gate,
        entropy.refusal() is None ==> entropy.gate == entropy.core_state.gate,
        redistribute.gate != redistribute.core_state.gate ==> redistribute.refusal(amount) == Some(
            RiftError::UnauthorizedGate,
        ),
        entropy.gate != entropy.core_state.gate ==> entropy.refusal() == Some(
            RiftError::UnauthorizedGate,
        ),
        unregister.gate != unregister.core_state.gate ==> unregister.refusal(derived) == Some(
            Error::Rift(RiftError::UnauthorizedGate),
        ),
        register.gate != register.core_state.gate && address::is_at(
            register.user_account.key,
            derived,
        ) ==> register.refusal(derived) == Some(Error::Rift(RiftError::UnauthorizedGate)),
        set_edge.gate != set_edge.core_state.gate && address::is_at(
            set_edge.edge_account.key,
            derived,
        ) ==> set_edge.refusal(weight, derived) == Some(Error::Rift(RiftError::UnauthorizedGate)),
{
}

/// A transfer is accepted only if the account it takes from stands at the address
/// derived from the signer, and the account it gives to at the one derived from
/// the named recipient.
pub proof fn law_only_the_signer_spends(
    accounts: Transfer,
    program_id: Pubkey,
    amount: int,
)
    requires
        accounts.refusal(
            amount,
            address::user_derivation(program_id, accounts.transfer_ctx.from_authority),
            address::user_derivation(program_id, accounts.transfer_ctx.to_authority),
        ) is None,
    ensures
        address::is_at(
            accounts.transfer_ctx.from_user.key,
            address::user_derivation(program_id, accounts.transfer_ctx.from_authority),
        ),
        address::is_at(
            accounts.transfer_ctx.to_user.key,
            address::user_derivation(program_id, accounts.transfer_ctx.to_authority),
        ),
{
}

/// A transfer over an edge is accepted only if, besides, the account it gives to
/// names the recipient, and the edge is the one between the two.
pub proof fn law_edge_binds_both_ends(
    accounts: TransferWithEdge,
    program_id: Pubkey,
    amount: int,
)
    requires
        ({
            let from = accounts.transfer_ctx.from_authority;
            let to = accounts.transfer_ctx.to_authority;
            accounts.refusal(
                amount,
                address::user_derivation(program_id, from),
                address::user_derivation(program_id, to),
                address::edge_derivation(program_id, from, to),
            ) is None
        }),
    ensures
        ({
            let from = accounts.transfer_ctx.from_authority;
            let to = accounts.transfer_ctx.to_authority;
            &&& address::is_at(
                accounts.transfer_ctx.from_user.key,
                address::user_derivation(program_id, from),
            )
            &&& address::is_at(
                accounts.transfer_ctx.to_user.key,
                address::user_derivation(program_id, to),
            )
            &&& address::is_at(
                accounts.edge_account.key,
                address::edge_derivation(program_id, from, to),
            )
            &&& accounts.transfer_ctx.to_user.data.authority == to
        }),
{
}

// The pause.

/// While the protocol is paused, every transfer is refused. Where the accounts
/// are the right ones, it is refused for the pause.
pub proof fn law_pause_stops_transfers(
    plain: Transfer,
    edge: TransferWithEdge,
    amount: int,
    edge_cost: int,
    from_derived: Option<(Seq<u8>, u8)>,
    to_derived: Option<(Seq<u8>, u8)>,
    edge_derived: Option<(Seq<u8>, u8)>,
)
    ensures
        plain.transfer_ctx.core_state.paused ==> plain.transfer_ctx.refusal(amount, edge_cost)
            == Some(RiftError::ProtocolPaused),
        plain.transfer_ctx.core_state.paused ==> plain.refusal(
            amount,
            from_derived,
            to_derived,
        ) is Some,
        edge.transfer_ctx.core_state.paused ==> edge.refusal(
            amount,
            from_derived,
            to_derived,
            edge_derived,
        ) is Some,
        plain.transfer_ctx.core_state.paused && address::is_at(
            plain.transfer_ctx.from_user.key,
            from_derived,
        ) && address::is_at(plain.transfer_ctx.to_user.key, to_derived) ==> plain.refusal(
            amount,
            from_derived,
            to_derived,
        ) == Some(Error::Rift(RiftError::ProtocolPaused)),
        edge.transfer_ctx.core_state.paused && address::is_at(
            edge.transfer_ctx.from_user.key,
            from_derived,
        ) && address::is_at(edge.transfer_ctx.to_user.key, to_derived) && address::is_at(
            edge.edge_account.key,
            edge_derived,
        ) && edge.transfer_ctx.to_user.data.authority == edge.transfer_ctx.to_authority
            ==> edge.refusal(amount, from_derived, to_derived, edge_derived) == Some(
            Error::Rift(RiftError::ProtocolPaused),
        ),
{
}

/// A pause does not touch gate-only instructions: registrations, exits, edges,
/// redistributions and entropy are accepted or refused alike, paused or not.
pub proof fn law_pause_spares_the_gate(
    register: Register,
    unregister: Unregister,
    set_edge: SetEdge,
    redistribute: Redistribute,
    entropy: ApplyNegEntropy,
    weight: int,
    amount: int,
    derived: Option<(Seq<u8>, u8)>,
    paused: bool,
)
    ensures
        (Register {
            core_state: CoreState { paused, ..register.core_state },
            ..register
        }).refusal(derived) == register.refusal(derived),
        (Unregister {
            core_state: CoreState { paused, ..unregister.core_state },
            ..unregister
        }).refusal(derived) == unregister.refusal(derived),
        (SetEdge {
            core_state: CoreState { paused, ..set_edge.core_state },
            ..set_edge
        }).refusal(weight, derived) == set_edge.refusal(weight, derived),
        (Redistribute {
            core_state: CoreState { paused, ..redistribute.core_state },
            ..redistribute
        }).refusal(amount) == redistribute.refusal(amount),
        (ApplyNegEntropy {
            core_state: CoreState { paused, ..entropy.core_state },
            ..entropy
        }).refusal() == entropy.refusal(),
{
}

} // verus!
