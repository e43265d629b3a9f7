//! Laws of the vesting state machine and of the transfer path, proved over the same
//! functions that the contracts of the instructions are stated with.
use vstd::prelude::*;
use crate::account::{Instruction, VestingState};
use crate::commission::{
    commission_of, lemma_commission_bounded, BASIS_POINTS, DEFAULT_RATE_BASIS_POINTS,
};
use crate::context::TransferTokens;

verus! {

/// One instruction keeps a well-formed record well formed, whether it is accepted or
/// refused.
pub proof fn lemma_step_preserves_well_formed(state: VestingState, instruction: Instruction)
    requires
        state.well_formed(),
    ensures
        state.step(instruction).well_formed(),
        state.step(instruction).total_supply == state.total_supply,
{
}

/// What initialization fixed stays fixed: no history of instructions changes the total
/// supply, the initial release, the interval or the authority, and along it released
/// tokens only grow while the remaining supply only shrinks.
pub proof fn lemma_history_keeps_the_schedule(state: VestingState, history: Seq<Instruction>)
    requires
        state.well_formed(),
    ensures
        state.run(history).total_supply == state.total_supply,
        state.run(history).initial_release == state.initial_release,
        state.run(history).release_interval == state.release_interval,
        state.run(history).authority == state.authority,
        state.run(history).released_tokens >= state.released_tokens,
        state.run(history).remaining_supply <= state.remaining_supply,
        state.run(history).well_formed(),
    decreases history.len(),
{
    if history.len() > 0 {
        lemma_history_keeps_the_schedule(state, history.drop_last());
        lemma_step_preserves_well_formed(state.run(history.drop_last()), history.last());
    }
}

/// Supply is conserved in every reachable state: after an accepted initialization
/// and any history of instructions, released and remaining tokens still add up to the
/// total supply that the record was initialized with.
pub proof fn lemma_reachable_states_conserve_supply(
    authority: Seq<u8>,
    total_supply: nat,
    initial_release: nat,
    release_interval: int,
    now: int,
    release_limit: Option<nat>,
    history: Seq<Instruction>,
)
    requires
        VestingState::initialize_rejection(total_supply, initial_release) is None,
    ensures
        ({
            let state = VestingState::initialized(
                authority,
                total_supply,
                initial_release,
                release_interval,
                now,
                release_limit,
            ).run(history);
            &&& state.released_tokens + state.remaining_supply == state.total_supply
            &&& state.total_supply == total_supply
            &&& state.well_formed()
        }),
{
    lemma_history_keeps_the_schedule(
        VestingState::initialized(
            authority,
            total_supply,
            initial_release,
            release_interval,
            now,
            release_limit,
        ),
        history,
    );
}

/// A release is never accepted before its time: while `now` is earlier than the last
/// release time plus the interval, every release request is refused and the record
/// stays as it is.
pub proof fn lemma_release_never_early(state: VestingState, caller: Seq<u8>, amount: nat, now: int)
    requires
        now < state.last_release_time + state.release_interval,
    ensures
        state.release_rejection(caller, amount, now) is Some,
        state.step(Instruction::Release { caller, amount, now }) == state,
{
}

/// A release that is due is accepted at the deadline and at any time after it, and
/// moves the release time to the time of the call.
pub proof fn lemma_release_on_time(state: VestingState, amount: nat, now: int)
    requires
        now >= state.last_release_time + state.release_interval,
        state.releases_remaining != Some(0nat),
        amount <= state.remaining_supply,
    ensures
        state.release_rejection(state.authority, amount, now) is None,
        state.step(Instruction::Release { caller: state.authority, amount, now })
            == state.after_release(amount, now),
        state.after_release(amount, now).remaining_supply == state.remaining_supply - amount,
        state.after_release(amount, now).last_release_time == now,
{
}

/// Missed windows are forfeited: a release moves the release time to the time of the
/// call, so the next release is due one full interval after that call, however late
/// the call came.
pub proof fn lemma_missed_windows_are_forfeited(
    state: VestingState,
    amount: nat,
    now: int,
    later: int,
)
    ensures
        state.after_release(amount, now).release_due(later) == (later >= now
            + state.release_interval),
{
}

/// Once the supply or the bounded number of releases is used up, no release of a
/// positive amount is accepted again, whatever else is asked in between.
pub proof fn lemma_exhaustion_is_final(
    state: VestingState,
    history: Seq<Instruction>,
    caller: Seq<u8>,
    amount: nat,
    now: int,
)
    requires
        state.exhausted(),
        amount > 0,
    ensures
        state.run(history).exhausted(),
        state.run(history).release_rejection(caller, amount, now) is Some,
    decreases history.len(),
{
    if history.len() > 0 {
        lemma_exhaustion_is_final(state, history.drop_last(), caller, amount, now);
    }
}

/// A transfer conserves the three balances together, whether it is accepted or
/// refused.
pub proof fn lemma_transfer_conserves_balances(ctx: TransferTokens, amount: u64)
    ensures
        ctx.balances_after(amount).total() == ctx.balances().total(),
{
}

/// What an accepted transfer takes from the source is what the other two accounts
/// receive: the net amount and the commission add up to the amount, and the
/// commission is no larger than the amount while the rate is at most one.
pub proof fn lemma_transfer_splits_amount(ctx: TransferTokens, amount: u64)
    requires
        ctx.my_account@.well_formed(),
    ensures
        ctx.net_amount(amount) + ctx.commission(amount) == amount,
        0 <= ctx.commission(amount) <= amount,
        0 <= ctx.net_amount(amount) <= amount,
{
    lemma_commission_bounded(amount as nat, ctx.my_account@.commission_rate);
}

/// At the default rate the commission is one four-hundredth of the amount, rounded
/// toward zero.
pub proof fn lemma_default_rate_divides_by_400(amount: nat)
    ensures
        commission_of(amount, DEFAULT_RATE_BASIS_POINTS as nat) == amount / 400,
{
}

/// The commission rounds toward zero: an amount whose product with the rate stays
/// below ten thousand pays nothing, and all of it reaches the recipient.
pub proof fn lemma_small_amount_pays_nothing(amount: nat, rate: nat)
    requires
        amount * rate < BASIS_POINTS,
    ensures
        commission_of(amount, rate) == 0,
{
}

/// Updating the commission rate twice with the same rate leaves the record as
/// updating it once does.
pub proof fn lemma_rate_update_idempotent(state: VestingState, caller: Seq<u8>, rate: nat)
    ensures
        ({
            let update = Instruction::UpdateCommissionRate { caller, rate };
            state.step(update).step(update) == state.step(update)
        }),
{
}

/// A transfer of nothing is always accepted, pays no commission, moves nothing and
/// leaves the three balances as they are.
pub proof fn lemma_zero_transfer_changes_nothing(ctx: TransferTokens)
    ensures
        ctx.rejection(0) is None,
        ctx.commission(0) == 0,
        ctx.net_amount(0) == 0,
        ctx.balances_after(0) == ctx.balances(),
{
}

} // verus!
