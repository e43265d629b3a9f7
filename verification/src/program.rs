//! The instructions: initialization, scheduled release, fee-split transfer and the
//! changes of settings, with the authorization guard and the scheduler gate they share.
use vstd::prelude::*;
use crate::account::{cap_as_nat, count_as_nat, Instruction, MyAccount, VestingState};
use crate::commission::CommissionRate;
use crate::context::{AdminControl, AutoRelease, Initialize, TransferTokens};
use crate::error::ErrorCode;
use crate::events::{CapUpdateEvent, Event, RateUpdateEvent, ReleaseEvent, TransferEvent};
use crate::identity::Identity;

verus! {

/// The one authorization guard: lets `caller` through exactly when it is `required`.
pub fn authorize(required: &Identity, caller: &Identity) -> (res: Result<(), ErrorCode>)
    ensures
        res is Ok <==> caller@ == required@,
        res matches Err(e) ==> e == ErrorCode::Unauthorized,
{
    if *caller == *required {
        Ok(())
    } else {
        Err(ErrorCode::Unauthorized)
    }
}

/// The scheduler gate: whether the interval has elapsed at time `now`. Sums that leave
/// the range of 64 bits are compared as the integers they are.
pub fn release_due(now: i64, last_release_time: i64, release_interval: i64) -> (due: bool)
    ensures
        due == (now >= last_release_time + release_interval),
{
    let deadline: i128 = (last_release_time as i128) + (release_interval as i128);
    (now as i128) >= deadline
}

/// Initializes the record of `ctx` at time `now`: `initial_release` counts as released,
/// the rest of `total_supply` as remaining, and the clock for the next release starts.
/// Refused, with nothing changed, when the initial release exceeds the total supply.
pub fn initialize(
    ctx: &mut Initialize,
    total_supply: u64,
    initial_release: u64,
    release_interval: i64,
    now: i64,
) -> (res: Result<(), ErrorCode>)
    ensures
        match res {
            Ok(()) => {
                &&& VestingState::initialize_rejection(total_supply as nat, initial_release as nat)
                    is None
                &&& final(ctx).my_account@ == VestingState::initialized(
                    old(ctx).authority@,
                    total_supply as nat,
                    initial_release as nat,
                    release_interval as int,
                    now as int,
                    count_as_nat(old(ctx).release_limit),
                )
                &&& final(ctx).authority == old(ctx).authority
                &&& final(ctx).release_limit == old(ctx).release_limit
            },
            Err(e) => {
                &&& VestingState::initialize_rejection(total_supply as nat, initial_release as nat)
                    == Some(e)
                &&& *final(ctx) == *old(ctx)
            },
        },
        res is Ok ==> final(ctx).my_account@.well_formed(),
{
    if initial_release > total_supply {
        return Err(ErrorCode::InvalidInitialRelease);
    }
    ctx.my_account = MyAccount {
        total_supply,
        initial_release,
        remaining_supply: total_supply - initial_release,
        last_release_time: now,
        release_interval,
        authority: ctx.authority,
        released_tokens: initial_release,
        releases_remaining: ctx.release_limit,
        commission_rate: CommissionRate::standard(),
        whale_cap: None,
    };
    Ok(())
}

/// Releases `release_amount` tokens at time `now` on behalf of the caller in `ctx`.
///
/// The request is refused, with nothing changed, for the first of these that holds: the
/// caller is not the authority; the releases are bounded and none is left; the interval
/// has not elapsed; the amount exceeds the remaining supply. Otherwise the amount moves
/// from remaining to released, the release time becomes `now`, a bounded count goes
/// down by one, and the event that is returned is appended to the log.
pub fn auto_release(ctx: &mut AutoRelease, release_amount: u64, now: i64) -> (res: Result<
    ReleaseEvent,
    ErrorCode,
>)
    ensures
        match res {
            Ok(event) => {
                &&& old(ctx).my_account@.release_rejection(
                    old(ctx).authority@,
                    release_amount as nat,
                    now as int,
                ) is None
                &&& final(ctx).my_account@ == old(ctx).my_account@.after_release(
                    release_amount as nat,
                    now as int,
                )
                &&& final(ctx).token_account == old(ctx).token_account
                &&& final(ctx).receiver_account == old(ctx).receiver_account
                &&& final(ctx).authority == old(ctx).authority
                &&& final(ctx).log@ == old(ctx).log@.push(Event::Release(event))
                &&& event.authority == old(ctx).authority
                &&& event.token_account == old(ctx).token_account
                &&& event.receiver_account == old(ctx).receiver_account
                &&& event.amount == release_amount
                &&& event.release_time == now
                &&& event.released_tokens == final(ctx).my_account@.released_tokens
                &&& event.remaining_supply == final(ctx).my_account@.remaining_supply
                &&& count_as_nat(event.releases_remaining)
                    == final(ctx).my_account@.releases_remaining
            },
            Err(e) => {
                &&& old(ctx).my_account@.release_rejection(
                    old(ctx).authority@,
                    release_amount as nat,
                    now as int,
                ) == Some(e)
                &&& *final(ctx) == *old(ctx)
            },
        },
        res is Ok ==> now >= old(ctx).my_account@.last_release_time + old(
            ctx,
        ).my_account@.release_interval,
        final(ctx).my_account@ == old(ctx).my_account@.step(
            Instruction::Release {
                caller: old(ctx).authority@,
                amount: release_amount as nat,
                now: now as int,
            },
        ),
        final(ctx).my_account@.well_formed(),
{
    proof {
        use_type_invariant(&ctx.my_account);
        use_type_invariant(&ctx.my_account.commission_rate);
    }
    let account: MyAccount = ctx.my_account;
    authorize(&account.authority, &ctx.authority)?;
    let releases_remaining: Option<u8> = match account.releases_remaining {
        Some(n) => {
            if n == 0 {
                return Err(ErrorCode::NoReleasesRemaining);
            }
            Some(n - 1)
        },
        None => None,
    };
    if !release_due(now, account.last_release_time, account.release_interval) {
        return Err(ErrorCode::ReleaseTooSoon);
    }
    if account.remaining_supply < release_amount {
        return Err(ErrorCode::InsufficientSupply);
    }
    let remaining_supply: u64 = account.remaining_supply - release_amount;
    let released_tokens: u64 = account.released_tokens + release_amount;
    ctx.my_account = MyAccount {
        remaining_supply,
        released_tokens,
        last_release_time: now,
        releases_remaining,
        ..account
    };
    let event = ReleaseEvent {
        authority: ctx.authority,
        token_account: ctx.token_account,
        receiver_account: ctx.receiver_account,
        amount: release_amount,
        released_tokens,
        remaining_supply,
        release_time: now,
        releases_remaining,
    };
    ctx.log.append(Event::Release(event));
    Ok(event)
}

/// Transfers `amount` from the source of `ctx`, split between the destination and the
/// commission account.
///
/// The request is refused, with nothing changed, for the first of these that holds: the
/// source holds less than `amount`; a cap is set and `amount` exceeds it; a credited
/// balance would leave the range of 64 bits. Otherwise the commission is the amount
/// times the record's rate, rounded toward zero, and the net amount is the rest; the
/// source is debited `amount`, the destination credited the net amount and the
/// commission account the commission, and the event that is returned is appended to
/// the log. The three balances together stay what they were.
pub fn transfer(ctx: &mut TransferTokens, amount: u64) -> (res: Result<TransferEvent, ErrorCode>)
    ensures
        match res {
            Ok(event) => {
                &&& old(ctx).rejection(amount) is None
                &&& event.authority == old(ctx).authority
                &&& event.sender == old(ctx).source.key
                &&& event.recipient == old(ctx).destination.key
                &&& event.fund == old(ctx).commission_account.key
                &&& event.amount == amount
                &&& event.commission == old(ctx).commission(amount)
                &&& event.net_amount == amount - event.commission
                &&& final(ctx).source.key == old(ctx).source.key
                &&& final(ctx).destination.key == old(ctx).destination.key
                &&& final(ctx).commission_account.key == old(ctx).commission_account.key
                &&& final(ctx).my_account == old(ctx).my_account
                &&& final(ctx).authority == old(ctx).authority
                &&& final(ctx).log@ == old(ctx).log@.push(Event::Transfer(event))
            },
            Err(e) => {
                &&& old(ctx).rejection(amount) == Some(e)
                &&& *final(ctx) == *old(ctx)
            },
        },
        final(ctx).balances() == old(ctx).balances_after(amount),
        final(ctx).balances().total() == old(ctx).balances().total(),
{
    proof {
        use_type_invariant(&ctx.my_account);
    }
    if ctx.source.amount < amount {
        return Err(ErrorCode::InsufficientFunds);
    }
    match ctx.my_account.whale_cap {
        Some(cap) => {
            if amount > cap {
                return Err(ErrorCode::WhaleTransferRestricted);
            }
        },
        None => {},
    }
    let commission: u64 = ctx.my_account.commission_rate.commission_on(amount);
    let net_amount: u64 = amount - commission;
    let destination_amount: u64 = match ctx.destination.amount.checked_add(net_amount) {
        Some(credited) => credited,
        None => {
            return Err(ErrorCode::ArithmeticOverflow);
        },
    };
    let commission_amount: u64 = match ctx.commission_account.amount.checked_add(commission) {
        Some(credited) => credited,
        None => {
            return Err(ErrorCode::ArithmeticOverflow);
        },
    };
    ctx.source.amount = ctx.source.amount - amount;
    ctx.destination.amount = destination_amount;
    ctx.commission_account.amount = commission_amount;
    let event = TransferEvent {
        authority: ctx.authority,
        sender: ctx.source.key,
        recipient: ctx.destination.key,
        fund: ctx.commission_account.key,
        amount,
        net_amount,
        commission,
    };
    ctx.log.append(Event::Transfer(event));
    Ok(event)
}

/// Replaces the commission rate of the record of `ctx` by `new_rate`.
///
/// Refused, with nothing changed, when the caller is not the authority. Otherwise only
/// the rate changes, and the event that is returned is appended to the log.
pub fn update_commission_rate(ctx: &mut AdminControl, new_rate: CommissionRate) -> (res: Result<
    RateUpdateEvent,
    ErrorCode,
>)
    ensures
        match res {
            Ok(event) => {
                &&& old(ctx).my_account@.admin_rejection(old(ctx).authority@) is None
                &&& final(ctx).my_account@ == old(ctx).my_account@.with_commission_rate(
                    new_rate@,
                )
                &&& final(ctx).authority == old(ctx).authority
                &&& final(ctx).log@ == old(ctx).log@.push(Event::RateUpdate(event))
                &&& event.authority == old(ctx).authority
                &&& event.previous_rate@ == old(ctx).my_account@.commission_rate
                &&& event.new_rate == new_rate
            },
            Err(e) => {
                &&& old(ctx).my_account@.admin_rejection(old(ctx).authority@) == Some(e)
                &&& *final(ctx) == *old(ctx)
            },
        },
        final(ctx).my_account@ == old(ctx).my_account@.step(
            Instruction::UpdateCommissionRate { caller: old(ctx).authority@, rate: new_rate@ },
        ),
        final(ctx).my_account@.well_formed(),
{
    proof {
        use_type_invariant(&ctx.my_account);
        use_type_invariant(&ctx.my_account.commission_rate);
        use_type_invariant(&new_rate);
    }
    let account: MyAccount = ctx.my_account;
    authorize(&account.authority, &ctx.authority)?;
    ctx.my_account = MyAccount { commission_rate: new_rate, ..account };
    let event = RateUpdateEvent {
        authority: ctx.authority,
        previous_rate: account.commission_rate,
        new_rate,
    };
    ctx.log.append(Event::RateUpdate(event));
    Ok(event)
}

/// Replaces the cap on single transfers of the record of `ctx` by `new_cap`; `None`
/// lifts the cap.
///
/// Refused, with nothing changed, when the caller is not the authority. Otherwise only
/// the cap changes, and the event that is returned is appended to the log.
pub fn update_whale_cap(ctx: &mut AdminControl, new_cap: Option<u64>) -> (res: Result<
    CapUpdateEvent,
    ErrorCode,
>)
    ensures
        match res {
            Ok(event) => {
                &&& old(ctx).my_account@.admin_rejection(old(ctx).authority@) is None
                &&& final(ctx).my_account@ == old(ctx).my_account@.with_whale_cap(
                    cap_as_nat(new_cap),
                )
                &&& final(ctx).authority == old(ctx).authority
                &&& final(ctx).log@ == old(ctx).log@.push(Event::CapUpdate(event))
                &&& event.authority == old(ctx).authority
                &&& cap_as_nat(event.previous_cap) == old(ctx).my_account@.whale_cap
                &&& event.new_cap == new_cap
            },
            Err(e) => {
                &&& old(ctx).my_account@.admin_rejection(old(ctx).authority@) == Some(e)
                &&& *final(ctx) == *old(ctx)
            },
        },
        final(ctx).my_account@ == old(ctx).my_account@.step(
            Instruction::UpdateWhaleCap {
                caller: old(ctx).authority@,
                cap: cap_as_nat(new_cap),
            },
        ),
        final(ctx).my_account@.well_formed(),
{
    proof {
        use_type_invariant(&ctx.my_account);
        use_type_invariant(&ctx.my_account.commission_rate);
    }
    let account: MyAccount = ctx.my_account;
    authorize(&account.authority, &ctx.authority)?;
    ctx.my_account = MyAccount { whale_cap: new_cap, ..account };
    let event = CapUpdateEvent {
        authority: ctx.authority,
        previous_cap: account.whale_cap,
        new_cap,
    };
    ctx.log.append(Event::CapUpdate(event));
    Ok(event)
}

} // verus!
