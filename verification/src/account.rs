//! The vesting record, its mathematical state, and how each instruction changes it.
use vstd::prelude::*;
use crate::commission::{CommissionRate, BASIS_POINTS, DEFAULT_RATE_BASIS_POINTS};
use crate::error::ErrorCode;
use crate::identity::Identity;

verus! {

/// The mathematical state of a vesting record: what [`MyAccount`] is viewed as.
pub struct VestingState {
    /// Total tokens ever released or releasable under the schedule.
    pub total_supply: nat,
    /// The amount released at initialization.
    pub initial_release: nat,
    /// Tokens released so far.
    pub released_tokens: nat,
    /// Tokens not yet released.
    pub remaining_supply: nat,
    /// Time of the last release, or of initialization before the first one.
    pub last_release_time: int,
    /// Time that must pass between two releases.
    pub release_interval: int,
    /// Bytes of the identity that may release and administer.
    pub authority: Seq<u8>,
    /// Scheduled releases still allowed, where their number is bounded.
    pub releases_remaining: Option<nat>,
    /// Commission taken from each transfer, in basis points.
    pub commission_rate: nat,
    /// Largest amount of a single transfer, where one is enforced.
    pub whale_cap: Option<nat>,
}

/// A bounded count as a natural number.
pub open spec fn count_as_nat(count: Option<u8>) -> Option<nat> {
    match count {
        Some(n) => Some(n as nat),
        None => None,
    }
}

/// A cap as a natural number.
pub open spec fn cap_as_nat(cap: Option<u64>) -> Option<nat> {
    match cap {
        Some(c) => Some(c as nat),
        None => None,
    }
}

impl VestingState {
    /// Released and unreleased tokens together make up the total supply.
    pub open spec fn supply_conserved(self) -> bool {
        self.released_tokens + self.remaining_supply == self.total_supply
    }

    /// What holds of every vesting record: the supply is conserved and the initial
    /// release was part of it.
    pub open spec fn well_formed(self) -> bool {
        &&& self.supply_conserved()
        &&& self.initial_release <= self.total_supply
        &&& self.commission_rate <= BASIS_POINTS
    }

    /// The record before initialization: nothing to release, nobody in charge.
    pub open spec fn blank() -> VestingState {
        VestingState {
            total_supply: 0,
            initial_release: 0,
            released_tokens: 0,
            remaining_supply: 0,
            last_release_time: 0,
            release_interval: 0,
            authority: Seq::new(32, |i: int| 0u8),
            releases_remaining: None,
            commission_rate: DEFAULT_RATE_BASIS_POINTS as nat,
            whale_cap: None,
        }
    }

    /// Why initialization with these amounts is refused, if it is.
    pub open spec fn initialize_rejection(total_supply: nat, initial_release: nat) -> Option<
        ErrorCode,
    > {
        if initial_release > total_supply {
            Some(ErrorCode::InvalidInitialRelease)
        } else {
            None
        }
    }

    /// The record that a successful initialization at time `now` writes.
    pub open spec fn initialized(
        authority: Seq<u8>,
        total_supply: nat,
        initial_release: nat,
        release_interval: int,
        now: int,
        release_limit: Option<nat>,
    ) -> VestingState {
        VestingState {
            total_supply,
            initial_release,
            released_tokens: initial_release,
            remaining_supply: (total_supply - initial_release) as nat,
            last_release_time: now,
            release_interval,
            authority,
            releases_remaining: release_limit,
            commission_rate: DEFAULT_RATE_BASIS_POINTS as nat,
            whale_cap: None,
        }
    }

    /// The earliest time at which the next release may happen.
    pub open spec fn next_release_time(self) -> int {
        self.last_release_time + self.release_interval
    }

    /// Whether a release is due at time `now`: at the deadline or any time after it.
    pub open spec fn release_due(self, now: int) -> bool {
        now >= self.next_release_time()
    }

    /// Why a release of `amount` asked for by `caller` at time `now` is refused, if it
    /// is. The checks come in this order: caller, releases left, time, supply.
    pub open spec fn release_rejection(self, caller: Seq<u8>, amount: nat, now: int) -> Option<
        ErrorCode,
    > {
        if caller != self.authority {
            Some(ErrorCode::Unauthorized)
        } else if self.releases_remaining == Some(0nat) {
            Some(ErrorCode::NoReleasesRemaining)
        } else if !self.release_due(now) {
            Some(ErrorCode::ReleaseTooSoon)
        } else if amount > self.remaining_supply {
            Some(ErrorCode::InsufficientSupply)
        } else {
            None
        }
    }

    /// The record after releasing `amount` at time `now`. The release time moves to
    /// `now`, not to the deadline that was met: windows that were missed are forfeited.
    pub open spec fn after_release(self, amount: nat, now: int) -> VestingState {
        VestingState {
            released_tokens: self.released_tokens + amount,
            remaining_supply: (self.remaining_supply - amount) as nat,
            last_release_time: now,
            releases_remaining: match self.releases_remaining {
                Some(n) => Some((n - 1) as nat),
                None => None,
            },
            ..self
        }
    }

    /// Why a change of settings asked for by `caller` is refused, if it is.
    pub open spec fn admin_rejection(self, caller: Seq<u8>) -> Option<ErrorCode> {
        if caller != self.authority {
            Some(ErrorCode::Unauthorized)
        } else {
            None
        }
    }

    /// The record with its commission rate replaced.
    pub open spec fn with_commission_rate(self, rate: nat) -> VestingState {
        VestingState { commission_rate: rate, ..self }
    }

    /// The record with its cap on single transfers replaced.
    pub open spec fn with_whale_cap(self, cap: Option<nat>) -> VestingState {
        VestingState { whale_cap: cap, ..self }
    }

    /// No further release of tokens can succeed: the supply or the bounded number of
    /// releases is used up.
    pub open spec fn exhausted(self) -> bool {
        self.remaining_supply == 0 || self.releases_remaining == Some(0nat)
    }

    /// The record after `instruction`: changed as the instruction says where it is
    /// accepted, unchanged where it is refused.
    pub open spec fn step(self, instruction: Instruction) -> VestingState {
        match instruction {
            Instruction::Release { caller, amount, now } => {
                if self.release_rejection(caller, amount, now) is None {
                    self.after_release(amount, now)
                } else {
                    self
                }
            },
            Instruction::UpdateCommissionRate { caller, rate } => {
                if self.admin_rejection(caller) is None && rate <= BASIS_POINTS {
                    self.with_commission_rate(rate)
                } else {
                    self
                }
            },
            Instruction::UpdateWhaleCap { caller, cap } => {
                if self.admin_rejection(caller) is None {
                    self.with_whale_cap(cap)
                } else {
                    self
                }
            },
        }
    }

    /// The record after a whole history of instructions, oldest first.
    pub open spec fn run(self, history: Seq<Instruction>) -> VestingState
        decreases history.len(),
    {
        if history.len() == 0 {
            self
        } else {
            self.run(history.drop_last()).step(history.last())
        }
    }
}

/// A request that may change a vesting record. A transfer is not among them: it reads
/// the record and leaves it as it is.
pub enum Instruction {
    /// `caller` asks at time `now` for the release of `amount` tokens.
    Release { caller: Seq<u8>, amount: nat, now: int },
    /// `caller` asks for the commission rate to become `rate` basis points. More than
    /// ten thousand basis points are no rate: such a request changes nothing.
    UpdateCommissionRate { caller: Seq<u8>, rate: nat },
    /// `caller` asks for the cap on single transfers to become `cap`.
    UpdateWhaleCap { caller: Seq<u8>, cap: Option<nat> },
}

/// The vesting record of one token distribution.
///
/// Every value of this type conserves its supply: released and remaining tokens add up
/// to the total, and the initial release is no larger than the total.
#[derive(Clone, Copy, Debug, PartialEq, Eq)]
pub struct MyAccount {
    pub(crate) total_supply: u64,
    pub(crate) initial_release: u64,
    pub(crate) remaining_supply: u64,
    pub(crate) last_release_time: i64,
    pub(crate) release_interval: i64,
    pub(crate) authority: Identity,
    pub(crate) released_tokens: u64,
    pub(crate) releases_remaining: Option<u8>,
    pub(crate) commission_rate: CommissionRate,
    pub(crate) whale_cap: Option<u64>,
}

impl View for MyAccount {
    type V = VestingState;

    open(crate) spec fn view(&self) -> VestingState {
        VestingState {
            total_supply: self.total_supply as nat,
            initial_release: self.initial_release as nat,
            released_tokens: self.released_tokens as nat,
            remaining_supply: self.remaining_supply as nat,
            last_release_time: self.last_release_time as int,
            release_interval: self.release_interval as int,
            authority: self.authority@,
            releases_remaining: count_as_nat(self.releases_remaining),
            commission_rate: self.commission_rate@,
            whale_cap: cap_as_nat(self.whale_cap),
        }
    }
}

impl MyAccount {
    #[verifier::type_invariant]
    pub(crate) open(crate) spec fn conserves(self) -> bool {
        &&& self.released_tokens + self.remaining_supply == self.total_supply
        &&& self.initial_release <= self.total_supply
    }

    /// A record that has not been initialized yet.
    pub fn new() -> (account: MyAccount)
        ensures
            account@ == VestingState::blank(),
    {
        let authority = Identity::new([0u8; 32]);
        assert(authority@ =~= VestingState::blank().authority);
        MyAccount {
            total_supply: 0,
            initial_release: 0,
            remaining_supply: 0,
            last_release_time: 0,
            release_interval: 0,
            authority,
            released_tokens: 0,
            releases_remaining: None,
            commission_rate: CommissionRate::standard(),
            whale_cap: None,
        }
    }

    /// The record with the given fields, where they conserve the supply: `None` unless
    /// released and remaining tokens add up to the total and the initial release is no
    /// larger than the total.
    pub fn from_parts(
        total_supply: u64,
        initial_release: u64,
        released_tokens: u64,
        remaining_supply: u64,
        last_release_time: i64,
        release_interval: i64,
        authority: Identity,
        releases_remaining: Option<u8>,
        commission_rate: CommissionRate,
        whale_cap: Option<u64>,
    ) -> (res: Option<MyAccount>)
        ensures
            res is Some <==> released_tokens + remaining_supply == total_supply && initial_release
                <= total_supply,
            res matches Some(account) ==> account@ == (VestingState {
                total_supply: total_supply as nat,
                initial_release: initial_release as nat,
                released_tokens: released_tokens as nat,
                remaining_supply: remaining_supply as nat,
                last_release_time: last_release_time as int,
                release_interval: release_interval as int,
                authority: authority@,
                releases_remaining: count_as_nat(releases_remaining),
                commission_rate: commission_rate@,
                whale_cap: cap_as_nat(whale_cap),
            }) && account@.well_formed(),
    {
        proof {
            use_type_invariant(&commission_rate);
        }
        if initial_release > total_supply || released_tokens > total_supply || total_supply
            - released_tokens != remaining_supply {
            return None;
        }
        Some(
            MyAccount {
                total_supply,
                initial_release,
                remaining_supply,
                last_release_time,
                release_interval,
                authority,
                released_tokens,
                releases_remaining,
                commission_rate,
                whale_cap,
            },
        )
    }

    /// Total tokens ever released or releasable under the schedule.
    pub fn total_supply(&self) -> (amount: u64)
        ensures
            amount == self@.total_supply,
            self@.well_formed(),
    {
        proof {
            use_type_invariant(self);
            use_type_invariant(&self.commission_rate);
        }
        self.total_supply
    }

    /// The amount that was released at initialization.
    pub fn initial_release(&self) -> (amount: u64)
        ensures
            amount == self@.initial_release,
    {
        self.initial_release
    }

    /// Tokens released so far.
    pub fn released_tokens(&self) -> (amount: u64)
        ensures
            amount == self@.released_tokens,
            amount == self@.total_supply - self@.remaining_supply,
    {
        proof {
            use_type_invariant(self);
        }
        self.released_tokens
    }

    /// Tokens not yet released.
    pub fn remaining_supply(&self) -> (amount: u64)
        ensures
            amount == self@.remaining_supply,
            amount == self@.total_supply - self@.released_tokens,
    {
        proof {
            use_type_invariant(self);
        }
        self.remaining_supply
    }

    /// Time of the last release, or of initialization before the first one.
    pub fn last_release_time(&self) -> (time: i64)
        ensures
            time == self@.last_release_time,
    {
        self.last_release_time
    }

    /// Time that must pass between two releases.
    pub fn release_interval(&self) -> (interval: i64)
        ensures
            interval == self@.release_interval,
    {
        self.release_interval
    }

    /// The identity that may release and administer.
    pub fn authority(&self) -> (authority: Identity)
        ensures
            authority@ == self@.authority,
    {
        self.authority
    }

    /// Scheduled releases still allowed, where their number is bounded.
    pub fn releases_remaining(&self) -> (count: Option<u8>)
        ensures
            count_as_nat(count) == self@.releases_remaining,
    {
        self.releases_remaining
    }

    /// The commission rate in force.
    pub fn commission_rate(&self) -> (rate: CommissionRate)
        ensures
            rate@ == self@.commission_rate,
    {
        self.commission_rate
    }

    /// The largest amount of a single transfer, where one is enforced.
    pub fn whale_cap(&self) -> (cap: Option<u64>)
        ensures
            cap_as_nat(cap) == self@.whale_cap,
    {
        self.whale_cap
    }

    /// Whether no release of tokens can succeed any more: the supply or the bounded
    /// number of releases is used up.
    pub fn is_exhausted(&self) -> (done: bool)
        ensures
            done == self@.exhausted(),
    {
        let none_left: bool = match self.releases_remaining {
            Some(n) => n == 0,
            None => false,
        };
        self.remaining_supply == 0 || none_left
    }
}

} // verus!
