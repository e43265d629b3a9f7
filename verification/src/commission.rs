//! Commission rates in basis points and the commission they take.
use vstd::prelude::*;
use crate::error::ErrorCode;

verus! {

/// Denominator of every commission rate: a rate is a whole number of basis points,
/// ten thousand of which make one.
pub const BASIS_POINTS: u64 = 10_000;

/// The rate in force after initialization: 25 basis points, a quarter of a percent.
pub const DEFAULT_RATE_BASIS_POINTS: u64 = 25;

/// The commission on `amount` at `rate` basis points: the product divided by ten
/// thousand, rounded toward zero.
pub open spec fn commission_of(amount: nat, rate: nat) -> nat {
    (amount * rate) / (BASIS_POINTS as nat)
}

/// A commission never exceeds the amount it is taken from while the rate is at most one.
pub proof fn lemma_commission_bounded(amount: nat, rate: nat)
    requires
        rate <= BASIS_POINTS,
    ensures
        commission_of(amount, rate) <= amount,
{
    assert(amount * rate <= amount * 10_000) by (nonlinear_arith)
        requires
            rate <= 10_000,
    ;
}

/// A fraction between zero and one, held as basis points.
///
/// Its view is the number of basis points, which never exceeds [`BASIS_POINTS`].
#[derive(Clone, Copy, Debug, PartialEq, Eq)]
pub struct CommissionRate {
    pub(crate) basis_points: u64,
}

impl View for CommissionRate {
    type V = nat;

    open(crate) spec fn view(&self) -> nat {
        self.basis_points as nat
    }
}

impl CommissionRate {
    #[verifier::type_invariant]
    pub(crate) open(crate) spec fn in_domain(self) -> bool {
        self.basis_points <= BASIS_POINTS
    }

    /// The rate of `basis_points` ten-thousandths, refused when that is more than one.
    pub fn new(basis_points: u64) -> (res: Result<CommissionRate, ErrorCode>)
        ensures
            res is Ok <==> basis_points <= BASIS_POINTS,
            res matches Ok(rate) ==> rate@ == basis_points,
            res matches Err(e) ==> e == ErrorCode::InvalidCommissionRate,
    {
        if basis_points > BASIS_POINTS {
            Err(ErrorCode::InvalidCommissionRate)
        } else {
            Ok(CommissionRate { basis_points })
        }
    }

    /// The default rate of 25 basis points.
    pub fn standard() -> (rate: CommissionRate)
        ensures
            rate@ == DEFAULT_RATE_BASIS_POINTS,
    {
        CommissionRate { basis_points: DEFAULT_RATE_BASIS_POINTS }
    }

    /// The rate in basis points.
    pub fn basis_points(&self) -> (bp: u64)
        ensures
            bp == self@,
            bp <= BASIS_POINTS,
    {
        proof {
            use_type_invariant(self);
        }
        self.basis_points
    }

    /// The commission this rate takes from `amount`, rounded toward zero.
    pub fn commission_on(&self, amount: u64) -> (commission: u64)
        ensures
            commission == commission_of(amount as nat, self@),
            commission <= amount,
    {
        proof {
            use_type_invariant(self);
            lemma_commission_bounded(amount as nat, self@);
        }
        let product: u128 = (amount as u128) * (self.basis_points as u128);
        let quotient: u128 = product / (BASIS_POINTS as u128);
        quotient as u64
    }
}

} // verus!
