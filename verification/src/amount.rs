//! Monetary amounts bounded to the protocol's representable range.
//!
//! An [`Amount`] is a signed 64-bit value constrained to a range chosen by a
//! marker type: [`NonNegative`] amounts lie in `0..=MAX_MONEY`, while
//! [`NegativeAllowed`] amounts lie in `-MAX_MONEY..=MAX_MONEY`.  Construction
//! and arithmetic re-validate the range and fail instead of wrapping.

use vstd::prelude::*;

verus! {

/// The largest representable amount, in the smallest currency unit.
pub const MAX_MONEY: i64 = 2_100_000_000_000_000;

/// A marker type deciding which values an [`Amount`] may hold.
pub trait Constraint: Sized {
    /// Whether `v` is inside the range this constraint permits.
    spec fn valid(v: i64) -> bool;

    /// Runtime test matching [`Constraint::valid`].
    fn check(v: i64) -> (r: bool)
        ensures
            r == Self::valid(v),
    ;

    /// The marker value itself, used when building an [`Amount`].
    fn instance() -> Self;

    /// Every permitted value lies inside the protocol's money range.
    proof fn valid_bounded(v: i64)
        requires
            Self::valid(v),
        ensures
            -MAX_MONEY <= v <= MAX_MONEY,
    ;
}

/// Marker for amounts that must stay in `0..=MAX_MONEY`.
#[derive(Clone, Copy, Debug, PartialEq, Eq)]
pub struct NonNegative;

/// Marker for amounts that may range over `-MAX_MONEY..=MAX_MONEY`.
#[derive(Clone, Copy, Debug, PartialEq, Eq)]
pub struct NegativeAllowed;

impl Constraint for NonNegative {
    open spec fn valid(v: i64) -> bool {
        0 <= v <= MAX_MONEY
    }

    fn check(v: i64) -> bool {
        0 <= v && v <= MAX_MONEY
    }

    fn instance() -> Self {
        NonNegative
    }

    proof fn valid_bounded(v: i64) {
    }
}

impl Constraint for NegativeAllowed {
    open spec fn valid(v: i64) -> bool {
        -MAX_MONEY <= v <= MAX_MONEY
    }

    fn check(v: i64) -> bool {
        -MAX_MONEY <= v && v <= MAX_MONEY
    }

    fn instance() -> Self {
        NegativeAllowed
    }

    proof fn valid_bounded(v: i64) {
    }
}

/// The failure reported when a value falls outside an amount's range.
#[derive(Clone, Copy, Debug, PartialEq, Eq)]
pub enum AmountError {
    OutOfRange,
}

/// A monetary value whose range is fixed by the constraint marker `C`.
#[derive(Clone, Copy, Debug, PartialEq, Eq)]
pub struct Amount<C: Constraint> {
    value: i64,
    marker: C,
}

impl<C: Constraint> Amount<C> {
    /// The integer this amount stands for.
    pub closed spec fn spec_value(&self) -> i64 {
        self.value
    }

    /// Whether the stored value satisfies the constraint `C`.  Every
    /// constructor establishes it and every operation preserves it.
    pub open spec fn wf(&self) -> bool {
        C::valid(self.spec_value())
    }

    /// Builds an amount from `value`, failing when the value is outside the
    /// range that `C` permits.
    pub fn try_from(value: i64) -> (r: Result<Amount<C>, AmountError>)
        ensures
            C::valid(value) ==> (r matches Ok(a) && a.spec_value() == value && a.wf()),
            !C::valid(value) ==> r == Err::<Amount<C>, AmountError>(AmountError::OutOfRange),
    {
        if C::check(value) {
            Ok(Amount { value, marker: C::instance() })
        } else {
            Err(AmountError::OutOfRange)
        }
    }

    /// The zero amount.
    pub fn zero() -> (r: Amount<C>)
        requires
            C::valid(0),
        ensures
            r.spec_value() == 0,
            r.wf(),
    {
        Amount { value: 0, marker: C::instance() }
    }

    /// Reads the value back out.
    pub fn value(&self) -> (v: i64)
        ensures
            v == self.spec_value(),
    {
        self.value
    }

    /// Adds two amounts, failing when the mathematical sum leaves the range
    /// that `C` permits.
    pub fn checked_add(&self, other: &Amount<C>) -> (r: Result<Amount<C>, AmountError>)
        requires
            self.wf(),
            other.wf(),
        ensures
            r matches Ok(a) ==> a.spec_value() == self.spec_value() + other.spec_value() && a.wf(),
            (r is Ok) == C::valid((self.spec_value() + other.spec_value()) as i64),
            r is Err ==> r == Err::<Amount<C>, AmountError>(AmountError::OutOfRange),
    {
        proof {
            C::valid_bounded(self.value);
            C::valid_bounded(other.value);
        }
        let sum: i64 = self.value + other.value;
        if C::check(sum) {
            Ok(Amount { value: sum, marker: C::instance() })
        } else {
            Err(AmountError::OutOfRange)
        }
    }
}

/// Folds an amount into a digest state.
pub open spec fn spec_digest_amount<C: Constraint>(h: u64, a: Amount<C>) -> u64 {
    crate::hash::spec_mix_i64(h, a.spec_value())
}

impl<C: Constraint> Amount<C> {
    /// Folds this amount into a digest state.
    pub fn digest_into(&self, h: u64) -> (r: u64)
        ensures
            r == spec_digest_amount(h, *self),
    {
        crate::hash::mix_i64(h, self.value)
    }
}

} // verus!
