//! What a charger operation can fail with.

use vstd::prelude::*;
use vstd::std_specs::convert::FromSpecImpl;

verus! {

/// Possible errors from the charger driver.
#[derive(Debug, PartialEq, Eq)]
pub enum Bq25185Error<E> {
    /// Charging control was asked of a driver built without a charge-enable
    /// line.
    NoChargeEnablePin,
    /// A status line or the charge-enable line failed; the line's own error
    /// is carried as it came.
    PinError(E),
}

impl<E> From<E> for Bq25185Error<E> {
    /// Wraps the failure of a line, keeping its value as it is.
    fn from(value: E) -> (err: Self) {
        Bq25185Error::PinError(value)
    }
}

impl<E> FromSpecImpl<E> for Bq25185Error<E> {
    open spec fn obeys_from_spec() -> bool {
        true
    }

    open spec fn from_spec(value: E) -> Self {
        Bq25185Error::PinError(value)
    }
}

impl<E> Bq25185Error<E> {
    /// What the driver reports for the outcome of one operation on a line:
    /// the value where the line gave one, its failure wrapped in
    /// [`Bq25185Error::PinError`] where it did not.
    pub open spec fn lifted<T>(outcome: Result<T, E>) -> Result<T, Self> {
        match outcome {
            Ok(value) => Ok(value),
            Err(failure) => Err(Bq25185Error::PinError(failure)),
        }
    }

    /// Turns the outcome of one operation on a line into the driver's own
    /// result. A value passes through; a failure is wrapped unchanged and is
    /// never turned into [`Bq25185Error::NoChargeEnablePin`].
    pub fn lift<T>(outcome: Result<T, E>) -> (lifted: Result<T, Self>)
        ensures
            lifted == Self::lifted(outcome),
    {
        match outcome {
            Ok(value) => Ok(value),
            Err(failure) => Err(Bq25185Error::from(failure)),
        }
    }
}

} // verus!
