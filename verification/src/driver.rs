//! The charger driver and the status it reports.

use crate::error::Bq25185Error;
use crate::line::{DigitalInput, DigitalOutput};
use vstd::prelude::*;

verus! {

/// The four states that the charger signals on its two status lines.
#[derive(Debug, PartialEq, Eq, Structural)]
pub enum Status {
    /// Charging is complete, the charger sleeps, or charging is disabled.
    ChargeComplete,
    /// Normal charging is in progress, automatic recharge included.
    NormalCharging,
    /// A fault that clears by itself: input over-voltage, battery too hot or
    /// too cold, thermal shutdown, output short protection.
    RecoverableFault,
    /// A latching fault: current-limit pin short, battery over-current,
    /// safety timer expired.
    NonRecoverableFault,
}

impl Status {
    /// The charger's status encoding: the state that it signals with the
    /// first status line at `stat1` and the second at `stat2`, `true` being
    /// electrically high.
    pub open spec fn decode(stat1: bool, stat2: bool) -> Status {
        match (stat1, stat2) {
            (false, false) => Status::NonRecoverableFault,
            (false, true) => Status::RecoverableFault,
            (true, false) => Status::NormalCharging,
            (true, true) => Status::ChargeComplete,
        }
    }

    /// The level of the first status line while the charger signals `self`.
    pub open spec fn stat1(self) -> bool {
        self == Status::NormalCharging || self == Status::ChargeComplete
    }

    /// The level of the second status line while the charger signals `self`.
    pub open spec fn stat2(self) -> bool {
        self == Status::RecoverableFault || self == Status::ChargeComplete
    }

    /// What a status query reports once the first status line has answered
    /// `stat1` and the second has been read with the outcome `second`: the
    /// decoded pair of levels, or the second line's failure, wrapped.
    pub open spec fn after_first<E>(
        stat1: bool,
        second: Result<bool, E>,
    ) -> Result<Status, Bq25185Error<E>> {
        match second {
            Ok(stat2) => Ok(Status::decode(stat1, stat2)),
            Err(failure) => Err(Bq25185Error::PinError(failure)),
        }
    }

    /// Decodes the levels of the two status lines.
    pub fn from_levels(stat1: bool, stat2: bool) -> (status: Status)
        ensures
            status == Status::decode(stat1, stat2),
    {
        match (stat1, stat2) {
            (false, false) => Status::NonRecoverableFault,
            (false, true) => Status::RecoverableFault,
            (true, false) => Status::NormalCharging,
            (true, true) => Status::ChargeComplete,
        }
    }

    /// The encoding loses nothing: each pair of levels decodes to the one
    /// state that signals that pair, so two pairs that decode to the same
    /// state are the same pair.
    pub proof fn lemma_decode_is_one_to_one(stat1: bool, stat2: bool)
        ensures
            Status::decode(stat1, stat2).stat1() == stat1,
            Status::decode(stat1, stat2).stat2() == stat2,
            forall|other1: bool, other2: bool|
                Status::decode(other1, other2) == Status::decode(stat1, stat2) ==> other1 == stat1
                    && other2 == stat2,
    {
    }

    /// Every state is signalled by some pair of levels, namely its own.
    pub proof fn lemma_decode_reaches_every_status(status: Status)
        ensures
            Status::decode(status.stat1(), status.stat2()) == status,
    {
    }
}

/// A basic driver for the BQ25185 battery charger. It owns the two status
/// lines and, where the board has one, the active-low charge-enable line.
pub struct Bq25185<IN, OUT> {
    /// The first status line.
    stat1: IN,
    /// The second status line.
    stat2: IN,
    /// The charge-enable line, active low. Charging control needs it.
    charge_enable: Option<OUT>,
}

impl<IN, OUT> Bq25185<IN, OUT> {
    /// The two status lines that the driver owns, first and second.
    pub closed spec fn status_lines(&self) -> (IN, IN) {
        (self.stat1, self.stat2)
    }

    /// The charge-enable line that the driver owns, if it has one.
    pub closed spec fn enable_line(&self) -> Option<OUT> {
        self.charge_enable
    }

    /// Whether the driver was built with a charge-enable line.
    pub open spec fn has_charge_enable(&self) -> bool {
        self.enable_line() is Some
    }

    /// A driver is nothing but its three lines: two drivers that hold the
    /// same lines are the same driver, so no operation can keep a hidden
    /// record of what it did before.
    pub proof fn lemma_driver_is_its_lines(&self, other: &Self)
        requires
            self.status_lines() == other.status_lines(),
            self.enable_line() == other.enable_line(),
        ensures
            *self == *other,
    {
    }
}

impl<IN, OUT, E> Bq25185<IN, OUT>
where
    IN: DigitalInput<Error = E>,
    OUT: DigitalOutput<Error = E>,
{
    /// Builds a driver that owns the two status lines and, if given, the
    /// charge-enable line. The lines are stored as they are; none is read or
    /// driven.
    pub fn new(stat1: IN, stat2: IN, charge_enable: Option<OUT>) -> (driver: Self)
        ensures
            driver.status_lines() == (stat1, stat2),
            driver.enable_line() == charge_enable,
    {
        Bq25185 { stat1, stat2, charge_enable }
    }

    /// Samples the charger's status once: reads the first status line, then
    /// the second, and decodes the two levels as [`Status::decode`] says.
    ///
    /// The first failure of a line ends the query and is returned wrapped in
    /// [`Bq25185Error::PinError`]. Where the first line fails, the second is
    /// not read and stays as it was. The charge-enable line is never touched.
    /// Each line that is read is read by one call of `is_high`, which takes
    /// it from the state it had before the query to the one it has after.
    pub fn get_status(&mut self) -> (status: Result<Status, Bq25185Error<E>>)
        ensures
            final(self).enable_line() == old(self).enable_line(),
            exists|line1: &mut IN, first: Result<bool, E>|
                *line1 == old(self).status_lines().0
                    && *final(line1) == final(self).status_lines().0
                    && #[trigger] call_ensures(IN::is_high, (line1,), first)
                    && (match first {
                        Err(failure) => {
                            status == Err::<Status, Bq25185Error<E>>(Bq25185Error::PinError(failure))
                                && final(self).status_lines().1 == old(self).status_lines().1
                        },
                        Ok(stat1) => {
                            exists|line2: &mut IN, second: Result<bool, E>|
                                *line2 == old(self).status_lines().1
                                    && *final(line2) == final(self).status_lines().1
                                    && #[trigger] call_ensures(IN::is_high, (line2,), second)
                                    && status == Status::after_first(stat1, second)
                        },
                    }),
    {
        let stat1: bool = match Bq25185Error::lift(self.stat1.is_high()) {
            Ok(level) => level,
            Err(failure) => {
                return Err(failure);
            },
        };
        let stat2: bool = match Bq25185Error::lift(self.stat2.is_high()) {
            Ok(level) => level,
            Err(failure) => {
                return Err(failure);
            },
        };
        Ok(Status::from_levels(stat1, stat2))
    }

    /// Enables charging by driving the charge-enable line low.
    ///
    /// Without a charge-enable line the call fails with
    /// [`Bq25185Error::NoChargeEnablePin`] and leaves the driver exactly as
    /// it was. With one, the line is driven by one call of `set_low`, and
    /// the outcome of that call is returned as [`Bq25185Error::lifted`]
    /// says: a failure of the line comes back wrapped and unchanged. The
    /// status lines are never touched, and a driver that has a charge-enable
    /// line keeps it.
    pub fn enable_charge(&mut self) -> (outcome: Result<(), Bq25185Error<E>>)
        ensures
            final(self).status_lines() == old(self).status_lines(),
            final(self).has_charge_enable() == old(self).has_charge_enable(),
            !old(self).has_charge_enable() ==> *final(self) == *old(self)
                && outcome == Err::<(), Bq25185Error<E>>(Bq25185Error::NoChargeEnablePin),
            old(self).has_charge_enable() ==> exists|line: &mut OUT, driven: Result<(), E>|
                Some(*line) == old(self).enable_line()
                    && Some(*final(line)) == final(self).enable_line()
                    && #[trigger] call_ensures(OUT::set_low, (line,), driven)
                    && outcome == Bq25185Error::lifted(driven),
    {
        match &mut self.charge_enable {
            Some(line) => Bq25185Error::lift(line.set_low()),
            None => Err(Bq25185Error::NoChargeEnablePin),
        }
    }

    /// Disables charging by driving the charge-enable line high.
    ///
    /// Without a charge-enable line the call fails with
    /// [`Bq25185Error::NoChargeEnablePin`] and leaves the driver exactly as
    /// it was. With one, the line is driven by one call of `set_high`, and
    /// the outcome of that call is returned as [`Bq25185Error::lifted`]
    /// says: a failure of the line comes back wrapped and unchanged. The
    /// status lines are never touched, and a driver that has a charge-enable
    /// line keeps it.
    pub fn disable_charge(&mut self) -> (outcome: Result<(), Bq25185Error<E>>)
        ensures
            final(self).status_lines() == old(self).status_lines(),
            final(self).has_charge_enable() == old(self).has_charge_enable(),
            !old(self).has_charge_enable() ==> *final(self) == *old(self)
                && outcome == Err::<(), Bq25185Error<E>>(Bq25185Error::NoChargeEnablePin),
            old(self).has_charge_enable() ==> exists|line: &mut OUT, driven: Result<(), E>|
                Some(*line) == old(self).enable_line()
                    && Some(*final(line)) == final(self).enable_line()
                    && #[trigger] call_ensures(OUT::set_high, (line,), driven)
                    && outcome == Bq25185Error::lifted(driven),
    {
        match &mut self.charge_enable {
            Some(line) => Bq25185Error::lift(line.set_high()),
            None => Err(Bq25185Error::NoChargeEnablePin),
        }
    }

    /// A status query of steady lines is idempotent.
    ///
    /// Call a status line steady if every read that finds it as the driver
    /// holds it answers the same level and leaves it as it is. Let both
    /// status lines of `before` be steady, at the levels `stat1` and `stat2`,
    /// and let a status query take the driver from `before` to `after` and
    /// report `status`, as the contract of [`Bq25185::get_status`] allows.
    /// Then `status` is the decoded pair of levels, and `after` is `before`:
    /// the next query starts from the same driver and reports the same
    /// again, however often it is repeated.
    pub proof fn lemma_steady_lines_give_one_status(
        before: Self,
        after: Self,
        status: Result<Status, Bq25185Error<E>>,
        stat1: bool,
        stat2: bool,
    )
        requires
            forall|line: &mut IN, level: Result<bool, E>|
                *line == before.status_lines().0
                    && #[trigger] call_ensures(IN::is_high, (line,), level)
                    ==> level == Ok::<bool, E>(stat1) && *final(line) == *line,
            forall|line: &mut IN, level: Result<bool, E>|
                *line == before.status_lines().1
                    && #[trigger] call_ensures(IN::is_high, (line,), level)
                    ==> level == Ok::<bool, E>(stat2) && *final(line) == *line,
            after.enable_line() == before.enable_line(),
            exists|line1: &mut IN, first: Result<bool, E>|
                *line1 == before.status_lines().0
                    && *final(line1) == after.status_lines().0
                    && #[trigger] call_ensures(IN::is_high, (line1,), first)
                    && (match first {
                        Err(failure) => {
                            status == Err::<Status, Bq25185Error<E>>(Bq25185Error::PinError(failure))
                                && after.status_lines().1 == before.status_lines().1
                        },
                        Ok(level1) => {
                            exists|line2: &mut IN, second: Result<bool, E>|
                                *line2 == before.status_lines().1
                                    && *final(line2) == after.status_lines().1
                                    && #[trigger] call_ensures(IN::is_high, (line2,), second)
                                    && status == Status::after_first(level1, second)
                        },
                    }),
        ensures
            status == Ok::<Status, Bq25185Error<E>>(Status::decode(stat1, stat2)),
            after == before,
    {
    }
}

} // verus!
