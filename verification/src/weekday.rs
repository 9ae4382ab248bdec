//! Days of the week, and the days on which an engine answers no request.

use vstd::prelude::*;

verus! {

/// A day of the week.
#[derive(Clone, Copy, Debug, PartialEq, Eq, Hash, Structural)]
pub enum Weekday {
    Mon,
    Tue,
    Wed,
    Thu,
    Fri,
    Sat,
    Sun,
}

impl Weekday {
    /// Whether the day is a Saturday or a Sunday.
    pub open spec fn spec_is_weekend(self) -> bool {
        self == Weekday::Sat || self == Weekday::Sun
    }

    /// Whether the day is a Saturday or a Sunday.
    #[verifier::when_used_as_spec(spec_is_weekend)]
    pub fn is_weekend(self) -> (weekend: bool)
        ensures
            weekend == self.spec_is_weekend(),
    {
        match self {
            Weekday::Sat | Weekday::Sun => true,
            _ => false,
        }
    }
}

/// The one reason that is returned on a weekend.
pub open spec fn weekend_reason() -> Seq<char> {
    "It's the weekend!"@
}

/// What the weekend check answers on `day`.
pub open spec fn weekend_outcome(day: Weekday) -> Result<(), Seq<char>> {
    if day.is_weekend() {
        Err(weekend_reason())
    } else {
        Ok(())
    }
}

/// The weekend check: on a Saturday or a Sunday it fails with "It's the
/// weekend!", on any other day it passes.
pub fn weekend_verdict(day: Weekday) -> (verdict: Result<(), String>)
    ensures
        crate::rules::outcome_view(verdict) == weekend_outcome(day),
{
    if day.is_weekend() {
        Err("It's the weekend!".to_owned())
    } else {
        Ok(())
    }
}

/// Today's day of the week on the local clock, as `chrono::Local::now()` and
/// `chrono::Datelike::weekday` give it. Nothing is claimed of the result: it
/// changes with the clock and the time zone of the machine. As `chrono` does,
/// the call panics when the system clock stands before the Unix epoch.
#[verifier::external_body]
pub(crate) fn local_weekday() -> Weekday {
    match chrono::Datelike::weekday(&chrono::Local::now()) {
        chrono::Weekday::Mon => Weekday::Mon,
        chrono::Weekday::Tue => Weekday::Tue,
        chrono::Weekday::Wed => Weekday::Wed,
        chrono::Weekday::Thu => Weekday::Thu,
        chrono::Weekday::Fri => Weekday::Fri,
        chrono::Weekday::Sat => Weekday::Sat,
        chrono::Weekday::Sun => Weekday::Sun,
    }
}

} // verus!
