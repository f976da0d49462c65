//! Time-of-day greeting: the panel header greets the user according to the
//! local hour.

use vstd::prelude::*;

verus! {

/// The three day parts a greeting distinguishes.
#[derive(Clone, Copy, Debug, PartialEq, Eq, Structural)]
pub enum Greeting {
    Morning,
    Midday,
    Evening,
}

/// Which greeting an hour of the day (0 to 23) calls for.
pub open spec fn spec_greeting_for_hour(hour: u32) -> Greeting {
    if hour < 12 {
        Greeting::Morning
    } else if hour < 18 {
        Greeting::Midday
    } else {
        Greeting::Evening
    }
}

/// Picks the greeting for an hour of the day: hours 0 to 11 are morning,
/// 12 to 17 midday, 18 to 23 evening.
pub fn greeting_for_hour(hour: u32) -> (g: Greeting)
    requires
        hour < 24,
    ensures
        g == spec_greeting_for_hour(hour),
{
    if hour < 12 {
        Greeting::Morning
    } else if hour < 18 {
        Greeting::Midday
    } else {
        Greeting::Evening
    }
}

} // verus!
