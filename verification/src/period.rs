//! The scheduling period: how long the scheduler sleeps between cycles,
//! selected by a configuration string.

use vstd::prelude::*;
use vstd::string::StringExecFns;

verus! {

/// Seconds between scheduler cycles for a given period setting:
/// `"hourly"` selects one hour, every other value (including `"daily"`)
/// selects one day.
pub open spec fn period_seconds(setting: Seq<char>) -> u64 {
    if setting == "hourly"@ {
        3600u64
    } else {
        86400u64
    }
}

/// Translate the configured period setting into seconds: `"hourly"`
/// gives 3600, anything else gives the daily default of 86400.
pub fn get_seconds(date_str: String) -> (seconds: u64)
    ensures
        seconds == period_seconds(date_str@),
        date_str@ == "hourly"@ ==> seconds == 3600u64,
        date_str@ != "hourly"@ ==> seconds == 86400u64,
{
    let hourly = String::from_str("hourly");
    if date_str == hourly {
        3600
    } else {
        86400
    }
}

} // verus!
