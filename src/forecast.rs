//! Texts of the summary forecast.

use vstd::prelude::*;

verus! {

/// Advice on when to fish in the summary forecast, from the hour of the
/// observation.
pub open spec fn summary_best_time_of(hour: u32) -> Seq<char> {
    if 5 <= hour <= 9 {
        "Now - Excellent morning bite!"@
    } else if 10 <= hour <= 15 {
        "Best time: Early morning or evening"@
    } else if 16 <= hour <= 21 {
        "Now - Good evening bite expected"@
    } else {
        "Best time: Dawn or dusk (5-9 or 18-21)"@
    }
}

/// Advice on when to fish in the summary forecast.
pub fn get_best_time(hour: u32) -> (r: String)
    ensures
        r@ == summary_best_time_of(hour),
{
    if 5 <= hour && hour <= 9 {
        "Now - Excellent morning bite!".to_string()
    } else if 10 <= hour && hour <= 15 {
        "Best time: Early morning or evening".to_string()
    } else if 16 <= hour && hour <= 21 {
        "Now - Good evening bite expected".to_string()
    } else {
        "Best time: Dawn or dusk (5-9 or 18-21)".to_string()
    }
}

} // verus!
