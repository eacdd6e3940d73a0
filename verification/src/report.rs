//! What the user is told at the end.

use crate::json::{fixed_point, get, json, to_fixed_point, Json};
use crate::text::view_of;
use serde_json::Value;
use vstd::prelude::*;

verus! {

/// How many digits the cost has behind the point.
pub const COST_DIGITS: usize = 6;

/// The note on the cost of a run, by the amount in dollars.
pub open spec fn cost_note_of(amount: Option<Seq<char>>) -> Seq<char> {
    match amount {
        Some(dollars) => "; provider cost $"@ + dollars,
        None => "; provider cost unavailable"@,
    }
}

/// The cost that the service reports among what a run used up, where it
/// reports a number: with six digits behind the point.
pub open spec fn cost_of(usage: Json) -> Option<Seq<char>> {
    match usage.member("cost"@) {
        Some(cost) => if cost is Int || cost is Float {
            Some(fixed_point(cost, COST_DIGITS))
        } else {
            None
        },
        None => None,
    }
}

/// The note on the cost of a run, by the amount in dollars.
pub fn cost_note(amount: Option<String>) -> (r: String)
    ensures
        r@ == cost_note_of(view_of(amount)),
{
    match amount {
        Some(dollars) => "; provider cost $".to_owned().concat(&dollars),
        None => "; provider cost unavailable".to_owned(),
    }
}

/// The note on the cost of a run, by what the run used up.
pub fn cost_summary(usage: &Value) -> (r: String)
    ensures
        r@ == cost_note_of(cost_of(json(*usage))),
{
    match get(usage, "cost") {
        Some(cost) => cost_note(to_fixed_point(cost, COST_DIGITS)),
        None => cost_note(None),
    }
}

/// The note on the cost quotes the member `cost` of what a run used up, where
/// that is a number, as dollars with six digits behind the point; in every other
/// case it says that the cost is not known.
pub proof fn law_cost(usage: Json, number: int, numeral: Seq<char>)
    ensures
        usage.member("cost"@) == Some(Json::Int(number)) ==> cost_note_of(cost_of(usage))
            == "; provider cost $"@ + fixed_point(Json::Int(number), 6),
        usage.member("cost"@) == Some(Json::Float(numeral)) ==> cost_note_of(cost_of(usage))
            == "; provider cost $"@ + fixed_point(Json::Float(numeral), 6),
        !(usage.member("cost"@) matches Some(Json::Int(_))) && !(usage.member(
            "cost"@,
        ) matches Some(Json::Float(_))) ==> cost_note_of(cost_of(usage))
            == "; provider cost unavailable"@,
        cost_note_of(Some(numeral)) == "; provider cost $"@ + numeral,
        cost_note_of(None) == "; provider cost unavailable"@,
{
}

} // verus!
