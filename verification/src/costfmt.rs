//! Cost breakdowns and their serialized form.
//!
//! A cost query answers with three non-negative base-unit amounts. The JSON
//! rendering is pinned down character by character, including the decimal
//! rendering of each amount.

use vstd::prelude::*;

verus! {

/// The decimal digit character for `d` (`0 <= d <= 9`).
pub open spec fn spec_digit(d: int) -> char {
    if d == 0 {
        '0'
    } else if d == 1 {
        '1'
    } else if d == 2 {
        '2'
    } else if d == 3 {
        '3'
    } else if d == 4 {
        '4'
    } else if d == 5 {
        '5'
    } else if d == 6 {
        '6'
    } else if d == 7 {
        '7'
    } else if d == 8 {
        '8'
    } else {
        '9'
    }
}

/// The decimal rendering of a non-negative integer, without leading zeros
/// (except for zero itself).
pub open spec fn spec_dec(n: int) -> Seq<char>
    decreases n,
{
    if n < 10 {
        seq![spec_digit(n)]
    } else {
        spec_dec(n / 10).push(spec_digit(n % 10))
    }
}

/// A single decimal digit as a string.
fn digit_str(d: u64) -> (r: &'static str)
    requires
        d < 10,
    ensures
        r@ == seq![spec_digit(d as int)],
{
    proof {
        reveal_strlit("0");
        reveal_strlit("1");
        reveal_strlit("2");
        reveal_strlit("3");
        reveal_strlit("4");
        reveal_strlit("5");
        reveal_strlit("6");
        reveal_strlit("7");
        reveal_strlit("8");
        reveal_strlit("9");
    }
    let r = if d == 0 {
        "0"
    } else if d == 1 {
        "1"
    } else if d == 2 {
        "2"
    } else if d == 3 {
        "3"
    } else if d == 4 {
        "4"
    } else if d == 5 {
        "5"
    } else if d == 6 {
        "6"
    } else if d == 7 {
        "7"
    } else if d == 8 {
        "8"
    } else {
        "9"
    };
    proof {
        assert(r@ =~= seq![spec_digit(d as int)]);
    }
    r
}

/// Renders a non-negative amount in decimal.
pub fn dec_string(n: u64) -> (r: String)
    ensures
        r@ == spec_dec(n as int),
    decreases n,
{
    if n < 10 {
        String::from_str(digit_str(n))
    } else {
        let mut s = dec_string(n / 10);
        s.append(digit_str(n % 10));
        s
    }
}

/// A cost breakdown: the minimum required fee and its storage and finalize
/// components, all in base units.
pub struct CostBreakdown {
    /// The least total fee the operation requires.
    pub minimum: u64,
    /// The component attributable to persisted data size.
    pub storage: u64,
    /// The component attributable to on-chain state transitions and the other
    /// non-storage charges of the runtime's decomposition.
    pub finalize: u64,
}

/// The JSON object reported for a cost query, with the three amounts rendered
/// in decimal.
pub open spec fn spec_cost_json(minimum: int, storage: int, finalize: int) -> Seq<char> {
    "{\"minimum_deployment_cost\":"@ + spec_dec(minimum) + ",\"storage_cost\":"@ + spec_dec(
        storage,
    ) + ",\"finalize_cost\":"@ + spec_dec(finalize) + "}"@
}

impl CostBreakdown {
    /// Serializes the breakdown as the three-field JSON object.
    pub fn to_json(&self) -> (r: String)
        ensures
            r@ == spec_cost_json(self.minimum as int, self.storage as int, self.finalize as int),
    {
        let mut s = String::from_str("{\"minimum_deployment_cost\":");
        s.append(dec_string(self.minimum).as_str());
        s.append(",\"storage_cost\":");
        s.append(dec_string(self.storage).as_str());
        s.append(",\"finalize_cost\":");
        s.append(dec_string(self.finalize).as_str());
        s.append("}");
        s
    }
}

} // verus!
