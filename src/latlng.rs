//! Geographic coordinates held as fixed-point integers.

use vstd::prelude::*;
use vstd::string::*;
use crate::text::{decimal, padded, push_decimal, push_padded};

verus! {

/// Ten to the seventh: the coordinates' unit is a ten-millionth of a degree.
pub const E7: u64 = 10_000_000;

/// A latitude/longitude pair, each in ten-millionths of a degree.
#[derive(Clone, Copy, Debug, PartialEq, Eq)]
pub struct LatLng {
    pub lat_e7: i32,
    pub lng_e7: i32,
}

/// A latitude lies within ±90 degrees, a longitude within ±180 degrees.
pub open spec fn coordinates_in_range(lat_e7: int, lng_e7: int) -> bool {
    -900_000_000 <= lat_e7 <= 900_000_000 && -1_800_000_000 <= lng_e7 <= 1_800_000_000
}

/// A fixed-point value rendered with seven decimal places, as `-12.3456789`.
pub open spec fn fixed7(v: int) -> Seq<char> {
    let a: nat = if v < 0 { (-v) as nat } else { v as nat };
    let sign: Seq<char> = if v < 0 { seq!['-'] } else { Seq::empty() };
    sign + decimal(a / (E7 as nat)) + seq!['.'] + padded(a % (E7 as nat), 7)
}

/// The `lat,lng` text of a coordinate pair.
pub open spec fn latlng_text(p: LatLng) -> Seq<char> {
    fixed7(p.lat_e7 as int) + seq![','] + fixed7(p.lng_e7 as int)
}

/// Appends `fixed7(v)` to `out`.
pub fn push_fixed7(out: &mut String, v: i32)
    ensures
        final(out)@ == old(out)@ + fixed7(v as int),
{
    let wide: i64 = v as i64;
    let a: u64 = if wide < 0 { (-wide) as u64 } else { wide as u64 };
    let ghost start = out@;
    if wide < 0 {
        proof { reveal_strlit("-"); }
        out.append("-");
    }
    push_decimal(out, a / E7);
    proof { reveal_strlit("."); }
    out.append(".");
    push_padded(out, a % E7, 7);
    assert(out@ =~= start + fixed7(v as int));
}

impl LatLng {
    /// A coordinate pair, or `None` where either value is out of range.
    pub fn new(lat_e7: i32, lng_e7: i32) -> (r: Option<LatLng>)
        ensures
            coordinates_in_range(lat_e7 as int, lng_e7 as int) <==> r.is_some(),
            r.is_some() ==> r.unwrap().lat_e7 == lat_e7 && r.unwrap().lng_e7 == lng_e7,
    {
        if -900_000_000 <= lat_e7 && lat_e7 <= 900_000_000 && -1_800_000_000 <= lng_e7
            && lng_e7 <= 1_800_000_000 {
            Some(LatLng { lat_e7, lng_e7 })
        } else {
            None
        }
    }

    /// The `lat,lng` text, seven decimal places each.
    pub fn to_query_text(&self) -> (r: String)
        ensures
            r@ == latlng_text(*self),
    {
        let mut out = String::new();
        push_fixed7(&mut out, self.lat_e7);
        proof { reveal_strlit(","); }
        out.append(",");
        push_fixed7(&mut out, self.lng_e7);
        assert(out@ =~= latlng_text(*self));
        out
    }
}

} // verus!
