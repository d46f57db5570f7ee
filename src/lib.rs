//! Client library for a maze-exploration network game: radar decoding, map
//! building, Tremaux exploration, and the team's turn and challenge rules.

use vstd::prelude::*;

pub mod direction;
pub mod glyph;
pub mod base64;
pub mod radar;
pub mod radar_codes;
pub mod radar_text;
pub mod map;
pub mod maze;
pub mod messages;
pub mod challenge;
pub mod turn;
pub mod frame;
pub mod agent;
pub mod division;
pub mod users;

verus! {

/// Adds two counters; the sum must fit in a `u64`.
pub fn add(left: u64, right: u64) -> (r: u64)
    requires
        left + right <= u64::MAX,
    ensures
        r == left + right,
{
    left + right
}

} // verus!
