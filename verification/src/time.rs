//! Instants as whole seconds since the Unix epoch (UTC), and their calendar text.

use vstd::prelude::*;

verus! {

/// The earliest instant chrono's `DateTime<Utc>` represents: -262143-01-01T00:00:00Z.
pub const EARLIEST_TIMESTAMP: i64 = -8_334_601_315_200;

/// The latest instant chrono's `DateTime<Utc>` represents: 262142-12-31T23:59:59Z.
pub const LATEST_TIMESTAMP: i64 = 8_210_266_876_799;

/// Seconds in a day.
pub const SECONDS_PER_DAY: i64 = 86_400;

/// Seconds in an hour.
pub const SECONDS_PER_HOUR: i64 = 3_600;

/// An instant the library can represent and render.
pub open spec fn valid_timestamp(t: i64) -> bool {
    EARLIEST_TIMESTAMP <= t <= LATEST_TIMESTAMP
}

/// The `YYYY-MM-DD` rendering (UTC) of the instant `t`, as chrono formats it.
pub uninterp spec fn ymd_text(t: i64) -> Seq<char>;

/// chrono's `DateTime::<Utc>::from_timestamp(t, 0)` formatted with `"%Y-%m-%d"`.
/// The contract claims only that the text is a function of `t` alone; within the
/// range chrono represents the conversion cannot fail, so the `expect` never fires.
#[verifier::external_body]
pub(crate) fn format_ymd(t: i64) -> (r: String)
    requires
        valid_timestamp(t),
    ensures
        r@ == ymd_text(t),
{
    chrono::DateTime::<chrono::Utc>::from_timestamp(t, 0).expect("instant within range").format(
        "%Y-%m-%d",
    ).to_string()
}

} // verus!
