//! The wall clock, as the timestamps that tasks carry.

use vstd::prelude::*;

use crate::task::{bar_free, is_timestamp, line_free};

verus! {

/// Wraps `chrono::Local::now()` formatted with `%Y-%m-%d %H:%M:%S`: the local
/// time as text. What time it is depends on the clock, so nothing is said of
/// the digits' values; the text has the format's form (a four-digit year, or a
/// sign and at least four digits outside the years 0 to 9999, then two-digit
/// fields separated by `-`, ` ` and `:`), so it never holds the `|` of the
/// storage format, nor a line break or a carriage return.
#[verifier::external_body]
pub(crate) fn current_timestamp() -> (r: String)
    ensures
        is_timestamp(r@),
        bar_free(r@),
        line_free(r@),
{
    chrono::Local::now().format("%Y-%m-%d %H:%M:%S").to_string()
}

} // verus!
