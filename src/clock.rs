use crate::render::utc_stamp;
use vstd::prelude::*;

verus! {

/// Relies on chrono::Utc::now and chrono's strftime formatting: the current
/// UTC time as day, month name, year and time of day, then ` (GMT+00:00)`,
/// which is how chrono writes `%:z` for the zero offset of `Utc`. None of the
/// specifiers used writes a line break.
#[verifier::external_body]
pub(crate) fn updated_stamp() -> (r: String)
    ensures
        utc_stamp(r@),
{
    chrono::Utc::now().format("%d %B %Y %H:%M:%S (GMT%:z)").to_string()
}

} // verus!
