//! The result model shared by every detection strategy, and the small
//! boundary items every strategy needs.

use vstd::prelude::*;

verus! {

/// One probe outcome for one service: which service was probed, how the
/// response was classified, the region the service reported (when one could
/// be extracted), and when this record was produced.
#[derive(Debug, Clone)]
pub struct UnlockItem {
    pub name: String,
    pub status: String,
    pub region: Option<String>,
    pub check_time: Option<String>,
}

/// What one HTTP GET produced, as the engine sees it: a transport failure,
/// a response whose body could not be read, or the body text itself.
#[derive(Debug, Clone)]
pub enum Fetch {
    Transport,
    Unreadable,
    Body(String),
}

/// Relies on chrono's `Local::now` and `DateTime::format`: the current local
/// wall-clock time rendered to second precision, which is always a non-empty
/// rendering of the fixed date-time pattern.
#[verifier::external_body]
pub(crate) fn get_local_date_string() -> (r: String)
    ensures
        r@.len() > 0,
{
    chrono::Local::now().format("%Y-%m-%d %H:%M:%S").to_string()
}

} // verus!
