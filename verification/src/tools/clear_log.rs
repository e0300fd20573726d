//! The built-in tool that clears the log.

use crate::logging::storage::{spec_cleared, LogStorage};
use crate::text::{decimal, decimal_text};
use vstd::prelude::*;

verus! {

/// The parameters of `clear_log`: none.
#[derive(Debug, Clone, Copy, PartialEq, Eq, Structural)]
pub struct ClearLogRequest {}

/// What `clear_log` answers after it removed `count` entries.
pub open spec fn spec_cleared_message(count: nat) -> Seq<char> {
    "\u{2705} Cleared "@ + decimal_text(count) + " log entries"@
}

/// Clears the log and says how many entries it held.
pub fn clear_log(_req: ClearLogRequest, log_storage: &mut LogStorage) -> (r: String)
    ensures
        final(log_storage)@ == spec_cleared(old(log_storage)@),
        r@ == spec_cleared_message(old(log_storage)@.entries.len()),
{
    let count = log_storage.get_log_count();
    log_storage.clear_logs();
    let mut r = "\u{2705} Cleared ".to_owned();
    r.append(decimal(count).as_str());
    r.append(" log entries");
    r
}

} // verus!
