//! The execution history: a newest-first list of delivered scripts, capped at
//! a caller-chosen size. Reading and writing the backing file is the
//! surrounding application's job; the record shape and the capped insertion
//! are the library's.

use vstd::prelude::*;

use vstd::string::StringExecFns;

verus! {

/// One delivered script, as the history file stores it.
#[derive(Debug, Clone, PartialEq, Eq)]
pub struct ExecutionRecord {
    /// Identifier assigned by the caller.
    pub id: String,
    /// When the delivery happened, as a Unix timestamp.
    pub timestamp: i64,
    /// The script text that was delivered.
    pub content: String,
    /// Whether the delivery reported success.
    pub success: bool,
    /// The failure description, when there was one.
    pub error: Option<String>,
}

/// What the history looks like after a record is filed: the record in front
/// of the old entries, the whole cut down to `max_items`.
pub open spec fn spec_filed(
    history: Seq<ExecutionRecord>,
    record: ExecutionRecord,
    max_items: usize,
) -> Seq<ExecutionRecord> {
    let full = seq![record] + history;
    if full.len() <= max_items {
        full
    } else {
        full.subrange(0, max_items as int)
    }
}

/// File `record` at the front of `history`, newest first, and drop the oldest
/// entries beyond `max_items`.
pub fn save_record(history: &mut Vec<ExecutionRecord>, record: ExecutionRecord, max_items: usize)
    requires
        old(history)@.len() < usize::MAX,
    ensures
        final(history)@ == spec_filed(old(history)@, record, max_items),
{
    proof {
        assert(old(history)@.insert(0, record) =~= seq![record] + old(history)@);
    }
    history.insert(0, record);
    if history.len() > max_items {
        history.truncate(max_items);
    }
}

/// The path of the history file under the configuration directory `base`.
pub fn get_execution_history_file(base: &str) -> (r: String)
    ensures
        r@ == base@ + "/com.comet.dev/execution_history/history.json"@,
{
    let mut s = base.to_owned();
    s.append("/com.comet.dev/execution_history/history.json");
    s
}

} // verus!
