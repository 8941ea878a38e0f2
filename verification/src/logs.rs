//! Decisions of the log watcher. The watcher itself opens files, seeks and
//! sleeps in the surrounding application; which file to follow and what to
//! do when its size changes are decided here.

use vstd::prelude::*;

verus! {

/// What the tail loop does next, given the followed file's current size.
#[derive(Debug, Clone, Copy, PartialEq, Eq)]
pub enum TailAction {
    /// The file shrank: it was rotated or replaced, reopen it from the start.
    Reopen,
    /// The file grew: read the new lines.
    Read,
    /// Nothing changed: sleep and look again.
    Wait,
}

/// Decide the tail loop's next step from the file's size and the position
/// already read: a shrunken file is reopened, a grown one is read, an
/// unchanged one is waited on.
pub fn tail_action(len: u64, last_position: u64) -> (r: TailAction)
    ensures
        len < last_position ==> r is Reopen,
        len > last_position ==> r is Read,
        len == last_position ==> r is Wait,
{
    if len < last_position {
        TailAction::Reopen
    } else if len > last_position {
        TailAction::Read
    } else {
        TailAction::Wait
    }
}

/// Pick the log file the watcher follows: the entry with the greatest
/// modification time, the last such entry when several are equal, and
/// nothing when there are no entries.
pub fn latest_log_index(modified: &Vec<u64>) -> (r: Option<usize>)
    ensures
        (modified@.len() == 0) <==> r is None,
        r matches Some(i) ==> {
            &&& 0 <= i < modified@.len()
            &&& (forall|j: int| 0 <= j < modified@.len() ==> modified@[j] <= modified@[i as int])
            &&& (forall|j: int| i < j < modified@.len() ==> modified@[j] < modified@[i as int])
        },
{
    if modified.len() == 0 {
        return None;
    }
    let mut best: usize = 0;
    let mut j: usize = 1;
    while j < modified.len()
        invariant
            0 <= best < j <= modified@.len(),
            forall|k: int| 0 <= k < j ==> modified@[k] <= modified@[best as int],
            forall|k: int| best < k < j ==> modified@[k] < modified@[best as int],
        decreases modified@.len() - j,
    {
        if modified[j] >= modified[best] {
            best = j;
        }
        j = j + 1;
    }
    Some(best)
}

} // verus!
