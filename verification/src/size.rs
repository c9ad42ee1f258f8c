//! Answering a size query from the outcome of a stat call.

use vstd::prelude::*;
use vstd::string::StringExecFns;

verus! {

/// What every failed size query starts with.
pub const SIZE_FAILURE_PREFIX: &'static str = "Failed to get file size: ";

/// The message for a size query that failed for `reason`.
pub open spec fn size_failure(reason: Seq<char>) -> Seq<char> {
    SIZE_FAILURE_PREFIX@ + reason
}

/// Turns the outcome of a stat call into the answer to a size query: the
/// byte length as it is, or the failure's description behind
/// [`SIZE_FAILURE_PREFIX`]. Independent of any registry.
pub fn file_size_reply(stat: Result<u64, String>) -> (reply: Result<u64, String>)
    ensures
        stat is Ok ==> reply == Ok::<u64, String>(stat->Ok_0),
        stat is Err ==> reply is Err && reply->Err_0@ == size_failure(stat->Err_0@),
{
    match stat {
        Ok(bytes) => Ok(bytes),
        Err(reason) => Err(String::from_str(SIZE_FAILURE_PREFIX).concat(reason.as_str())),
    }
}

} // verus!
