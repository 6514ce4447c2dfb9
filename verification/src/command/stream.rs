//! What becomes of a stream of results that the driver read one by one,
//! some of which may have failed.

use crate::util::{failed, JsonResult};
use vstd::prelude::*;

verus! {

/// What to do when one item of a stream failed.
#[derive(Clone, Copy, Debug, PartialEq, Eq)]
pub enum StreamPolicy {
    /// Leave the failed item out and go on.
    SkipFailed,
    /// Give up the whole stream with the message of the first failure.
    FailFast,
}

/// The items of a stream that did not fail, in their order.
pub open spec fn successes<T>(items: Seq<Result<T, String>>) -> Seq<T>
    decreases items.len(),
{
    if items.len() == 0 {
        Seq::empty()
    } else {
        match items.last() {
            Ok(item) => successes(items.drop_last()).push(item),
            Err(_) => successes(items.drop_last()),
        }
    }
}

/// The message of the first item of a stream that failed, if one did.
pub open spec fn first_failure<T>(items: Seq<Result<T, String>>) -> Option<Seq<char>>
    decreases items.len(),
{
    if items.len() == 0 {
        None
    } else {
        match first_failure(items.drop_last()) {
            Some(message) => Some(message),
            None => match items.last() {
                Ok(_) => None,
                Err(message) => Some(message@),
            },
        }
    }
}

/// The first failure of a stream stays its first failure, whatever follows.
proof fn lemma_first_failure_stays<T>(items: Seq<Result<T, String>>, upto: int)
    requires
        0 <= upto <= items.len(),
        first_failure(items.take(upto)) is Some,
    ensures
        first_failure(items) == first_failure(items.take(upto)),
    decreases items.len() - upto,
{
    if upto < items.len() {
        assert(items.take(upto + 1).drop_last() =~= items.take(upto));
        lemma_first_failure_stays(items, upto + 1);
    } else {
        assert(items.take(upto) =~= items);
    }
}

/// Gathers a stream into a list. With `SkipFailed` the list holds the items
/// that did not fail, and gathering cannot fail; with `FailFast` the first
/// failed item fails the whole.
pub fn collect<T>(items: Vec<Result<T, String>>, policy: StreamPolicy) -> (gathered: JsonResult<
    Vec<T>,
>)
    ensures
        match policy {
            StreamPolicy::SkipFailed => gathered matches Ok(list) && list@ == successes(items@),
            StreamPolicy::FailFast => match first_failure(items@) {
                Some(message) => failed(gathered, message),
                None => gathered matches Ok(list) && list@ == successes(items@),
            },
        },
{
    let mut list: Vec<T> = Vec::new();
    for item in iter: items
        invariant
            iter.seq() == items@,
            list@ == successes(items@.take(iter.index())),
            policy is FailFast ==> first_failure(items@.take(iter.index())) is None,
    {
        proof {
            let upto = items@.take(iter.index() + 1);
            assert(upto.drop_last() =~= items@.take(iter.index()));
            assert(upto.last() == item);
        }
        match item {
            Ok(value) => list.push(value),
            Err(message) => match policy {
                StreamPolicy::SkipFailed => {},
                StreamPolicy::FailFast => {
                    proof {
                        lemma_first_failure_stays(items@, iter.index() + 1);
                    }
                    return Err(message);
                },
            },
        }
    }
    proof {
        assert(items@.take(items@.len() as int) =~= items@);
    }
    Ok(list)
}

} // verus!
