//! The `find-one` command: the first document of a collection that matches a
//! filter.

use crate::command::{
    open, opening, optional, optional_document, planned, DriverCall, DriverCallView,
};
use crate::registry::Registry;
use crate::util::failed;
use crate::Command;
use vstd::prelude::*;

verus! {

/// The arguments of `find-one`.
pub struct FindOneArgs {
    pub db_name: String,
    pub collection_name: String,
    pub filter: Option<serde_json::Value>,
}

/// What `find_one` plans for arguments that were decoded or not: a filter,
/// if there is one, has to be a document.
pub open spec fn find_one_plan(parsed: Result<FindOneArgs, String>) -> Result<
    DriverCallView,
    Seq<char>,
> {
    match parsed {
        Err(message) => Err(message@),
        Ok(args) => match optional(args.filter, "filter must be a document"@) {
            Err(message) => Err(message),
            Ok(filter) => Ok(
                DriverCallView::FindOne {
                    db_name: args.db_name@,
                    collection_name: args.collection_name@,
                    filter,
                },
            ),
        },
    }
}

/// Handles `find-one`. `parse` decodes the argument segment.
pub fn find_one<'a, C, P>(
    command: &Command,
    registry: &'a Registry<C>,
    parse: P,
) -> (job: Result<(&'a C, DriverCall), String>) where
    P: FnOnce(&Vec<u8>) -> Result<FindOneArgs, String>,

    requires
        command.data.len() > 0 ==> call_requires(parse, (&command.data[0],)),
    ensures
        match opening(*command, registry@, "Missing arguments for findOne"@) {
            Err(message) => failed(job, message),
            Ok(handle) => exists|parsed: Result<FindOneArgs, String>|
                #[trigger] call_ensures(parse, (&command.data[0],), parsed) && planned(
                    job,
                    registry@[handle],
                    find_one_plan(parsed),
                ),
        },
{
    let (client, segment) = match open(command, registry, "Missing arguments for findOne") {
        Ok(opened) => opened,
        Err(message) => {
            return Err(message);
        },
    };
    let parsed = parse(segment);
    proof {
        assert(call_ensures(parse, (&command.data[0],), parsed));
    }
    let args = match parsed {
        Ok(args) => args,
        Err(message) => {
            return Err(message);
        },
    };
    let filter = match optional_document(args.filter, "filter must be a document") {
        Ok(filter) => filter,
        Err(message) => {
            return Err(message);
        },
    };
    Ok((client, DriverCall::FindOne {
            db_name: args.db_name,
            collection_name: args.collection_name,
            filter,
        }))
}

} // verus!
