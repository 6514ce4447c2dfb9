//! The `distinct` command: the distinct values of one field among the
//! documents of a collection that match a filter.

use crate::command::{
    open, opening, optional, optional_document, planned, DriverCall, DriverCallView,
};
use crate::registry::Registry;
use crate::util::failed;
use crate::Command;
use vstd::prelude::*;

verus! {

/// The arguments of `distinct`.
pub struct DistinctArgs {
    pub db_name: String,
    pub collection_name: String,
    pub field_name: String,
    pub filter: Option<serde_json::Value>,
}

/// What the handler of `distinct` plans for arguments that were decoded or
/// not: a filter, if there is one, has to be a document.
pub open spec fn distinct_plan(parsed: Result<DistinctArgs, String>) -> Result<
    DriverCallView,
    Seq<char>,
> {
    match parsed {
        Err(message) => Err(message@),
        Ok(args) => match optional(args.filter, "filter must be a document"@) {
            Err(message) => Err(message),
            Ok(filter) => Ok(
                DriverCallView::Distinct {
                    db_name: args.db_name@,
                    collection_name: args.collection_name@,
                    field_name: args.field_name@,
                    filter,
                },
            ),
        },
    }
}

/// Handles `distinct`: finds the distinct values of a field. `parse` decodes the argument segment.
pub fn find<'a, C, P>(
    command: &Command,
    registry: &'a Registry<C>,
    parse: P,
) -> (job: Result<(&'a C, DriverCall), String>) where
    P: FnOnce(&Vec<u8>) -> Result<DistinctArgs, String>,

    requires
        command.data.len() > 0 ==> call_requires(parse, (&command.data[0],)),
    ensures
        match opening(*command, registry@, "Missing arguments for distinct"@) {
            Err(message) => failed(job, message),
            Ok(handle) => exists|parsed: Result<DistinctArgs, String>|
                #[trigger] call_ensures(parse, (&command.data[0],), parsed) && planned(
                    job,
                    registry@[handle],
                    distinct_plan(parsed),
                ),
        },
{
    let (client, segment) = match open(command, registry, "Missing arguments for distinct") {
        Ok(opened) => opened,
        Err(message) => {
            return Err(message);
        },
    };
    let parsed = parse(segment);
    proof {
        assert(call_ensures(parse, (&command.data[0],), parsed));
    }
    let args = match parsed {
        Ok(args) => args,
        Err(message) => {
            return Err(message);
        },
    };
    let filter = match optional_document(args.filter, "filter must be a document") {
        Ok(filter) => filter,
        Err(message) => {
            return Err(message);
        },
    };
    Ok((client, DriverCall::Distinct {
            db_name: args.db_name,
            collection_name: args.collection_name,
            field_name: args.field_name,
            filter,
        }))
}

} // verus!
