//! The `delete` command: removes the first or all documents that match a
//! query.

use crate::command::{
    open, opening, planned, required, required_document, DriverCall, DriverCallView,
};
use crate::registry::Registry;
use crate::util::failed;
use crate::util::json_document;
use crate::Command;
use vstd::prelude::*;

verus! {

/// The arguments of `delete`.
pub struct DeleteArgs {
    pub db_name: String,
    pub collection_name: String,
    pub query: serde_json::Value,
    pub delete_one: bool,
}

/// The call for a deletion: of the first match where `delete_one` is set,
/// otherwise of all matches.
pub open spec fn delete_call_of(
    db_name: Seq<char>,
    collection_name: Seq<char>,
    query: bson::Document,
    delete_one: bool,
) -> DriverCallView {
    if delete_one {
        DriverCallView::DeleteOne { db_name, collection_name, query }
    } else {
        DriverCallView::DeleteMany { db_name, collection_name, query }
    }
}

/// What `delete` plans for arguments that were decoded or not: the query
/// has to be a document.
pub open spec fn delete_plan(parsed: Result<DeleteArgs, String>) -> Result<
    DriverCallView,
    Seq<char>,
> {
    match parsed {
        Err(message) => Err(message@),
        Ok(args) => match required(json_document(args.query), "query can not be null"@) {
            Err(message) => Err(message),
            Ok(query) => Ok(
                delete_call_of(args.db_name@, args.collection_name@, query, args.delete_one),
            ),
        },
    }
}

/// The call for a deletion whose query is already a document.
pub fn delete_call(
    db_name: String,
    collection_name: String,
    query: bson::Document,
    delete_one: bool,
) -> (call: DriverCall)
    ensures
        call@ == delete_call_of(db_name@, collection_name@, query, delete_one),
{
    if delete_one {
        DriverCall::DeleteOne { db_name, collection_name, query }
    } else {
        DriverCall::DeleteMany { db_name, collection_name, query }
    }
}

/// Handles `delete`. `parse` decodes the argument segment.
pub fn delete<'a, C, P>(
    command: &Command,
    registry: &'a Registry<C>,
    parse: P,
) -> (job: Result<(&'a C, DriverCall), String>) where
    P: FnOnce(&Vec<u8>) -> Result<DeleteArgs, String>,

    requires
        command.data.len() > 0 ==> call_requires(parse, (&command.data[0],)),
    ensures
        match opening(*command, registry@, "Missing arguments for delete"@) {
            Err(message) => failed(job, message),
            Ok(handle) => exists|parsed: Result<DeleteArgs, String>|
                #[trigger] call_ensures(parse, (&command.data[0],), parsed) && planned(
                    job,
                    registry@[handle],
                    delete_plan(parsed),
                ),
        },
{
    let (client, segment) = match open(command, registry, "Missing arguments for delete") {
        Ok(opened) => opened,
        Err(message) => {
            return Err(message);
        },
    };
    let parsed = parse(segment);
    proof {
        assert(call_ensures(parse, (&command.data[0],), parsed));
    }
    let args = match parsed {
        Ok(args) => args,
        Err(message) => {
            return Err(message);
        },
    };
    let query = match required_document(args.query, "query can not be null") {
        Ok(query) => query,
        Err(message) => {
            return Err(message);
        },
    };
    Ok((client, delete_call(args.db_name, args.collection_name, query, args.delete_one)))
}

} // verus!
