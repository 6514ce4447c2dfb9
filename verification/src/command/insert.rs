//! The `insert-one` and `insert-many` commands: add documents to a
//! collection.

use crate::command::{
    all_required, open, opening, planned, required, required_document, required_documents,
    DriverCall, DriverCallView,
};
use crate::registry::Registry;
use crate::util::failed;
use crate::util::json_document;
use crate::Command;
use vstd::prelude::*;

verus! {

/// The arguments of `insert-many`.
pub struct InsertManyArgs {
    pub db_name: String,
    pub collection_name: String,
    pub docs: Vec<serde_json::Value>,
}

/// The arguments of `insert-one`.
pub struct InsertOneArgs {
    pub db_name: String,
    pub collection_name: String,
    pub doc: serde_json::Value,
}

/// What `insert_one` plans for arguments that were decoded or not: what is
/// to be inserted has to be a document.
pub open spec fn insert_one_plan(parsed: Result<InsertOneArgs, String>) -> Result<
    DriverCallView,
    Seq<char>,
> {
    match parsed {
        Err(message) => Err(message@),
        Ok(args) => match required(json_document(args.doc), "doc can not be null"@) {
            Err(message) => Err(message),
            Ok(doc) => Ok(
                DriverCallView::InsertOne {
                    db_name: args.db_name@,
                    collection_name: args.collection_name@,
                    doc,
                },
            ),
        },
    }
}

/// What `insert_many` plans for arguments that were decoded or not: each
/// of the values to be inserted has to be a document. An empty list is in
/// order.
pub open spec fn insert_many_plan(parsed: Result<InsertManyArgs, String>) -> Result<
    DriverCallView,
    Seq<char>,
> {
    match parsed {
        Err(message) => Err(message@),
        Ok(args) => match all_required(args.docs@, "docs must be documents"@) {
            Err(message) => Err(message),
            Ok(docs) => Ok(
                DriverCallView::InsertMany {
                    db_name: args.db_name@,
                    collection_name: args.collection_name@,
                    docs,
                },
            ),
        },
    }
}

/// Handles `insert-one`. `parse` decodes the argument segment.
pub fn insert_one<'a, C, P>(
    command: &Command,
    registry: &'a Registry<C>,
    parse: P,
) -> (job: Result<(&'a C, DriverCall), String>) where
    P: FnOnce(&Vec<u8>) -> Result<InsertOneArgs, String>,

    requires
        command.data.len() > 0 ==> call_requires(parse, (&command.data[0],)),
    ensures
        match opening(*command, registry@, "Missing arguments for insertOne"@) {
            Err(message) => failed(job, message),
            Ok(handle) => exists|parsed: Result<InsertOneArgs, String>|
                #[trigger] call_ensures(parse, (&command.data[0],), parsed) && planned(
                    job,
                    registry@[handle],
                    insert_one_plan(parsed),
                ),
        },
{
    let (client, segment) = match open(command, registry, "Missing arguments for insertOne") {
        Ok(opened) => opened,
        Err(message) => {
            return Err(message);
        },
    };
    let parsed = parse(segment);
    proof {
        assert(call_ensures(parse, (&command.data[0],), parsed));
    }
    let args = match parsed {
        Ok(args) => args,
        Err(message) => {
            return Err(message);
        },
    };
    let doc = match required_document(args.doc, "doc can not be null") {
        Ok(doc) => doc,
        Err(message) => {
            return Err(message);
        },
    };
    Ok((client, DriverCall::InsertOne {
            db_name: args.db_name,
            collection_name: args.collection_name,
            doc,
        }))
}

/// Handles `insert-many`. `parse` decodes the argument segment.
pub fn insert_many<'a, C, P>(
    command: &Command,
    registry: &'a Registry<C>,
    parse: P,
) -> (job: Result<(&'a C, DriverCall), String>) where
    P: FnOnce(&Vec<u8>) -> Result<InsertManyArgs, String>,

    requires
        command.data.len() > 0 ==> call_requires(parse, (&command.data[0],)),
    ensures
        match opening(*command, registry@, "Missing arguments for insertMany"@) {
            Err(message) => failed(job, message),
            Ok(handle) => exists|parsed: Result<InsertManyArgs, String>|
                #[trigger] call_ensures(parse, (&command.data[0],), parsed) && planned(
                    job,
                    registry@[handle],
                    insert_many_plan(parsed),
                ),
        },
{
    let (client, segment) = match open(command, registry, "Missing arguments for insertMany") {
        Ok(opened) => opened,
        Err(message) => {
            return Err(message);
        },
    };
    let parsed = parse(segment);
    proof {
        assert(call_ensures(parse, (&command.data[0],), parsed));
    }
    let args = match parsed {
        Ok(args) => args,
        Err(message) => {
            return Err(message);
        },
    };
    let docs = match required_documents(args.docs, "docs must be documents") {
        Ok(docs) => docs,
        Err(message) => {
            return Err(message);
        },
    };
    Ok((client, DriverCall::InsertMany {
            db_name: args.db_name,
            collection_name: args.collection_name,
            docs,
        }))
}

} // verus!
