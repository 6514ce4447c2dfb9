//! One handler per command. A handler finds the connection that the command
//! names, has the argument segment decoded, checks the arguments and says
//! which single call the driver is to make.

pub mod aggregation;
pub mod close;
pub mod connect;
pub mod count;
pub mod delete;
pub mod distinct;
pub mod drop_connection;
pub mod find;
pub mod find_one;
pub mod indexes;
pub mod insert;
pub mod list_collection_names;
pub mod list_database_names;
pub mod stream;
pub mod table;
pub mod update;

use crate::registry::Registry;
use crate::util::{failed, json_document, json_to_document};
use crate::{client_handle, Command};
use vstd::prelude::*;

verus! {

/// The keys of one index and, optionally, how to build it.
pub struct IndexModel {
    pub keys: bson::Document,
    pub options: Option<bson::Document>,
}

/// The one call that a command asks of the driver, on the connection that
/// the command names.
pub enum DriverCall {
    ListDatabaseNames,
    ListCollectionNames { db_name: String },
    Find {
        db_name: String,
        collection_name: String,
        filter: Option<bson::Document>,
        skip: Option<u64>,
        limit: Option<i64>,
    },
    FindOne { db_name: String, collection_name: String, filter: Option<bson::Document> },
    InsertOne { db_name: String, collection_name: String, doc: bson::Document },
    InsertMany { db_name: String, collection_name: String, docs: Vec<bson::Document> },
    DeleteOne { db_name: String, collection_name: String, query: bson::Document },
    DeleteMany { db_name: String, collection_name: String, query: bson::Document },
    UpdateOne {
        db_name: String,
        collection_name: String,
        query: bson::Document,
        update: bson::Document,
    },
    UpdateMany {
        db_name: String,
        collection_name: String,
        query: bson::Document,
        update: bson::Document,
    },
    Aggregate { db_name: String, collection_name: String, pipeline: Vec<bson::Document> },
    CountDocuments { db_name: String, collection_name: String, filter: Option<bson::Document> },
    Distinct {
        db_name: String,
        collection_name: String,
        field_name: String,
        filter: Option<bson::Document>,
    },
    CreateIndexes { db_name: String, collection_name: String, models: Vec<IndexModel> },
    DropCollection { db_name: String, collection_name: String },
}

/// A driver call as mathematics sees it: names as text, lists as sequences.
pub enum DriverCallView {
    ListDatabaseNames,
    ListCollectionNames { db_name: Seq<char> },
    Find {
        db_name: Seq<char>,
        collection_name: Seq<char>,
        filter: Option<bson::Document>,
        skip: Option<u64>,
        limit: Option<i64>,
    },
    FindOne { db_name: Seq<char>, collection_name: Seq<char>, filter: Option<bson::Document> },
    InsertOne { db_name: Seq<char>, collection_name: Seq<char>, doc: bson::Document },
    InsertMany { db_name: Seq<char>, collection_name: Seq<char>, docs: Seq<bson::Document> },
    DeleteOne { db_name: Seq<char>, collection_name: Seq<char>, query: bson::Document },
    DeleteMany { db_name: Seq<char>, collection_name: Seq<char>, query: bson::Document },
    UpdateOne {
        db_name: Seq<char>,
        collection_name: Seq<char>,
        query: bson::Document,
        update: bson::Document,
    },
    UpdateMany {
        db_name: Seq<char>,
        collection_name: Seq<char>,
        query: bson::Document,
        update: bson::Document,
    },
    Aggregate { db_name: Seq<char>, collection_name: Seq<char>, pipeline: Seq<bson::Document> },
    CountDocuments {
        db_name: Seq<char>,
        collection_name: Seq<char>,
        filter: Option<bson::Document>,
    },
    Distinct {
        db_name: Seq<char>,
        collection_name: Seq<char>,
        field_name: Seq<char>,
        filter: Option<bson::Document>,
    },
    CreateIndexes { db_name: Seq<char>, collection_name: Seq<char>, models: Seq<IndexModel> },
    DropCollection { db_name: Seq<char>, collection_name: Seq<char> },
}

impl View for DriverCall {
    type V = DriverCallView;

    open spec fn view(&self) -> DriverCallView {
        match *self {
            DriverCall::ListDatabaseNames => DriverCallView::ListDatabaseNames,
            DriverCall::ListCollectionNames { db_name } => DriverCallView::ListCollectionNames {
                db_name: db_name@,
            },
            DriverCall::Find {
                db_name,
                collection_name,
                filter,
                skip,
                limit,
            } => DriverCallView::Find {
                db_name: db_name@,
                collection_name: collection_name@,
                filter,
                skip,
                limit,
            },
            DriverCall::FindOne { db_name, collection_name, filter } => DriverCallView::FindOne {
                db_name: db_name@,
                collection_name: collection_name@,
                filter,
            },
            DriverCall::InsertOne { db_name, collection_name, doc } => DriverCallView::InsertOne {
                db_name: db_name@,
                collection_name: collection_name@,
                doc,
            },
            DriverCall::InsertMany {
                db_name,
                collection_name,
                docs,
            } => DriverCallView::InsertMany {
                db_name: db_name@,
                collection_name: collection_name@,
                docs: docs@,
            },
            DriverCall::DeleteOne { db_name, collection_name, query } => DriverCallView::DeleteOne {
                db_name: db_name@,
                collection_name: collection_name@,
                query,
            },
            DriverCall::DeleteMany {
                db_name,
                collection_name,
                query,
            } => DriverCallView::DeleteMany {
                db_name: db_name@,
                collection_name: collection_name@,
                query,
            },
            DriverCall::UpdateOne {
                db_name,
                collection_name,
                query,
                update,
            } => DriverCallView::UpdateOne {
                db_name: db_name@,
                collection_name: collection_name@,
                query,
                update,
            },
            DriverCall::UpdateMany {
                db_name,
                collection_name,
                query,
                update,
            } => DriverCallView::UpdateMany {
                db_name: db_name@,
                collection_name: collection_name@,
                query,
                update,
            },
            DriverCall::Aggregate {
                db_name,
                collection_name,
                pipeline,
            } => DriverCallView::Aggregate {
                db_name: db_name@,
                collection_name: collection_name@,
                pipeline: pipeline@,
            },
            DriverCall::CountDocuments {
                db_name,
                collection_name,
                filter,
            } => DriverCallView::CountDocuments {
                db_name: db_name@,
                collection_name: collection_name@,
                filter,
            },
            DriverCall::Distinct {
                db_name,
                collection_name,
                field_name,
                filter,
            } => DriverCallView::Distinct {
                db_name: db_name@,
                collection_name: collection_name@,
                field_name: field_name@,
                filter,
            },
            DriverCall::CreateIndexes {
                db_name,
                collection_name,
                models,
            } => DriverCallView::CreateIndexes {
                db_name: db_name@,
                collection_name: collection_name@,
                models: models@,
            },
            DriverCall::DropCollection {
                db_name,
                collection_name,
            } => DriverCallView::DropCollection {
                db_name: db_name@,
                collection_name: collection_name@,
            },
        }
    }
}

/// The handle of the connection that a command with arguments is to use, or
/// the message of what it lacks: first the connection is looked up, then
/// the argument segment is asked for.
pub open spec fn opening<C>(command: Command, live: Map<usize, C>, missing: Seq<char>) -> Result<
    usize,
    Seq<char>,
> {
    match client_handle(command, live) {
        Err(message) => Err(message),
        Ok(handle) => if command.data.len() == 0 {
            Err(missing)
        } else {
            Ok(handle)
        },
    }
}

/// Whether `job` is what a handler owes for `plan` on the connection
/// `client`: that connection with the planned call, or the failure with the
/// planned message.
pub open spec fn planned<C>(
    job: Result<(&C, DriverCall), String>,
    client: C,
    plan: Result<DriverCallView, Seq<char>>,
) -> bool {
    match plan {
        Ok(call) => job matches Ok(found) && *found.0 == client && found.1@ == call,
        Err(message) => failed(job, message),
    }
}

/// The connection and the argument segment of a command that needs both;
/// `missing` is the message of the error when there is no segment.
pub fn open<'a, 'b, C>(command: &'b Command, registry: &'a Registry<C>, missing: &str) -> (opened:
    Result<(&'a C, &'b Vec<u8>), String>)
    ensures
        match opening(*command, registry@, missing@) {
            Ok(handle) => opened matches Ok(found) && *found.0 == registry@[handle] && *found.1
                == command.data[0],
            Err(message) => failed(opened, message),
        },
{
    match command.get_client(registry) {
        Err(message) => Err(message),
        Ok(client) => match command.arguments(missing) {
            Err(message) => Err(message),
            Ok(segment) => Ok((client, segment)),
        },
    }
}

/// A document where one is required: `found` itself, or the failure with
/// `message` where the value was no document.
pub open spec fn required(found: Option<bson::Document>, message: Seq<char>) -> Result<
    bson::Document,
    Seq<char>,
> {
    match found {
        Some(document) => Ok(document),
        None => Err(message),
    }
}

/// A document where one may be given: none for no value, the document of a
/// value that is one, and the failure with `message` for a value that is
/// not.
pub open spec fn optional(json: Option<serde_json::Value>, message: Seq<char>) -> Result<
    Option<bson::Document>,
    Seq<char>,
> {
    match json {
        None => Ok(None),
        Some(value) => match json_document(value) {
            Some(document) => Ok(Some(document)),
            None => Err(message),
        },
    }
}

/// Documents where a list of them is required: the document of each value,
/// in order, or the failure with `message` where some value is no document.
pub open spec fn all_required(jsons: Seq<serde_json::Value>, message: Seq<char>) -> Result<
    Seq<bson::Document>,
    Seq<char>,
> {
    if forall|i: int| 0 <= i < jsons.len() ==> json_document(#[trigger] jsons[i]) is Some {
        Ok(Seq::new(jsons.len(), |i: int| json_document(jsons[i]).unwrap()))
    } else {
        Err(message)
    }
}

/// Whether `result` is what `expected` says: the same value, or the failure
/// with the same message.
pub open spec fn agrees<T>(result: Result<T, String>, expected: Result<T, Seq<char>>) -> bool {
    match expected {
        Ok(value) => result == Ok::<T, String>(value),
        Err(message) => failed(result, message),
    }
}

/// The document in `found`, or the failure with `message` where there is
/// none.
pub fn require_document(found: Option<bson::Document>, message: &str) -> (document: Result<
    bson::Document,
    String,
>)
    ensures
        agrees(document, required(found, message@)),
{
    match found {
        Some(document) => Ok(document),
        None => Err(message.to_owned()),
    }
}

/// The document of a required value, or the failure with `message`.
pub fn required_document(json: serde_json::Value, message: &str) -> (document: Result<
    bson::Document,
    String,
>)
    ensures
        agrees(document, required(json_document(json), message@)),
{
    require_document(json_to_document(json), message)
}

/// The document of an optional value, or the failure with `message` where
/// the value is there but is no document.
pub fn optional_document(json: Option<serde_json::Value>, message: &str) -> (document: Result<
    Option<bson::Document>,
    String,
>)
    ensures
        agrees(document, optional(json, message@)),
{
    match json {
        None => Ok(None),
        Some(value) => match json_to_document(value) {
            Some(document) => Ok(Some(document)),
            None => Err(message.to_owned()),
        },
    }
}

/// The documents of a list of values, or the failure with `message` where
/// one of them is no document.
pub fn required_documents(jsons: Vec<serde_json::Value>, message: &str) -> (documents: Result<
    Vec<bson::Document>,
    String,
>)
    ensures
        match all_required(jsons@, message@) {
            Ok(expected) => documents matches Ok(found) && found@ == expected,
            Err(text) => failed(documents, text),
        },
{
    let mut documents: Vec<bson::Document> = Vec::new();
    for json in iter: jsons
        invariant
            iter.seq() == jsons@,
            documents@.len() == iter.index(),
            forall|i: int|
                0 <= i < iter.index() ==> json_document(#[trigger] jsons@[i]) == Some(
                    documents@[i],
                ),
    {
        match json_to_document(json) {
            Some(document) => documents.push(document),
            None => {
                return Err(message.to_owned());
            },
        }
    }
    proof {
        assert(documents@ =~= Seq::new(jsons@.len(), |i: int| json_document(jsons@[i]).unwrap()));
    }
    Ok(documents)
}

} // verus!
