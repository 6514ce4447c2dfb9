//! The `find` command: the documents of a collection that match a filter.

use crate::command::{
    open, opening, optional, optional_document, planned, DriverCall, DriverCallView,
};
use crate::registry::Registry;
use crate::util::failed;
use crate::{Command, CommandType};
use vstd::prelude::*;

verus! {

/// The arguments of `find`.
pub struct FindArgs {
    pub db_name: String,
    pub collection_name: String,
    pub filter: Option<serde_json::Value>,
    pub find_one: bool,
    pub skip: Option<i64>,
    pub limit: Option<i64>,
}

/// How many documents to skip: as many as asked for, which cannot be a
/// negative number.
pub open spec fn skip_of(skip: Option<i64>) -> Result<Option<u64>, Seq<char>> {
    match skip {
        None => Ok(None),
        Some(count) => if count >= 0 {
            Ok(Some(count as u64))
        } else {
            Err("skip must not be negative"@)
        },
    }
}

/// The call for a search: for one document, where `find_one` is set, and
/// then `skip` and `limit` play no part; otherwise for all documents, with
/// them.
pub open spec fn find_call_of(
    db_name: Seq<char>,
    collection_name: Seq<char>,
    filter: Option<bson::Document>,
    find_one: bool,
    skip: Option<i64>,
    limit: Option<i64>,
) -> Result<DriverCallView, Seq<char>> {
    if find_one {
        Ok(DriverCallView::FindOne { db_name, collection_name, filter })
    } else {
        match skip_of(skip) {
            Err(message) => Err(message),
            Ok(skip) => Ok(DriverCallView::Find { db_name, collection_name, filter, skip, limit }),
        }
    }
}

/// What `find` plans for arguments that were decoded or not: a filter, if
/// there is one, has to be a document, and is checked first.
pub open spec fn find_plan(parsed: Result<FindArgs, String>) -> Result<DriverCallView, Seq<char>> {
    match parsed {
        Err(message) => Err(message@),
        Ok(args) => match optional(args.filter, "filter must be a document"@) {
            Err(message) => Err(message),
            Ok(filter) => find_call_of(
                args.db_name@,
                args.collection_name@,
                filter,
                args.find_one,
                args.skip,
                args.limit,
            ),
        },
    }
}

/// The call for a search whose filter is already a document.
pub fn find_call(
    db_name: String,
    collection_name: String,
    filter: Option<bson::Document>,
    find_one: bool,
    skip: Option<i64>,
    limit: Option<i64>,
) -> (call: Result<DriverCall, String>)
    ensures
        match find_call_of(db_name@, collection_name@, filter, find_one, skip, limit) {
            Ok(expected) => call matches Ok(found) && found@ == expected,
            Err(message) => failed(call, message),
        },
{
    if find_one {
        Ok(DriverCall::FindOne { db_name, collection_name, filter })
    } else {
        let skip = match skip {
            None => None,
            Some(count) => if count >= 0 {
                Some(count as u64)
            } else {
                return Err("skip must not be negative".to_owned());
            },
        };
        Ok(DriverCall::Find { db_name, collection_name, filter, skip, limit })
    }
}

/// What a search for one document found, as the list of documents that
/// the command returns: that document alone, or no document.
pub fn found_documents(found: Option<bson::Document>) -> (documents: Vec<bson::Document>)
    ensures
        documents@ == match found {
            Some(document) => seq![document],
            None => Seq::empty(),
        },
{
    let mut documents: Vec<bson::Document> = Vec::new();
    match found {
        Some(document) => documents.push(document),
        None => {},
    }
    documents
}

/// What a search for one document found, in the shape that the command
/// that asked for it returns.
pub enum Found {
    /// For `find`: a list with the document, or without any.
    Listed(Vec<bson::Document>),
    /// For every other command: the document, or none.
    Single(Option<bson::Document>),
}

/// What a search for one document found, in the shape that the command of
/// type `command_type` returns: `find` always returns a list, also where it
/// searched for one document only.
pub fn found_value(command_type: CommandType, found: Option<bson::Document>) -> (value: Found)
    ensures
        match command_type {
            CommandType::Find => value matches Found::Listed(documents) && documents@
                == match found {
                Some(document) => seq![document],
                None => Seq::empty(),
            },
            _ => value == Found::Single(found),
        },
{
    match command_type {
        CommandType::Find => Found::Listed(found_documents(found)),
        _ => Found::Single(found),
    }
}

/// Handles `find`. `parse` decodes the argument segment.
pub fn find<'a, C, P>(
    command: &Command,
    registry: &'a Registry<C>,
    parse: P,
) -> (job: Result<(&'a C, DriverCall), String>) where
    P: FnOnce(&Vec<u8>) -> Result<FindArgs, String>,

    requires
        command.data.len() > 0 ==> call_requires(parse, (&command.data[0],)),
    ensures
        match opening(*command, registry@, "Arguments missing for find"@) {
            Err(message) => failed(job, message),
            Ok(handle) => exists|parsed: Result<FindArgs, String>|
                #[trigger] call_ensures(parse, (&command.data[0],), parsed) && planned(
                    job,
                    registry@[handle],
                    find_plan(parsed),
                ),
        },
{
    let (client, segment) = match open(command, registry, "Arguments missing for find") {
        Ok(opened) => opened,
        Err(message) => {
            return Err(message);
        },
    };
    let parsed = parse(segment);
    proof {
        assert(call_ensures(parse, (&command.data[0],), parsed));
    }
    let args = match parsed {
        Ok(args) => args,
        Err(message) => {
            return Err(message);
        },
    };
    let filter = match optional_document(args.filter, "filter must be a document") {
        Ok(filter) => filter,
        Err(message) => {
            return Err(message);
        },
    };
    let call = match find_call(
        args.db_name,
        args.collection_name,
        filter,
        args.find_one,
        args.skip,
        args.limit,
    ) {
        Ok(call) => call,
        Err(message) => {
            return Err(message);
        },
    };
    Ok((client, call))
}

} // verus!
