//! The `update` command: changes the first or all documents that match a
//! query.

use crate::command::{
    open, opening, planned, required, required_document, DriverCall, DriverCallView,
};
use crate::registry::Registry;
use crate::text::{signed_decimal, signed_decimal_string};
use crate::util::{failed, json_document};
use crate::{data_text, text_of, Command};
use vstd::prelude::*;
use vstd::string::*;

verus! {

/// The arguments of `update`.
pub struct UpdateArgs {
    pub db_name: String,
    pub collection_name: String,
    pub query: serde_json::Value,
    pub update: serde_json::Value,
    pub update_one: bool,
}

/// What an update did: how many documents matched, how many were changed,
/// and the id of the document that was inserted instead, as JSON text.
#[derive(Debug)]
pub struct UpdateResultArgs {
    pub matched_count: i64,
    pub modified_count: i64,
    pub upserted_id: Option<String>,
}

impl UpdateResultArgs {
    /// The result as JSON text: an object with the members `matchedCount`,
    /// `modifiedCount` and `upsertedId`, the last one `null` where nothing
    /// was inserted.
    pub open spec fn json_text(self) -> Seq<char> {
        "{\"matchedCount\":"@ + signed_decimal(self.matched_count as int) + ",\"modifiedCount\":"@
            + signed_decimal(self.modified_count as int) + ",\"upsertedId\":"@ + data_text(
            text_of(self.upserted_id),
        ) + "}"@
    }

    /// The result as JSON text.
    pub fn to_json(&self) -> (json: String)
        ensures
            json@ == self.json_text(),
    {
        let mut json = "{\"matchedCount\":".to_owned();
        json.append(signed_decimal_string(self.matched_count).as_str());
        json.append(",\"modifiedCount\":");
        json.append(signed_decimal_string(self.modified_count).as_str());
        json.append(",\"upsertedId\":");
        match &self.upserted_id {
            Some(id) => json.append(id.as_str()),
            None => json.append("null"),
        }
        json.append("}");
        json
    }
}

/// A count as the result reports it: the count itself, or the largest
/// number that the result can hold where the count is larger.
pub open spec fn reported(count: u64) -> i64 {
    if count <= i64::MAX {
        count as i64
    } else {
        i64::MAX
    }
}

/// The result of an update from what the driver counted.
pub fn update_result(
    matched_count: u64,
    modified_count: u64,
    upserted_id: Option<String>,
) -> (result: UpdateResultArgs)
    ensures
        result.matched_count == reported(matched_count),
        result.modified_count == reported(modified_count),
        result.upserted_id == upserted_id,
{
    let matched_count: i64 = if matched_count <= 9223372036854775807u64 {
        matched_count as i64
    } else {
        9223372036854775807i64
    };
    let modified_count: i64 = if modified_count <= 9223372036854775807u64 {
        modified_count as i64
    } else {
        9223372036854775807i64
    };
    UpdateResultArgs { matched_count, modified_count, upserted_id }
}

/// The call for an update: of the first match where `update_one` is set,
/// otherwise of all matches.
pub open spec fn update_call_of(
    db_name: Seq<char>,
    collection_name: Seq<char>,
    query: bson::Document,
    update: bson::Document,
    update_one: bool,
) -> DriverCallView {
    if update_one {
        DriverCallView::UpdateOne { db_name, collection_name, query, update }
    } else {
        DriverCallView::UpdateMany { db_name, collection_name, query, update }
    }
}

/// What `update` plans for arguments that were decoded or not: the query
/// and the update have to be documents, and the query is checked first.
pub open spec fn update_plan(parsed: Result<UpdateArgs, String>) -> Result<
    DriverCallView,
    Seq<char>,
> {
    match parsed {
        Err(message) => Err(message@),
        Ok(args) => match required(json_document(args.query), "query can not be null"@) {
            Err(message) => Err(message),
            Ok(query) => match required(
                json_document(args.update),
                "update_doc can not be null"@,
            ) {
                Err(message) => Err(message),
                Ok(update) => Ok(
                    update_call_of(
                        args.db_name@,
                        args.collection_name@,
                        query,
                        update,
                        args.update_one,
                    ),
                ),
            },
        },
    }
}

/// The call for an update whose query and update are already documents.
pub fn update_call(
    db_name: String,
    collection_name: String,
    query: bson::Document,
    update: bson::Document,
    update_one: bool,
) -> (call: DriverCall)
    ensures
        call@ == update_call_of(db_name@, collection_name@, query, update, update_one),
{
    if update_one {
        DriverCall::UpdateOne { db_name, collection_name, query, update }
    } else {
        DriverCall::UpdateMany { db_name, collection_name, query, update }
    }
}

/// Handles `update`. `parse` decodes the argument segment.
pub fn update<'a, C, P>(
    command: &Command,
    registry: &'a Registry<C>,
    parse: P,
) -> (job: Result<(&'a C, DriverCall), String>) where
    P: FnOnce(&Vec<u8>) -> Result<UpdateArgs, String>,

    requires
        command.data.len() > 0 ==> call_requires(parse, (&command.data[0],)),
    ensures
        match opening(*command, registry@, "Missing arguments for update"@) {
            Err(message) => failed(job, message),
            Ok(handle) => exists|parsed: Result<UpdateArgs, String>|
                #[trigger] call_ensures(parse, (&command.data[0],), parsed) && planned(
                    job,
                    registry@[handle],
                    update_plan(parsed),
                ),
        },
{
    let (client, segment) = match open(command, registry, "Missing arguments for update") {
        Ok(opened) => opened,
        Err(message) => {
            return Err(message);
        },
    };
    let parsed = parse(segment);
    proof {
        assert(call_ensures(parse, (&command.data[0],), parsed));
    }
    let args = match parsed {
        Ok(args) => args,
        Err(message) => {
            return Err(message);
        },
    };
    let query = match required_document(args.query, "query can not be null") {
        Ok(query) => query,
        Err(message) => {
            return Err(message);
        },
    };
    let update = match required_document(args.update, "update_doc can not be null") {
        Ok(update) => update,
        Err(message) => {
            return Err(message);
        },
    };
    Ok((client, update_call(args.db_name, args.collection_name, query, update, args.update_one)))
}

} // verus!
