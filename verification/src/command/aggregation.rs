//! The `aggregate` command: runs a pipeline of stages over a collection.

use crate::command::{
    all_required, open, opening, planned, required_documents, DriverCall, DriverCallView,
};
use crate::registry::Registry;
use crate::util::failed;
use crate::Command;
use vstd::prelude::*;

verus! {

/// The arguments of `aggregate`.
pub struct AggregationArgs {
    pub db_name: String,
    pub collection_name: String,
    pub pipeline: Vec<serde_json::Value>,
}

/// What `aggregate` plans for arguments that were decoded or not: every
/// stage of the pipeline has to be a document.
pub open spec fn aggregate_plan(parsed: Result<AggregationArgs, String>) -> Result<
    DriverCallView,
    Seq<char>,
> {
    match parsed {
        Err(message) => Err(message@),
        Ok(args) => match all_required(args.pipeline@, "pipeline stages must be documents"@) {
            Err(message) => Err(message),
            Ok(pipeline) => Ok(
                DriverCallView::Aggregate {
                    db_name: args.db_name@,
                    collection_name: args.collection_name@,
                    pipeline,
                },
            ),
        },
    }
}

/// Handles `aggregate`. `parse` decodes the argument segment.
pub fn aggregate<'a, C, P>(
    command: &Command,
    registry: &'a Registry<C>,
    parse: P,
) -> (job: Result<(&'a C, DriverCall), String>) where
    P: FnOnce(&Vec<u8>) -> Result<AggregationArgs, String>,

    requires
        command.data.len() > 0 ==> call_requires(parse, (&command.data[0],)),
    ensures
        match opening(*command, registry@, "Missing arguments for aggregate"@) {
            Err(message) => failed(job, message),
            Ok(handle) => exists|parsed: Result<AggregationArgs, String>|
                #[trigger] call_ensures(parse, (&command.data[0],), parsed) && planned(
                    job,
                    registry@[handle],
                    aggregate_plan(parsed),
                ),
        },
{
    let (client, segment) = match open(command, registry, "Missing arguments for aggregate") {
        Ok(opened) => opened,
        Err(message) => {
            return Err(message);
        },
    };
    let parsed = parse(segment);
    proof {
        assert(call_ensures(parse, (&command.data[0],), parsed));
    }
    let args = match parsed {
        Ok(args) => args,
        Err(message) => {
            return Err(message);
        },
    };
    let pipeline = match required_documents(args.pipeline, "pipeline stages must be documents") {
        Ok(pipeline) => pipeline,
        Err(message) => {
            return Err(message);
        },
    };
    Ok((client, DriverCall::Aggregate {
            db_name: args.db_name,
            collection_name: args.collection_name,
            pipeline,
        }))
}

} // verus!
