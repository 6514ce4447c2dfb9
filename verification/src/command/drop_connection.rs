//! The `drop-collection` command: removes a collection with all its
//! documents.

use crate::command::{open, opening, planned, DriverCall, DriverCallView};
use crate::registry::Registry;
use crate::util::failed;
use crate::Command;
use vstd::prelude::*;

verus! {

/// The arguments of `drop-collection`.
pub struct DropConnectionArgs {
    pub db_name: String,
    pub collection_name: String,
}

/// What `drop_connection` plans for arguments that were decoded or not.
pub open spec fn drop_plan(parsed: Result<DropConnectionArgs, String>) -> Result<
    DriverCallView,
    Seq<char>,
> {
    match parsed {
        Err(message) => Err(message@),
        Ok(args) => Ok(
            DriverCallView::DropCollection {
                db_name: args.db_name@,
                collection_name: args.collection_name@,
            },
        ),
    }
}

/// Handles `drop-collection`. `parse` decodes the argument segment.
pub fn drop_connection<'a, C, P>(
    command: &Command,
    registry: &'a Registry<C>,
    parse: P,
) -> (job: Result<(&'a C, DriverCall), String>) where
    P: FnOnce(&Vec<u8>) -> Result<DropConnectionArgs, String>,

    requires
        command.data.len() > 0 ==> call_requires(parse, (&command.data[0],)),
    ensures
        match opening(*command, registry@, "Missing arguments for drop connection"@) {
            Err(message) => failed(job, message),
            Ok(handle) => exists|parsed: Result<DropConnectionArgs, String>|
                #[trigger] call_ensures(parse, (&command.data[0],), parsed) && planned(
                    job,
                    registry@[handle],
                    drop_plan(parsed),
                ),
        },
{
    let (client, segment) = match open(command, registry, "Missing arguments for drop connection") {
        Ok(opened) => opened,
        Err(message) => {
            return Err(message);
        },
    };
    let parsed = parse(segment);
    proof {
        assert(call_ensures(parse, (&command.data[0],), parsed));
    }
    let args = match parsed {
        Ok(args) => args,
        Err(message) => {
            return Err(message);
        },
    };
    Ok((client, DriverCall::DropCollection {
            db_name: args.db_name,
            collection_name: args.collection_name,
        }))
}

} // verus!
