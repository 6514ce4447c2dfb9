//! The `list-collection-names` command.

use crate::command::{open, opening, planned, DriverCall, DriverCallView};
use crate::registry::Registry;
use crate::text::{string_from_utf8, utf8_error_text};
use crate::util::failed;
use crate::Command;
use vstd::prelude::*;
use vstd::slice::slice_to_vec;
use vstd::utf8::*;

verus! {

/// What `list_collection_names` plans for an argument segment: the segment
/// is the name of the database, in UTF-8.
pub open spec fn list_collection_names_plan(segment: Seq<u8>) -> Result<DriverCallView, Seq<char>> {
    if valid_utf8(segment) {
        Ok(DriverCallView::ListCollectionNames { db_name: decode_utf8(segment) })
    } else {
        Err(utf8_error_text(segment))
    }
}

/// Handles `list-collection-names`.
pub fn list_collection_names<'a, C>(command: &Command, registry: &'a Registry<C>) -> (job: Result<
    (&'a C, DriverCall),
    String,
>)
    ensures
        match opening(*command, registry@, "Missing database name"@) {
            Err(message) => failed(job, message),
            Ok(handle) => planned(
                job,
                registry@[handle],
                list_collection_names_plan(command.data[0]@),
            ),
        },
{
    broadcast use encode_utf8_decode_utf8;

    let (client, segment) = match open(command, registry, "Missing database name") {
        Ok(opened) => opened,
        Err(message) => {
            return Err(message);
        },
    };
    match string_from_utf8(slice_to_vec(segment.as_slice())) {
        Ok(db_name) => Ok((client, DriverCall::ListCollectionNames { db_name })),
        Err(message) => Err(message),
    }
}

} // verus!
