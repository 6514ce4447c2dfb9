//! The `close` command: gives up a connection.

use crate::registry::{Registry, RegistryOp};
use crate::util::{failed, JsonResult};
use crate::Command;
use vstd::prelude::*;

verus! {

/// The acknowledgement of `close`.
#[derive(Debug)]
pub struct CloseResult {
    pub success: bool,
}

impl CloseResult {
    /// The acknowledgement as JSON text.
    pub open spec fn json_text(self) -> Seq<char> {
        if self.success {
            "{\"success\":true}"@
        } else {
            "{\"success\":false}"@
        }
    }

    /// The acknowledgement as JSON text.
    pub fn to_json(&self) -> (json: String)
        ensures
            json@ == self.json_text(),
    {
        if self.success {
            "{\"success\":true}".to_owned()
        } else {
            "{\"success\":false}".to_owned()
        }
    }
}

/// Handles `close`: removes the connection that the command names from the
/// registry. Closing succeeds whether or not the handle was live; only a
/// command that names no handle fails, and it changes nothing.
pub fn close<C>(command: &Command, registry: &mut Registry<C>) -> (closed: JsonResult<CloseResult>)
    requires
        old(registry).wf(),
    ensures
        final(registry).wf(),
        match command.args.client_id {
            Some(handle) => {
                &&& closed == Ok::<CloseResult, String>(CloseResult { success: true })
                &&& final(registry)@ == old(registry)@.remove(handle)
                &&& final(registry).state() == old(registry).state().step(
                    RegistryOp::Remove { handle },
                )
            },
            None => {
                &&& failed(closed, "Missing clientId"@)
                &&& final(registry).state() == old(registry).state()
            },
        },
{
    match command.args.client_id {
        Some(handle) => {
            registry.remove(handle);
            Ok(CloseResult { success: true })
        },
        None => Err("Missing clientId".to_owned()),
    }
}

} // verus!
