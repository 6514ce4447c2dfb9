//! The `list-database-names` command.

use crate::command::{planned, DriverCall, DriverCallView};
use crate::registry::Registry;
use crate::util::failed;
use crate::{client_handle, Command};
use vstd::prelude::*;

verus! {

/// Handles `list-database-names`: the command takes no arguments, so all
/// that can fail is finding the connection.
pub fn list_database_names<'a, C>(command: &Command, registry: &'a Registry<C>) -> (job: Result<
    (&'a C, DriverCall),
    String,
>)
    ensures
        match client_handle(*command, registry@) {
            Err(message) => failed(job, message),
            Ok(handle) => planned(job, registry@[handle], Ok(DriverCallView::ListDatabaseNames)),
        },
{
    match command.get_client(registry) {
        Ok(client) => Ok((client, DriverCall::ListDatabaseNames)),
        Err(message) => Err(message),
    }
}

} // verus!
