//! The command table: which handler answers which command.

use crate::command::aggregation::{aggregate, aggregate_plan, AggregationArgs};
use crate::command::close::{close, CloseResult};
use crate::command::connect::{
    connect_plan, connect_with_options, connect_with_uri, connection_string_of, ClientSettings,
    ConnectArgs,
};
use crate::command::count::{count, count_plan, CountArgs};
use crate::command::delete::{delete, delete_plan, DeleteArgs};
use crate::command::distinct::{distinct_plan, DistinctArgs};
use crate::command::drop_connection::{drop_connection, drop_plan, DropConnectionArgs};
use crate::command::find::{find, find_plan, FindArgs};
use crate::command::find_one::{find_one, find_one_plan, FindOneArgs};
use crate::command::indexes::{create_indexes, create_indexes_plan, CreateIndexesArgs};
use crate::command::insert::{
    insert_many, insert_many_plan, insert_one, insert_one_plan, InsertManyArgs, InsertOneArgs,
};
use crate::command::list_collection_names::{list_collection_names, list_collection_names_plan};
use crate::command::list_database_names::list_database_names;
use crate::command::update::{update, update_plan, UpdateArgs};
use crate::command::{opening, planned, DriverCall, DriverCallView};
use crate::registry::{Registry, RegistryOp};
use crate::util::failed;
use crate::{client_handle, Command, CommandType};
use vstd::prelude::*;

verus! {

/// How far a command that is answered at once has come.
pub enum Immediate {
    /// The connection is closed; this is the answer.
    Closed(CloseResult),
    /// The driver is to connect with this connection string.
    ConnectWithUri(String),
    /// The driver is to connect with these settings.
    ConnectWithOptions(ClientSettings),
}

/// The settings, or the failure, that a step of `connect-with-options`
/// holds.
pub open spec fn settings_in(step: Result<Immediate, String>) -> Option<
    Result<ClientSettings, String>,
> {
    match step {
        Ok(Immediate::ConnectWithOptions(settings)) => Some(Ok(settings)),
        Ok(_) => None,
        Err(message) => Some(Err(message)),
    }
}

/// The single point of dispatch for the commands that are answered at once:
/// `close` is carried out, and the two `connect` commands say what the
/// driver is to connect with. `parse` decodes the arguments of
/// `connect-with-options`. A deferred command fails here and changes
/// nothing.
pub fn begin<C, P>(command: &Command, registry: &mut Registry<C>, parse: P) -> (step: Result<
    Immediate,
    String,
>) where P: FnOnce(&Vec<u8>) -> Result<ConnectArgs, String>
    requires
        old(registry).wf(),
        command.data.len() > 0 ==> call_requires(parse, (&command.data[0],)),
    ensures
        final(registry).wf(),
        match command.args.command_type {
            CommandType::Close => match command.args.client_id {
                Some(handle) => {
                    &&& step matches Ok(Immediate::Closed(closed)) && closed.success
                    &&& final(registry).state() == old(registry).state().step(
                        RegistryOp::Remove { handle },
                    )
                },
                None => {
                    &&& failed(step, "Missing clientId"@)
                    &&& final(registry).state() == old(registry).state()
                },
            },
            CommandType::ConnectWithUri => {
                &&& final(registry).state() == old(registry).state()
                &&& match connection_string_of(command.data@) {
                    Ok(text) => step matches Ok(Immediate::ConnectWithUri(uri)) && uri@ == text,
                    Err(message) => failed(step, message),
                }
            },
            CommandType::ConnectWithOptions => {
                &&& final(registry).state() == old(registry).state()
                &&& if command.data.len() == 0 {
                    failed(step, "Missing arguments for connect"@)
                } else {
                    exists|parsed: Result<ConnectArgs, String>|
                        #[trigger] call_ensures(parse, (&command.data[0],), parsed) && (settings_in(
                            step,
                        ) matches Some(settings) && connect_plan(parsed, settings))
                }
            },
            _ => {
                &&& failed(step, "Not an immediate command"@)
                &&& final(registry).state() == old(registry).state()
            },
        },
{
    match command.args.command_type {
        CommandType::Close => match close(command, registry) {
            Ok(closed) => Ok(Immediate::Closed(closed)),
            Err(message) => Err(message),
        },
        CommandType::ConnectWithUri => match connect_with_uri(command) {
            Ok(uri) => Ok(Immediate::ConnectWithUri(uri)),
            Err(message) => Err(message),
        },
        CommandType::ConnectWithOptions => {
            let settings = connect_with_options(command, parse);
            match settings {
                Ok(settings) => Ok(Immediate::ConnectWithOptions(settings)),
                Err(message) => Err(message),
            }
        },
        _ => Err("Not an immediate command".to_owned()),
    }
}

/// The decoded arguments of a deferred command, each kind for its command.
pub enum Arguments {
    Find(FindArgs),
    FindOne(FindOneArgs),
    InsertOne(InsertOneArgs),
    InsertMany(InsertManyArgs),
    Delete(DeleteArgs),
    Update(UpdateArgs),
    Aggregate(AggregationArgs),
    Count(CountArgs),
    Distinct(DistinctArgs),
    CreateIndexes(CreateIndexesArgs),
    DropCollection(DropConnectionArgs),
}

/// The message for a command whose argument segment is missing.
pub open spec fn missing_arguments(command_type: CommandType) -> Seq<char> {
    match command_type {
        CommandType::Find => "Arguments missing for find"@,
        CommandType::FindOne => "Missing arguments for findOne"@,
        CommandType::InsertOne => "Missing arguments for insertOne"@,
        CommandType::InsertMany => "Missing arguments for insertMany"@,
        CommandType::Delete => "Missing arguments for delete"@,
        CommandType::Update => "Missing arguments for update"@,
        CommandType::Aggregate => "Missing arguments for aggregate"@,
        CommandType::Count => "Missing arguments for count"@,
        CommandType::Distinct => "Missing arguments for distinct"@,
        CommandType::CreateIndexes => "Missing arguments for createIndex"@,
        CommandType::DropCollection => "Missing arguments for drop connection"@,
        _ => "Missing arguments"@,
    }
}

/// What the handler of `command_type` plans for the arguments `parsed`:
/// what it plans for arguments of its own kind, and a failure for arguments
/// of another kind or arguments that could not be decoded.
pub open spec fn planned_call(
    command_type: CommandType,
    parsed: Result<Arguments, String>,
) -> Result<DriverCallView, Seq<char>> {
    match parsed {
        Err(message) => Err(message@),
        Ok(arguments) => match (command_type, arguments) {
            (CommandType::Find, Arguments::Find(args)) => find_plan(Ok(args)),
            (CommandType::FindOne, Arguments::FindOne(args)) => find_one_plan(Ok(args)),
            (CommandType::InsertOne, Arguments::InsertOne(args)) => insert_one_plan(Ok(args)),
            (CommandType::InsertMany, Arguments::InsertMany(args)) => insert_many_plan(Ok(args)),
            (CommandType::Delete, Arguments::Delete(args)) => delete_plan(Ok(args)),
            (CommandType::Update, Arguments::Update(args)) => update_plan(Ok(args)),
            (CommandType::Aggregate, Arguments::Aggregate(args)) => aggregate_plan(Ok(args)),
            (CommandType::Count, Arguments::Count(args)) => count_plan(Ok(args)),
            (CommandType::Distinct, Arguments::Distinct(args)) => distinct_plan(Ok(args)),
            (CommandType::CreateIndexes, Arguments::CreateIndexes(args)) => create_indexes_plan(
                Ok(args),
            ),
            (CommandType::DropCollection, Arguments::DropCollection(args)) => drop_plan(Ok(args)),
            _ => Err("Arguments of another command"@),
        },
    }
}

/// The single point of dispatch for deferred commands: the handler of the
/// command's type plans the call. `parse` decodes the argument segment of a
/// command of the given type. The commands that are answered at once have
/// no driver call to plan.
pub fn plan<'a, C, P>(
    command: &Command,
    registry: &'a Registry<C>,
    parse: P,
) -> (job: Result<(&'a C, DriverCall), String>) where
    P: Fn(CommandType, &Vec<u8>) -> Result<Arguments, String>,

    requires
        command.data.len() > 0 ==> call_requires(
            parse,
            (command.args.command_type, &command.data[0]),
        ),
    ensures
        match command.args.command_type {
            CommandType::ConnectWithOptions | CommandType::ConnectWithUri | CommandType::Close => {
                failed(job, "Not a deferred command"@)
            },
            CommandType::ListDatabases => match client_handle(*command, registry@) {
                Err(message) => failed(job, message),
                Ok(handle) => planned(
                    job,
                    registry@[handle],
                    Ok(DriverCallView::ListDatabaseNames),
                ),
            },
            CommandType::ListCollectionNames => match opening(
                *command,
                registry@,
                "Missing database name"@,
            ) {
                Err(message) => failed(job, message),
                Ok(handle) => planned(
                    job,
                    registry@[handle],
                    list_collection_names_plan(command.data[0]@),
                ),
            },
            _ => match opening(
                *command,
                registry@,
                missing_arguments(command.args.command_type),
            ) {
                Err(message) => failed(job, message),
                Ok(handle) => exists|parsed: Result<Arguments, String>|
                    #[trigger] call_ensures(
                        parse,
                        (command.args.command_type, &command.data[0]),
                        parsed,
                    ) && planned(
                        job,
                        registry@[handle],
                        planned_call(command.args.command_type, parsed),
                    ),
            },
        },
{
    match command.args.command_type {
        CommandType::ConnectWithOptions => Err("Not a deferred command".to_owned()),
        CommandType::ConnectWithUri => Err("Not a deferred command".to_owned()),
        CommandType::Close => Err("Not a deferred command".to_owned()),
        CommandType::ListDatabases => list_database_names(command, registry),
        CommandType::ListCollectionNames => list_collection_names(command, registry),
        CommandType::Find => {
            let narrow = |segment: &Vec<u8>| -> (narrowed: Result<FindArgs, String>)
                requires
                    call_requires(parse, (CommandType::Find, segment)),
                ensures
                    exists|parsed: Result<Arguments, String>|
                        #[trigger] call_ensures(parse, (CommandType::Find, segment), parsed)
                            && find_plan(narrowed) == planned_call(
                            CommandType::Find,
                            parsed,
                        ),
                {
                    let parsed = parse(CommandType::Find, segment);
                    proof {
                        assert(call_ensures(parse, (CommandType::Find, segment), parsed));
                    }
                    match parsed {
                        Ok(Arguments::Find(args)) => Ok(args),
                        Ok(_) => Err("Arguments of another command".to_owned()),
                        Err(message) => Err(message),
                    }
                };
            find(command, registry, narrow)
        },
        CommandType::FindOne => {
            let narrow = |segment: &Vec<u8>| -> (narrowed: Result<FindOneArgs, String>)
                requires
                    call_requires(parse, (CommandType::FindOne, segment)),
                ensures
                    exists|parsed: Result<Arguments, String>|
                        #[trigger] call_ensures(parse, (CommandType::FindOne, segment), parsed)
                            && find_one_plan(narrowed) == planned_call(
                            CommandType::FindOne,
                            parsed,
                        ),
                {
                    let parsed = parse(CommandType::FindOne, segment);
                    proof {
                        assert(call_ensures(parse, (CommandType::FindOne, segment), parsed));
                    }
                    match parsed {
                        Ok(Arguments::FindOne(args)) => Ok(args),
                        Ok(_) => Err("Arguments of another command".to_owned()),
                        Err(message) => Err(message),
                    }
                };
            find_one(command, registry, narrow)
        },
        CommandType::InsertOne => {
            let narrow = |segment: &Vec<u8>| -> (narrowed: Result<InsertOneArgs, String>)
                requires
                    call_requires(parse, (CommandType::InsertOne, segment)),
                ensures
                    exists|parsed: Result<Arguments, String>|
                        #[trigger] call_ensures(parse, (CommandType::InsertOne, segment), parsed)
                            && insert_one_plan(narrowed) == planned_call(
                            CommandType::InsertOne,
                            parsed,
                        ),
                {
                    let parsed = parse(CommandType::InsertOne, segment);
                    proof {
                        assert(call_ensures(parse, (CommandType::InsertOne, segment), parsed));
                    }
                    match parsed {
                        Ok(Arguments::InsertOne(args)) => Ok(args),
                        Ok(_) => Err("Arguments of another command".to_owned()),
                        Err(message) => Err(message),
                    }
                };
            insert_one(command, registry, narrow)
        },
        CommandType::InsertMany => {
            let narrow = |segment: &Vec<u8>| -> (narrowed: Result<InsertManyArgs, String>)
                requires
                    call_requires(parse, (CommandType::InsertMany, segment)),
                ensures
                    exists|parsed: Result<Arguments, String>|
                        #[trigger] call_ensures(parse, (CommandType::InsertMany, segment), parsed)
                            && insert_many_plan(narrowed) == planned_call(
                            CommandType::InsertMany,
                            parsed,
                        ),
                {
                    let parsed = parse(CommandType::InsertMany, segment);
                    proof {
                        assert(call_ensures(parse, (CommandType::InsertMany, segment), parsed));
                    }
                    match parsed {
                        Ok(Arguments::InsertMany(args)) => Ok(args),
                        Ok(_) => Err("Arguments of another command".to_owned()),
                        Err(message) => Err(message),
                    }
                };
            insert_many(command, registry, narrow)
        },
        CommandType::Delete => {
            let narrow = |segment: &Vec<u8>| -> (narrowed: Result<DeleteArgs, String>)
                requires
                    call_requires(parse, (CommandType::Delete, segment)),
                ensures
                    exists|parsed: Result<Arguments, String>|
                        #[trigger] call_ensures(parse, (CommandType::Delete, segment), parsed)
                            && delete_plan(narrowed) == planned_call(
                            CommandType::Delete,
                            parsed,
                        ),
                {
                    let parsed = parse(CommandType::Delete, segment);
                    proof {
                        assert(call_ensures(parse, (CommandType::Delete, segment), parsed));
                    }
                    match parsed {
                        Ok(Arguments::Delete(args)) => Ok(args),
                        Ok(_) => Err("Arguments of another command".to_owned()),
                        Err(message) => Err(message),
                    }
                };
            delete(command, registry, narrow)
        },
        CommandType::Update => {
            let narrow = |segment: &Vec<u8>| -> (narrowed: Result<UpdateArgs, String>)
                requires
                    call_requires(parse, (CommandType::Update, segment)),
                ensures
                    exists|parsed: Result<Arguments, String>|
                        #[trigger] call_ensures(parse, (CommandType::Update, segment), parsed)
                            && update_plan(narrowed) == planned_call(
                            CommandType::Update,
                            parsed,
                        ),
                {
                    let parsed = parse(CommandType::Update, segment);
                    proof {
                        assert(call_ensures(parse, (CommandType::Update, segment), parsed));
                    }
                    match parsed {
                        Ok(Arguments::Update(args)) => Ok(args),
                        Ok(_) => Err("Arguments of another command".to_owned()),
                        Err(message) => Err(message),
                    }
                };
            update(command, registry, narrow)
        },
        CommandType::Aggregate => {
            let narrow = |segment: &Vec<u8>| -> (narrowed: Result<AggregationArgs, String>)
                requires
                    call_requires(parse, (CommandType::Aggregate, segment)),
                ensures
                    exists|parsed: Result<Arguments, String>|
                        #[trigger] call_ensures(parse, (CommandType::Aggregate, segment), parsed)
                            && aggregate_plan(narrowed) == planned_call(
                            CommandType::Aggregate,
                            parsed,
                        ),
                {
                    let parsed = parse(CommandType::Aggregate, segment);
                    proof {
                        assert(call_ensures(parse, (CommandType::Aggregate, segment), parsed));
                    }
                    match parsed {
                        Ok(Arguments::Aggregate(args)) => Ok(args),
                        Ok(_) => Err("Arguments of another command".to_owned()),
                        Err(message) => Err(message),
                    }
                };
            aggregate(command, registry, narrow)
        },
        CommandType::Count => {
            let narrow = |segment: &Vec<u8>| -> (narrowed: Result<CountArgs, String>)
                requires
                    call_requires(parse, (CommandType::Count, segment)),
                ensures
                    exists|parsed: Result<Arguments, String>|
                        #[trigger] call_ensures(parse, (CommandType::Count, segment), parsed)
                            && count_plan(narrowed) == planned_call(
                            CommandType::Count,
                            parsed,
                        ),
                {
                    let parsed = parse(CommandType::Count, segment);
                    proof {
                        assert(call_ensures(parse, (CommandType::Count, segment), parsed));
                    }
                    match parsed {
                        Ok(Arguments::Count(args)) => Ok(args),
                        Ok(_) => Err("Arguments of another command".to_owned()),
                        Err(message) => Err(message),
                    }
                };
            count(command, registry, narrow)
        },
        CommandType::Distinct => {
            let narrow = |segment: &Vec<u8>| -> (narrowed: Result<DistinctArgs, String>)
                requires
                    call_requires(parse, (CommandType::Distinct, segment)),
                ensures
                    exists|parsed: Result<Arguments, String>|
                        #[trigger] call_ensures(parse, (CommandType::Distinct, segment), parsed)
                            && distinct_plan(narrowed) == planned_call(
                            CommandType::Distinct,
                            parsed,
                        ),
                {
                    let parsed = parse(CommandType::Distinct, segment);
                    proof {
                        assert(call_ensures(parse, (CommandType::Distinct, segment), parsed));
                    }
                    match parsed {
                        Ok(Arguments::Distinct(args)) => Ok(args),
                        Ok(_) => Err("Arguments of another command".to_owned()),
                        Err(message) => Err(message),
                    }
                };
            crate::command::distinct::find(command, registry, narrow)
        },
        CommandType::CreateIndexes => {
            let narrow = |segment: &Vec<u8>| -> (narrowed: Result<CreateIndexesArgs, String>)
                requires
                    call_requires(parse, (CommandType::CreateIndexes, segment)),
                ensures
                    exists|parsed: Result<Arguments, String>|
                        #[trigger] call_ensures(
                            parse,
                            (CommandType::CreateIndexes, segment),
                            parsed,
                        ) && create_indexes_plan(narrowed) == planned_call(
                            CommandType::CreateIndexes,
                            parsed,
                        ),
                {
                    let parsed = parse(CommandType::CreateIndexes, segment);
                    proof {
                        assert(call_ensures(parse, (CommandType::CreateIndexes, segment), parsed));
                    }
                    match parsed {
                        Ok(Arguments::CreateIndexes(args)) => Ok(args),
                        Ok(_) => Err("Arguments of another command".to_owned()),
                        Err(message) => Err(message),
                    }
                };
            create_indexes(command, registry, narrow)
        },
        CommandType::DropCollection => {
            let narrow = |segment: &Vec<u8>| -> (narrowed: Result<DropConnectionArgs, String>)
                requires
                    call_requires(parse, (CommandType::DropCollection, segment)),
                ensures
                    exists|parsed: Result<Arguments, String>|
                        #[trigger] call_ensures(
                            parse,
                            (CommandType::DropCollection, segment),
                            parsed,
                        ) && drop_plan(narrowed) == planned_call(
                            CommandType::DropCollection,
                            parsed,
                        ),
                {
                    let parsed = parse(CommandType::DropCollection, segment);
                    proof {
                        assert(call_ensures(parse, (CommandType::DropCollection, segment), parsed));
                    }
                    match parsed {
                        Ok(Arguments::DropCollection(args)) => Ok(args),
                        Ok(_) => Err("Arguments of another command".to_owned()),
                        Err(message) => Err(message),
                    }
                };
            drop_connection(command, registry, narrow)
        },
    }
}

} // verus!
