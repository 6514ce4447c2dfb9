//! Command dispatch and result framing for a bridge between a scripting host
//! and a MongoDB driver.
//!
//! A request is an envelope (command type, correlation id, connection
//! handle) with raw argument segments. The functions here decide what each
//! request asks of the driver and frame every outcome, success or failure,
//! as one JSON reply. Talking to the database is left to the caller.

pub mod command;
pub mod registry;
pub mod text;
pub mod util;

use crate::registry::Registry;
use crate::text::{
    decimal, decimal_string, json_string, json_string_text, quoted, same_text,
};
use crate::util::{message_view, sync_error, sync_reply_text};
use vstd::prelude::*;
use vstd::string::*;
use vstd::utf8::*;

verus! {

/// How the reply to a command reaches the host.
#[derive(Clone, Copy, Debug, PartialEq, Eq)]
pub enum ExecutionMode {
    /// The reply is the return value of the call that brought the command.
    Immediate,
    /// The reply is delivered later, tagged with the command's correlation id.
    Deferred,
}

/// The closed set of commands.
#[derive(Clone, Copy, Debug, PartialEq, Eq)]
pub enum CommandType {
    ConnectWithOptions,
    ConnectWithUri,
    Close,
    ListDatabases,
    ListCollectionNames,
    Find,
    FindOne,
    InsertOne,
    InsertMany,
    Delete,
    Update,
    Aggregate,
    Count,
    Distinct,
    CreateIndexes,
    DropCollection,
}

impl CommandType {
    /// The tag that names this command on the wire.
    pub open spec fn tag_text(self) -> Seq<char> {
        match self {
            CommandType::ConnectWithOptions => "connect-with-options"@,
            CommandType::ConnectWithUri => "connect-with-uri"@,
            CommandType::Close => "close"@,
            CommandType::ListDatabases => "list-database-names"@,
            CommandType::ListCollectionNames => "list-collection-names"@,
            CommandType::Find => "find"@,
            CommandType::FindOne => "find-one"@,
            CommandType::InsertOne => "insert-one"@,
            CommandType::InsertMany => "insert-many"@,
            CommandType::Delete => "delete"@,
            CommandType::Update => "update"@,
            CommandType::Aggregate => "aggregate"@,
            CommandType::Count => "count"@,
            CommandType::Distinct => "distinct"@,
            CommandType::CreateIndexes => "create-indexes"@,
            CommandType::DropCollection => "drop-collection"@,
        }
    }

    /// Connecting and closing are answered at once; every command that uses
    /// a connection is answered later.
    pub open spec fn mode_of(self) -> ExecutionMode {
        match self {
            CommandType::ConnectWithOptions => ExecutionMode::Immediate,
            CommandType::ConnectWithUri => ExecutionMode::Immediate,
            CommandType::Close => ExecutionMode::Immediate,
            _ => ExecutionMode::Deferred,
        }
    }

    /// The tag that names this command on the wire.
    pub fn tag(&self) -> (tag: &'static str)
        ensures
            tag@ == self.tag_text(),
    {
        match self {
            CommandType::ConnectWithOptions => "connect-with-options",
            CommandType::ConnectWithUri => "connect-with-uri",
            CommandType::Close => "close",
            CommandType::ListDatabases => "list-database-names",
            CommandType::ListCollectionNames => "list-collection-names",
            CommandType::Find => "find",
            CommandType::FindOne => "find-one",
            CommandType::InsertOne => "insert-one",
            CommandType::InsertMany => "insert-many",
            CommandType::Delete => "delete",
            CommandType::Update => "update",
            CommandType::Aggregate => "aggregate",
            CommandType::Count => "count",
            CommandType::Distinct => "distinct",
            CommandType::CreateIndexes => "create-indexes",
            CommandType::DropCollection => "drop-collection",
        }
    }

    /// The command that `tag` names, if it names one.
    pub open spec fn named(tag: Seq<char>) -> Option<CommandType> {
        if exists|t: CommandType| #[trigger] t.tag_text() == tag {
            Some(choose|t: CommandType| #[trigger] t.tag_text() == tag)
        } else {
            None
        }
    }

    /// The command that `tag` names, if it names one.
    pub fn from_tag(tag: &str) -> (found: Option<CommandType>)
        ensures
            found == Self::named(tag@),
            match found {
                Some(command_type) => command_type.tag_text() == tag@,
                None => forall|t: CommandType| #[trigger] t.tag_text() != tag@,
            },
    {
        let found = if same_text(tag, "connect-with-options") {
            Some(CommandType::ConnectWithOptions)
        } else if same_text(tag, "connect-with-uri") {
            Some(CommandType::ConnectWithUri)
        } else if same_text(tag, "close") {
            Some(CommandType::Close)
        } else if same_text(tag, "list-database-names") {
            Some(CommandType::ListDatabases)
        } else if same_text(tag, "list-collection-names") {
            Some(CommandType::ListCollectionNames)
        } else if same_text(tag, "find") {
            Some(CommandType::Find)
        } else if same_text(tag, "find-one") {
            Some(CommandType::FindOne)
        } else if same_text(tag, "insert-one") {
            Some(CommandType::InsertOne)
        } else if same_text(tag, "insert-many") {
            Some(CommandType::InsertMany)
        } else if same_text(tag, "delete") {
            Some(CommandType::Delete)
        } else if same_text(tag, "update") {
            Some(CommandType::Update)
        } else if same_text(tag, "aggregate") {
            Some(CommandType::Aggregate)
        } else if same_text(tag, "count") {
            Some(CommandType::Count)
        } else if same_text(tag, "distinct") {
            Some(CommandType::Distinct)
        } else if same_text(tag, "create-indexes") {
            Some(CommandType::CreateIndexes)
        } else if same_text(tag, "drop-collection") {
            Some(CommandType::DropCollection)
        } else {
            None
        };
        proof {
            match found {
                Some(command_type) => {
                    assert(command_type.tag_text() == tag@);
                    let chosen = choose|t: CommandType| #[trigger] t.tag_text() == tag@;
                    Self::lemma_tag_names_one_command(chosen, command_type);
                },
                None => {
                    assert(forall|t: CommandType| #[trigger] t.tag_text() != tag@);
                },
            }
        }
        found
    }

    /// How the reply to this command reaches the host.
    pub fn mode(&self) -> (mode: ExecutionMode)
        ensures
            mode == self.mode_of(),
    {
        match self {
            CommandType::ConnectWithOptions => ExecutionMode::Immediate,
            CommandType::ConnectWithUri => ExecutionMode::Immediate,
            CommandType::Close => ExecutionMode::Immediate,
            _ => ExecutionMode::Deferred,
        }
    }

    /// The length of the tag and its first two characters tell the commands
    /// apart.
    proof fn lemma_tag_shape(self)
        ensures
            self.tag_text().len() >= 2,
            match self {
                CommandType::Close => self.tag_text().len() == 5 && self.tag_text()[1] == 'l',
                CommandType::Count => self.tag_text().len() == 5 && self.tag_text()[1] == 'o',
                CommandType::Delete => self.tag_text().len() == 6 && self.tag_text()[0] == 'd',
                CommandType::Update => self.tag_text().len() == 6 && self.tag_text()[0] == 'u',
                CommandType::FindOne => self.tag_text().len() == 8 && self.tag_text()[0] == 'f',
                CommandType::Distinct => self.tag_text().len() == 8 && self.tag_text()[0] == 'd',
                CommandType::ConnectWithOptions => self.tag_text().len() == 20,
                CommandType::ConnectWithUri => self.tag_text().len() == 16,
                CommandType::ListDatabases => self.tag_text().len() == 19,
                CommandType::ListCollectionNames => self.tag_text().len() == 21,
                CommandType::Find => self.tag_text().len() == 4,
                CommandType::InsertOne => self.tag_text().len() == 10,
                CommandType::InsertMany => self.tag_text().len() == 11,
                CommandType::Aggregate => self.tag_text().len() == 9,
                CommandType::CreateIndexes => self.tag_text().len() == 14,
                CommandType::DropCollection => self.tag_text().len() == 15,
            },
    {
        match self {
            CommandType::ConnectWithOptions => {
                reveal_strlit("connect-with-options");
                assert(self.tag_text().len() == 20);
                assert(self.tag_text()[0] == 'c' && self.tag_text()[1] == 'o');
            },
            CommandType::ConnectWithUri => {
                reveal_strlit("connect-with-uri");
                assert(self.tag_text().len() == 16);
                assert(self.tag_text()[0] == 'c' && self.tag_text()[1] == 'o');
            },
            CommandType::Close => {
                reveal_strlit("close");
                assert(self.tag_text().len() == 5);
                assert(self.tag_text()[0] == 'c' && self.tag_text()[1] == 'l');
            },
            CommandType::ListDatabases => {
                reveal_strlit("list-database-names");
                assert(self.tag_text().len() == 19);
                assert(self.tag_text()[0] == 'l' && self.tag_text()[1] == 'i');
            },
            CommandType::ListCollectionNames => {
                reveal_strlit("list-collection-names");
                assert(self.tag_text().len() == 21);
                assert(self.tag_text()[0] == 'l' && self.tag_text()[1] == 'i');
            },
            CommandType::Find => {
                reveal_strlit("find");
                assert(self.tag_text().len() == 4);
                assert(self.tag_text()[0] == 'f' && self.tag_text()[1] == 'i');
            },
            CommandType::FindOne => {
                reveal_strlit("find-one");
                assert(self.tag_text().len() == 8);
                assert(self.tag_text()[0] == 'f' && self.tag_text()[1] == 'i');
            },
            CommandType::InsertOne => {
                reveal_strlit("insert-one");
                assert(self.tag_text().len() == 10);
                assert(self.tag_text()[0] == 'i' && self.tag_text()[1] == 'n');
            },
            CommandType::InsertMany => {
                reveal_strlit("insert-many");
                assert(self.tag_text().len() == 11);
                assert(self.tag_text()[0] == 'i' && self.tag_text()[1] == 'n');
            },
            CommandType::Delete => {
                reveal_strlit("delete");
                assert(self.tag_text().len() == 6);
                assert(self.tag_text()[0] == 'd' && self.tag_text()[1] == 'e');
            },
            CommandType::Update => {
                reveal_strlit("update");
                assert(self.tag_text().len() == 6);
                assert(self.tag_text()[0] == 'u' && self.tag_text()[1] == 'p');
            },
            CommandType::Aggregate => {
                reveal_strlit("aggregate");
                assert(self.tag_text().len() == 9);
                assert(self.tag_text()[0] == 'a' && self.tag_text()[1] == 'g');
            },
            CommandType::Count => {
                reveal_strlit("count");
                assert(self.tag_text().len() == 5);
                assert(self.tag_text()[0] == 'c' && self.tag_text()[1] == 'o');
            },
            CommandType::Distinct => {
                reveal_strlit("distinct");
                assert(self.tag_text().len() == 8);
                assert(self.tag_text()[0] == 'd' && self.tag_text()[1] == 'i');
            },
            CommandType::CreateIndexes => {
                reveal_strlit("create-indexes");
                assert(self.tag_text().len() == 14);
                assert(self.tag_text()[0] == 'c' && self.tag_text()[1] == 'r');
            },
            CommandType::DropCollection => {
                reveal_strlit("drop-collection");
                assert(self.tag_text().len() == 15);
                assert(self.tag_text()[0] == 'd' && self.tag_text()[1] == 'r');
            },
        }
    }

    /// No two commands share a tag, so a tag names at most one command.
    pub proof fn lemma_tag_names_one_command(a: CommandType, b: CommandType)
        requires
            a.tag_text() == b.tag_text(),
        ensures
            a == b,
    {
        a.lemma_tag_shape();
        b.lemma_tag_shape();
    }
}

/// The decoded head of a request: which command, the correlation id for a
/// deferred reply, and the handle of the connection to use.
#[derive(Clone, Copy, Debug, PartialEq, Eq)]
pub struct CommandArgs {
    pub command_type: CommandType,
    pub command_id: Option<usize>,
    pub client_id: Option<usize>,
}

impl CommandArgs {
    /// The head of a request whose command is named by `tag`. An unknown
    /// tag is an error that quotes it.
    pub fn new(tag: &str, command_id: Option<usize>, client_id: Option<usize>) -> (args: Result<
        CommandArgs,
        String,
    >)
        ensures
            message_view(args) == head_of(tag@, command_id, client_id),
    {
        match CommandType::from_tag(tag) {
            Some(command_type) => Ok(CommandArgs { command_type, command_id, client_id }),
            None => Err("Unknown command type: ".to_owned().concat(tag)),
        }
    }
}

/// The head that a tag and two ids make: the head of the command that the
/// tag names, or the failure that quotes a tag that names none.
pub open spec fn head_of(
    tag: Seq<char>,
    command_id: Option<usize>,
    client_id: Option<usize>,
) -> Result<CommandArgs, Seq<char>> {
    match CommandType::named(tag) {
        Some(command_type) => Ok(CommandArgs { command_type, command_id, client_id }),
        None => Err("Unknown command type: "@ + tag),
    }
}

/// The head of a request as a decoder reads it: the tag still as text.
#[derive(Debug)]
pub struct Head {
    pub command_type: String,
    pub command_id: Option<usize>,
    pub client_id: Option<usize>,
}

/// A request: its head and its raw argument segments. Where a command
/// takes arguments, they are the first segment.
#[derive(Debug)]
pub struct Command {
    pub args: CommandArgs,
    pub data: Vec<Vec<u8>>,
}

/// The handle that `command` names, if a connection is live under it;
/// otherwise the message that says what is wrong.
pub open spec fn client_handle<C>(command: Command, live: Map<usize, C>) -> Result<
    usize,
    Seq<char>,
> {
    match command.args.client_id {
        None => Err("Missing clientId"@),
        Some(handle) => if live.contains_key(handle) {
            Ok(handle)
        } else {
            Err("Client not found"@)
        },
    }
}

impl Command {
    /// The request with this head and these segments, in their order.
    pub fn new(args: CommandArgs, data: Vec<Vec<u8>>) -> (command: Command)
        ensures
            command == (Command { args, data }),
    {
        Command { args, data }
    }

    /// The connection that this command names.
    pub fn get_client<'a, C>(&self, registry: &'a Registry<C>) -> (client: Result<&'a C, String>)
        ensures
            match client_handle(*self, registry@) {
                Ok(handle) => client == Ok::<&C, String>(&registry@[handle]),
                Err(message) => client matches Err(m) && m@ == message,
            },
    {
        match self.args.client_id {
            None => Err("Missing clientId".to_owned()),
            Some(handle) => get_client(registry, handle),
        }
    }

    /// The first segment, which holds a command's arguments; `missing` is
    /// the message of the error when there is no segment.
    pub fn arguments<'a>(&'a self, missing: &str) -> (segment: Result<&'a Vec<u8>, String>)
        ensures
            match segment {
                Ok(segment) => self.data.len() > 0 && *segment == self.data[0],
                Err(message) => self.data.len() == 0 && message@ == missing@,
            },
    {
        if self.data.len() > 0 {
            Ok(&self.data[0])
        } else {
            Err(missing.to_owned())
        }
    }
}

/// The connection that is live under `client_id`.
pub fn get_client<'a, C>(registry: &'a Registry<C>, client_id: usize) -> (client: Result<
    &'a C,
    String,
>)
    ensures
        match client {
            Ok(connection) => registry@.contains_key(client_id) && *connection
                == registry@[client_id],
            Err(message) => !registry@.contains_key(client_id) && message@ == "Client not found"@,
        },
{
    match registry.lookup(client_id) {
        Some(connection) => Ok(connection),
        None => Err("Client not found".to_owned()),
    }
}

/// Where a request goes once its head is decoded.
#[derive(Debug)]
pub enum Dispatch {
    /// The request is refused; the buffer is the reply, a failure in the
    /// shape of an immediate reply.
    Rejected(Vec<u8>),
    /// The handler of the command runs now and its outcome is the reply.
    Immediate(Command),
    /// The handler of the command is started and its outcome is delivered
    /// later under the command's correlation id, which is present.
    Deferred(Command),
}

/// What `op_command` answers when decoding the head gave `decoded`: a
/// head that could not be decoded, names no command, or asks for a deferred
/// command without a correlation id is a failure; every other request goes
/// to the handler of its command, with its segments as they came.
pub open spec fn dispatch_of(decoded: Result<Head, String>, data: Vec<Vec<u8>>) -> Result<
    Dispatch,
    Seq<char>,
> {
    match decoded {
        Err(message) => Err(message@),
        Ok(head) => match head_of(head.command_type@, head.command_id, head.client_id) {
            Err(message) => Err(message),
            Ok(args) => match args.command_type.mode_of() {
                ExecutionMode::Immediate => Ok(Dispatch::Immediate(Command { args, data })),
                ExecutionMode::Deferred => if args.command_id is Some {
                    Ok(Dispatch::Deferred(Command { args, data }))
                } else {
                    Err("Missing commandId"@)
                },
            },
        },
    }
}

/// The single point of entry. `primary` holds the head of the request, which
/// `decode` decodes; `data` holds the argument segments. A request that is
/// refused is answered with a failure at once; no input makes this fail in
/// any other way.
pub fn op_command<P>(primary: &Vec<u8>, data: Vec<Vec<u8>>, decode: P) -> (dispatch: Dispatch) where
    P: FnOnce(&Vec<u8>) -> Result<Head, String>,

    requires
        call_requires(decode, (primary,)),
    ensures
        exists|decoded: Result<Head, String>|
            #[trigger] call_ensures(decode, (primary,), decoded) && match dispatch_of(
                decoded,
                data,
            ) {
                Ok(expected) => dispatch == expected,
                Err(message) => dispatch matches Dispatch::Rejected(buffer) && buffer@
                    == encode_utf8(sync_reply_text(Err(message))),
            },
{
    let decoded = decode(primary);
    proof {
        assert(call_ensures(decode, (primary,), decoded));
    }
    let head = match decoded {
        Ok(head) => head,
        Err(message) => {
            return Dispatch::Rejected(sync_error(message));
        },
    };
    let args = match CommandArgs::new(head.command_type.as_str(), head.command_id, head.client_id) {
        Ok(args) => args,
        Err(message) => {
            return Dispatch::Rejected(sync_error(message));
        },
    };
    match args.command_type.mode() {
        ExecutionMode::Immediate => Dispatch::Immediate(Command::new(args, data)),
        ExecutionMode::Deferred => if args.command_id.is_some() {
            Dispatch::Deferred(Command::new(args, data))
        } else {
            Dispatch::Rejected(sync_error("Missing commandId".to_owned()))
        },
    }
}

/// The text of an optional string.
pub open spec fn text_of(field: Option<String>) -> Option<Seq<char>> {
    match field {
        Some(text) => Some(text@),
        None => None,
    }
}

/// How the value of a reply is written: the JSON text itself, or `null`.
pub open spec fn data_text(data: Option<Seq<char>>) -> Seq<char> {
    match data {
        Some(json) => json,
        None => "null"@,
    }
}

/// How the error of a reply is written: the message as a JSON string, or
/// `null`.
pub open spec fn error_text(error: Option<Seq<char>>) -> Seq<char> {
    match error {
        Some(message) => json_string_text(message),
        None => "null"@,
    }
}

/// The JSON text of an immediate reply: an object with the members `data`
/// and `error`, in this order and without white space.
pub open spec fn sync_text(data: Option<Seq<char>>, error: Option<Seq<char>>) -> Seq<char> {
    "{\"data\":"@ + data_text(data) + ",\"error\":"@ + error_text(error) + "}"@
}

/// The JSON text of a deferred reply: as an immediate reply, with the
/// member `commandId` first.
pub open spec fn async_text(
    command_id: usize,
    data: Option<Seq<char>>,
    error: Option<Seq<char>>,
) -> Seq<char> {
    "{\"commandId\":"@ + decimal(command_id as nat) + ",\"data\":"@ + data_text(data)
        + ",\"error\":"@ + error_text(error) + "}"@
}

fn data_string(data: &Option<String>) -> (text: String)
    ensures
        text@ == data_text(text_of(*data)),
{
    match data {
        Some(json) => json.clone(),
        None => "null".to_owned(),
    }
}

fn error_string(error: &Option<String>) -> (text: String)
    ensures
        text@ == error_text(text_of(*error)),
        error is Some ==> quoted(text@),
{
    match error {
        Some(message) => json_string(message.as_str()),
        None => "null".to_owned(),
    }
}

/// The reply to an immediate command. `data` is the value as JSON text.
#[derive(Debug)]
pub struct SyncResult {
    pub data: Option<String>,
    pub error: Option<String>,
}

impl SyncResult {
    /// The reply as JSON text.
    pub open spec fn text(self) -> Seq<char> {
        sync_text(text_of(self.data), text_of(self.error))
    }

    /// The reply buffer: the JSON text in UTF-8. An error is written as a
    /// JSON string, between double quotes.
    pub fn encode(&self) -> (buffer: Vec<u8>)
        ensures
            buffer@ == encode_utf8(self.text()),
            self.error is Some ==> quoted(error_text(text_of(self.error))),
    {
        let mut text = "{\"data\":".to_owned();
        text.append(data_string(&self.data).as_str());
        text.append(",\"error\":");
        text.append(error_string(&self.error).as_str());
        text.append("}");
        text.as_str().as_bytes_vec()
    }
}

/// The reply to a deferred command: as for an immediate one, and the
/// correlation id of the request first.
#[derive(Debug)]
pub struct AsyncResult {
    pub command_id: usize,
    pub data: Option<String>,
    pub error: Option<String>,
}

impl AsyncResult {
    /// The reply as JSON text.
    pub open spec fn text(self) -> Seq<char> {
        async_text(self.command_id, text_of(self.data), text_of(self.error))
    }

    /// The reply buffer: the JSON text in UTF-8. An error is written as a
    /// JSON string, between double quotes.
    pub fn encode(&self) -> (buffer: Vec<u8>)
        ensures
            buffer@ == encode_utf8(self.text()),
            self.error is Some ==> quoted(error_text(text_of(self.error))),
    {
        let mut text = "{\"commandId\":".to_owned();
        text.append(decimal_string(self.command_id as u64).as_str());
        text.append(",\"data\":");
        text.append(data_string(&self.data).as_str());
        text.append(",\"error\":");
        text.append(error_string(&self.error).as_str());
        text.append("}");
        text.as_str().as_bytes_vec()
    }
}

} // verus!
