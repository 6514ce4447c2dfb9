//! The two `connect` commands: what the driver is to connect to, and the
//! handle under which the new connection is kept.

use crate::registry::{Registry, RegistryOp};
use crate::text::{decimal, decimal_string, string_from_utf8, utf8_error_text};
use crate::util::{failed, JsonResult};
use crate::Command;
use vstd::prelude::*;
use vstd::slice::slice_to_vec;
use vstd::string::*;
use vstd::utf8::*;

verus! {

/// The arguments of `connect-with-options`. Times are in milliseconds.
pub struct ConnectArgs {
    pub hosts: Vec<String>,
    pub app_name: Option<String>,
    pub heartbeat_freq: Option<u64>,
    pub repl_set_name: Option<String>,
    pub max_pool_size: Option<u32>,
    pub min_pool_size: Option<u32>,
    pub max_idle_time: Option<u64>,
    pub wait_queue_timeout: Option<u64>,
    pub server_selection_timeout: Option<u64>,
    pub connect_timeout: Option<u64>,
    pub direct_connection: Option<bool>,
    pub username: Option<String>,
    pub password: Option<String>,
}

/// The answer to a `connect` command: the handle of the new connection.
#[derive(Debug)]
pub struct ConnectResult {
    pub client_id: usize,
}

impl ConnectResult {
    /// The answer as JSON text: the handle as a number.
    pub open spec fn json_text(self) -> Seq<char> {
        decimal(self.client_id as nat)
    }

    /// The answer as JSON text.
    pub fn to_json(&self) -> (json: String)
        ensures
            json@ == self.json_text(),
    {
        decimal_string(self.client_id as u64)
    }
}

/// One server: its name and, where one is given, its port.
#[derive(Debug)]
pub struct HostAddress {
    pub hostname: String,
    pub port: Option<u16>,
}

impl View for HostAddress {
    type V = (Seq<char>, Option<u16>);

    open spec fn view(&self) -> (Seq<char>, Option<u16>) {
        (self.hostname@, self.port)
    }
}

/// Who connects: a user name and, where one is given, a password.
#[derive(Debug)]
pub struct Credential {
    pub username: String,
    pub password: Option<String>,
}

/// What the driver is asked to connect with. Times are in milliseconds.
#[derive(Debug)]
pub struct ClientSettings {
    pub hosts: Vec<HostAddress>,
    pub app_name: Option<String>,
    pub heartbeat_freq: Option<u64>,
    pub repl_set_name: Option<String>,
    pub max_pool_size: Option<u32>,
    pub min_pool_size: Option<u32>,
    pub max_idle_time: Option<u64>,
    pub wait_queue_timeout: Option<u64>,
    pub server_selection_timeout: Option<u64>,
    pub connect_timeout: Option<u64>,
    pub direct_connection: Option<bool>,
    pub credential: Option<Credential>,
}

/// Where the first colon of `text` stands, if it has one.
pub open spec fn first_colon(text: Seq<char>) -> Option<int>
    decreases text.len(),
{
    if text.len() == 0 {
        None
    } else if text[0] == ':' {
        Some(0)
    } else {
        match first_colon(text.drop_first()) {
            Some(at) => Some(at + 1),
            None => None,
        }
    }
}

/// The digit that `c` writes, if it is a decimal digit.
pub open spec fn digit_value(c: char) -> Option<nat> {
    if '0' as u32 <= c as u32 <= '9' as u32 {
        Some((c as u32 - '0' as u32) as nat)
    } else {
        None
    }
}

/// Whether `text` holds decimal digits only.
pub open spec fn all_digits(text: Seq<char>) -> bool {
    forall|i: int| 0 <= i < text.len() ==> digit_value(#[trigger] text[i]) is Some
}

/// The number that the digits of `text` write.
pub open spec fn digits_value(text: Seq<char>) -> nat
    decreases text.len(),
{
    if text.len() == 0 {
        0
    } else {
        digits_value(text.drop_last()) * 10 + match digit_value(text.last()) {
            Some(digit) => digit,
            None => 0,
        }
    }
}

/// The 16-bit number that `digits` write: there has to be at least one
/// digit and nothing else, leading zeros are in order, and the number has
/// to fit.
pub open spec fn digits_port(digits: Seq<char>) -> Option<u16> {
    if digits.len() > 0 && all_digits(digits) && digits_value(digits) <= u16::MAX {
        Some(digits_value(digits) as u16)
    } else {
        None
    }
}

/// The port that `text` writes: digits, with or without a plus sign before
/// them.
pub open spec fn port_of(text: Seq<char>) -> Option<u16> {
    if text.len() > 0 && text[0] == '+' {
        digits_port(text.drop_first())
    } else {
        digits_port(text)
    }
}

/// The server that `text` names, in the form `host` or `host:port`: the
/// text is split at its first colon, and what follows the colon has to be a
/// port.
pub open spec fn host_address_of(text: Seq<char>) -> Result<(Seq<char>, Option<u16>), Seq<char>> {
    match first_colon(text) {
        None => Ok((text, None)),
        Some(at) => match port_of(text.subrange(at + 1, text.len() as int)) {
            Some(port) => Ok((text.subrange(0, at), Some(port))),
            None => Err("Invalid port in host address"@),
        },
    }
}

/// The servers that `hosts` name, in order, or the message of the first
/// one that is refused.
pub open spec fn host_addresses_of(hosts: Seq<String>) -> Result<
    Seq<(Seq<char>, Option<u16>)>,
    Seq<char>,
>
    decreases hosts.len(),
{
    if hosts.len() == 0 {
        Ok(Seq::empty())
    } else {
        match host_addresses_of(hosts.drop_last()) {
            Err(message) => Err(message),
            Ok(earlier) => match host_address_of(hosts.last()@) {
                Err(message) => Err(message),
                Ok(address) => Ok(earlier.push(address)),
            },
        }
    }
}

/// The servers of a list as mathematics sees them.
pub open spec fn addresses_view(hosts: Seq<HostAddress>) -> Seq<(Seq<char>, Option<u16>)> {
    Seq::new(hosts.len(), |i: int| hosts[i]@)
}

/// The credential that a user name and a password make: none without a
/// user name, whatever the password.
pub open spec fn credential_of(username: Option<String>, password: Option<String>) -> Option<
    Credential,
> {
    match username {
        Some(username) => Some(Credential { username, password }),
        None => None,
    }
}

/// A colon that no colon comes before is the first colon.
proof fn lemma_first_colon_found(text: Seq<char>, at: int)
    requires
        0 <= at < text.len(),
        text[at] == ':',
        forall|j: int| 0 <= j < at ==> text[j] != ':',
    ensures
        first_colon(text) == Some(at),
    decreases at,
{
    if at > 0 {
        let rest = text.drop_first();
        assert(rest[at - 1] == text[at]);
        assert forall|j: int| 0 <= j < at - 1 implies rest[j] != ':' by {
            assert(rest[j] == text[j + 1]);
        }
        lemma_first_colon_found(rest, at - 1);
    }
}

/// A text without a colon has no first colon.
proof fn lemma_first_colon_absent(text: Seq<char>)
    requires
        forall|j: int| 0 <= j < text.len() ==> text[j] != ':',
    ensures
        first_colon(text) is None,
    decreases text.len(),
{
    if text.len() > 0 {
        let rest = text.drop_first();
        assert forall|j: int| 0 <= j < rest.len() implies rest[j] != ':' by {
            assert(rest[j] == text[j + 1]);
        }
        lemma_first_colon_absent(rest);
    }
}

/// More digits never write a smaller number.
proof fn lemma_digits_value_grows(text: Seq<char>, upto: int)
    requires
        0 <= upto <= text.len(),
    ensures
        digits_value(text.take(upto)) <= digits_value(text),
    decreases text.len() - upto,
{
    if upto < text.len() {
        assert(text.take(upto + 1).drop_last() =~= text.take(upto));
        lemma_digits_value_grows(text, upto + 1);
    } else {
        assert(text.take(upto) =~= text);
    }
}

/// The port that `text` writes.
pub fn parse_port(text: &str) -> (port: Option<u16>)
    ensures
        port == port_of(text@),
{
    let length = text.unicode_len();
    let signed = length > 0 && text.get_char(0) == '+';
    let digits = if signed {
        text.substring_char(1, length)
    } else {
        text
    };
    proof {
        assert(signed ==> text@.drop_first() =~= digits@);
        assert(digits@.take(0) =~= Seq::<char>::empty());
    }
    if digits.is_empty() {
        return None;
    }
    let count = digits.unicode_len();
    let mut value: u32 = 0;
    let mut read: usize = 0;
    for c in iter: digits.chars()
        invariant
            count == digits@.len(),
            iter.seq() == digits@,
            read == iter.index(),
            port_of(text@) == digits_port(digits@),
            all_digits(digits@.take(read as int)),
            value == digits_value(digits@.take(read as int)),
            value <= u16::MAX,
    {
        let code = c as u32;
        if code < '0' as u32 || code > '9' as u32 {
            assert(digits@[read as int] == c);
            assert(!all_digits(digits@));
            return None;
        }
        proof {
            let longer = digits@.take(read + 1);
            assert(longer.drop_last() =~= digits@.take(read as int));
            assert(longer.last() == c);
            assert forall|i: int| 0 <= i < longer.len() implies digit_value(
                #[trigger] longer[i],
            ) is Some by {
                if i < read {
                    assert(longer[i] == digits@.take(read as int)[i]);
                }
            }
        }
        value = value * 10 + (code - '0' as u32);
        if value > 65535 {
            proof {
                lemma_digits_value_grows(digits@, read + 1);
            }
            return None;
        }
        read += 1;
    }
    proof {
        assert(digits@.take(read as int) =~= digits@);
    }
    Some(value as u16)
}

/// The server that `host` names.
pub fn parse_host(host: &str) -> (address: Result<HostAddress, String>)
    ensures
        match host_address_of(host@) {
            Ok(expected) => address matches Ok(found) && found@ == expected,
            Err(message) => failed(address, message),
        },
{
    let length = host.unicode_len();
    let mut at: usize = 0;
    for c in iter: host.chars()
        invariant
            length == host@.len(),
            iter.seq() == host@,
            at == iter.index(),
            forall|j: int| 0 <= j < at ==> host@[j] != ':',
    {
        if c == ':' {
            proof {
                lemma_first_colon_found(host@, at as int);
            }
            let hostname = host.substring_char(0, at).to_owned();
            return match parse_port(host.substring_char(at + 1, length)) {
                Some(port) => Ok(HostAddress { hostname, port: Some(port) }),
                None => Err("Invalid port in host address".to_owned()),
            };
        }
        at += 1;
    }
    proof {
        lemma_first_colon_absent(host@);
    }
    Ok(HostAddress { hostname: host.to_owned(), port: None })
}

/// Once a host is refused, the list is refused with the same message,
/// whatever hosts follow.
proof fn lemma_refusal_stays(hosts: Seq<String>, upto: int)
    requires
        0 <= upto <= hosts.len(),
        host_addresses_of(hosts.take(upto)) is Err,
    ensures
        host_addresses_of(hosts) == host_addresses_of(hosts.take(upto)),
    decreases hosts.len() - upto,
{
    if upto < hosts.len() {
        assert(hosts.take(upto + 1).drop_last() =~= hosts.take(upto));
        lemma_refusal_stays(hosts, upto + 1);
    } else {
        assert(hosts.take(upto) =~= hosts);
    }
}

/// The servers that `hosts` name.
pub fn host_addresses(hosts: &Vec<String>) -> (addresses: Result<Vec<HostAddress>, String>)
    ensures
        match host_addresses_of(hosts@) {
            Ok(expected) => addresses matches Ok(found) && addresses_view(found@) == expected,
            Err(message) => failed(addresses, message),
        },
{
    let mut addresses: Vec<HostAddress> = Vec::new();
    let mut at: usize = 0;
    proof {
        assert(hosts@.take(0) =~= Seq::<String>::empty());
        assert(addresses_view(addresses@) =~= Seq::empty());
    }
    while at < hosts.len()
        invariant
            at <= hosts.len(),
            host_addresses_of(hosts@.take(at as int)) == Ok::<
                Seq<(Seq<char>, Option<u16>)>,
                Seq<char>,
            >(addresses_view(addresses@)),
        decreases hosts.len() - at,
    {
        proof {
            let upto = hosts@.take(at + 1);
            assert(upto.drop_last() =~= hosts@.take(at as int));
            assert(upto.last() == hosts@[at as int]);
        }
        let ghost before = addresses@;
        match parse_host(hosts[at].as_str()) {
            Ok(address) => {
                addresses.push(address);
                proof {
                    assert(addresses_view(addresses@) =~= addresses_view(before).push(address@));
                }
            },
            Err(message) => {
                proof {
                    lemma_refusal_stays(hosts@, at + 1);
                }
                return Err(message);
            },
        }
        at += 1;
    }
    proof {
        assert(hosts@.take(at as int) =~= hosts@);
    }
    Ok(addresses)
}

/// Whether `settings` are what `args` ask for: the servers that the hosts
/// name, a credential where there is a user name, and everything else as
/// given.
pub open spec fn settings_of(args: ConnectArgs, settings: ClientSettings) -> bool {
    &&& host_addresses_of(args.hosts@) == Ok::<Seq<(Seq<char>, Option<u16>)>, Seq<char>>(
        addresses_view(settings.hosts@),
    )
    &&& settings.app_name == args.app_name
    &&& settings.heartbeat_freq == args.heartbeat_freq
    &&& settings.repl_set_name == args.repl_set_name
    &&& settings.max_pool_size == args.max_pool_size
    &&& settings.min_pool_size == args.min_pool_size
    &&& settings.max_idle_time == args.max_idle_time
    &&& settings.wait_queue_timeout == args.wait_queue_timeout
    &&& settings.server_selection_timeout == args.server_selection_timeout
    &&& settings.connect_timeout == args.connect_timeout
    &&& settings.direct_connection == args.direct_connection
    &&& settings.credential == credential_of(args.username, args.password)
}

/// Whether `settings` are what `connect_with_options` owes for arguments
/// that were decoded or not.
pub open spec fn connect_plan(
    parsed: Result<ConnectArgs, String>,
    settings: Result<ClientSettings, String>,
) -> bool {
    match parsed {
        Err(message) => failed(settings, message@),
        Ok(args) => match host_addresses_of(args.hosts@) {
            Err(message) => failed(settings, message),
            Ok(_) => settings matches Ok(found) && settings_of(args, found),
        },
    }
}

/// The settings that `args` ask for.
pub fn client_settings(args: ConnectArgs) -> (settings: Result<ClientSettings, String>)
    ensures
        connect_plan(Ok(args), settings),
{
    let hosts = match host_addresses(&args.hosts) {
        Ok(hosts) => hosts,
        Err(message) => {
            return Err(message);
        },
    };
    let credential = match args.username {
        Some(username) => Some(Credential { username, password: args.password }),
        None => None,
    };
    Ok(
        ClientSettings {
            hosts,
            app_name: args.app_name,
            heartbeat_freq: args.heartbeat_freq,
            repl_set_name: args.repl_set_name,
            max_pool_size: args.max_pool_size,
            min_pool_size: args.min_pool_size,
            max_idle_time: args.max_idle_time,
            wait_queue_timeout: args.wait_queue_timeout,
            server_selection_timeout: args.server_selection_timeout,
            connect_timeout: args.connect_timeout,
            direct_connection: args.direct_connection,
            credential,
        },
    )
}

/// Handles the first half of `connect-with-options`: what to connect with.
/// `parse` decodes the argument segment.
pub fn connect_with_options<P>(command: &Command, parse: P) -> (settings: Result<
    ClientSettings,
    String,
>) where P: FnOnce(&Vec<u8>) -> Result<ConnectArgs, String>
    requires
        command.data.len() > 0 ==> call_requires(parse, (&command.data[0],)),
    ensures
        if command.data.len() == 0 {
            failed(settings, "Missing arguments for connect"@)
        } else {
            exists|parsed: Result<ConnectArgs, String>|
                #[trigger] call_ensures(parse, (&command.data[0],), parsed) && connect_plan(
                    parsed,
                    settings,
                )
        },
{
    let segment = match command.arguments("Missing arguments for connect") {
        Ok(segment) => segment,
        Err(message) => {
            return Err(message);
        },
    };
    let parsed = parse(segment);
    proof {
        assert(call_ensures(parse, (&command.data[0],), parsed));
    }
    match parsed {
        Ok(args) => client_settings(args),
        Err(message) => Err(message),
    }
}

/// What `connect_with_uri` makes of the segments of a command: the first
/// segment is the connection string, in UTF-8.
pub open spec fn connection_string_of(data: Seq<Vec<u8>>) -> Result<Seq<char>, Seq<char>> {
    if data.len() == 0 {
        Err("Missing URI"@)
    } else if valid_utf8(data[0]@) {
        Ok(decode_utf8(data[0]@))
    } else {
        Err(utf8_error_text(data[0]@))
    }
}

/// Handles the first half of `connect-with-uri`: the connection string.
pub fn connect_with_uri(command: &Command) -> (uri: Result<String, String>)
    ensures
        match connection_string_of(command.data@) {
            Ok(text) => uri matches Ok(found) && found@ == text,
            Err(message) => failed(uri, message),
        },
{
    broadcast use encode_utf8_decode_utf8;

    let segment = match command.arguments("Missing URI") {
        Ok(segment) => segment,
        Err(message) => {
            return Err(message);
        },
    };
    string_from_utf8(slice_to_vec(segment.as_slice()))
}

/// Handles the second half of both `connect` commands. `opened` is the
/// connection that the driver made, or the message of its error. A new
/// connection is stored under the next handle, which is the answer; when
/// the driver failed, or no handle is left, nothing is stored.
pub fn register_client<C>(registry: &mut Registry<C>, opened: Result<C, String>) -> (answer:
    JsonResult<ConnectResult>)
    requires
        old(registry).wf(),
    ensures
        final(registry).wf(),
        match opened {
            Err(message) => {
                &&& answer == Err::<ConnectResult, String>(message)
                &&& final(registry).state() == old(registry).state()
            },
            Ok(connection) => match old(registry).state().next_handle() {
                None => {
                    &&& failed(answer, "No connection handle left"@)
                    &&& final(registry).state() == old(registry).state()
                },
                Some(handle) => {
                    &&& answer == Ok::<ConnectResult, String>(ConnectResult { client_id: handle })
                    &&& !old(registry)@.contains_key(handle)
                    &&& final(registry)@ == old(registry)@.insert(handle, connection)
                    &&& final(registry).state() == old(registry).state().step(
                        RegistryOp::Allocate,
                    ).step(RegistryOp::Insert { handle, connection })
                },
            },
        },
{
    let connection = match opened {
        Ok(connection) => connection,
        Err(message) => {
            return Err(message);
        },
    };
    match registry.allocate_handle() {
        None => Err("No connection handle left".to_owned()),
        Some(handle) => {
            registry.insert(handle, connection);
            Ok(ConnectResult { client_id: handle })
        },
    }
}

} // verus!
