//! The execution shim and the helpers that handlers share: outcomes framed
//! as reply buffers, and JSON values turned into driver documents.

use crate::text::{
    decimal, digit_char, is_digit, json_string_text, lemma_decimal_digits, lemma_decimal_injective,
    quoted,
};
use crate::{
    async_text, data_text, error_text, sync_text, AsyncResult, Command, CommandArgs, SyncResult,
};
use vstd::prelude::*;
use vstd::string::*;
use vstd::utf8::*;

verus! {

/// What a handler hands back: a value, or the message of the error that
/// stopped it.
pub type JsonResult<T> = Result<T, String>;

/// An outcome as mathematics sees it: the text of the value, or the text of
/// the message.
pub open spec fn outcome_view(outcome: JsonResult<String>) -> Result<Seq<char>, Seq<char>> {
    match outcome {
        Ok(data) => Ok(data@),
        Err(message) => Err(message@),
    }
}

/// A result as mathematics sees it: the value, or the text of the message.
pub open spec fn message_view<T>(result: Result<T, String>) -> Result<T, Seq<char>> {
    match result {
        Ok(value) => Ok(value),
        Err(message) => Err(message@),
    }
}

/// Whether `result` is the failure with the given message.
pub open spec fn failed<T>(result: Result<T, String>, message: Seq<char>) -> bool {
    result matches Err(m) && m@ == message
}

/// The acknowledgement of a command that returns nothing else.
#[derive(Debug)]
pub struct SuccessResult {
    pub success: bool,
}

impl SuccessResult {
    /// The acknowledgement of a success.
    pub fn new() -> (result: SuccessResult)
        ensures
            result.success,
    {
        SuccessResult { success: true }
    }

    /// The acknowledgement as JSON text.
    pub open spec fn json_text(self) -> Seq<char> {
        if self.success {
            "{\"success\":true}"@
        } else {
            "{\"success\":false}"@
        }
    }

    /// The acknowledgement as JSON text.
    pub fn to_json(&self) -> (json: String)
        ensures
            json@ == self.json_text(),
    {
        if self.success {
            "{\"success\":true}".to_owned()
        } else {
            "{\"success\":false}".to_owned()
        }
    }
}

/// The JSON text of the reply to an immediate command that ended in
/// `outcome`: a success writes its value under `data` and `null` under
/// `error`; a failure writes `null` under `data` and its message under
/// `error`.
pub open spec fn sync_reply_text(outcome: Result<Seq<char>, Seq<char>>) -> Seq<char> {
    match outcome {
        Ok(data) => sync_text(Some(data), None),
        Err(message) => sync_text(None, Some(message)),
    }
}

/// The JSON text of the reply to the deferred command with correlation id
/// `command_id` that ended in `outcome`.
pub open spec fn async_reply_text(
    command_id: usize,
    outcome: Result<Seq<char>, Seq<char>>,
) -> Seq<char> {
    match outcome {
        Ok(data) => async_text(command_id, Some(data), None),
        Err(message) => async_text(command_id, None, Some(message)),
    }
}

/// Runs the handler `d` on an immediate command and frames what it returns.
pub fn sync_op<D>(d: D, command: Command) -> (buffer: Vec<u8>) where
    D: Fn(Command) -> JsonResult<String>,

    requires
        call_requires(d, (command,)),
    ensures
        exists|outcome: JsonResult<String>|
            call_ensures(d, (command,), outcome) && buffer@ == encode_utf8(
                sync_reply_text(outcome_view(outcome)),
            ),
{
    let outcome = d(command);
    proof {
        assert(call_ensures(d, (command,), outcome));
    }
    sync_reply(outcome)
}

/// The reply buffer for the outcome of an immediate command.
pub fn sync_reply(outcome: JsonResult<String>) -> (buffer: Vec<u8>)
    ensures
        buffer@ == encode_utf8(sync_reply_text(outcome_view(outcome))),
{
    match outcome {
        Ok(data) => sync_result(data),
        Err(error) => sync_error(error),
    }
}

/// The reply buffer for a success: `data` is the value as JSON text; the
/// error is `null`.
pub fn sync_result(data: String) -> (buffer: Vec<u8>)
    ensures
        buffer@ == encode_utf8(sync_reply_text(Ok(data@))),
{
    let result = SyncResult { data: Some(data), error: None };
    result.encode()
}

/// The reply buffer for a failure: the value is `null`; the error is the
/// message as a JSON string. No success has the same reply, whatever its
/// value.
pub fn sync_error(error: String) -> (buffer: Vec<u8>)
    ensures
        buffer@ == encode_utf8(sync_reply_text(Err(error@))),
        forall|data: Seq<char>| #[trigger]
            sync_reply_text(Ok(data)) != sync_reply_text(Err(error@)),
{
    let result = SyncResult { data: None, error: Some(error) };
    let buffer = result.encode();
    proof {
        assert forall|data: Seq<char>| #[trigger]
            sync_reply_text(Ok(data)) != sync_reply_text(Err(error@)) by {
            lemma_failure_is_no_success(data, error@);
        }
    }
    buffer
}

/// A failure whose message is written between quotes reads differently
/// from every success: a success ends with `null}`, such a failure with a
/// quote and the closing brace.
proof fn lemma_failure_is_no_success(data: Seq<char>, message: Seq<char>)
    requires
        quoted(json_string_text(message)),
    ensures
        sync_reply_text(Ok(data)) != sync_reply_text(Err(message)),
        forall|command_id: usize, other_id: usize|
            async_reply_text(command_id, Ok(data)) != async_reply_text(other_id, Err(message)),
{
    lemma_sync_reply_shape(Ok(data));
    lemma_sync_reply_shape(Err(message));
    reveal_strlit(",\"error\":null}");
    reveal_strlit("}");
    let success = sync_reply_text(Ok(data));
    let failure = sync_reply_text(Err(message));
    assert(success[success.len() - 2] == 'l');
    assert(failure[failure.len() - 2] == json_string_text(message).last());
    assert forall|command_id: usize, other_id: usize|
        async_reply_text(command_id, Ok(data)) != async_reply_text(other_id, Err(message)) by {
        lemma_async_reply_shape(command_id, Ok(data));
        lemma_async_reply_shape(other_id, Err(message));
        let success = async_reply_text(command_id, Ok(data));
        let failure = async_reply_text(other_id, Err(message));
        assert(success[success.len() - 2] == 'l');
        assert(failure[failure.len() - 2] == json_string_text(message).last());
    }
}

/// Starts the handler `d` on a deferred command. Returns what the handler
/// returned, which is still to be resolved, together with the head of the
/// request as it was when the command came in: the reply is framed from
/// that head, whatever happens before the handler's work is done.
pub fn async_op<D, F>(d: D, command: Command) -> (started: (CommandArgs, F)) where
    D: Fn(Command) -> F,

    requires
        call_requires(d, (command,)),
    ensures
        started.0 == command.args,
        call_ensures(d, (command,), started.1),
{
    let args = command.args;
    let pending = d(command);
    (args, pending)
}

/// The reply buffer for the outcome of a deferred command.
pub fn async_reply(args: &CommandArgs, outcome: JsonResult<String>) -> (buffer: Vec<u8>)
    requires
        args.command_id is Some,
    ensures
        buffer@ == encode_utf8(async_reply_text(args.command_id.unwrap(), outcome_view(outcome))),
{
    match outcome {
        Ok(data) => async_result(args, data),
        Err(error) => async_error(args, error),
    }
}

/// The reply buffer for a deferred success: the correlation id of `args`,
/// `data` as the value, `null` as the error.
pub fn async_result(args: &CommandArgs, data: String) -> (buffer: Vec<u8>)
    requires
        args.command_id is Some,
    ensures
        buffer@ == encode_utf8(async_reply_text(args.command_id.unwrap(), Ok(data@))),
{
    let command_id = args.command_id.unwrap();
    let result = AsyncResult { command_id, data: Some(data), error: None };
    result.encode()
}

/// The reply buffer for a deferred failure: the correlation id of `args`,
/// `null` as the value, the message as the error. No success has the same
/// reply, whatever its value and its correlation id.
pub fn async_error(args: &CommandArgs, error: String) -> (buffer: Vec<u8>)
    requires
        args.command_id is Some,
    ensures
        buffer@ == encode_utf8(async_reply_text(args.command_id.unwrap(), Err(error@))),
        forall|command_id: usize, data: Seq<char>| #[trigger]
            async_reply_text(command_id, Ok(data)) != async_reply_text(
                args.command_id.unwrap(),
                Err(error@),
            ),
{
    let command_id = args.command_id.unwrap();
    let result = AsyncResult { command_id, data: None, error: Some(error) };
    let buffer = result.encode();
    proof {
        assert forall|other_id: usize, data: Seq<char>| #[trigger]
            async_reply_text(other_id, Ok(data)) != async_reply_text(command_id, Err(error@)) by {
            lemma_failure_is_no_success(data, error@);
        }
    }
    buffer
}

/// The bytes that `pad_to_boundary` appends to a buffer of `length` bytes:
/// as few spaces as bring the length to a multiple of `boundary`.
pub open spec fn padding(length: nat, boundary: nat) -> Seq<u8> {
    let missing = if length % boundary == 0 {
        0
    } else {
        (boundary - length % boundary) as nat
    };
    Seq::new(missing, |i: int| 0x20u8)
}

/// Pads a reply buffer with trailing spaces until its length is a multiple
/// of `boundary`, for hosts that want buffers aligned. The spaces follow
/// the complete JSON text and leave what it says unchanged.
pub fn pad_to_boundary(buffer: Vec<u8>, boundary: usize) -> (padded: Vec<u8>)
    requires
        boundary > 0,
    ensures
        padded@ == buffer@ + padding(buffer@.len(), boundary as nat),
        padded@.len() % (boundary as nat) == 0,
        padded@.len() < buffer@.len() + boundary,
{
    let mut padded = buffer;
    let excess = padded.len() % boundary;
    if excess == 0 {
        assert(padding(buffer@.len(), boundary as nat) =~= Seq::<u8>::empty());
        assert(padded@ =~= buffer@ + padding(buffer@.len(), boundary as nat));
        return padded;
    }
    let missing = boundary - excess;
    let mut added: usize = 0;
    while added < missing
        invariant
            added <= missing,
            padded@ == buffer@ + Seq::new(added as nat, |i: int| 0x20u8),
        decreases missing - added,
    {
        padded.push(0x20u8);
        added += 1;
        assert(padded@ =~= buffer@ + Seq::new(added as nat, |i: int| 0x20u8));
    }
    assert((buffer@.len() + missing) % (boundary as int) == 0) by {
        let len = buffer@.len() as int;
        let b = boundary as int;
        vstd::arithmetic::div_mod::lemma_fundamental_div_mod(len, b);
        assert(len + missing == b * (len / b) + b);
        assert(len + missing == b * (len / b + 1)) by (nonlinear_arith)
            requires
                len + missing == b * (len / b) + b,
        ;
        vstd::arithmetic::div_mod::lemma_mod_multiples_basic(len / b + 1, b);
    }
    assert(padded@ =~= buffer@ + padding(buffer@.len(), boundary as nat));
    padded
}

/// An immediate reply spelled out: a success writes its value under `data`
/// and `null` under `error`; a failure writes `null` under `data` and its
/// message, as a JSON string, under `error`. So a reply never holds both a
/// value and a message.
pub proof fn lemma_sync_reply_shape(outcome: Result<Seq<char>, Seq<char>>)
    ensures
        match outcome {
            Ok(data) => sync_reply_text(outcome) == "{\"data\":"@ + data + ",\"error\":null}"@,
            Err(message) => sync_reply_text(outcome) == "{\"data\":null,\"error\":"@
                + json_string_text(message) + "}"@,
        },
{
    reveal_strlit("{\"data\":");
    reveal_strlit(",\"error\":");
    reveal_strlit("null");
    reveal_strlit("}");
    reveal_strlit(",\"error\":null}");
    reveal_strlit("{\"data\":null,\"error\":");
    match outcome {
        Ok(data) => {
            assert(sync_reply_text(outcome) =~= "{\"data\":"@ + data + ",\"error\":null}"@);
        },
        Err(message) => {
            assert(sync_reply_text(outcome) =~= "{\"data\":null,\"error\":"@ + json_string_text(
                message,
            ) + "}"@);
        },
    }
}

/// A reply keeps what it was made from: two successes with the same reply
/// text have the same value, and two failures with the same reply text have
/// messages with the same JSON string.
pub proof fn lemma_sync_reply_keeps_outcome(
    first: Result<Seq<char>, Seq<char>>,
    second: Result<Seq<char>, Seq<char>>,
)
    requires
        sync_reply_text(first) == sync_reply_text(second),
        first is Ok <==> second is Ok,
    ensures
        match (first, second) {
            (Ok(a), Ok(b)) => a == b,
            (Err(a), Err(b)) => json_string_text(a) == json_string_text(b),
            _ => false,
        },
{
    lemma_sync_reply_shape(first);
    lemma_sync_reply_shape(second);
    let text = sync_reply_text(first);
    match (first, second) {
        (Ok(a), Ok(b)) => {
            let opening = "{\"data\":"@;
            let closing = ",\"error\":null}"@;
            assert(a =~= text.subrange(opening.len() as int, text.len() - closing.len()));
            assert(b =~= text.subrange(opening.len() as int, text.len() - closing.len()));
        },
        (Err(a), Err(b)) => {
            let opening = "{\"data\":null,\"error\":"@;
            let closing = "}"@;
            assert(json_string_text(a) =~= text.subrange(
                opening.len() as int,
                text.len() - closing.len(),
            ));
            assert(json_string_text(b) =~= text.subrange(
                opening.len() as int,
                text.len() - closing.len(),
            ));
        },
        _ => {},
    }
}

/// A deferred reply spelled out: the correlation id as a decimal number
/// under `commandId`, then the value and the error as in an immediate reply.
pub proof fn lemma_async_reply_shape(command_id: usize, outcome: Result<Seq<char>, Seq<char>>)
    ensures
        match outcome {
            Ok(data) => async_reply_text(command_id, outcome) == "{\"commandId\":"@ + decimal(
                command_id as nat,
            ) + ",\"data\":"@ + data + ",\"error\":null}"@,
            Err(message) => async_reply_text(command_id, outcome) == "{\"commandId\":"@ + decimal(
                command_id as nat,
            ) + ",\"data\":null,\"error\":"@ + json_string_text(message) + "}"@,
        },
{
    reveal_strlit("{\"commandId\":");
    reveal_strlit(",\"data\":");
    reveal_strlit(",\"error\":");
    reveal_strlit("null");
    reveal_strlit("}");
    reveal_strlit(",\"error\":null}");
    reveal_strlit(",\"data\":null,\"error\":");
    match outcome {
        Ok(data) => {
            assert(async_reply_text(command_id, outcome) =~= "{\"commandId\":"@ + decimal(
                command_id as nat,
            ) + ",\"data\":"@ + data + ",\"error\":null}"@);
        },
        Err(message) => {
            assert(async_reply_text(command_id, outcome) =~= "{\"commandId\":"@ + decimal(
                command_id as nat,
            ) + ",\"data\":null,\"error\":"@ + json_string_text(message) + "}"@);
        },
    }
}

/// A deferred reply names its command: two replies with the same text carry
/// the same correlation id, whatever their outcomes are.
pub proof fn lemma_reply_names_command(
    first_id: usize,
    first: Result<Seq<char>, Seq<char>>,
    second_id: usize,
    second: Result<Seq<char>, Seq<char>>,
)
    requires
        async_reply_text(first_id, first) == async_reply_text(second_id, second),
    ensures
        first_id == second_id,
{
    let a = decimal(first_id as nat);
    let b = decimal(second_id as nat);
    lemma_id_stands_first(first_id, first);
    lemma_id_stands_first(second_id, second);
    lemma_decimal_digits(first_id as nat);
    lemma_decimal_digits(second_id as nat);
    let text = async_reply_text(first_id, first);
    if a.len() < b.len() {
        assert(text[13 + a.len() as int] == b[a.len() as int]);
        lemma_comma_is_no_digit();
    } else if b.len() < a.len() {
        assert(text[13 + b.len() as int] == a[b.len() as int]);
        lemma_comma_is_no_digit();
    } else {
        assert forall|i: int| 0 <= i < a.len() implies a[i] == b[i] by {
            assert(text[13 + i] == a[i]);
            assert(text[13 + i] == b[i]);
        }
        assert(a =~= b);
        lemma_decimal_injective(first_id as nat, second_id as nat);
    }
}

/// In a deferred reply the digits of the correlation id stand right after
/// the opening, and a comma follows them.
proof fn lemma_id_stands_first(command_id: usize, outcome: Result<Seq<char>, Seq<char>>)
    ensures
        async_reply_text(command_id, outcome).len() > 13 + decimal(command_id as nat).len(),
        forall|i: int|
            0 <= i < decimal(command_id as nat).len() ==> async_reply_text(
                command_id,
                outcome,
            )[13 + i] == #[trigger] decimal(command_id as nat)[i],
        async_reply_text(command_id, outcome)[13 + decimal(command_id as nat).len() as int] == ',',
{
    reveal_strlit("{\"commandId\":");
    reveal_strlit(",\"data\":");
    let id = decimal(command_id as nat);
    let rest = match outcome {
        Ok(data) => data_text(Some(data)) + ",\"error\":"@ + error_text(None) + "}"@,
        Err(message) => data_text(None) + ",\"error\":"@ + error_text(Some(message)) + "}"@,
    };
    let text = "{\"commandId\":"@ + id + ",\"data\":"@ + rest;
    assert(async_reply_text(command_id, outcome) =~= text);
    assert("{\"commandId\":"@.len() == 13);
    assert(",\"data\":"@[0] == ',');
    assert(text[13 + id.len() as int] == ",\"data\":"@[0]);
    assert forall|i: int| 0 <= i < id.len() implies text[13 + i] == id[i] by {}
}

/// A comma is not a decimal digit.
proof fn lemma_comma_is_no_digit()
    ensures
        !is_digit(','),
{
    assert forall|d: nat| d < 10 implies digit_char(d) != ',' by {}
}

/// A JSON value as serde_json holds it. Nothing in this library looks
/// inside one.
#[verifier::external_type_specification]
#[verifier::external_body]
pub struct ExJsonValue(serde_json::Value);

/// A document as the bson crate holds it. Nothing in this library looks
/// inside one.
#[verifier::external_type_specification]
#[verifier::external_body]
pub struct ExDocument(bson::Document);

/// The document that bson's reading of extended JSON makes of `json`;
/// `None` where the value is no JSON object, where it is an object that
/// spells a scalar (an object id, a date, ...), or where bson rejects it.
pub uninterp spec fn json_document(json: serde_json::Value) -> Option<bson::Document>;

/// Calls bson's `TryFrom<serde_json::Value> for Bson` and keeps the result
/// only if it is a document. The contract claims that the conversion
/// returns (it reports malformed extended JSON as an error, which becomes
/// `None` here) and that its result depends on the value alone.
#[verifier::external_body]
pub fn json_to_document(json: serde_json::Value) -> (document: Option<bson::Document>)
    ensures
        document == json_document(json),
{
    match bson::Bson::try_from(json) {
        Ok(bson::Bson::Document(document)) => Some(document),
        _ => None,
    }
}

/// The document of an optional value, where there is a value and it is one.
pub open spec fn maybe_json_document(maybe_json: Option<serde_json::Value>) -> Option<
    bson::Document,
> {
    match maybe_json {
        Some(json) => json_document(json),
        None => None,
    }
}

/// The documents among `jsons`, in their order.
pub open spec fn json_documents(jsons: Seq<serde_json::Value>) -> Seq<bson::Document>
    decreases jsons.len(),
{
    if jsons.len() == 0 {
        Seq::empty()
    } else {
        match json_document(jsons.last()) {
            Some(document) => json_documents(jsons.drop_last()).push(document),
            None => json_documents(jsons.drop_last()),
        }
    }
}

/// The document of `maybe_json`; `None` where there is no value or the
/// value is no document.
pub fn maybe_json_to_document(maybe_json: Option<serde_json::Value>) -> (document: Option<
    bson::Document,
>)
    ensures
        document == maybe_json_document(maybe_json),
{
    match maybe_json {
        Some(json) => json_to_document(json),
        None => None,
    }
}

/// The documents among `jsons`, in their order; values that are no
/// documents are left out.
pub fn jsons_to_documents(jsons: Vec<serde_json::Value>) -> (documents: Vec<bson::Document>)
    ensures
        documents@ == json_documents(jsons@),
{
    let mut documents: Vec<bson::Document> = Vec::new();
    for json in iter: jsons
        invariant
            iter.seq() == jsons@,
            documents@ == json_documents(jsons@.take(iter.index())),
    {
        proof {
            let upto = jsons@.take(iter.index() + 1);
            assert(upto.drop_last() =~= jsons@.take(iter.index()));
            assert(upto.last() == json);
        }
        match json_to_document(json) {
            Some(document) => documents.push(document),
            None => {},
        }
    }
    proof {
        assert(jsons@.take(jsons@.len() as int) =~= jsons@);
    }
    documents
}

} // verus!
