//! The `create-indexes` command: builds indexes on a collection.

use crate::command::{
    agrees, open, opening, optional, optional_document, planned, required, required_document,
    DriverCall, DriverCallView, IndexModel,
};
use crate::registry::Registry;
use crate::util::{failed, json_document};
use crate::Command;
use vstd::prelude::*;

verus! {

/// The arguments of `create-indexes`.
pub struct CreateIndexesArgs {
    pub db_name: String,
    pub collection_name: String,
    pub models: Vec<IndexModelArgs>,
}

/// One index as the arguments give it.
pub struct IndexModelArgs {
    pub keys: serde_json::Value,
    pub options: Option<serde_json::Value>,
}

impl IndexModelArgs {
    /// The keys and the options.
    pub fn part(self) -> (parts: (serde_json::Value, Option<serde_json::Value>))
        ensures
            parts == (self.keys, self.options),
    {
        (self.keys, self.options)
    }
}

/// The index that `model` asks for: its keys have to be a document, and so
/// have its options, if there are any. The keys are checked first.
pub open spec fn index_model_of(model: IndexModelArgs) -> Result<IndexModel, Seq<char>> {
    match required(json_document(model.keys), "keys must be a document"@) {
        Err(message) => Err(message),
        Ok(keys) => match optional(model.options, "options must be a document"@) {
            Err(message) => Err(message),
            Ok(options) => Ok(IndexModel { keys, options }),
        },
    }
}

/// The indexes that `models` ask for, in order, or the message of the first
/// one that is refused.
pub open spec fn index_models_of(models: Seq<IndexModelArgs>) -> Result<Seq<IndexModel>, Seq<char>>
    decreases models.len(),
{
    if models.len() == 0 {
        Ok(Seq::empty())
    } else {
        match index_models_of(models.drop_last()) {
            Err(message) => Err(message),
            Ok(earlier) => match index_model_of(models.last()) {
                Err(message) => Err(message),
                Ok(model) => Ok(earlier.push(model)),
            },
        }
    }
}

/// What `create_indexes` plans for arguments that were decoded or not.
pub open spec fn create_indexes_plan(parsed: Result<CreateIndexesArgs, String>) -> Result<
    DriverCallView,
    Seq<char>,
> {
    match parsed {
        Err(message) => Err(message@),
        Ok(args) => match index_models_of(args.models@) {
            Err(message) => Err(message),
            Ok(models) => Ok(
                DriverCallView::CreateIndexes {
                    db_name: args.db_name@,
                    collection_name: args.collection_name@,
                    models,
                },
            ),
        },
    }
}

/// The index that `model` asks for.
pub fn index_model(model: IndexModelArgs) -> (index: Result<IndexModel, String>)
    ensures
        agrees(index, index_model_of(model)),
{
    let (keys, options) = model.part();
    let keys = match required_document(keys, "keys must be a document") {
        Ok(keys) => keys,
        Err(message) => {
            return Err(message);
        },
    };
    let options = match optional_document(options, "options must be a document") {
        Ok(options) => options,
        Err(message) => {
            return Err(message);
        },
    };
    Ok(IndexModel { keys, options })
}

/// The indexes that `models` ask for.
pub fn index_models(models: Vec<IndexModelArgs>) -> (indexes: Result<Vec<IndexModel>, String>)
    ensures
        match index_models_of(models@) {
            Ok(expected) => indexes matches Ok(found) && found@ == expected,
            Err(message) => failed(indexes, message),
        },
{
    let mut indexes: Vec<IndexModel> = Vec::new();
    for model in iter: models
        invariant
            iter.seq() == models@,
            index_models_of(models@.take(iter.index())) == Ok::<Seq<IndexModel>, Seq<char>>(
                indexes@,
            ),
    {
        proof {
            let upto = models@.take(iter.index() + 1);
            assert(upto.drop_last() =~= models@.take(iter.index()));
            assert(upto.last() == model);
        }
        match index_model(model) {
            Ok(index) => indexes.push(index),
            Err(message) => {
                proof {
                    lemma_refusal_stays(models@, iter.index() + 1);
                }
                return Err(message);
            },
        }
    }
    proof {
        assert(models@.take(models@.len() as int) =~= models@);
    }
    Ok(indexes)
}

/// Once a model is refused, the list is refused with the same message,
/// whatever models follow.
proof fn lemma_refusal_stays(models: Seq<IndexModelArgs>, upto: int)
    requires
        0 <= upto <= models.len(),
        index_models_of(models.take(upto)) is Err,
    ensures
        index_models_of(models) == index_models_of(models.take(upto)),
    decreases models.len() - upto,
{
    if upto < models.len() {
        let longer = models.take(upto + 1);
        assert(longer.drop_last() =~= models.take(upto));
        lemma_refusal_stays(models, upto + 1);
    } else {
        assert(models.take(upto) =~= models);
    }
}

/// Handles `create-indexes`. `parse` decodes the argument segment.
pub fn create_indexes<'a, C, P>(command: &Command, registry: &'a Registry<C>, parse: P) -> (job:
    Result<(&'a C, DriverCall), String>) where
    P: FnOnce(&Vec<u8>) -> Result<CreateIndexesArgs, String>,

    requires
        command.data.len() > 0 ==> call_requires(parse, (&command.data[0],)),
    ensures
        match opening(*command, registry@, "Missing arguments for createIndex"@) {
            Err(message) => failed(job, message),
            Ok(handle) => exists|parsed: Result<CreateIndexesArgs, String>|
                #[trigger] call_ensures(parse, (&command.data[0],), parsed) && planned(
                    job,
                    registry@[handle],
                    create_indexes_plan(parsed),
                ),
        },
{
    let (client, segment) = match open(command, registry, "Missing arguments for createIndex") {
        Ok(opened) => opened,
        Err(message) => {
            return Err(message);
        },
    };
    let parsed = parse(segment);
    proof {
        assert(call_ensures(parse, (&command.data[0],), parsed));
    }
    let args = match parsed {
        Ok(args) => args,
        Err(message) => {
            return Err(message);
        },
    };
    let models = match index_models(args.models) {
        Ok(models) => models,
        Err(message) => {
            return Err(message);
        },
    };
    Ok(
        (
            client,
            DriverCall::CreateIndexes {
                db_name: args.db_name,
                collection_name: args.collection_name,
                models,
            },
        ),
    )
}

} // verus!
