use mongo_bridge::command::aggregation::{aggregate, AggregationArgs};
use mongo_bridge::command::close::close;
use mongo_bridge::command::count::{count, CountArgs};
use mongo_bridge::command::delete::{delete, delete_call, DeleteArgs};
use mongo_bridge::command::distinct::DistinctArgs;
use mongo_bridge::command::drop_connection::{drop_connection, DropConnectionArgs};
use mongo_bridge::command::find::{
    find, find_call, found_documents, found_value, FindArgs, Found,
};
use mongo_bridge::command::find_one::{find_one, FindOneArgs};
use mongo_bridge::command::indexes::{
    create_indexes, index_model, index_models, CreateIndexesArgs, IndexModelArgs,
};
use mongo_bridge::command::insert::{insert_many, insert_one, InsertManyArgs, InsertOneArgs};
use mongo_bridge::command::list_collection_names::list_collection_names;
use mongo_bridge::command::list_database_names::list_database_names;
use mongo_bridge::command::stream::{collect, StreamPolicy};
use mongo_bridge::command::table::{plan, Arguments};
use mongo_bridge::command::update::{update, update_call, update_result, UpdateArgs};
use mongo_bridge::command::{open, DriverCall};
use mongo_bridge::registry::Registry;
use mongo_bridge::{Command, CommandArgs, CommandType};

fn json(text: &str) -> serde_json::Value {
    serde_json::from_str(text).unwrap()
}

fn doc(text: &str) -> bson::Document {
    mongo_bridge::util::json_to_document(json(text)).unwrap()
}

fn registry_with_one() -> Registry<&'static str> {
    let mut registry = Registry::new();
    let handle = registry.allocate_handle().unwrap();
    registry.insert(handle, "conn-0");
    registry
}

fn command(command_type: CommandType, client_id: Option<usize>, data: Vec<Vec<u8>>) -> Command {
    Command::new(CommandArgs { command_type, command_id: Some(1), client_id }, data)
}

fn with_args(command_type: CommandType) -> Command {
    command(command_type, Some(0), vec![b"{}".to_vec()])
}

fn find_args(filter: Option<&str>, find_one: bool) -> FindArgs {
    FindArgs {
        db_name: "shop".to_string(),
        collection_name: "orders".to_string(),
        filter: filter.map(json),
        find_one,
        skip: Some(5),
        limit: Some(10),
    }
}

#[test]
fn open_gives_connection_and_first_segment() {
    let registry = registry_with_one();
    let cmd = command(CommandType::Find, Some(0), vec![b"a".to_vec(), b"b".to_vec()]);
    assert_eq!(open(&cmd, &registry, "missing"), Ok((&"conn-0", &b"a".to_vec())));
}

#[test]
fn open_looks_for_the_connection_before_the_arguments() {
    let registry = registry_with_one();
    let cmd = command(CommandType::Find, Some(9), vec![]);
    assert_eq!(open(&cmd, &registry, "missing"), Err("Client not found".to_string()));
    let cmd = command(CommandType::Find, None, vec![]);
    assert_eq!(open(&cmd, &registry, "missing"), Err("Missing clientId".to_string()));
    let cmd = command(CommandType::Find, Some(0), vec![]);
    assert_eq!(open(&cmd, &registry, "missing"), Err("missing".to_string()));
}

#[test]
fn find_all_plans_a_find_with_skip_and_limit() {
    let registry = registry_with_one();
    let job = find(&with_args(CommandType::Find), &registry, |_s: &Vec<u8>| {
        Ok(find_args(Some("{\"paid\":true}"), false))
    });
    let (client, call) = job.unwrap();
    assert_eq!(*client, "conn-0");
    match call {
        DriverCall::Find { db_name, collection_name, filter, skip, limit } => {
            assert_eq!(db_name, "shop");
            assert_eq!(collection_name, "orders");
            assert_eq!(filter, Some(doc("{\"paid\":true}")));
            assert_eq!(skip, Some(5u64));
            assert_eq!(limit, Some(10));
        }
        _ => panic!("a find was expected"),
    }
}

#[test]
fn find_one_flag_plans_a_find_one() {
    let registry = registry_with_one();
    let job = find(&with_args(CommandType::Find), &registry, |_s: &Vec<u8>| Ok(find_args(None, true)));
    match job.unwrap().1 {
        DriverCall::FindOne { db_name, collection_name, filter } => {
            assert_eq!(db_name, "shop");
            assert_eq!(collection_name, "orders");
            assert_eq!(filter, None);
        }
        _ => panic!("a find-one was expected"),
    }
}

#[test]
fn find_hands_the_first_segment_to_the_decoder() {
    let registry = registry_with_one();
    let cmd = command(CommandType::Find, Some(0), vec![b"first".to_vec(), b"second".to_vec()]);
    let job = find(&cmd, &registry, |segment: &Vec<u8>| {
        assert_eq!(segment, &b"first".to_vec());
        Ok(find_args(None, false))
    });
    assert!(job.is_ok());
}

#[test]
fn find_without_connection_fails_before_decoding() {
    let registry = registry_with_one();
    let cmd = command(CommandType::Find, Some(4), vec![b"{}".to_vec()]);
    let job = find(&cmd, &registry, |_s: &Vec<u8>| -> Result<FindArgs, String> {
        panic!("the decoder must not run")
    });
    assert_eq!(job.err(), Some("Client not found".to_string()));
}

#[test]
fn find_without_arguments_fails() {
    let registry = registry_with_one();
    let cmd = command(CommandType::Find, Some(0), vec![]);
    let job = find(&cmd, &registry, |_s: &Vec<u8>| -> Result<FindArgs, String> {
        panic!("the decoder must not run")
    });
    assert_eq!(job.err(), Some("Arguments missing for find".to_string()));
}

#[test]
fn find_with_undecodable_arguments_fails_with_the_decoders_message() {
    let registry = registry_with_one();
    let job = find(&with_args(CommandType::Find), &registry, |_s: &Vec<u8>| {
        Err("missing field `dbName` at line 1 column 2".to_string())
    });
    assert_eq!(job.err(), Some("missing field `dbName` at line 1 column 2".to_string()));
}

#[test]
fn find_with_a_filter_that_is_no_document_fails() {
    let registry = registry_with_one();
    let job = find(&with_args(CommandType::Find), &registry, |_s: &Vec<u8>| Ok(find_args(Some("5"), false)));
    assert_eq!(job.err(), Some("filter must be a document".to_string()));
}

#[test]
fn find_call_chooses_by_the_flag() {
    let one = find_call("d".to_string(), "c".to_string(), None, true, Some(1), Some(2)).unwrap();
    assert!(matches!(one, DriverCall::FindOne { .. }));
    let all = find_call("d".to_string(), "c".to_string(), None, false, Some(1), Some(2)).unwrap();
    assert!(matches!(all, DriverCall::Find { skip: Some(1), limit: Some(2), .. }));
    let all = find_call("d".to_string(), "c".to_string(), None, false, None, None).unwrap();
    assert!(matches!(all, DriverCall::Find { skip: None, limit: None, .. }));
}

#[test]
fn find_refuses_a_negative_skip() {
    let refused = find_call("d".to_string(), "c".to_string(), None, false, Some(-1), None);
    assert_eq!(refused.err(), Some("skip must not be negative".to_string()));
    let zero = find_call("d".to_string(), "c".to_string(), None, false, Some(0), Some(-5)).unwrap();
    assert!(matches!(zero, DriverCall::Find { skip: Some(0), limit: Some(-5), .. }));
    let largest = find_call("d".to_string(), "c".to_string(), None, false, Some(i64::MAX), None).unwrap();
    assert!(matches!(largest, DriverCall::Find { skip: Some(9223372036854775807), .. }));
}

#[test]
fn find_one_ignores_skip_and_limit() {
    let one = find_call("d".to_string(), "c".to_string(), None, true, Some(-1), Some(-1)).unwrap();
    assert!(matches!(one, DriverCall::FindOne { .. }));
}

#[test]
fn find_checks_the_filter_before_the_skip() {
    let registry = registry_with_one();
    let job = find(&with_args(CommandType::Find), &registry, |_s: &Vec<u8>| {
        let mut args = find_args(Some("1"), false);
        args.skip = Some(-3);
        Ok(args)
    });
    assert_eq!(job.err(), Some("filter must be a document".to_string()));
    let job = find(&with_args(CommandType::Find), &registry, |_s: &Vec<u8>| {
        let mut args = find_args(None, false);
        args.skip = Some(-3);
        Ok(args)
    });
    assert_eq!(job.err(), Some("skip must not be negative".to_string()));
}

#[test]
fn one_found_document_is_a_list_of_one() {
    assert_eq!(found_documents(Some(doc("{\"a\":1}"))), vec![doc("{\"a\":1}")]);
}

#[test]
fn no_found_document_is_an_empty_list() {
    assert_eq!(found_documents(None), Vec::<bson::Document>::new());
}

#[test]
fn what_find_found_is_a_list_and_what_others_found_is_a_document() {
    match found_value(CommandType::Find, Some(doc("{\"a\":1}"))) {
        Found::Listed(documents) => assert_eq!(documents, vec![doc("{\"a\":1}")]),
        Found::Single(_) => panic!("a list was expected"),
    }
    match found_value(CommandType::Find, None) {
        Found::Listed(documents) => assert!(documents.is_empty()),
        Found::Single(_) => panic!("a list was expected"),
    }
    match found_value(CommandType::FindOne, Some(doc("{\"a\":1}"))) {
        Found::Single(document) => assert_eq!(document, Some(doc("{\"a\":1}"))),
        Found::Listed(_) => panic!("a document was expected"),
    }
    match found_value(CommandType::FindOne, None) {
        Found::Single(document) => assert_eq!(document, None),
        Found::Listed(_) => panic!("a document was expected"),
    }
}

#[test]
fn find_one_command_plans_a_find_one() {
    let registry = registry_with_one();
    let job = find_one(&with_args(CommandType::FindOne), &registry, |_s: &Vec<u8>| {
        Ok(FindOneArgs {
            db_name: "d".to_string(),
            collection_name: "c".to_string(),
            filter: Some(json("{\"k\":\"v\"}")),
        })
    });
    match job.unwrap().1 {
        DriverCall::FindOne { db_name, collection_name, filter } => {
            assert_eq!((db_name.as_str(), collection_name.as_str()), ("d", "c"));
            assert_eq!(filter, Some(doc("{\"k\":\"v\"}")));
        }
        _ => panic!("a find-one was expected"),
    }
    let missing = find_one(&command(CommandType::FindOne, Some(0), vec![]), &registry, |_s: &Vec<u8>| {
        Err("unused".to_string())
    });
    assert_eq!(missing.err(), Some("Missing arguments for findOne".to_string()));
}

fn delete_args(query: &str, delete_one: bool) -> DeleteArgs {
    DeleteArgs {
        db_name: "d".to_string(),
        collection_name: "c".to_string(),
        query: json(query),
        delete_one,
    }
}

#[test]
fn delete_one_and_delete_many() {
    let registry = registry_with_one();
    let job = delete(&with_args(CommandType::Delete), &registry, |_s: &Vec<u8>| Ok(delete_args("{\"a\":1}", true)));
    match job.unwrap().1 {
        DriverCall::DeleteOne { db_name, collection_name, query } => {
            assert_eq!((db_name.as_str(), collection_name.as_str()), ("d", "c"));
            assert_eq!(query, doc("{\"a\":1}"));
        }
        _ => panic!("a delete-one was expected"),
    }
    let job = delete(&with_args(CommandType::Delete), &registry, |_s: &Vec<u8>| Ok(delete_args("{}", false)));
    assert!(matches!(job.unwrap().1, DriverCall::DeleteMany { .. }));
}

#[test]
fn delete_needs_a_query_document() {
    let registry = registry_with_one();
    let job = delete(&with_args(CommandType::Delete), &registry, |_s: &Vec<u8>| Ok(delete_args("null", true)));
    assert_eq!(job.err(), Some("query can not be null".to_string()));
}

#[test]
fn delete_error_order() {
    let registry = registry_with_one();
    let job = delete(&command(CommandType::Delete, None, vec![]), &registry, |_s: &Vec<u8>| Ok(delete_args("{}", true)));
    assert_eq!(job.err(), Some("Missing clientId".to_string()));
    let job = delete(&command(CommandType::Delete, Some(0), vec![]), &registry, |_s: &Vec<u8>| Ok(delete_args("{}", true)));
    assert_eq!(job.err(), Some("Missing arguments for delete".to_string()));
    let job = delete(&with_args(CommandType::Delete), &registry, |_s: &Vec<u8>| Err("bad json".to_string()));
    assert_eq!(job.err(), Some("bad json".to_string()));
}

#[test]
fn delete_call_chooses_by_the_flag() {
    assert!(matches!(
        delete_call("d".to_string(), "c".to_string(), bson::Document::new(), true),
        DriverCall::DeleteOne { .. }
    ));
    assert!(matches!(
        delete_call("d".to_string(), "c".to_string(), bson::Document::new(), false),
        DriverCall::DeleteMany { .. }
    ));
}

fn update_args(query: &str, update: &str, update_one: bool) -> UpdateArgs {
    UpdateArgs {
        db_name: "d".to_string(),
        collection_name: "c".to_string(),
        query: json(query),
        update: json(update),
        update_one,
    }
}

#[test]
fn update_one_and_update_many() {
    let registry = registry_with_one();
    let job = update(&with_args(CommandType::Update), &registry, |_s: &Vec<u8>| {
        Ok(update_args("{\"a\":1}", "{\"$set\":{\"a\":2}}", true))
    });
    match job.unwrap().1 {
        DriverCall::UpdateOne { query, update, .. } => {
            assert_eq!(query, doc("{\"a\":1}"));
            assert_eq!(update, doc("{\"$set\":{\"a\":2}}"));
        }
        _ => panic!("an update-one was expected"),
    }
    let job = update(&with_args(CommandType::Update), &registry, |_s: &Vec<u8>| {
        Ok(update_args("{}", "{\"$set\":{\"a\":2}}", false))
    });
    assert!(matches!(job.unwrap().1, DriverCall::UpdateMany { .. }));
}

#[test]
fn update_checks_the_query_before_the_update() {
    let registry = registry_with_one();
    let job = update(&with_args(CommandType::Update), &registry, |_s: &Vec<u8>| Ok(update_args("1", "2", true)));
    assert_eq!(job.err(), Some("query can not be null".to_string()));
    let job = update(&with_args(CommandType::Update), &registry, |_s: &Vec<u8>| Ok(update_args("{}", "2", true)));
    assert_eq!(job.err(), Some("update_doc can not be null".to_string()));
    let job = update(&command(CommandType::Update, Some(0), vec![]), &registry, |_s: &Vec<u8>| Ok(update_args("{}", "{}", true)));
    assert_eq!(job.err(), Some("Missing arguments for update".to_string()));
}

#[test]
fn update_call_chooses_by_the_flag() {
    let one = update_call("d".to_string(), "c".to_string(), bson::Document::new(), bson::Document::new(), true);
    assert!(matches!(one, DriverCall::UpdateOne { .. }));
    let many = update_call("d".to_string(), "c".to_string(), bson::Document::new(), bson::Document::new(), false);
    assert!(matches!(many, DriverCall::UpdateMany { .. }));
}

#[test]
fn update_result_reports_counts() {
    let result = update_result(3, 2, None);
    assert_eq!((result.matched_count, result.modified_count), (3, 2));
    assert_eq!(result.upserted_id, None);
    let result = update_result(u64::MAX, 9223372036854775808, Some("7".to_string()));
    assert_eq!((result.matched_count, result.modified_count), (i64::MAX, i64::MAX));
    assert_eq!(result.upserted_id, Some("7".to_string()));
    let result = update_result(9223372036854775807, 0, None);
    assert_eq!((result.matched_count, result.modified_count), (i64::MAX, 0));
}

#[test]
fn insert_one_needs_a_document() {
    let registry = registry_with_one();
    let job = insert_one(&with_args(CommandType::InsertOne), &registry, |_s: &Vec<u8>| {
        Ok(InsertOneArgs { db_name: "d".to_string(), collection_name: "c".to_string(), doc: json("{\"a\":1}") })
    });
    match job.unwrap().1 {
        DriverCall::InsertOne { db_name, collection_name, doc: inserted } => {
            assert_eq!((db_name.as_str(), collection_name.as_str()), ("d", "c"));
            assert_eq!(inserted, doc("{\"a\":1}"));
        }
        _ => panic!("an insert-one was expected"),
    }
    let job = insert_one(&with_args(CommandType::InsertOne), &registry, |_s: &Vec<u8>| {
        Ok(InsertOneArgs { db_name: "d".to_string(), collection_name: "c".to_string(), doc: json("[1]") })
    });
    assert_eq!(job.err(), Some("doc can not be null".to_string()));
    let job = insert_one(&command(CommandType::InsertOne, Some(0), vec![]), &registry, |_s: &Vec<u8>| {
        Err("unused".to_string())
    });
    assert_eq!(job.err(), Some("Missing arguments for insertOne".to_string()));
}

fn insert_many_args(docs: Vec<&str>) -> InsertManyArgs {
    InsertManyArgs {
        db_name: "d".to_string(),
        collection_name: "c".to_string(),
        docs: docs.into_iter().map(json).collect(),
    }
}

#[test]
fn insert_many_keeps_the_documents_in_order() {
    let registry = registry_with_one();
    let job = insert_many(&with_args(CommandType::InsertMany), &registry, |_s: &Vec<u8>| {
        Ok(insert_many_args(vec!["{\"n\":1}", "{\"n\":2}", "{\"n\":3}"]))
    });
    match job.unwrap().1 {
        DriverCall::InsertMany { docs, .. } => {
            assert_eq!(docs, vec![doc("{\"n\":1}"), doc("{\"n\":2}"), doc("{\"n\":3}")]);
        }
        _ => panic!("an insert-many was expected"),
    }
}

#[test]
fn insert_many_with_no_documents_is_in_order() {
    let registry = registry_with_one();
    let job = insert_many(&with_args(CommandType::InsertMany), &registry, |_s: &Vec<u8>| Ok(insert_many_args(vec![])));
    match job.unwrap().1 {
        DriverCall::InsertMany { docs, .. } => assert!(docs.is_empty()),
        _ => panic!("an insert-many was expected"),
    }
}

#[test]
fn insert_many_refuses_a_value_that_is_no_document() {
    let registry = registry_with_one();
    let job = insert_many(&with_args(CommandType::InsertMany), &registry, |_s: &Vec<u8>| {
        Ok(insert_many_args(vec!["{\"n\":1}", "2"]))
    });
    assert_eq!(job.err(), Some("docs must be documents".to_string()));
    let job = insert_many(&command(CommandType::InsertMany, Some(0), vec![]), &registry, |_s: &Vec<u8>| {
        Err("unused".to_string())
    });
    assert_eq!(job.err(), Some("Missing arguments for insertMany".to_string()));
}

#[test]
fn aggregate_takes_a_pipeline_of_documents() {
    let registry = registry_with_one();
    let job = aggregate(&with_args(CommandType::Aggregate), &registry, |_s: &Vec<u8>| {
        Ok(AggregationArgs {
            db_name: "d".to_string(),
            collection_name: "c".to_string(),
            pipeline: vec![json("{\"$match\":{\"a\":1}}"), json("{\"$limit\":5}")],
        })
    });
    match job.unwrap().1 {
        DriverCall::Aggregate { pipeline, .. } => {
            assert_eq!(pipeline, vec![doc("{\"$match\":{\"a\":1}}"), doc("{\"$limit\":5}")]);
        }
        _ => panic!("an aggregate was expected"),
    }
    let job = aggregate(&with_args(CommandType::Aggregate), &registry, |_s: &Vec<u8>| {
        Ok(AggregationArgs {
            db_name: "d".to_string(),
            collection_name: "c".to_string(),
            pipeline: vec![json("\"$match\"")],
        })
    });
    assert_eq!(job.err(), Some("pipeline stages must be documents".to_string()));
    let job = aggregate(&command(CommandType::Aggregate, Some(0), vec![]), &registry, |_s: &Vec<u8>| {
        Err("unused".to_string())
    });
    assert_eq!(job.err(), Some("Missing arguments for aggregate".to_string()));
}

#[test]
fn count_with_and_without_filter() {
    let registry = registry_with_one();
    let job = count(&with_args(CommandType::Count), &registry, |_s: &Vec<u8>| {
        Ok(CountArgs { db_name: "d".to_string(), collection_name: "c".to_string(), filter: None })
    });
    assert!(matches!(job.unwrap().1, DriverCall::CountDocuments { filter: None, .. }));
    let job = count(&with_args(CommandType::Count), &registry, |_s: &Vec<u8>| {
        Ok(CountArgs { db_name: "d".to_string(), collection_name: "c".to_string(), filter: Some(json("{\"a\":1}")) })
    });
    match job.unwrap().1 {
        DriverCall::CountDocuments { filter, .. } => assert_eq!(filter, Some(doc("{\"a\":1}"))),
        _ => panic!("a count was expected"),
    }
    let job = count(&with_args(CommandType::Count), &registry, |_s: &Vec<u8>| {
        Ok(CountArgs { db_name: "d".to_string(), collection_name: "c".to_string(), filter: Some(json("[]")) })
    });
    assert_eq!(job.err(), Some("filter must be a document".to_string()));
    let job = count(&command(CommandType::Count, Some(0), vec![]), &registry, |_s: &Vec<u8>| Err("unused".to_string()));
    assert_eq!(job.err(), Some("Missing arguments for count".to_string()));
}

#[test]
fn distinct_names_the_field() {
    let registry = registry_with_one();
    let job = mongo_bridge::command::distinct::find(&with_args(CommandType::Distinct), &registry, |_s: &Vec<u8>| {
        Ok(DistinctArgs {
            db_name: "d".to_string(),
            collection_name: "c".to_string(),
            field_name: "city".to_string(),
            filter: Some(json("{\"a\":1}")),
        })
    });
    match job.unwrap().1 {
        DriverCall::Distinct { field_name, filter, .. } => {
            assert_eq!(field_name, "city");
            assert_eq!(filter, Some(doc("{\"a\":1}")));
        }
        _ => panic!("a distinct was expected"),
    }
    let job = mongo_bridge::command::distinct::find(
        &command(CommandType::Distinct, Some(0), vec![]),
        &registry,
        |_s: &Vec<u8>| Err("unused".to_string()),
    );
    assert_eq!(job.err(), Some("Missing arguments for distinct".to_string()));
}

fn model(keys: &str, options: Option<&str>) -> IndexModelArgs {
    IndexModelArgs { keys: json(keys), options: options.map(json) }
}

#[test]
fn index_model_parts() {
    let (keys, options) = model("{\"a\":1}", Some("{\"unique\":true}")).part();
    assert_eq!(keys, json("{\"a\":1}"));
    assert_eq!(options, Some(json("{\"unique\":true}")));
}

#[test]
fn index_model_needs_keys_and_allows_options() {
    let index = index_model(model("{\"a\":1}", None)).unwrap();
    assert_eq!(index.keys, doc("{\"a\":1}"));
    assert_eq!(index.options, None);
    let index = index_model(model("{\"a\":1}", Some("{\"unique\":true}"))).unwrap();
    assert_eq!(index.options, Some(doc("{\"unique\":true}")));
    assert_eq!(index_model(model("1", None)).err(), Some("keys must be a document".to_string()));
    assert_eq!(index_model(model("{\"a\":1}", Some("true"))).err(), Some("options must be a document".to_string()));
    assert_eq!(index_model(model("1", Some("true"))).err(), Some("keys must be a document".to_string()));
}

#[test]
fn index_models_fail_with_the_first_refusal() {
    let models = index_models(vec![model("{\"a\":1}", None), model("{\"b\":-1}", None)]).unwrap();
    assert_eq!(models.len(), 2);
    assert_eq!(models[1].keys, doc("{\"b\":-1}"));
    assert_eq!(index_models(vec![]).unwrap().len(), 0);
    let refused = index_models(vec![model("{\"a\":1}", Some("0")), model("0", None)]);
    assert_eq!(refused.err(), Some("options must be a document".to_string()));
}

#[test]
fn create_indexes_with_one_model() {
    let registry = registry_with_one();
    let job = create_indexes(&with_args(CommandType::CreateIndexes), &registry, |_s: &Vec<u8>| {
        Ok(CreateIndexesArgs {
            db_name: "d".to_string(),
            collection_name: "c".to_string(),
            models: vec![model("{\"a\":1}", Some("{\"name\":\"a_1\"}"))],
        })
    });
    match job.unwrap().1 {
        DriverCall::CreateIndexes { db_name, collection_name, models } => {
            assert_eq!((db_name.as_str(), collection_name.as_str()), ("d", "c"));
            assert_eq!(models.len(), 1);
            assert_eq!(models[0].keys, doc("{\"a\":1}"));
            assert_eq!(models[0].options, Some(doc("{\"name\":\"a_1\"}")));
        }
        _ => panic!("a create-indexes was expected"),
    }
    let job = create_indexes(&with_args(CommandType::CreateIndexes), &registry, |_s: &Vec<u8>| {
        Ok(CreateIndexesArgs {
            db_name: "d".to_string(),
            collection_name: "c".to_string(),
            models: vec![model("\"a\"", None)],
        })
    });
    assert_eq!(job.err(), Some("keys must be a document".to_string()));
    let job = create_indexes(&command(CommandType::CreateIndexes, Some(0), vec![]), &registry, |_s: &Vec<u8>| {
        Err("unused".to_string())
    });
    assert_eq!(job.err(), Some("Missing arguments for createIndex".to_string()));
}

#[test]
fn drop_collection_names_the_collection() {
    let registry = registry_with_one();
    let job = drop_connection(&with_args(CommandType::DropCollection), &registry, |_s: &Vec<u8>| {
        Ok(DropConnectionArgs { db_name: "d".to_string(), collection_name: "c".to_string() })
    });
    match job.unwrap().1 {
        DriverCall::DropCollection { db_name, collection_name } => {
            assert_eq!((db_name.as_str(), collection_name.as_str()), ("d", "c"));
        }
        _ => panic!("a drop was expected"),
    }
    let job = drop_connection(&command(CommandType::DropCollection, Some(0), vec![]), &registry, |_s: &Vec<u8>| {
        Err("unused".to_string())
    });
    assert_eq!(job.err(), Some("Missing arguments for drop connection".to_string()));
}

#[test]
fn list_database_names_needs_only_the_connection() {
    let registry = registry_with_one();
    let job = list_database_names(&command(CommandType::ListDatabases, Some(0), vec![]), &registry);
    let (client, call) = job.unwrap();
    assert_eq!(*client, "conn-0");
    assert!(matches!(call, DriverCall::ListDatabaseNames));
    let job = list_database_names(&command(CommandType::ListDatabases, Some(1), vec![]), &registry);
    assert_eq!(job.err(), Some("Client not found".to_string()));
    let job = list_database_names(&command(CommandType::ListDatabases, None, vec![]), &registry);
    assert_eq!(job.err(), Some("Missing clientId".to_string()));
}

#[test]
fn list_collection_names_reads_the_database_name_from_the_segment() {
    let registry = registry_with_one();
    let cmd = command(CommandType::ListCollectionNames, Some(0), vec!["größe".as_bytes().to_vec()]);
    match list_collection_names(&cmd, &registry).unwrap().1 {
        DriverCall::ListCollectionNames { db_name } => assert_eq!(db_name, "größe"),
        _ => panic!("a list-collection-names was expected"),
    }
}

#[test]
fn list_collection_names_failures() {
    let registry = registry_with_one();
    let cmd = command(CommandType::ListCollectionNames, Some(0), vec![]);
    assert_eq!(list_collection_names(&cmd, &registry).err(), Some("Missing database name".to_string()));
    let cmd = command(CommandType::ListCollectionNames, Some(3), vec![b"db".to_vec()]);
    assert_eq!(list_collection_names(&cmd, &registry).err(), Some("Client not found".to_string()));
    let bytes = vec![b'd', 0xff, b'b'];
    let expected = String::from_utf8(bytes.clone()).unwrap_err().to_string();
    let cmd = command(CommandType::ListCollectionNames, Some(0), vec![bytes]);
    assert_eq!(list_collection_names(&cmd, &registry).err(), Some(expected));
}

#[test]
fn close_removes_the_connection() {
    let mut registry = registry_with_one();
    let closed = close(&command(CommandType::Close, Some(0), vec![]), &mut registry).unwrap();
    assert!(closed.success);
    assert_eq!(registry.lookup(0), None);
}

#[test]
fn close_of_an_unknown_handle_still_succeeds() {
    let mut registry = registry_with_one();
    let closed = close(&command(CommandType::Close, Some(8), vec![]), &mut registry).unwrap();
    assert!(closed.success);
    assert_eq!(registry.lookup(0), Some(&"conn-0"));
}

#[test]
fn close_without_client_id_fails_and_changes_nothing() {
    let mut registry = registry_with_one();
    let closed = close(&command(CommandType::Close, None, vec![]), &mut registry);
    assert_eq!(closed.err(), Some("Missing clientId".to_string()));
    assert_eq!(registry.lookup(0), Some(&"conn-0"));
}

fn stream() -> Vec<Result<i32, String>> {
    vec![Ok(1), Err("first".to_string()), Ok(2), Err("second".to_string()), Ok(3)]
}

#[test]
fn collect_skipping_failures_keeps_the_rest_in_order() {
    assert_eq!(collect(stream(), StreamPolicy::SkipFailed), Ok(vec![1, 2, 3]));
    assert_eq!(collect(vec![Err::<i32, String>("e".to_string())], StreamPolicy::SkipFailed), Ok(vec![]));
}

#[test]
fn collect_failing_fast_reports_the_first_failure() {
    assert_eq!(collect(stream(), StreamPolicy::FailFast), Err("first".to_string()));
    assert_eq!(collect(vec![Ok::<i32, String>(1), Ok(2)], StreamPolicy::FailFast), Ok(vec![1, 2]));
}

#[test]
fn collect_of_an_empty_stream_is_empty() {
    assert_eq!(collect(Vec::<Result<i32, String>>::new(), StreamPolicy::SkipFailed), Ok(vec![]));
    assert_eq!(collect(Vec::<Result<i32, String>>::new(), StreamPolicy::FailFast), Ok(vec![]));
}

fn any_arguments(command_type: CommandType, _segment: &Vec<u8>) -> Result<Arguments, String> {
    let db_name = "d".to_string();
    let collection_name = "c".to_string();
    match command_type {
        CommandType::Find => Ok(Arguments::Find(find_args(None, false))),
        CommandType::FindOne => Ok(Arguments::FindOne(FindOneArgs { db_name, collection_name, filter: None })),
        CommandType::InsertOne => Ok(Arguments::InsertOne(InsertOneArgs { db_name, collection_name, doc: json("{}") })),
        CommandType::InsertMany => Ok(Arguments::InsertMany(insert_many_args(vec!["{}"]))),
        CommandType::Delete => Ok(Arguments::Delete(delete_args("{}", false))),
        CommandType::Update => Ok(Arguments::Update(update_args("{}", "{}", true))),
        CommandType::Aggregate => Ok(Arguments::Aggregate(AggregationArgs { db_name, collection_name, pipeline: vec![] })),
        CommandType::Count => Ok(Arguments::Count(CountArgs { db_name, collection_name, filter: None })),
        CommandType::Distinct => Ok(Arguments::Distinct(DistinctArgs {
            db_name,
            collection_name,
            field_name: "f".to_string(),
            filter: None,
        })),
        CommandType::CreateIndexes => Ok(Arguments::CreateIndexes(CreateIndexesArgs { db_name, collection_name, models: vec![] })),
        CommandType::DropCollection => Ok(Arguments::DropCollection(DropConnectionArgs { db_name, collection_name })),
        _ => Err("no arguments".to_string()),
    }
}

#[test]
fn the_table_sends_each_command_to_its_handler() {
    let registry = registry_with_one();
    let expectations: Vec<(CommandType, fn(&DriverCall) -> bool)> = vec![
        (CommandType::ListDatabases, |c| matches!(c, DriverCall::ListDatabaseNames)),
        (CommandType::ListCollectionNames, |c| matches!(c, DriverCall::ListCollectionNames { .. })),
        (CommandType::Find, |c| matches!(c, DriverCall::Find { .. })),
        (CommandType::FindOne, |c| matches!(c, DriverCall::FindOne { .. })),
        (CommandType::InsertOne, |c| matches!(c, DriverCall::InsertOne { .. })),
        (CommandType::InsertMany, |c| matches!(c, DriverCall::InsertMany { .. })),
        (CommandType::Delete, |c| matches!(c, DriverCall::DeleteMany { .. })),
        (CommandType::Update, |c| matches!(c, DriverCall::UpdateOne { .. })),
        (CommandType::Aggregate, |c| matches!(c, DriverCall::Aggregate { .. })),
        (CommandType::Count, |c| matches!(c, DriverCall::CountDocuments { .. })),
        (CommandType::Distinct, |c| matches!(c, DriverCall::Distinct { .. })),
        (CommandType::CreateIndexes, |c| matches!(c, DriverCall::CreateIndexes { .. })),
        (CommandType::DropCollection, |c| matches!(c, DriverCall::DropCollection { .. })),
    ];
    for (command_type, expected) in expectations {
        let (client, call) = plan(&with_args(command_type), &registry, any_arguments).unwrap();
        assert_eq!(*client, "conn-0");
        assert!(expected(&call));
    }
}

#[test]
fn the_table_names_the_operation_when_arguments_are_missing() {
    let registry = registry_with_one();
    let messages = vec![
        (CommandType::ListCollectionNames, "Missing database name"),
        (CommandType::Find, "Arguments missing for find"),
        (CommandType::FindOne, "Missing arguments for findOne"),
        (CommandType::InsertOne, "Missing arguments for insertOne"),
        (CommandType::InsertMany, "Missing arguments for insertMany"),
        (CommandType::Delete, "Missing arguments for delete"),
        (CommandType::Update, "Missing arguments for update"),
        (CommandType::Aggregate, "Missing arguments for aggregate"),
        (CommandType::Count, "Missing arguments for count"),
        (CommandType::Distinct, "Missing arguments for distinct"),
        (CommandType::CreateIndexes, "Missing arguments for createIndex"),
        (CommandType::DropCollection, "Missing arguments for drop connection"),
    ];
    for (command_type, message) in messages {
        let job = plan(&command(command_type, Some(0), vec![]), &registry, any_arguments);
        assert_eq!(job.err(), Some(message.to_string()));
    }
}

#[test]
fn the_table_refuses_arguments_of_another_command() {
    let registry = registry_with_one();
    let job = plan(&with_args(CommandType::Delete), &registry, |_t: CommandType, _s: &Vec<u8>| {
        Ok(Arguments::Find(find_args(None, false)))
    });
    assert_eq!(job.err(), Some("Arguments of another command".to_string()));
}

#[test]
fn the_table_passes_decoding_errors_and_lookup_errors_on() {
    let registry = registry_with_one();
    let job = plan(&with_args(CommandType::Count), &registry, |_t: CommandType, _s: &Vec<u8>| {
        Err("invalid type: string".to_string())
    });
    assert_eq!(job.err(), Some("invalid type: string".to_string()));
    let job = plan(&command(CommandType::Count, Some(3), vec![b"{}".to_vec()]), &registry, any_arguments);
    assert_eq!(job.err(), Some("Client not found".to_string()));
}

#[test]
fn the_table_has_no_driver_call_for_immediate_commands() {
    let registry = registry_with_one();
    for command_type in [CommandType::ConnectWithOptions, CommandType::ConnectWithUri, CommandType::Close] {
        let job = plan(&with_args(command_type), &registry, any_arguments);
        assert_eq!(job.err(), Some("Not a deferred command".to_string()));
    }
}
