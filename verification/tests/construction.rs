use arroyo_planner::error::PlanError;
use arroyo_planner::plan::{
    Extension, LogicalPlan, OtherExtension, Relation, RemoteTableExtension, ToDebeziumExtension,
};
use arroyo_planner::schema::{DataType, Field, Schema, SchemaRef};
use arroyo_planner::sink::SinkExtension;
use arroyo_planner::table::{ConnectorOp, ConnectorTable, Table};
use arroyo_planner::table_reference::TableReference;
use std::sync::Arc;

fn schema_of(names: &[&str]) -> SchemaRef {
    let fields = names
        .iter()
        .map(|name| Field::new(name, DataType::Int64, false))
        .collect::<Vec<_>>();
    Arc::new(Schema::try_new(fields).unwrap())
}

fn scan(names: &[&str]) -> Arc<LogicalPlan> {
    Arc::new(LogicalPlan::Relation(Relation {
        operator: "TableScan".to_string(),
        schema: schema_of(names),
        inputs: vec![],
    }))
}

fn extension(names: &[&str], transparent: bool) -> Arc<LogicalPlan> {
    Arc::new(LogicalPlan::Extension(Extension::Other(OtherExtension {
        kind: "KeyCalculation".to_string(),
        schema: schema_of(names),
        inputs: vec![scan(names)],
        transparent,
    })))
}

fn connector(updating: bool) -> Table {
    Table::ConnectorTable(ConnectorTable::new(
        "orders",
        ConnectorOp::new("kafka", "{\"topic\":\"orders\"}", "KafkaSink<orders>"),
        updating,
    ))
}

fn envelope() -> SchemaRef {
    Arc::new(
        Schema::try_new(vec![
            Field::new("before", DataType::Struct, true),
            Field::new("after", DataType::Struct, true),
            Field::new("op", DataType::Utf8, true),
            Field::new("_timestamp", DataType::Int64, false),
        ])
        .unwrap(),
    )
}

#[test]
fn plain_connector_wraps_transparent_input_and_keeps_schema() {
    let input = extension(&["id", "_timestamp"], true);
    let schema = schema_of(&["id", "_timestamp"]);
    let sink = SinkExtension::new(
        TableReference::bare("orders"),
        connector(false),
        schema.clone(),
        input.clone(),
    )
    .unwrap();
    assert_eq!(sink.schema, schema);
    let expected = LogicalPlan::Extension(Extension::RemoteTable(RemoteTableExtension {
        input,
        name: TableReference::bare("sink projection"),
        schema,
        materialize: false,
    }));
    assert_eq!(*sink.input, expected);
}

#[test]
fn plain_connector_leaves_relational_input_as_it_is() {
    let input = scan(&["id", "_timestamp"]);
    let schema = schema_of(&["id"]);
    let sink = SinkExtension::new(
        TableReference::bare("orders"),
        connector(false),
        schema.clone(),
        input.clone(),
    )
    .unwrap();
    assert_eq!(sink.input, input);
    assert!(Arc::ptr_eq(&sink.input, &input));
    assert_eq!(sink.schema, schema);
    assert_eq!(sink.name, TableReference::bare("orders"));
    assert_eq!(sink.table, connector(false));
}

#[test]
fn plain_connector_leaves_materialized_extension_as_it_is() {
    let input = extension(&["id"], false);
    let sink = SinkExtension::new(
        TableReference::bare("orders"),
        connector(false),
        schema_of(&["id"]),
        input.clone(),
    )
    .unwrap();
    assert_eq!(sink.input, input);
}

#[test]
fn updating_connector_wraps_plain_input_in_encoder() {
    let input = scan(&["id", "_timestamp"]);
    let sink = SinkExtension::new(
        TableReference::bare("orders"),
        connector(true),
        schema_of(&["id", "_timestamp"]),
        input.clone(),
    )
    .unwrap();
    match &*sink.input {
        LogicalPlan::Extension(Extension::ToDebezium(encoder)) => {
            assert_eq!(encoder.input, input);
            assert!(Arc::ptr_eq(&encoder.input, &input));
            assert_eq!(encoder.schema, envelope());
            assert_eq!(sink.schema, encoder.schema);
        }
        other => panic!("the input is no encoder: {:?}", other),
    }
    assert_eq!(sink.schema, envelope());
}

#[test]
fn updating_connector_wraps_changelog_input_again() {
    let input = scan(&["id", "_updating_meta", "_timestamp"]);
    let sink = SinkExtension::new(
        TableReference::bare("orders"),
        connector(true),
        schema_of(&["id"]),
        input.clone(),
    )
    .unwrap();
    match &*sink.input {
        LogicalPlan::Extension(Extension::ToDebezium(encoder)) => {
            assert_eq!(encoder.input, input)
        }
        other => panic!("the input is no encoder: {:?}", other),
    }
}

#[test]
fn updating_connector_encodes_an_encoder_once_more() {
    let inner = ToDebeziumExtension::try_new(scan(&["id", "_timestamp"])).unwrap();
    let input = Arc::new(LogicalPlan::Extension(Extension::ToDebezium(inner)));
    let sink = SinkExtension::new(
        TableReference::bare("orders"),
        connector(true),
        schema_of(&["id"]),
        input.clone(),
    )
    .unwrap();
    match &*sink.input {
        LogicalPlan::Extension(Extension::ToDebezium(encoder)) => {
            assert_eq!(encoder.input, input)
        }
        other => panic!("the input is no encoder: {:?}", other),
    }
}

#[test]
fn updating_connector_hands_on_the_encoders_refusal() {
    let made = SinkExtension::new(
        TableReference::bare("orders"),
        connector(true),
        schema_of(&["id"]),
        scan(&["id"]),
    );
    assert_eq!(made.unwrap_err(), PlanError::MissingTimestamp);
}

#[test]
fn changelog_input_to_plain_connector_is_refused() {
    let made = SinkExtension::new(
        TableReference::bare("orders"),
        connector(false),
        schema_of(&["id"]),
        scan(&["id", "_updating_meta", "_timestamp"]),
    );
    let error = made.unwrap_err();
    assert_eq!(error, PlanError::IncompatibleChangelogMode);
    assert_eq!(error.message(), "input is updating, but sink is not updating");
}

#[test]
fn memory_table_is_always_refused() {
    for names in [&["id"][..], &["id", "_updating_meta", "_timestamp"][..]] {
        for input in [scan(names), extension(names, true), extension(names, false)] {
            let made = SinkExtension::new(
                TableReference::bare("cache"),
                Table::MemoryTable { name: "cache".to_string() },
                schema_of(names),
                input,
            );
            let error = made.unwrap_err();
            assert_eq!(error, PlanError::UnsupportedDestination);
            assert_eq!(error.message(), "memory tables not supported");
        }
    }
}

#[test]
fn table_from_query_takes_any_input_unchanged() {
    for names in [&["id"][..], &["id", "_updating_meta"][..]] {
        let input = scan(names);
        let sink = SinkExtension::new(
            TableReference::partial("public", "report"),
            Table::TableFromQuery { name: "report".to_string() },
            schema_of(&["id"]),
            input.clone(),
        )
        .unwrap();
        assert_eq!(sink.input, input);
        assert_eq!(sink.schema, schema_of(&["id"]));
    }
}

#[test]
fn preview_sink_encodes_changelog_input_only() {
    let plain = scan(&["id", "_timestamp"]);
    let sink = SinkExtension::new(
        TableReference::bare("preview"),
        Table::PreviewSink,
        schema_of(&["id"]),
        plain.clone(),
    )
    .unwrap();
    assert_eq!(sink.input, plain);
    assert_eq!(sink.schema, schema_of(&["id"]));

    let changelog = scan(&["id", "_updating_meta", "_timestamp"]);
    let sink = SinkExtension::new(
        TableReference::bare("preview"),
        Table::PreviewSink,
        schema_of(&["id"]),
        changelog.clone(),
    )
    .unwrap();
    match &*sink.input {
        LogicalPlan::Extension(Extension::ToDebezium(encoder)) => {
            assert_eq!(encoder.input, changelog)
        }
        other => panic!("the input is no encoder: {:?}", other),
    }
    assert_eq!(sink.schema, envelope());
}

#[test]
fn preview_sink_hands_on_the_encoders_refusal() {
    let made = SinkExtension::new(
        TableReference::bare("preview"),
        Table::PreviewSink,
        schema_of(&["id"]),
        scan(&["id", "_updating_meta"]),
    );
    let error = made.unwrap_err();
    assert_eq!(error, PlanError::MissingTimestamp);
    assert_eq!(error.message(), "no timestamp field found in schema");
}

#[test]
fn constructed_input_is_never_a_transparent_extension() {
    let tables = [
        connector(false),
        connector(true),
        Table::TableFromQuery { name: "report".to_string() },
        Table::PreviewSink,
    ];
    for table in tables {
        for names in [&["id", "_timestamp"][..], &["id", "_updating_meta", "_timestamp"][..]] {
            for input in [scan(names), extension(names, true), extension(names, false)] {
                let made = SinkExtension::new(
                    TableReference::bare("orders"),
                    table.clone(),
                    schema_of(names),
                    input,
                );
                if let Ok(sink) = made {
                    assert_eq!(sink.inputs().len(), 1);
                    assert!(!sink.input.is_transparent_extension());
                }
            }
        }
    }
}

#[test]
fn changelog_requirement_follows_the_destination() {
    let decide = SinkExtension::changelog_requirement;
    assert_eq!(decide(&connector(true), false), Ok(true));
    assert_eq!(decide(&connector(true), true), Ok(true));
    assert_eq!(decide(&connector(false), false), Ok(false));
    assert_eq!(decide(&connector(false), true), Err(PlanError::IncompatibleChangelogMode));
    let memory = Table::MemoryTable { name: "cache".to_string() };
    assert_eq!(decide(&memory, false), Err(PlanError::UnsupportedDestination));
    assert_eq!(decide(&memory, true), Err(PlanError::UnsupportedDestination));
    let query = Table::TableFromQuery { name: "report".to_string() };
    assert_eq!(decide(&query, false), Ok(false));
    assert_eq!(decide(&query, true), Ok(false));
    assert_eq!(decide(&Table::PreviewSink, false), Ok(false));
    assert_eq!(decide(&Table::PreviewSink, true), Ok(true));
}

#[test]
fn add_remote_wraps_once() {
    let schema = schema_of(&["id"]);
    let given = extension(&["id"], true);
    let mut input = given.clone();
    SinkExtension::add_remote_if_necessary(&schema, &mut input);
    let wrapped = input.clone();
    match &*wrapped {
        LogicalPlan::Extension(Extension::RemoteTable(wrapper)) => {
            assert_eq!(wrapper.input, given);
            assert!(Arc::ptr_eq(&wrapper.input, &given));
            assert_eq!(wrapper.name, TableReference::bare("sink projection"));
            assert_eq!(wrapper.schema, schema);
            assert!(!wrapper.materialize);
        }
        other => panic!("the input is no wrapper: {:?}", other),
    }
    SinkExtension::add_remote_if_necessary(&schema, &mut input);
    assert_eq!(input, wrapped);
}

#[test]
fn add_remote_leaves_other_plans_alone() {
    let schema = schema_of(&["id"]);
    for given in [scan(&["id"]), extension(&["id"], false)] {
        let mut input = given.clone();
        SinkExtension::add_remote_if_necessary(&schema, &mut input);
        assert_eq!(input, given);
    }
}

#[test]
fn encoder_keeps_the_event_time_column_as_it_is() {
    let fields = vec![
        Field::new("id", DataType::Int64, false),
        Field::new("_timestamp", DataType::Timestamp, true),
        Field::new("_updating_meta", DataType::Struct, false),
    ];
    let input = Arc::new(LogicalPlan::Relation(Relation {
        operator: "Projection".to_string(),
        schema: Arc::new(Schema::try_new(fields).unwrap()),
        inputs: vec![],
    }));
    let encoder = ToDebeziumExtension::try_new(input).unwrap();
    assert_eq!(encoder.schema.len(), 4);
    assert_eq!(*encoder.schema.field(0).unwrap(), Field::new("before", DataType::Struct, true));
    assert_eq!(*encoder.schema.field(1).unwrap(), Field::new("after", DataType::Struct, true));
    assert_eq!(*encoder.schema.field(2).unwrap(), Field::new("op", DataType::Utf8, true));
    assert_eq!(*encoder.schema.field(3).unwrap(), Field::new("_timestamp", DataType::Timestamp, true));
    let node = Extension::ToDebezium(encoder);
    assert!(!node.transparent());
}

#[test]
fn encoder_takes_the_first_event_time_column() {
    let fields = vec![
        Field::qualified(TableReference::bare("l"), "_timestamp", DataType::Timestamp, false),
        Field::qualified(TableReference::bare("r"), "_timestamp", DataType::Int64, true),
    ];
    let input = Arc::new(LogicalPlan::Relation(Relation {
        operator: "Join".to_string(),
        schema: Arc::new(Schema::try_new(fields.clone()).unwrap()),
        inputs: vec![],
    }));
    let encoder = ToDebeziumExtension::try_new(input).unwrap();
    assert_eq!(encoder.schema.len(), 4);
    assert_eq!(*encoder.schema.field(3).unwrap(), fields[0]);
}

#[test]
fn a_copy_of_a_sink_is_the_same_sink() {
    let sink = SinkExtension::new(
        TableReference::bare("orders"),
        connector(false),
        schema_of(&["id"]),
        scan(&["id"]),
    )
    .unwrap();
    let copy = sink.clone();
    assert_eq!(copy, sink);
    assert_eq!(copy.table, sink.table);
    assert_eq!(copy.schema, sink.schema);
    assert!(Arc::ptr_eq(&copy.input, &sink.input));
}
