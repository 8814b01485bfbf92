use arroyo_planner::error::{Operation, PlanError, TableError};
use arroyo_planner::graph::{
    ArroyoSchema, ArroyoSchemaRef, LogicalEdge, LogicalEdgeType, OperatorName,
};
use arroyo_planner::plan::{LogicalPlan, Relation};
use arroyo_planner::schema::{DataType, Field, Schema, SchemaRef};
use arroyo_planner::sink::SinkExtension;
use arroyo_planner::table::{ConnectorOp, ConnectorTable, Table};
use arroyo_planner::table_reference::TableReference;
use arroyo_planner::text::decimal;
use std::sync::Arc;

fn columns(names: &[&str]) -> SchemaRef {
    let fields = names
        .iter()
        .map(|name| Field::new(name, DataType::Utf8, true))
        .collect::<Vec<_>>();
    Arc::new(Schema::try_new(fields).unwrap())
}

fn sink_to(name: TableReference, table: Table) -> SinkExtension {
    let input = Arc::new(LogicalPlan::Relation(Relation {
        operator: "Projection".to_string(),
        schema: columns(&["id", "total", "_timestamp"]),
        inputs: vec![],
    }));
    SinkExtension::new(name, table, columns(&["id", "total"]), input).unwrap()
}

fn orders() -> SinkExtension {
    sink_to(
        TableReference::bare("orders"),
        Table::ConnectorTable(ConnectorTable::new(
            "orders",
            ConnectorOp::new("kafka", "{}", "KafkaSink<orders>"),
            false,
        )),
    )
}

fn physical(names: &[&str], keys: Vec<usize>) -> ArroyoSchemaRef {
    Arc::new(ArroyoSchema::from_schema_keys(columns(names), keys))
}

#[test]
fn lowering_gives_one_node_and_one_forward_edge() {
    let input_schema = physical(&["id", "total", "_timestamp"], vec![0]);
    let fragment = orders().plan_node(3, vec![input_schema.clone()]).unwrap();
    assert_eq!(fragment.node.operator_id, "sink_orders_3");
    assert!(fragment.node.operator_id.contains("orders"));
    assert!(fragment.node.operator_id.contains('3'));
    assert_eq!(fragment.node.description, "KafkaSink<orders>");
    assert_eq!(fragment.node.operator_name, OperatorName::ConnectorSink);
    assert_eq!(fragment.node.parallelism, 1);
    assert_eq!(fragment.edges.len(), 1);
    assert_eq!(fragment.edges[0].edge_type, LogicalEdgeType::Forward);
    assert_eq!(fragment.edges[0].projection, None);
    assert_eq!(fragment.edges[0].schema, *input_schema);
}

#[test]
fn lowering_encodes_the_connector_configuration() {
    let fragment = orders().plan_node(0, vec![physical(&["id"], vec![])]).unwrap();
    let mut expected = vec![0x0a, 5];
    expected.extend_from_slice(b"kafka");
    expected.extend_from_slice(&[0x12, 2]);
    expected.extend_from_slice(b"{}");
    expected.extend_from_slice(&[0x1a, 17]);
    expected.extend_from_slice(b"KafkaSink<orders>");
    assert_eq!(fragment.node.operator_config, expected);
}

#[test]
fn lowering_refuses_no_input_schema() {
    let lowered = orders().plan_node(3, vec![]);
    let error = lowered.unwrap_err();
    assert_eq!(error, PlanError::ArityViolation { operation: Operation::Lower, found: 0 });
    assert_eq!(error.message(), "sink should have exactly one input");
}

#[test]
fn lowering_refuses_several_input_schemas() {
    let one = physical(&["id"], vec![]);
    let lowered = orders().plan_node(3, vec![one.clone(), one.clone()]);
    assert_eq!(
        lowered.unwrap_err(),
        PlanError::ArityViolation { operation: Operation::Lower, found: 2 }
    );
    let lowered = orders().plan_node(3, vec![one.clone(), one.clone(), one]);
    assert_eq!(
        lowered.unwrap_err(),
        PlanError::ArityViolation { operation: Operation::Lower, found: 3 }
    );
}

#[test]
fn lowering_counts_inputs_before_it_asks_the_destination() {
    let sink = sink_to(
        TableReference::bare("report"),
        Table::TableFromQuery { name: "report".to_string() },
    );
    assert_eq!(
        sink.plan_node(0, vec![]).unwrap_err(),
        PlanError::ArityViolation { operation: Operation::Lower, found: 0 }
    );
}

#[test]
fn lowering_fails_where_the_destination_has_no_connector() {
    let sink = sink_to(
        TableReference::bare("report"),
        Table::TableFromQuery { name: "report".to_string() },
    );
    let error = sink.plan_node(0, vec![physical(&["id"], vec![])]).unwrap_err();
    assert_eq!(error, PlanError::ConnectorOp(TableError::TableFromQuery));
    assert_eq!(
        error.message(),
        "connector op\ncaused by\ncan't write to a table defined by a query"
    );
}

#[test]
fn lowering_a_preview_sink_uses_the_preview_connector() {
    let sink = sink_to(TableReference::bare("preview"), Table::PreviewSink);
    let fragment = sink.plan_node(12, vec![physical(&["id"], vec![])]).unwrap();
    assert_eq!(fragment.node.operator_id, "sink_preview_12");
    assert_eq!(fragment.node.description, "PreviewSink");
    assert_eq!(fragment.node.operator_config, ConnectorOp::preview().encode_to_vec());
    assert_eq!(fragment.node.parallelism, 1);
}

#[test]
fn operator_id_holds_the_qualified_name() {
    let table = Table::PreviewSink;
    let sink = sink_to(TableReference::full("prod", "public", "orders"), table.clone());
    let fragment = sink.plan_node(40, vec![physical(&["id"], vec![])]).unwrap();
    assert_eq!(fragment.node.operator_id, "sink_prod.public.orders_40");
    let sink = sink_to(TableReference::partial("public", "orders"), table);
    let fragment = sink.plan_node(usize::MAX, vec![physical(&["id"], vec![])]).unwrap();
    assert_eq!(fragment.node.operator_id, format!("sink_public.orders_{}", usize::MAX));
}

#[test]
fn sink_node_takes_the_encoded_configuration_as_given() {
    let node = orders().sink_node(7, "described".to_string(), vec![1, 2, 3]);
    assert_eq!(node.operator_id, "sink_orders_7");
    assert_eq!(node.description, "described");
    assert_eq!(node.operator_name, OperatorName::ConnectorSink);
    assert_eq!(node.parallelism, 1);
    assert_eq!(node.operator_config, vec![1, 2, 3]);
}

#[test]
fn output_schema_has_the_inputs_columns_and_no_keys() {
    let sink = orders();
    let output = sink.output_schema();
    assert_eq!(output.schema, columns(&["id", "total", "_timestamp"]));
    assert_eq!(output.key_indices, Vec::<usize>::new());
}

#[test]
fn project_all_keeps_every_column() {
    let schema = ArroyoSchema::from_schema_keys(columns(&["a", "b"]), vec![1]);
    let edge = LogicalEdge::project_all(LogicalEdgeType::Shuffle, schema.clone());
    assert_eq!(edge.edge_type, LogicalEdgeType::Shuffle);
    assert_eq!(edge.schema, schema);
    assert_eq!(edge.projection, None);
}

#[test]
fn decimal_writes_numbers_as_text() {
    assert_eq!(decimal(0), "0");
    assert_eq!(decimal(3), "3");
    assert_eq!(decimal(9), "9");
    assert_eq!(decimal(10), "10");
    assert_eq!(decimal(105), "105");
    assert_eq!(decimal(1234567890), "1234567890");
    assert_eq!(decimal(usize::MAX), usize::MAX.to_string());
}

#[test]
fn lowering_a_sink_put_together_over_a_memory_table_fails() {
    let built = orders();
    let sink = SinkExtension {
        name: TableReference::bare("cache"),
        table: Table::MemoryTable { name: "cache".to_string() },
        schema: built.schema.clone(),
        input: built.input.clone(),
    };
    let error = sink.plan_node(0, vec![physical(&["id"], vec![])]).unwrap_err();
    assert_eq!(error, PlanError::ConnectorOp(TableError::MemoryTable));
    assert_eq!(error.message(), "connector op\ncaused by\ncan't write to a memory table");
}
