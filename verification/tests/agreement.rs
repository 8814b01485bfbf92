use arroyo_planner::plan::{LogicalPlan, Relation};
use arroyo_planner::schema::{DataType, Field, Schema};
use arroyo_planner::sink::SinkExtension;
use arroyo_planner::table::Table;
use arroyo_planner::table_reference::TableReference;
use datafusion::arrow::datatypes::{DataType as ArrowType, Field as ArrowField};
use datafusion::common::{DFSchema, TableReference as Reference};
use std::collections::HashMap;
use std::sync::Arc;

fn both(parts: &[&str]) -> (TableReference, Reference) {
    match parts {
        [table] => (TableReference::bare(table), Reference::bare(*table)),
        [schema, table] => {
            (TableReference::partial(schema, table), Reference::partial(*schema, *table))
        }
        [catalog, schema, table] => (
            TableReference::full(catalog, schema, table),
            Reference::full(*catalog, *schema, *table),
        ),
        _ => panic!("a reference has one to three parts"),
    }
}

fn samples() -> Vec<Vec<&'static str>> {
    let words = ["", "a", "ab", "b", "Orders", "orders", "\u{e9}t\u{e9}", "a.b", "q\"\\\n\t'"];
    let mut all = Vec::new();
    for table in words {
        all.push(vec![table]);
        for schema in ["a", "b", "public"] {
            all.push(vec![schema, table]);
            for catalog in ["a", "prod"] {
                all.push(vec![catalog, schema, table]);
            }
        }
    }
    all
}

#[test]
fn references_are_written_as_datafusion_writes_them() {
    for parts in samples() {
        let (ours, theirs) = both(&parts);
        assert_eq!(ours.to_string(), theirs.to_string());
        assert_eq!(ours.table(), theirs.table());
    }
}

#[test]
fn references_are_written_for_debugging_as_datafusion_writes_them() {
    for parts in samples() {
        let (ours, theirs) = both(&parts);
        assert_eq!(ours.to_debug_string(), format!("{:?}", theirs));
    }
    let odd = "\u{0}\u{7f}\u{301}\u{1f600}\u{feff}\r";
    let (ours, theirs) = both(&[odd, "\u{e9}", "it's"]);
    assert_eq!(ours.to_debug_string(), format!("{:?}", theirs));
}

#[test]
fn references_are_ordered_as_datafusion_orders_them() {
    for left in samples() {
        for right in samples() {
            let (a, x) = both(&left);
            let (b, y) = both(&right);
            assert_eq!(a.partial_cmp(&b), x.partial_cmp(&y), "{:?} {:?}", left, right);
            assert_eq!(a == b, x == y, "{:?} {:?}", left, right);
            assert_eq!(a.precedes(&b), x < y, "{:?} {:?}", left, right);
        }
    }
}

fn both_schemas(columns: &[(Option<&str>, &str)]) -> (Option<Schema>, Option<DFSchema>) {
    let ours = columns
        .iter()
        .map(|(qualifier, name)| match qualifier {
            Some(table) => {
                Field::qualified(TableReference::bare(table), name, DataType::Int64, true)
            }
            None => Field::new(name, DataType::Int64, true),
        })
        .collect::<Vec<_>>();
    let theirs = columns
        .iter()
        .map(|(qualifier, name)| {
            (
                qualifier.map(Reference::bare),
                Arc::new(ArrowField::new(*name, ArrowType::Int64, true)),
            )
        })
        .collect::<Vec<_>>();
    (Schema::try_new(ours), DFSchema::new_with_metadata(theirs, HashMap::new()).ok())
}

#[test]
fn columns_are_found_as_datafusion_finds_them() {
    let schemas: [&[(Option<&str>, &str)]; 5] = [
        &[],
        &[(None, "id"), (None, "_timestamp")],
        &[(None, "id"), (None, "_updating_meta"), (None, "_timestamp")],
        &[(Some("l"), "id"), (Some("r"), "id"), (Some("r"), "_updating_meta")],
        &[(Some("t"), "_timestamp"), (None, "total")],
    ];
    for columns in schemas {
        let (ours, theirs) = both_schemas(columns);
        let (ours, theirs) = (ours.unwrap(), theirs.unwrap());
        for name in ["id", "ID", "_timestamp", "_updating_meta", "total", "l.id", "", "i"] {
            assert_eq!(
                ours.has_column_with_unqualified_name(name),
                theirs.has_column_with_unqualified_name(name),
                "{:?} {:?}",
                columns,
                name
            );
        }
        assert_eq!(ours.len(), theirs.fields().len());
        for (index, (qualifier, field)) in theirs.iter().enumerate() {
            let column = ours.field(index).unwrap();
            assert_eq!(&column.name, field.name());
            assert_eq!(column.qualifier.as_ref().map(|table| table.to_string()), qualifier.map(|table| table.to_string()));
        }
    }
}

#[test]
fn every_schema_of_datafusion_has_a_model() {
    let schemas: [&[(Option<&str>, &str)]; 6] = [
        &[(None, "id"), (None, "id")],
        &[(Some("l"), "id"), (Some("l"), "id")],
        &[(Some("l"), "id"), (None, "id")],
        &[(Some("l"), "id"), (Some("r"), "id")],
        &[(None, "a"), (None, "b"), (None, "a")],
        &[(None, "a"), (None, "b"), (None, "c")],
    ];
    for columns in schemas {
        let (ours, theirs) = both_schemas(columns);
        if theirs.is_some() {
            assert!(ours.is_some(), "{:?}", columns);
        }
    }
    let (ours, theirs) = both_schemas(schemas[0]);
    assert!(ours.is_none() && theirs.is_none());
    let (ours, theirs) = both_schemas(schemas[1]);
    assert!(ours.is_none() && theirs.is_none());
    let (ours, theirs) = both_schemas(schemas[3]);
    assert!(ours.is_some() && theirs.is_some());
}

#[test]
fn schemas_are_written_as_datafusion_writes_them() {
    let schemas: [&[(Option<&str>, &str)]; 5] = [
        &[],
        &[(None, "id")],
        &[(None, "id"), (None, "_updating_meta"), (None, "_timestamp")],
        &[(Some("l"), "id"), (Some("r"), "id"), (Some("r"), "total")],
        &[(Some("t"), "_timestamp"), (None, "total")],
    ];
    for columns in schemas {
        let (ours, theirs) = both_schemas(columns);
        assert_eq!(ours.unwrap().to_string(), theirs.unwrap().to_string());
    }
}

#[test]
fn explain_label_is_the_name_for_debugging_and_the_schema_as_text() {
    let columns: &[(Option<&str>, &str)] = &[(Some("o"), "id"), (None, "total")];
    for parts in samples() {
        let (name, reference) = both(&parts);
        let (ours, theirs) = both_schemas(columns);
        let schema = Arc::new(ours.unwrap());
        let input = Arc::new(LogicalPlan::Relation(Relation {
            operator: "Projection".to_string(),
            schema: schema.clone(),
            inputs: vec![],
        }));
        let sink = SinkExtension::new(name, Table::PreviewSink, schema, input).unwrap();
        let expected = format!("SinkExtension({:?}): {}", reference, theirs.unwrap());
        assert_eq!(sink.fmt_for_explain(), expected);
    }
}
