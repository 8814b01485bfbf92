//! Logical plans: trees of relational operators and engine-defined extension
//! nodes.
//!
//! A plan is immutable.  Its subtrees are shared by handle, so a rewrite that
//! replaces a child builds a new parent and copies nothing below it.

use crate::error::PlanError;
use crate::schema::{
    distinct_names, field_views, has_column, DataType, Field, FieldView, Schema, SchemaRef,
    TIMESTAMP_FIELD,
};
use crate::share::share;
use crate::table_reference::{TableReference, TableReferenceView};
use std::sync::Arc;
use vstd::prelude::*;

verus! {

/// A scalar expression of a plan node, kept as the text it was written in.
#[derive(Debug, PartialEq, Eq)]
pub struct Expr {
    pub sql: String,
}

/// A name under which a node of the plan can be found again from elsewhere
/// in the plan.
#[derive(Debug, PartialEq, Eq)]
pub enum NamedNode {
    Source(TableReference),
    Watermark(TableReference),
    RemoteTable(TableReference),
    Sink(TableReference),
}

/// An ordinary relational operator.
#[derive(Debug)]
pub struct Relation {
    /// The operator's kind, such as `Projection` or `TableScan`.
    pub operator: String,
    /// The columns that the operator gives.
    pub schema: SchemaRef,
    /// The plans that the operator reads.
    pub inputs: Vec<Arc<LogicalPlan>>,
}

/// The changelog encoder: it gives its input's records again as envelopes
/// that say whether a record was inserted, updated or deleted.
#[derive(Debug)]
pub struct ToDebeziumExtension {
    pub input: Arc<LogicalPlan>,
    pub schema: SchemaRef,
}

/// The materialization wrapper: a boundary in the graph at which its input
/// has a physical output of its own.
#[derive(Debug)]
pub struct RemoteTableExtension {
    pub input: Arc<LogicalPlan>,
    pub name: TableReference,
    pub schema: SchemaRef,
    pub materialize: bool,
}

/// An extension node of a kind that this crate does not look into.
#[derive(Debug)]
pub struct OtherExtension {
    /// The node's kind.
    pub kind: String,
    pub schema: SchemaRef,
    pub inputs: Vec<Arc<LogicalPlan>>,
    /// Whether the node has no physical output of its own.
    pub transparent: bool,
}

/// The extension nodes that may stand below a sink.  A sink is always the
/// outermost node of its plan, so it is not among them.
#[derive(Debug)]
pub enum Extension {
    ToDebezium(ToDebeziumExtension),
    RemoteTable(RemoteTableExtension),
    Other(OtherExtension),
}

/// A logical plan.
#[derive(Debug)]
pub enum LogicalPlan {
    Relation(Relation),
    Extension(Extension),
}

/// The mathematical model of a [`LogicalPlan`]: the tree without its sharing.
pub enum LogicalPlanView {
    Relation { operator: Seq<char>, schema: Seq<FieldView>, inputs: Seq<LogicalPlanView> },
    ToDebezium { input: Box<LogicalPlanView>, schema: Seq<FieldView> },
    RemoteTable {
        input: Box<LogicalPlanView>,
        name: TableReferenceView,
        schema: Seq<FieldView>,
        materialize: bool,
    },
    Other {
        kind: Seq<char>,
        schema: Seq<FieldView>,
        inputs: Seq<LogicalPlanView>,
        transparent: bool,
    },
}

impl LogicalPlanView {
    /// The columns that the node gives.
    pub open spec fn schema(self) -> Seq<FieldView> {
        match self {
            LogicalPlanView::Relation { schema, .. } => schema,
            LogicalPlanView::ToDebezium { schema, .. } => schema,
            LogicalPlanView::RemoteTable { schema, .. } => schema,
            LogicalPlanView::Other { schema, .. } => schema,
        }
    }

    /// The plans that the node reads.
    pub open spec fn inputs(self) -> Seq<LogicalPlanView> {
        match self {
            LogicalPlanView::Relation { inputs, .. } => inputs,
            LogicalPlanView::ToDebezium { input, .. } => seq![*input],
            LogicalPlanView::RemoteTable { input, .. } => seq![*input],
            LogicalPlanView::Other { inputs, .. } => inputs,
        }
    }

    /// The node is an extension node without a physical output of its own.
    /// The changelog encoder and the materialization wrapper are never
    /// transparent.
    pub open spec fn is_transparent_extension(self) -> bool {
        self matches LogicalPlanView::Other { transparent, .. } && transparent
    }
}

/// The column of the envelope that holds a record's state before a change.
pub open spec fn before_column() -> FieldView {
    FieldView { qualifier: None, name: "before"@, data_type: DataType::Struct, nullable: true }
}

/// The column of the envelope that holds a record's state after a change.
pub open spec fn after_column() -> FieldView {
    FieldView { qualifier: None, name: "after"@, data_type: DataType::Struct, nullable: true }
}

/// The column of the envelope that says what kind of change a record is.
pub open spec fn op_column() -> FieldView {
    FieldView { qualifier: None, name: "op"@, data_type: DataType::Utf8, nullable: true }
}

/// The column at a position is the first of its name.
pub open spec fn is_first_named(fields: Seq<FieldView>, name: Seq<char>, i: int) -> bool {
    &&& 0 <= i < fields.len()
    &&& fields[i].name == name
    &&& forall|j: int| 0 <= j < i ==> (#[trigger] fields[j]).name != name
}

/// The event-time column of a schema that has one: the first column of that
/// name, with the qualifier, type and nullability that it has.
pub open spec fn timestamp_column(fields: Seq<FieldView>) -> FieldView
    recommends
        has_column(fields, TIMESTAMP_FIELD@),
{
    fields[choose|i: int| is_first_named(fields, TIMESTAMP_FIELD@, i)]
}

/// The schema of the envelopes that encode the records of a stream: a
/// record's state before and after the change, the kind of change, and the
/// stream's own event-time column.
pub open spec fn envelope(fields: Seq<FieldView>) -> Seq<FieldView>
    recommends
        has_column(fields, TIMESTAMP_FIELD@),
{
    seq![before_column(), after_column(), op_column(), timestamp_column(fields)]
}

/// What encoding a plan as a changelog gives: the encoder node over the plan,
/// or the refusal of a plan whose schema has no event-time column.
pub open spec fn encoded(input: LogicalPlanView) -> Result<LogicalPlanView, PlanError> {
    if has_column(input.schema(), TIMESTAMP_FIELD@) {
        Ok(LogicalPlanView::ToDebezium { input: Box::new(input), schema: envelope(input.schema()) })
    } else {
        Err(PlanError::MissingTimestamp)
    }
}

impl LogicalPlan {
    /// The tree that the plan stands for.
    pub open spec fn model(self) -> LogicalPlanView
        decreases self,
    {
        match self {
            LogicalPlan::Relation(node) => LogicalPlanView::Relation {
                operator: node.operator@,
                schema: node.schema@,
                inputs: Seq::new(
                    node.inputs@.len(),
                    |i: int|
                        if 0 <= i < node.inputs@.len() {
                            (*node.inputs@[i]).model()
                        } else {
                            arbitrary()
                        },
                ),
            },
            LogicalPlan::Extension(Extension::ToDebezium(node)) => LogicalPlanView::ToDebezium {
                input: Box::new((*node.input).model()),
                schema: node.schema@,
            },
            LogicalPlan::Extension(Extension::RemoteTable(node)) => LogicalPlanView::RemoteTable {
                input: Box::new((*node.input).model()),
                name: node.name@,
                schema: node.schema@,
                materialize: node.materialize,
            },
            LogicalPlan::Extension(Extension::Other(node)) => LogicalPlanView::Other {
                kind: node.kind@,
                schema: node.schema@,
                inputs: Seq::new(
                    node.inputs@.len(),
                    |i: int|
                        if 0 <= i < node.inputs@.len() {
                            (*node.inputs@[i]).model()
                        } else {
                            arbitrary()
                        },
                ),
                transparent: node.transparent,
            },
        }
    }
}

impl View for LogicalPlan {
    type V = LogicalPlanView;

    open spec fn view(&self) -> LogicalPlanView {
        self.model()
    }
}

/// The trees that a list of shared plans stands for.
pub open spec fn plan_views(plans: Seq<Arc<LogicalPlan>>) -> Seq<LogicalPlanView> {
    Seq::new(plans.len(), |i: int| plans[i]@)
}

/// The model of a node's inputs is the list of its inputs' models.
pub proof fn lemma_model_inputs(plan: LogicalPlan)
    ensures
        plan matches LogicalPlan::Relation(node) ==> plan@.inputs() == plan_views(node.inputs@),
        plan matches LogicalPlan::Extension(Extension::Other(node)) ==> plan@.inputs()
            == plan_views(node.inputs@),
{
    match plan {
        LogicalPlan::Relation(node) => {
            assert(plan@.inputs() =~= plan_views(node.inputs@));
        },
        LogicalPlan::Extension(Extension::Other(node)) => {
            assert(plan@.inputs() =~= plan_views(node.inputs@));
        },
        _ => {},
    }
}

/// Whether two lists of shared plans stand for the same trees.
fn same_plans(left: &Vec<Arc<LogicalPlan>>, right: &Vec<Arc<LogicalPlan>>) -> (equal: bool)
    ensures
        equal == (plan_views(left@) == plan_views(right@)),
    decreases left,
{
    if left.len() != right.len() {
        assert(plan_views(left@).len() != plan_views(right@).len());
        return false;
    }
    let mut i: usize = 0;
    while i < left.len()
        invariant
            i <= left.len(),
            left.len() == right.len(),
            forall|j: int| 0 <= j < i ==> plan_views(left@)[j] == plan_views(right@)[j],
        decreases left.len() - i,
    {
        if !(*left[i]).same(&*right[i]) {
            assert(plan_views(left@)[i as int] != plan_views(right@)[i as int]);
            return false;
        }
        i += 1;
    }
    assert(plan_views(left@) =~= plan_views(right@));
    true
}

impl LogicalPlan {
    /// Whether two plans stand for the same tree.
    fn same(&self, other: &Self) -> (equal: bool)
        ensures
            equal == (self@ == other@),
        decreases self,
    {
        proof {
            lemma_model_inputs(*self);
            lemma_model_inputs(*other);
        }
        match (self, other) {
            (LogicalPlan::Relation(a), LogicalPlan::Relation(b)) => {
                a.operator == b.operator && *a.schema == *b.schema && same_plans(
                    &a.inputs,
                    &b.inputs,
                )
            },
            (
                LogicalPlan::Extension(Extension::ToDebezium(a)),
                LogicalPlan::Extension(Extension::ToDebezium(b)),
            ) => { *a.schema == *b.schema && (*a.input).same(&*b.input) },
            (
                LogicalPlan::Extension(Extension::RemoteTable(a)),
                LogicalPlan::Extension(Extension::RemoteTable(b)),
            ) => {
                a.name == b.name && *a.schema == *b.schema && a.materialize == b.materialize && (
                *a.input).same(&*b.input)
            },
            (
                LogicalPlan::Extension(Extension::Other(a)),
                LogicalPlan::Extension(Extension::Other(b)),
            ) => {
                a.kind == b.kind && *a.schema == *b.schema && a.transparent == b.transparent
                    && same_plans(&a.inputs, &b.inputs)
            },
            _ => false,
        }
    }
}

impl PartialEq for LogicalPlan {
    /// Two plans are equal when they stand for the same tree: sharing plays
    /// no part.
    fn eq(&self, other: &Self) -> (equal: bool) {
        self.same(other)
    }
}

impl Eq for LogicalPlan {

}

impl vstd::std_specs::cmp::PartialEqSpecImpl for LogicalPlan {
    open spec fn obeys_eq_spec() -> bool {
        true
    }

    open spec fn eq_spec(&self, other: &Self) -> bool {
        self@ == other@
    }
}

impl ToDebeziumExtension {
    /// Wraps a plan in the changelog encoder.  A plan whose schema has no
    /// event-time column cannot be encoded and is refused.
    pub fn try_new(input: Arc<LogicalPlan>) -> (made: Result<Self, PlanError>)
        ensures
            match made {
                Ok(node) => encoded(input@) == Ok::<LogicalPlanView, PlanError>(
                    LogicalPlan::Extension(Extension::ToDebezium(node))@,
                ),
                Err(error) => encoded(input@) == Err::<LogicalPlanView, PlanError>(error),
            },
    {
        let wanted = String::from_str(TIMESTAMP_FIELD);
        let columns = share((*input).schema());
        let n = columns.len();
        let mut i: usize = 0;
        while i < n
            invariant
                i <= n,
                n == columns@.len(),
                columns@ == input@.schema(),
                wanted@ == TIMESTAMP_FIELD@,
                forall|a: int| 0 <= a < i ==> (#[trigger] columns@[a]).name != TIMESTAMP_FIELD@,
            decreases n - i,
        {
            let column = columns.field(i).unwrap();
            if column.name == wanted {
                let mut fields: Vec<Field> = Vec::new();
                fields.push(Field::new("before", DataType::Struct, true));
                fields.push(Field::new("after", DataType::Struct, true));
                fields.push(Field::new("op", DataType::Utf8, true));
                fields.push(column.clone());
                proof {
                    reveal_strlit("before");
                    reveal_strlit("after");
                    reveal_strlit("op");
                    reveal_strlit("_timestamp");
                    assert(is_first_named(columns@, TIMESTAMP_FIELD@, i as int));
                    let chosen = choose|k: int| is_first_named(columns@, TIMESTAMP_FIELD@, k);
                    assert(chosen == i);
                    let views = field_views(fields@);
                    assert(views =~= envelope(columns@));
                    assert(views[0].name.len() == 6);
                    assert(views[1].name.len() == 5);
                    assert(views[2].name.len() == 2);
                    assert(views[3].name.len() == 10);
                    assert(distinct_names(views));
                }
                let schema = Schema::try_new(fields).unwrap();
                return Ok(ToDebeziumExtension { input, schema: Arc::new(schema) });
            }
            i += 1;
        }
        Err(PlanError::MissingTimestamp)
    }
}

impl RemoteTableExtension {
    /// Wraps a plan in a materialization boundary.
    pub fn new(input: Arc<LogicalPlan>, name: TableReference, schema: SchemaRef, materialize: bool) -> (node: Self)
        ensures
            node.input == input,
            node.name == name,
            node.schema == schema,
            node.materialize == materialize,
    {
        RemoteTableExtension { input, name, schema, materialize }
    }
}

impl Extension {
    /// Whether the node has no physical output of its own.
    pub fn transparent(&self) -> (transparent: bool)
        ensures
            transparent == LogicalPlan::Extension(*self)@.is_transparent_extension(),
    {
        match self {
            Extension::ToDebezium(_) => false,
            Extension::RemoteTable(_) => false,
            Extension::Other(node) => node.transparent,
        }
    }

    /// The columns that the node gives.
    pub fn schema(&self) -> (schema: &SchemaRef)
        ensures
            schema@ == LogicalPlan::Extension(*self)@.schema(),
    {
        match self {
            Extension::ToDebezium(node) => &node.schema,
            Extension::RemoteTable(node) => &node.schema,
            Extension::Other(node) => &node.schema,
        }
    }
}

impl LogicalPlan {
    /// The columns that the plan gives.
    pub fn schema(&self) -> (schema: &SchemaRef)
        ensures
            schema@ == self@.schema(),
    {
        match self {
            LogicalPlan::Relation(node) => &node.schema,
            LogicalPlan::Extension(node) => node.schema(),
        }
    }

    /// Whether the plan's outermost node is an extension node without a
    /// physical output of its own.
    pub fn is_transparent_extension(&self) -> (transparent: bool)
        ensures
            transparent == self@.is_transparent_extension(),
    {
        match self {
            LogicalPlan::Relation(_) => false,
            LogicalPlan::Extension(node) => node.transparent(),
        }
    }
}

} // verus!
