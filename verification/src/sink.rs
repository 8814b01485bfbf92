//! The sink: the terminal node of a plan, which writes its input to a
//! destination.

use crate::error::{Operation, PlanError};
use crate::graph::{
    ArroyoSchema, ArroyoSchemaRef, ArroyoSchemaView, LogicalEdge, LogicalEdgeType,
    LogicalEdgeView, LogicalNode, LogicalNodeView, NodeWithIncomingEdges,
    NodeWithIncomingEdgesView, OperatorName,
};
use crate::plan::{
    encoded, Expr, Extension, LogicalPlan, LogicalPlanView, NamedNode, RemoteTableExtension,
    ToDebeziumExtension,
};
use crate::schema::{has_column, is_updating, schema_text, FieldView, SchemaRef, TIMESTAMP_FIELD};
use crate::text::{decimal, decimal_text};
use crate::share::share;
use crate::table::{Table, TableView};
use crate::table_reference::{lemma_reference_order, TableReference, TableReferenceView};
use std::cmp::Ordering;
use std::sync::Arc;
use vstd::prelude::*;

verus! {

/// The kind of a sink node, as plans are printed.
pub const SINK_NODE_NAME: &'static str = "SinkExtension";

/// The terminal node of a plan.  It reads exactly one input.
#[derive(Debug)]
pub struct SinkExtension {
    /// The name of the destination, by which the sink is known.
    pub name: TableReference,
    /// What the sink writes to.
    pub table: Table,
    /// The columns that the sink writes.
    pub schema: SchemaRef,
    /// The plan whose rows the sink writes.
    pub input: Arc<LogicalPlan>,
}

/// The mathematical model of a [`SinkExtension`].
pub struct SinkExtensionView {
    pub name: TableReferenceView,
    pub table: TableView,
    pub schema: Seq<FieldView>,
    pub input: LogicalPlanView,
}

impl View for SinkExtension {
    type V = SinkExtensionView;

    open spec fn view(&self) -> SinkExtensionView {
        SinkExtensionView {
            name: self.name@,
            table: self.table@,
            schema: self.schema@,
            input: self.input@,
        }
    }
}

/// Whether a destination wants its input encoded as a changelog, given
/// whether the input is a changelog stream already; or why no sink can write
/// that input to that destination.
pub open spec fn changelog_requirement(table: TableView, input_is_updating: bool) -> Result<
    bool,
    PlanError,
> {
    match table {
        TableView::ConnectorTable(destination) => if destination.updating {
            Ok(true)
        } else if input_is_updating {
            Err(PlanError::IncompatibleChangelogMode)
        } else {
            Ok(false)
        },
        TableView::MemoryTable { .. } => Err(PlanError::UnsupportedDestination),
        TableView::TableFromQuery { .. } => Ok(false),
        TableView::PreviewSink => Ok(input_is_updating),
    }
}

/// The name that a sink gives to the materialization wrapper it adds.
pub open spec fn sink_projection() -> TableReferenceView {
    TableReferenceView::Bare { table: "sink projection"@ }
}

/// A plan made fit to be a sink's direct input: a transparent extension node
/// is wrapped in a materialization wrapper with the sink's schema, and any
/// other plan is left as it is.
pub open spec fn materialized(schema: Seq<FieldView>, input: LogicalPlanView) -> LogicalPlanView {
    if input.is_transparent_extension() {
        LogicalPlanView::RemoteTable {
            input: Box::new(input),
            name: sink_projection(),
            schema,
            materialize: false,
        }
    } else {
        input
    }
}

/// The sink that construction gives, or the failure it ends in.
pub open spec fn constructed(
    name: TableReferenceView,
    table: TableView,
    schema: Seq<FieldView>,
    input: LogicalPlanView,
) -> Result<SinkExtensionView, PlanError> {
    match changelog_requirement(table, is_updating(input.schema())) {
        Err(error) => Err(error),
        Ok(false) => Ok(SinkExtensionView { name, table, schema, input: materialized(schema, input) }),
        Ok(true) => match encoded(input) {
            Err(error) => Err(error),
            Ok(encoder) => Ok(
                SinkExtensionView {
                    name,
                    table,
                    schema: encoder.schema(),
                    input: materialized(encoder.schema(), encoder),
                },
            ),
        },
    }
}

/// The label of a sink where a plan is explained, around a name and a schema
/// that are written out already: the kind of the node, the name in round
/// brackets, a colon and the schema.
pub open spec fn explain_label(name: Seq<char>, schema: Seq<char>) -> Seq<char> {
    SINK_NODE_NAME@ + "("@ + name + "): "@ + schema
}

/// The identifier of the operator that a sink is lowered to: it holds the
/// destination's name and the sink's position among the nodes of its plan.
pub open spec fn sink_operator_id(name: TableReferenceView, index: nat) -> Seq<char> {
    seq!['s', 'i', 'n', 'k', '_'] + name.qualified_name() + seq!['_'] + decimal_text(index)
}

/// The physical node of a sink.  Its parallelism is always 1: this layer
/// never runs a sink in parallel.
pub open spec fn sink_node(
    name: TableReferenceView,
    index: nat,
    description: Seq<char>,
    operator_config: Seq<u8>,
) -> LogicalNodeView {
    LogicalNodeView {
        operator_id: sink_operator_id(name, index),
        description,
        operator_name: OperatorName::ConnectorSink,
        parallelism: 1,
        operator_config,
    }
}

/// The trees that a list of plans stands for.
pub open spec fn owned_plan_views(plans: Seq<LogicalPlan>) -> Seq<LogicalPlanView> {
    Seq::new(plans.len(), |i: int| plans[i]@)
}

/// The models of a list of shared physical schemas, in order.
pub open spec fn schema_views(schemas: Seq<ArroyoSchemaRef>) -> Seq<ArroyoSchemaView> {
    Seq::new(schemas.len(), |i: int| schemas[i]@)
}

impl SinkExtensionView {
    /// Two sinks stand for the same node where they agree in name and input.
    /// The table descriptor and the schema play no part: they may differ for
    /// a while as a plan is rewritten, and the sink is still the same node.
    pub open spec fn same_node(self, other: SinkExtensionView) -> bool {
        self.name == other.name && self.input == other.input
    }

    /// How a sink stands to another: by name first; sinks of one name are
    /// ordered only where their inputs are equal, and are then equal.  The
    /// table descriptor and the schema play no part.
    pub open spec fn ordering(self, other: SinkExtensionView) -> Option<Ordering> {
        match self.name.ordering(other.name) {
            Ordering::Equal => if self.input == other.input {
                Some(Ordering::Equal)
            } else {
                None
            },
            order => Some(order),
        }
    }

    /// The label of the sink where a plan is explained: the kind of the
    /// node, the destination's name as it is written for debugging, and the
    /// schema as text.
    pub open spec fn explain_text(self) -> Seq<char> {
        explain_label(self.name.debug_text(), schema_text(self.schema))
    }

    /// The sink rebuilt over other inputs: all stays but the input.
    pub open spec fn rebuilt(self, inputs: Seq<LogicalPlanView>) -> Result<
        SinkExtensionView,
        PlanError,
    > {
        if inputs.len() == 1 {
            Ok(SinkExtensionView { input: inputs[0], ..self })
        } else {
            Err(
                PlanError::ArityViolation {
                    operation: Operation::Rebuild,
                    found: inputs.len() as usize,
                },
            )
        }
    }

    /// What lowering gives at a position of the plan, from the physical
    /// schemas of the inputs that were lowered before.
    pub open spec fn lowered(self, index: nat, input_schemas: Seq<ArroyoSchemaView>) -> Result<
        NodeWithIncomingEdgesView,
        PlanError,
    > {
        if input_schemas.len() != 1 {
            Err(
                PlanError::ArityViolation {
                    operation: Operation::Lower,
                    found: input_schemas.len() as usize,
                },
            )
        } else {
            match self.table.connector_op() {
                Err(cause) => Err(PlanError::ConnectorOp(cause)),
                Ok(op) => Ok(
                    NodeWithIncomingEdgesView {
                        node: sink_node(self.name, index, op.description, op.encoding()),
                        edges: seq![
                            LogicalEdgeView::project_all(LogicalEdgeType::Forward, input_schemas[0]),
                        ],
                    },
                ),
            }
        }
    }

    /// The schema that the sink reports to the nodes above it: its input's
    /// columns, none of them a key.
    pub open spec fn output_schema(self) -> ArroyoSchemaView {
        ArroyoSchemaView { schema: self.input.schema(), key_indices: Seq::empty() }
    }
}

impl Clone for SinkExtension {
    /// The copy shares the schema and the input with the sink it was made
    /// from.
    fn clone(&self) -> (copy: Self)
        ensures
            copy == *self,
    {
        SinkExtension {
            name: self.name.clone(),
            table: self.table.clone(),
            schema: share(&self.schema),
            input: share(&self.input),
        }
    }
}

impl PartialEq for SinkExtension {
    /// Two sinks are equal where they agree in name and input, whatever
    /// their table descriptors and schemas are.
    fn eq(&self, other: &Self) -> (equal: bool) {
        self.name == other.name && *self.input == *other.input
    }
}

impl Eq for SinkExtension {

}

impl vstd::std_specs::cmp::PartialEqSpecImpl for SinkExtension {
    open spec fn obeys_eq_spec() -> bool {
        true
    }

    open spec fn eq_spec(&self, other: &Self) -> bool {
        self@.same_node(other@)
    }
}

impl PartialOrd for SinkExtension {
    /// Sinks are ordered by name.  Sinks of one name are level where their
    /// inputs are equal, and are not ordered where their inputs differ.  The
    /// table descriptors and the schemas play no part.
    fn partial_cmp(&self, other: &Self) -> (order: Option<Ordering>) {
        match self.name.partial_cmp(&other.name) {
            Some(Ordering::Equal) => {
                if *self.input == *other.input {
                    Some(Ordering::Equal)
                } else {
                    None
                }
            },
            order => order,
        }
    }
}

impl vstd::std_specs::cmp::PartialOrdSpecImpl for SinkExtension {
    open spec fn obeys_partial_cmp_spec() -> bool {
        true
    }

    open spec fn partial_cmp_spec(&self, other: &Self) -> Option<Ordering> {
        self@.ordering(other@)
    }
}

/// Two sinks that agree in name and input compare as equal, however their
/// table descriptors and schemas differ.
pub proof fn lemma_comparison_ignores_table_and_schema(a: SinkExtensionView, b: SinkExtensionView)
    requires
        a.name == b.name,
        a.input == b.input,
    ensures
        a.same_node(b),
        a.ordering(b) == Some(Ordering::Equal),
{
}

/// A sink is equal to another exactly where the order puts them level.
pub proof fn lemma_equality_agrees_with_order(a: SinkExtensionView, b: SinkExtensionView)
    ensures
        a.same_node(b) <==> a.ordering(b) == Some(Ordering::Equal),
{
}

/// The order of sinks reads the same from both sides: a sink comes after
/// another exactly where the other comes before it, two sinks are unordered
/// from one side exactly where they are from the other, and every sink is
/// level with itself.
pub proof fn lemma_order_reads_both_ways(a: SinkExtensionView, b: SinkExtensionView)
    ensures
        a.ordering(b) == Some(Ordering::Greater) <==> b.ordering(a) == Some(Ordering::Less),
        a.ordering(b) == Some(Ordering::Equal) <==> b.ordering(a) == Some(Ordering::Equal),
        a.ordering(b) is None <==> b.ordering(a) is None,
        a.ordering(a) == Some(Ordering::Equal),
{
    lemma_reference_order(a.name, b.name);
    lemma_reference_order(b.name, a.name);
}

/// Building a sink again from the parts of a sink that was built changes
/// nothing, so long as the destination asks for no encoding of the input as
/// it now is.  Where it does ask, the encoder is applied once more.
pub proof fn lemma_construction_settles(
    name: TableReferenceView,
    table: TableView,
    schema: Seq<FieldView>,
    input: LogicalPlanView,
)
    requires
        constructed(name, table, schema, input) is Ok,
        changelog_requirement(
            table,
            is_updating(constructed(name, table, schema, input)->Ok_0.input.schema()),
        ) == Ok::<bool, PlanError>(false),
    ensures
        ({
            let sink = constructed(name, table, schema, input)->Ok_0;
            constructed(name, table, sink.schema, sink.input) == Ok::<SinkExtensionView, PlanError>(
                sink,
            )
        }),
{
}

/// Making a plan fit to be a sink's input a second time changes nothing: the
/// materialization wrapper is itself no transparent node.
pub proof fn lemma_materialized_is_idempotent(schema: Seq<FieldView>, input: LogicalPlanView)
    ensures
        !materialized(schema, input).is_transparent_extension(),
        materialized(schema, materialized(schema, input)) == materialized(schema, input),
{
}

impl SinkExtension {
    /// The kind of the node, as plans are printed.
    pub fn name(&self) -> (kind: &'static str)
        ensures
            kind@ == SINK_NODE_NAME@,
    {
        SINK_NODE_NAME
    }

    /// The inputs of the sink: always exactly one.
    pub fn inputs(&self) -> (inputs: Vec<&LogicalPlan>)
        ensures
            inputs@.len() == 1,
            *inputs@[0] == *self.input,
    {
        let mut inputs: Vec<&LogicalPlan> = Vec::new();
        inputs.push(&*self.input);
        inputs
    }

    /// The columns that the sink writes.
    pub fn schema(&self) -> (schema: &SchemaRef)
        ensures
            *schema == self.schema,
    {
        &self.schema
    }

    /// The scalar expressions of the sink: it has none.
    pub fn expressions(&self) -> (expressions: Vec<Expr>)
        ensures
            expressions@.len() == 0,
    {
        Vec::new()
    }

    /// The label of a sink where a plan is explained, around a name and a
    /// schema that are written out already.
    pub fn explain_label(name: &str, schema: &str) -> (label: String)
        ensures
            label@ == explain_label(name@, schema@),
    {
        let mut label = String::from_str(SINK_NODE_NAME);
        label.append("(");
        label.append(name);
        label.append("): ");
        label.append(schema);
        label
    }

    /// The label of the sink where a plan is explained, such as
    /// `SinkExtension(Bare { table: "orders" }): fields:[id], metadata:{}`:
    /// the kind of the node, the destination's name as it is written for
    /// debugging, and the schema as text.
    pub fn fmt_for_explain(&self) -> (label: String)
        ensures
            label@ == self@.explain_text(),
    {
        let name = self.name.to_debug_string();
        let schema = (*self.schema).to_string();
        Self::explain_label(name.as_str(), schema.as_str())
    }

    /// Builds the sink again over a replacement input.  The name, the table
    /// descriptor and the schema stay exactly as they are; the expressions
    /// are ignored, since a sink has none.  Any number of inputs but one is
    /// refused.
    pub fn with_exprs_and_inputs(&self, _exprs: Vec<Expr>, inputs: Vec<LogicalPlan>) -> (made: Result<
        Self,
        PlanError,
    >)
        ensures
            match made {
                Ok(sink) => self@.rebuilt(owned_plan_views(inputs@)) == Ok::<
                    SinkExtensionView,
                    PlanError,
                >(sink@),
                Err(error) => self@.rebuilt(owned_plan_views(inputs@)) == Err::<
                    SinkExtensionView,
                    PlanError,
                >(error),
            },
            match made {
                Ok(sink) => {
                    &&& inputs@.len() == 1
                    &&& sink.name == self.name
                    &&& sink.table == self.table
                    &&& sink.schema == self.schema
                    &&& *sink.input == inputs@[0]
                },
                Err(error) => {
                    &&& inputs@.len() != 1
                    &&& error == PlanError::ArityViolation {
                        operation: Operation::Rebuild,
                        found: inputs.len(),
                    }
                },
            },
    {
        if inputs.len() != 1 {
            return Err(
                PlanError::ArityViolation { operation: Operation::Rebuild, found: inputs.len() },
            );
        }
        let mut inputs = inputs;
        let input = inputs.pop().unwrap();
        Ok(
            SinkExtension {
                name: self.name.clone(),
                table: self.table.clone(),
                schema: share(&self.schema),
                input: Arc::new(input),
            },
        )
    }

    /// The name under which the node can be found again from elsewhere in
    /// the plan: a sink has none.
    pub fn node_name(&self) -> (name: Option<NamedNode>)
        ensures
            name is None,
    {
        None
    }

    /// Whether the node has no physical output of its own: a sink is never
    /// transparent.
    pub fn transparent(&self) -> (transparent: bool)
        ensures
            !transparent,
    {
        false
    }

    /// The physical node of the sink, from the description and the encoded
    /// configuration of its connector.
    pub fn sink_node(&self, index: usize, description: String, operator_config: Vec<u8>) -> (node:
        LogicalNode)
        ensures
            node@ == sink_node(self@.name, index as nat, description@, operator_config@),
    {
        proof {
            reveal_strlit("sink_");
            reveal_strlit("_");
            assert("sink_"@ =~= seq!['s', 'i', 'n', 'k', '_']);
            assert("_"@ =~= seq!['_']);
        }
        let mut operator_id = String::from_str("sink_");
        let name = self.name.to_string();
        operator_id.append(name.as_str());
        operator_id.append("_");
        let position = decimal(index);
        operator_id.append(position.as_str());
        LogicalNode {
            operator_id,
            description,
            operator_name: OperatorName::ConnectorSink,
            parallelism: 1,
            operator_config,
        }
    }

    /// Lowers the sink to its physical node and the one edge that leads into
    /// it: a forward edge that passes on every column of the input.
    ///
    /// `index` is the sink's position among the nodes of its plan, and
    /// `input_schemas` holds the physical schema of each input that was
    /// lowered before.  Any number of them but one is refused.  Where the
    /// destination cannot give its connector configuration, lowering fails
    /// with the cause.
    pub fn plan_node(&self, index: usize, input_schemas: Vec<ArroyoSchemaRef>) -> (lowered: Result<
        NodeWithIncomingEdges,
        PlanError,
    >)
        ensures
            match lowered {
                Ok(fragment) => self@.lowered(index as nat, schema_views(input_schemas@)) == Ok::<
                    NodeWithIncomingEdgesView,
                    PlanError,
                >(fragment@),
                Err(error) => self@.lowered(index as nat, schema_views(input_schemas@)) == Err::<
                    NodeWithIncomingEdgesView,
                    PlanError,
                >(error),
            },
            input_schemas@.len() != 1 ==> lowered matches Err(PlanError::ArityViolation { .. }),
            input_schemas@.len() == 1 ==> (lowered is Ok <==> self@.table.connector_op() is Ok),
            lowered matches Ok(fragment) ==> fragment@.node.parallelism == 1 && fragment@.edges.len()
                == 1,
    {
        if input_schemas.len() != 1 {
            return Err(
                PlanError::ArityViolation { operation: Operation::Lower, found: input_schemas.len() },
            );
        }
        let input_schema = (*input_schemas[0]).clone();
        let op = match self.table.connector_op() {
            Ok(op) => op,
            Err(cause) => {
                return Err(PlanError::ConnectorOp(cause));
            },
        };
        let operator_config = op.encode_to_vec();
        let node = self.sink_node(index, op.description, operator_config);
        let edge = LogicalEdge::project_all(LogicalEdgeType::Forward, input_schema);
        let mut edges: Vec<LogicalEdge> = Vec::new();
        edges.push(edge);
        let fragment = NodeWithIncomingEdges { node, edges };
        proof {
            let expected = self@.lowered(index as nat, schema_views(input_schemas@));
            assert(fragment@.edges =~= expected->Ok_0.edges);
        }
        Ok(fragment)
    }

    /// The schema that the sink reports to the nodes above it.  A sink has
    /// no reader; the schema is there so that a sink can be treated as any
    /// other node.  It holds the input's columns, none of them a key.
    pub fn output_schema(&self) -> (schema: ArroyoSchema)
        ensures
            schema@ == self@.output_schema(),
    {
        ArroyoSchema::from_schema_keys(share((*self.input).schema()), Vec::new())
    }
}

impl SinkExtension {
    /// Decides whether the input of a sink must be encoded as a changelog
    /// before the destination can take it.
    pub fn changelog_requirement(table: &Table, input_is_updating: bool) -> (decision: Result<
        bool,
        PlanError,
    >)
        ensures
            decision == changelog_requirement(table@, input_is_updating),
    {
        match table {
            Table::ConnectorTable(destination) => {
                if destination.is_updating() {
                    Ok(true)
                } else if input_is_updating {
                    Err(PlanError::IncompatibleChangelogMode)
                } else {
                    Ok(false)
                }
            },
            Table::MemoryTable { .. } => Err(PlanError::UnsupportedDestination),
            Table::TableFromQuery { .. } => Ok(false),
            Table::PreviewSink => Ok(input_is_updating),
        }
    }

    /// Builds the sink that writes `input` to `table`.
    ///
    /// The input is normalised on the way.  Where the destination wants a
    /// changelog, the input is wrapped in the changelog encoder, whether or
    /// not it is a changelog stream already, and the sink takes the
    /// encoder's schema in place of the one given.  Then a transparent
    /// extension node is wrapped in a materialization wrapper.
    ///
    /// Construction fails for an in-memory destination, for a changelog
    /// input to a connector that takes no changelog, and where the encoder
    /// refuses the input; the encoder's error is handed on unchanged.
    pub fn new(name: TableReference, table: Table, schema: SchemaRef, input: Arc<LogicalPlan>) -> (made:
        Result<Self, PlanError>)
        ensures
            match made {
                Ok(sink) => constructed(name@, table@, schema@, input@) == Ok::<
                    SinkExtensionView,
                    PlanError,
                >(sink@),
                Err(error) => constructed(name@, table@, schema@, input@) == Err::<
                    SinkExtensionView,
                    PlanError,
                >(error),
            },
            made matches Ok(sink) ==> !sink@.input.is_transparent_extension(),
            table@ matches TableView::ConnectorTable(destination) && destination.updating ==> (match made {
                Ok(sink) => {
                    &&& sink@.input matches LogicalPlanView::ToDebezium { input: inner, schema: columns }
                    &&& *inner == input@
                    &&& sink@.schema == columns
                },
                Err(error) => {
                    &&& error == PlanError::MissingTimestamp
                    &&& !has_column(input@.schema(), TIMESTAMP_FIELD@)
                },
            }),
            table@ matches TableView::ConnectorTable(destination) && !destination.updating
                && is_updating(input@.schema()) ==> made matches Err(
                PlanError::IncompatibleChangelogMode,
            ),
            table@ is MemoryTable ==> made matches Err(PlanError::UnsupportedDestination),
    {
        let input_is_updating = (*input).schema().is_updating();
        let encode = Self::changelog_requirement(&table, input_is_updating)?;
        let mut schema = schema;
        let mut input = input;
        if encode {
            let encoder = ToDebeziumExtension::try_new(input)?;
            input = Arc::new(LogicalPlan::Extension(Extension::ToDebezium(encoder)));
            schema = share((*input).schema());
        }
        Self::add_remote_if_necessary(&schema, &mut input);
        Ok(SinkExtension { name, table, schema, input })
    }

    /// Makes a plan fit to be a sink's direct input: a transparent extension
    /// node is wrapped in a materialization wrapper that carries the sink's
    /// schema; any other plan stays as it is.
    pub fn add_remote_if_necessary(schema: &SchemaRef, input: &mut Arc<LogicalPlan>)
        ensures
            final(input)@ == materialized(schema@, old(input)@),
            !final(input)@.is_transparent_extension(),
    {
        if !(**input).is_transparent_extension() {
            return ;
        }
        let remote_table_extension = RemoteTableExtension {
            input: share(input),
            name: TableReference::bare("sink projection"),
            schema: share(schema),
            materialize: false,
        };
        *input = Arc::new(LogicalPlan::Extension(Extension::RemoteTable(remote_table_extension)));
    }
}

} // verus!
