//! The physical operator graph: what a plan node is lowered to.

use crate::schema::{FieldView, SchemaRef};
use crate::share::share;
use std::sync::Arc;
use vstd::prelude::*;

verus! {

/// How records travel along an edge of the graph.
#[derive(Clone, Copy, Debug, PartialEq, Eq, Structural)]
pub enum LogicalEdgeType {
    /// Each record goes to the task with the sender's own index.
    Forward,
    /// Each record goes to the task that its key selects.
    Shuffle,
    /// The left side of a join.
    LeftJoin,
    /// The right side of a join.
    RightJoin,
}

/// The kind of an operator of the graph.
#[derive(Clone, Copy, Debug, PartialEq, Eq, Structural)]
pub enum OperatorName {
    ExpressionWatermark,
    ArrowValue,
    ArrowKey,
    Projection,
    Join,
    WindowFunction,
    UpdatingAggregate,
    ConnectorSource,
    ConnectorSink,
}

/// The schema of the records on an edge: the columns, and which of them form
/// the key.
#[derive(Debug, PartialEq, Eq)]
pub struct ArroyoSchema {
    pub schema: SchemaRef,
    pub key_indices: Vec<usize>,
}

/// A physical schema shared between the edges that carry it.
pub type ArroyoSchemaRef = Arc<ArroyoSchema>;

/// The mathematical model of an [`ArroyoSchema`].
pub struct ArroyoSchemaView {
    pub schema: Seq<FieldView>,
    pub key_indices: Seq<usize>,
}

impl View for ArroyoSchema {
    type V = ArroyoSchemaView;

    open spec fn view(&self) -> ArroyoSchemaView {
        ArroyoSchemaView { schema: self.schema@, key_indices: self.key_indices@ }
    }
}

impl Clone for ArroyoSchema {
    fn clone(&self) -> (copy: Self)
        ensures
            copy@ == self@,
    {
        let key_indices = self.key_indices.clone();
        assert(key_indices@ =~= self.key_indices@);
        ArroyoSchema { schema: share(&self.schema), key_indices }
    }
}

impl ArroyoSchema {
    /// The physical schema with the given columns and key columns.
    pub fn from_schema_keys(schema: SchemaRef, key_indices: Vec<usize>) -> (made: Self)
        ensures
            made@ == (ArroyoSchemaView { schema: schema@, key_indices: key_indices@ }),
    {
        ArroyoSchema { schema, key_indices }
    }
}

/// An edge of the graph, from an input that was lowered before to the node
/// that reads it.
#[derive(Debug, PartialEq, Eq)]
pub struct LogicalEdge {
    pub edge_type: LogicalEdgeType,
    pub schema: ArroyoSchema,
    /// The positions of the columns that the edge passes on, in order; `None`
    /// where it passes on all of them unchanged.
    pub projection: Option<Vec<usize>>,
}

/// The mathematical model of a [`LogicalEdge`].
pub struct LogicalEdgeView {
    pub edge_type: LogicalEdgeType,
    pub schema: ArroyoSchemaView,
    pub projection: Option<Seq<usize>>,
}

impl View for LogicalEdge {
    type V = LogicalEdgeView;

    open spec fn view(&self) -> LogicalEdgeView {
        LogicalEdgeView {
            edge_type: self.edge_type,
            schema: self.schema@,
            projection: match self.projection {
                Some(columns) => Some(columns@),
                None => None,
            },
        }
    }
}

impl LogicalEdgeView {
    /// The edge of the given type that passes on every column of the schema.
    pub open spec fn project_all(edge_type: LogicalEdgeType, schema: ArroyoSchemaView) -> Self {
        LogicalEdgeView { edge_type, schema, projection: None }
    }
}

impl LogicalEdge {
    /// The edge of the given type that passes on every column of the schema.
    pub fn project_all(edge_type: LogicalEdgeType, schema: ArroyoSchema) -> (edge: Self)
        ensures
            edge@ == LogicalEdgeView::project_all(edge_type, schema@),
    {
        LogicalEdge { edge_type, schema, projection: None }
    }
}

/// A node of the graph.
#[derive(Debug, PartialEq, Eq)]
pub struct LogicalNode {
    /// The identifier of the operator, unique in its graph.
    pub operator_id: String,
    /// A description of the operator for people.
    pub description: String,
    pub operator_name: OperatorName,
    /// The number of tasks that run the operator.
    pub parallelism: usize,
    /// The operator's configuration, which only the operator reads.
    pub operator_config: Vec<u8>,
}

/// The mathematical model of a [`LogicalNode`].
pub struct LogicalNodeView {
    pub operator_id: Seq<char>,
    pub description: Seq<char>,
    pub operator_name: OperatorName,
    pub parallelism: usize,
    pub operator_config: Seq<u8>,
}

impl View for LogicalNode {
    type V = LogicalNodeView;

    open spec fn view(&self) -> LogicalNodeView {
        LogicalNodeView {
            operator_id: self.operator_id@,
            description: self.description@,
            operator_name: self.operator_name,
            parallelism: self.parallelism,
            operator_config: self.operator_config@,
        }
    }
}

/// A node of the graph with the edges that lead into it.
#[derive(Debug, PartialEq, Eq)]
pub struct NodeWithIncomingEdges {
    pub node: LogicalNode,
    pub edges: Vec<LogicalEdge>,
}

/// The mathematical model of a [`NodeWithIncomingEdges`].
pub struct NodeWithIncomingEdgesView {
    pub node: LogicalNodeView,
    pub edges: Seq<LogicalEdgeView>,
}

impl View for NodeWithIncomingEdges {
    type V = NodeWithIncomingEdgesView;

    open spec fn view(&self) -> NodeWithIncomingEdgesView {
        NodeWithIncomingEdgesView {
            node: self.node@,
            edges: Seq::new(self.edges@.len(), |i: int| self.edges@[i]@),
        }
    }
}

} // verus!
