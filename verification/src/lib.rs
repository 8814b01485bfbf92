//! Planning of sink nodes for a streaming SQL engine.
//!
//! A sink is the terminal node of a logical plan: it writes the rows of its
//! single input to a destination table.  This crate holds the plan model, the
//! rules that normalise a sink's input when the sink is built, the comparison
//! used to match sinks during plan rewriting, and the lowering of a sink into
//! one node of the physical operator graph with its incoming edge.

pub mod error;
pub mod graph;
pub mod plan;
pub mod schema;
mod share;
pub mod sink;
pub mod table;
pub mod table_reference;
pub mod text;
pub mod wire;
