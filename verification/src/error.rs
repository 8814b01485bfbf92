//! Errors reported while a sink is built, rebuilt or lowered.

use vstd::prelude::*;

verus! {

/// Why a table descriptor cannot give a connector configuration.
#[derive(Clone, Copy, Debug, PartialEq, Eq, Structural)]
pub enum TableError {
    /// An in-memory table has no connector behind it.
    MemoryTable,
    /// A table defined by a query has no connector behind it.
    TableFromQuery,
}

/// The operation that counted its inputs and found the wrong number.
#[derive(Clone, Copy, Debug, PartialEq, Eq, Structural)]
pub enum Operation {
    /// Rebuilding a sink with replacement inputs.
    Rebuild,
    /// Lowering a sink to its physical node.
    Lower,
}

/// A planning failure.  No failure is retried or recovered from: the call
/// that meets it yields no value.
#[derive(Clone, Copy, Debug, PartialEq, Eq, Structural)]
pub enum PlanError {
    /// The destination is an in-memory table, which no sink can write to.
    UnsupportedDestination,
    /// The input is a changelog stream and the destination takes no
    /// changelog records.
    IncompatibleChangelogMode,
    /// A sink was given `found` inputs where it takes exactly one.
    ArityViolation { operation: Operation, found: usize },
    /// The changelog encoder refused its input: the schema has no event-time
    /// column to carry into the envelope.
    MissingTimestamp,
    /// The destination could not give its connector configuration.
    ConnectorOp(TableError),
}

impl TableError {
    /// The text of the message, as a sequence of characters.
    pub open spec fn message_text(self) -> Seq<char> {
        match self {
            TableError::MemoryTable => "can't write to a memory table"@,
            TableError::TableFromQuery => "can't write to a table defined by a query"@,
        }
    }

    /// A description of the failure for the user.
    pub fn message(&self) -> (text: String)
        ensures
            text@ == self.message_text(),
    {
        match self {
            TableError::MemoryTable => String::from_str("can't write to a memory table"),
            TableError::TableFromQuery => String::from_str(
                "can't write to a table defined by a query",
            ),
        }
    }
}

impl PlanError {
    /// The text of the message, as a sequence of characters.
    pub open spec fn message_text(self) -> Seq<char> {
        match self {
            PlanError::UnsupportedDestination => "memory tables not supported"@,
            PlanError::IncompatibleChangelogMode => "input is updating, but sink is not updating"@,
            PlanError::ArityViolation { operation: Operation::Rebuild, .. } => "input size inconsistent"@,
            PlanError::ArityViolation { operation: Operation::Lower, .. } => "sink should have exactly one input"@,
            PlanError::MissingTimestamp => "no timestamp field found in schema"@,
            PlanError::ConnectorOp(cause) => "connector op\ncaused by\n"@ + cause.message_text(),
        }
    }

    /// A description of the failure for the user.
    pub fn message(&self) -> (text: String)
        ensures
            text@ == self.message_text(),
    {
        match self {
            PlanError::UnsupportedDestination => String::from_str("memory tables not supported"),
            PlanError::IncompatibleChangelogMode => String::from_str(
                "input is updating, but sink is not updating",
            ),
            PlanError::ArityViolation { operation: Operation::Rebuild, .. } => String::from_str(
                "input size inconsistent",
            ),
            PlanError::ArityViolation { operation: Operation::Lower, .. } => String::from_str(
                "sink should have exactly one input",
            ),
            PlanError::MissingTimestamp => String::from_str("no timestamp field found in schema"),
            PlanError::ConnectorOp(cause) => {
                let mut text = String::from_str("connector op\ncaused by\n");
                let detail = cause.message();
                text.append(detail.as_str());
                text
            },
        }
    }
}

} // verus!
