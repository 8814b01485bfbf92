//! Table descriptors: what a sink writes to.

use crate::error::TableError;
use crate::wire::{encode_optional_string_field, optional_string_field};
use vstd::prelude::*;

verus! {

/// The configuration of a connector operator, as the runtime receives it.
#[derive(Debug, PartialEq, Eq)]
pub struct ConnectorOp {
    /// The connector's identifier.
    pub connector: String,
    /// The connector's own configuration, as text that only it reads.
    pub config: String,
    /// A description of the operator for people.
    pub description: String,
}

/// The mathematical model of a [`ConnectorOp`].
pub struct ConnectorOpView {
    pub connector: Seq<char>,
    pub config: Seq<char>,
    pub description: Seq<char>,
}

impl View for ConnectorOp {
    type V = ConnectorOpView;

    open spec fn view(&self) -> ConnectorOpView {
        ConnectorOpView {
            connector: self.connector@,
            config: self.config@,
            description: self.description@,
        }
    }
}

impl ConnectorOpView {
    /// The message on the wire: the three text fields in the order of their
    /// numbers, each left out when empty.
    pub open spec fn encoding(self) -> Seq<u8> {
        optional_string_field(1, self.connector) + optional_string_field(2, self.config)
            + optional_string_field(3, self.description)
    }

    /// The configuration of the connector behind a preview destination.
    pub open spec fn preview() -> ConnectorOpView {
        ConnectorOpView { connector: "preview"@, config: "{}"@, description: "PreviewSink"@ }
    }
}

impl Clone for ConnectorOp {
    fn clone(&self) -> (copy: Self)
        ensures
            copy == *self,
    {
        ConnectorOp {
            connector: self.connector.clone(),
            config: self.config.clone(),
            description: self.description.clone(),
        }
    }
}

impl ConnectorOp {
    pub fn new(connector: &str, config: &str, description: &str) -> (op: Self)
        ensures
            op@ == (ConnectorOpView {
                connector: connector@,
                config: config@,
                description: description@,
            }),
    {
        ConnectorOp {
            connector: String::from_str(connector),
            config: String::from_str(config),
            description: String::from_str(description),
        }
    }

    /// The configuration of the connector behind a preview destination.
    pub fn preview() -> (op: Self)
        ensures
            op@ == ConnectorOpView::preview(),
    {
        ConnectorOp::new("preview", "{}", "PreviewSink")
    }

    /// The configuration as a message on the wire.
    pub fn encode_to_vec(&self) -> (bytes: Vec<u8>)
        ensures
            bytes@ == self@.encoding(),
    {
        let mut bytes: Vec<u8> = Vec::new();
        encode_optional_string_field(1, &self.connector, &mut bytes);
        encode_optional_string_field(2, &self.config, &mut bytes);
        encode_optional_string_field(3, &self.description, &mut bytes);
        assert(bytes@ =~= self@.encoding());
        bytes
    }
}

/// An external destination, reached through a connector.
#[derive(Debug, PartialEq, Eq)]
pub struct ConnectorTable {
    /// The name under which the table was declared.
    pub name: String,
    /// The configuration of the connector that writes to the table.
    pub config: ConnectorOp,
    /// Whether the destination takes changelog records.
    pub updating: bool,
}

/// The mathematical model of a [`ConnectorTable`].
pub struct ConnectorTableView {
    pub name: Seq<char>,
    pub config: ConnectorOpView,
    pub updating: bool,
}

impl View for ConnectorTable {
    type V = ConnectorTableView;

    open spec fn view(&self) -> ConnectorTableView {
        ConnectorTableView { name: self.name@, config: self.config@, updating: self.updating }
    }
}

impl Clone for ConnectorTable {
    fn clone(&self) -> (copy: Self)
        ensures
            copy == *self,
    {
        ConnectorTable {
            name: self.name.clone(),
            config: self.config.clone(),
            updating: self.updating,
        }
    }
}

impl ConnectorTable {
    pub fn new(name: &str, config: ConnectorOp, updating: bool) -> (table: Self)
        ensures
            table@ == (ConnectorTableView { name: name@, config: config@, updating }),
    {
        ConnectorTable { name: String::from_str(name), config, updating }
    }

    /// Whether the destination takes changelog records.
    pub fn is_updating(&self) -> (updating: bool)
        ensures
            updating == self@.updating,
    {
        self.updating
    }

    /// The configuration of the connector that writes to the table.
    pub fn connector_op(&self) -> (op: ConnectorOp)
        ensures
            op@ == self@.config,
    {
        self.config.clone()
    }
}

/// What a sink is asked to write to.
#[derive(Debug, PartialEq, Eq)]
pub enum Table {
    /// An external destination.
    ConnectorTable(ConnectorTable),
    /// A table held in memory.  No sink can write to it.
    MemoryTable { name: String },
    /// A table whose schema comes from a query.
    TableFromQuery { name: String },
    /// A short-lived destination for previews and debugging.
    PreviewSink,
}

/// The mathematical model of a [`Table`].
pub enum TableView {
    ConnectorTable(ConnectorTableView),
    MemoryTable { name: Seq<char> },
    TableFromQuery { name: Seq<char> },
    PreviewSink,
}

impl View for Table {
    type V = TableView;

    open spec fn view(&self) -> TableView {
        match self {
            Table::ConnectorTable(table) => TableView::ConnectorTable(table@),
            Table::MemoryTable { name } => TableView::MemoryTable { name: name@ },
            Table::TableFromQuery { name } => TableView::TableFromQuery { name: name@ },
            Table::PreviewSink => TableView::PreviewSink,
        }
    }
}

impl TableView {
    /// The connector configuration that the destination gives, or why it
    /// gives none.
    pub open spec fn connector_op(self) -> Result<ConnectorOpView, TableError> {
        match self {
            TableView::ConnectorTable(table) => Ok(table.config),
            TableView::MemoryTable { .. } => Err(TableError::MemoryTable),
            TableView::TableFromQuery { .. } => Err(TableError::TableFromQuery),
            TableView::PreviewSink => Ok(ConnectorOpView::preview()),
        }
    }
}

impl Clone for Table {
    fn clone(&self) -> (copy: Self)
        ensures
            copy == *self,
    {
        match self {
            Table::ConnectorTable(table) => Table::ConnectorTable(table.clone()),
            Table::MemoryTable { name } => Table::MemoryTable { name: name.clone() },
            Table::TableFromQuery { name } => Table::TableFromQuery { name: name.clone() },
            Table::PreviewSink => Table::PreviewSink,
        }
    }
}

impl Table {
    /// The connector configuration of the destination, or why it has none.
    pub fn connector_op(&self) -> (op: Result<ConnectorOp, TableError>)
        ensures
            match op {
                Ok(op) => self@.connector_op() == Ok::<ConnectorOpView, TableError>(op@),
                Err(error) => self@.connector_op() == Err::<ConnectorOpView, TableError>(error),
            },
    {
        match self {
            Table::ConnectorTable(table) => Ok(table.connector_op()),
            Table::MemoryTable { .. } => Err(TableError::MemoryTable),
            Table::TableFromQuery { .. } => Err(TableError::TableFromQuery),
            Table::PreviewSink => Ok(ConnectorOp::preview()),
        }
    }
}

} // verus!
