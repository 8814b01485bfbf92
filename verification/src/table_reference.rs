//! Names of tables, with as much of their qualification as is known.

use crate::text::{debug_str, lemma_text_order, precedes, str_debug, text_precedes};
use std::cmp::Ordering;
use vstd::prelude::*;

verus! {

/// A reference to a table by name.  No normalisation is applied to any part:
/// a part is kept as it was given.
#[derive(Debug)]
pub enum TableReference {
    /// An unqualified reference, such as `table`.
    Bare { table: String },
    /// A partly resolved reference, such as `schema.table`.
    Partial { schema: String, table: String },
    /// A fully resolved reference, such as `catalog.schema.table`.
    Full { catalog: String, schema: String, table: String },
}

/// The mathematical model of a [`TableReference`].
pub enum TableReferenceView {
    Bare { table: Seq<char> },
    Partial { schema: Seq<char>, table: Seq<char> },
    Full { catalog: Seq<char>, schema: Seq<char>, table: Seq<char> },
}

impl View for TableReference {
    type V = TableReferenceView;

    open spec fn view(&self) -> TableReferenceView {
        match self {
            TableReference::Bare { table } => TableReferenceView::Bare { table: table@ },
            TableReference::Partial { schema, table } => TableReferenceView::Partial {
                schema: schema@,
                table: table@,
            },
            TableReference::Full { catalog, schema, table } => TableReferenceView::Full {
                catalog: catalog@,
                schema: schema@,
                table: table@,
            },
        }
    }
}

impl TableReferenceView {
    /// The name of the table itself.
    pub open spec fn table(self) -> Seq<char> {
        match self {
            TableReferenceView::Bare { table } => table,
            TableReferenceView::Partial { table, .. } => table,
            TableReferenceView::Full { table, .. } => table,
        }
    }

    /// A reference comes before another where it is less qualified, and
    /// among references qualified alike, where its parts, taken from the
    /// outermost to the table's name, come first in the order of `str`.
    pub open spec fn precedes(self, other: TableReferenceView) -> bool {
        match (self, other) {
            (TableReferenceView::Bare { table: a }, TableReferenceView::Bare { table: b }) => {
                text_precedes(a, b)
            },
            (TableReferenceView::Bare { .. }, _) => true,
            (
                TableReferenceView::Partial { schema: sa, table: a },
                TableReferenceView::Partial { schema: sb, table: b },
            ) => text_precedes(sa, sb) || (sa == sb && text_precedes(a, b)),
            (TableReferenceView::Partial { .. }, TableReferenceView::Full { .. }) => true,
            (
                TableReferenceView::Full { catalog: ca, schema: sa, table: a },
                TableReferenceView::Full { catalog: cb, schema: sb, table: b },
            ) => text_precedes(ca, cb) || (ca == cb && (text_precedes(sa, sb) || (sa == sb
                && text_precedes(a, b)))),
            _ => false,
        }
    }

    /// How a reference stands to another in the order of references.
    pub open spec fn ordering(self, other: TableReferenceView) -> Ordering {
        if self == other {
            Ordering::Equal
        } else if self.precedes(other) {
            Ordering::Less
        } else {
            Ordering::Greater
        }
    }

    /// The reference with each part in the form in which std writes a `str`
    /// for debugging.
    pub open spec fn quoted(self) -> TableReferenceView {
        match self {
            TableReferenceView::Bare { table } => TableReferenceView::Bare {
                table: str_debug(table),
            },
            TableReferenceView::Partial { schema, table } => TableReferenceView::Partial {
                schema: str_debug(schema),
                table: str_debug(table),
            },
            TableReferenceView::Full { catalog, schema, table } => TableReferenceView::Full {
                catalog: str_debug(catalog),
                schema: str_debug(schema),
                table: str_debug(table),
            },
        }
    }

    /// The reference written as a value with named parts: how far it is
    /// qualified, then in braces each part as it stands behind the name of
    /// what it is.
    pub open spec fn framed(self) -> Seq<char> {
        match self {
            TableReferenceView::Bare { table } => "Bare { table: "@ + table + " }"@,
            TableReferenceView::Partial { schema, table } => "Partial { schema: "@ + schema
                + ", table: "@ + table + " }"@,
            TableReferenceView::Full { catalog, schema, table } => "Full { catalog: "@ + catalog
                + ", schema: "@ + schema + ", table: "@ + table + " }"@,
        }
    }

    /// The reference as it is written for debugging: as a value with named
    /// parts, each part in the form in which std writes a `str` for
    /// debugging.
    pub open spec fn debug_text(self) -> Seq<char> {
        self.quoted().framed()
    }

    /// The parts of the reference, joined by dots.
    pub open spec fn qualified_name(self) -> Seq<char> {
        match self {
            TableReferenceView::Bare { table } => table,
            TableReferenceView::Partial { schema, table } => schema + seq!['.'] + table,
            TableReferenceView::Full { catalog, schema, table } => catalog + seq!['.'] + schema
                + seq!['.'] + table,
        }
    }
}

/// The order of references is a strict total order: two references are
/// level exactly where they are equal, and one comes after another exactly
/// where the other comes before it.
pub proof fn lemma_reference_order(a: TableReferenceView, b: TableReferenceView)
    ensures
        a.ordering(b) == Ordering::Equal <==> a == b,
        a.ordering(b) == Ordering::Less <==> a.precedes(b),
        a.ordering(b) == Ordering::Greater <==> b.precedes(a),
        a.ordering(b) == Ordering::Greater <==> b.ordering(a) == Ordering::Less,
{
    match (a, b) {
        (TableReferenceView::Bare { table: ta }, TableReferenceView::Bare { table: tb }) => {
            lemma_text_order(ta, tb);
        },
        (
            TableReferenceView::Partial { schema: sa, table: ta },
            TableReferenceView::Partial { schema: sb, table: tb },
        ) => {
            lemma_text_order(sa, sb);
            lemma_text_order(ta, tb);
        },
        (
            TableReferenceView::Full { catalog: ca, schema: sa, table: ta },
            TableReferenceView::Full { catalog: cb, schema: sb, table: tb },
        ) => {
            lemma_text_order(ca, cb);
            lemma_text_order(sa, sb);
            lemma_text_order(ta, tb);
        },
        _ => {},
    }
}

impl Clone for TableReference {
    fn clone(&self) -> (copy: Self)
        ensures
            copy == *self,
    {
        match self {
            TableReference::Bare { table } => TableReference::Bare { table: table.clone() },
            TableReference::Partial { schema, table } => TableReference::Partial {
                schema: schema.clone(),
                table: table.clone(),
            },
            TableReference::Full { catalog, schema, table } => TableReference::Full {
                catalog: catalog.clone(),
                schema: schema.clone(),
                table: table.clone(),
            },
        }
    }
}

impl PartialEq for TableReference {
    /// Two references are equal when they are qualified alike and agree in
    /// every part.
    fn eq(&self, other: &Self) -> (equal: bool) {
        match (self, other) {
            (TableReference::Bare { table: a }, TableReference::Bare { table: b }) => *a == *b,
            (
                TableReference::Partial { schema: sa, table: a },
                TableReference::Partial { schema: sb, table: b },
            ) => *sa == *sb && *a == *b,
            (
                TableReference::Full { catalog: ca, schema: sa, table: a },
                TableReference::Full { catalog: cb, schema: sb, table: b },
            ) => *ca == *cb && *sa == *sb && *a == *b,
            _ => false,
        }
    }
}

impl Eq for TableReference {

}

impl vstd::std_specs::cmp::PartialEqSpecImpl for TableReference {
    open spec fn obeys_eq_spec() -> bool {
        true
    }

    open spec fn eq_spec(&self, other: &Self) -> bool {
        self@ == other@
    }
}

impl PartialOrd for TableReference {
    /// References are ordered as text is, part by part, the less qualified
    /// first.
    fn partial_cmp(&self, other: &Self) -> (order: Option<Ordering>) {
        if *self == *other {
            Some(Ordering::Equal)
        } else if self.precedes(other) {
            Some(Ordering::Less)
        } else {
            Some(Ordering::Greater)
        }
    }
}

impl vstd::std_specs::cmp::PartialOrdSpecImpl for TableReference {
    open spec fn obeys_partial_cmp_spec() -> bool {
        true
    }

    open spec fn partial_cmp_spec(&self, other: &Self) -> Option<Ordering> {
        Some(self@.ordering(other@))
    }
}

impl TableReference {
    /// Whether the reference comes before another in the order of
    /// references.
    pub fn precedes(&self, other: &Self) -> (less: bool)
        ensures
            less == self@.precedes(other@),
    {
        match (self, other) {
            (TableReference::Bare { table: a }, TableReference::Bare { table: b }) => precedes(
                a.as_str(),
                b.as_str(),
            ),
            (TableReference::Bare { .. }, _) => true,
            (
                TableReference::Partial { schema: sa, table: a },
                TableReference::Partial { schema: sb, table: b },
            ) => precedes(sa.as_str(), sb.as_str()) || (*sa == *sb && precedes(
                a.as_str(),
                b.as_str(),
            )),
            (TableReference::Partial { .. }, TableReference::Full { .. }) => true,
            (
                TableReference::Full { catalog: ca, schema: sa, table: a },
                TableReference::Full { catalog: cb, schema: sb, table: b },
            ) => precedes(ca.as_str(), cb.as_str()) || (*ca == *cb && (precedes(
                sa.as_str(),
                sb.as_str(),
            ) || (*sa == *sb && precedes(a.as_str(), b.as_str())))),
            _ => false,
        }
    }

    /// An unqualified reference.
    pub fn bare(table: &str) -> (name: Self)
        ensures
            name@ == (TableReferenceView::Bare { table: table@ }),
    {
        TableReference::Bare { table: String::from_str(table) }
    }

    /// A reference qualified by a schema.
    pub fn partial(schema: &str, table: &str) -> (name: Self)
        ensures
            name@ == (TableReferenceView::Partial { schema: schema@, table: table@ }),
    {
        TableReference::Partial { schema: String::from_str(schema), table: String::from_str(table) }
    }

    /// A reference qualified by a catalog and a schema.
    pub fn full(catalog: &str, schema: &str, table: &str) -> (name: Self)
        ensures
            name@ == (TableReferenceView::Full {
                catalog: catalog@,
                schema: schema@,
                table: table@,
            }),
    {
        TableReference::Full {
            catalog: String::from_str(catalog),
            schema: String::from_str(schema),
            table: String::from_str(table),
        }
    }

    /// The name of the table itself.
    pub fn table(&self) -> (table: &str)
        ensures
            table@ == self@.table(),
    {
        match self {
            TableReference::Bare { table } => table.as_str(),
            TableReference::Partial { table, .. } => table.as_str(),
            TableReference::Full { table, .. } => table.as_str(),
        }
    }

    /// The reference with each part in the form in which std writes a `str`
    /// for debugging.
    pub fn quoted(&self) -> (quoted: Self)
        ensures
            quoted@ == self@.quoted(),
    {
        match self {
            TableReference::Bare { table } => TableReference::Bare {
                table: debug_str(table.as_str()),
            },
            TableReference::Partial { schema, table } => TableReference::Partial {
                schema: debug_str(schema.as_str()),
                table: debug_str(table.as_str()),
            },
            TableReference::Full { catalog, schema, table } => TableReference::Full {
                catalog: debug_str(catalog.as_str()),
                schema: debug_str(schema.as_str()),
                table: debug_str(table.as_str()),
            },
        }
    }

    /// The reference written as a value with named parts: how far it is
    /// qualified, then in braces each part as it stands behind the name of
    /// what it is.
    pub fn framed(&self) -> (text: String)
        ensures
            text@ == self@.framed(),
    {
        match self {
            TableReference::Bare { table } => {
                let mut text = String::from_str("Bare { table: ");
                text.append(table.as_str());
                text.append(" }");
                text
            },
            TableReference::Partial { schema, table } => {
                let mut text = String::from_str("Partial { schema: ");
                text.append(schema.as_str());
                text.append(", table: ");
                text.append(table.as_str());
                text.append(" }");
                text
            },
            TableReference::Full { catalog, schema, table } => {
                let mut text = String::from_str("Full { catalog: ");
                text.append(catalog.as_str());
                text.append(", schema: ");
                text.append(schema.as_str());
                text.append(", table: ");
                text.append(table.as_str());
                text.append(" }");
                text
            },
        }
    }

    /// The reference as it is written for debugging, such as
    /// `Bare { table: "orders" }`.
    pub fn to_debug_string(&self) -> (text: String)
        ensures
            text@ == self@.debug_text(),
    {
        let quoted = self.quoted();
        quoted.framed()
    }

    /// The reference as text: its parts joined by dots.
    pub fn to_string(&self) -> (text: String)
        ensures
            text@ == self@.qualified_name(),
    {
        proof {
            reveal_strlit(".");
            assert("."@ =~= seq!['.']);
        }
        match self {
            TableReference::Bare { table } => table.clone(),
            TableReference::Partial { schema, table } => {
                let mut text = schema.clone();
                text.append(".");
                text.append(table.as_str());
                text
            },
            TableReference::Full { catalog, schema, table } => {
                let mut text = catalog.clone();
                text.append(".");
                text.append(schema.as_str());
                text.append(".");
                text.append(table.as_str());
                text
            },
        }
    }
}

} // verus!
