//! Schemas: ordered lists of uniquely named, typed columns.  A column is
//! named by its qualifier, where it has one, and its own name.

use crate::table_reference::{TableReference, TableReferenceView};
use std::sync::Arc;
use vstd::prelude::*;

verus! {

/// The reserved column whose presence marks a stream as a changelog: its
/// records stand for inserts, updates and deletes rather than inserts alone.
pub const UPDATING_META_FIELD: &'static str = "_updating_meta";

/// The reserved column that holds each record's event time.
pub const TIMESTAMP_FIELD: &'static str = "_timestamp";

/// The kind of a column's type.  What a type is made with (the unit of a
/// timestamp, the members of a record) is not tracked at this layer.
#[derive(Clone, Copy, Debug, PartialEq, Eq, Structural)]
pub enum DataType {
    Null,
    Boolean,
    Int8,
    Int16,
    Int32,
    Int64,
    UInt8,
    UInt16,
    UInt32,
    UInt64,
    Float16,
    Float32,
    Float64,
    Decimal,
    Utf8,
    Binary,
    Date,
    Time,
    Timestamp,
    Duration,
    Interval,
    List,
    Struct,
    Other,
}

/// One column of a schema.
#[derive(Debug, PartialEq, Eq)]
pub struct Field {
    /// The table that the column comes from, where that is known.
    pub qualifier: Option<TableReference>,
    pub name: String,
    pub data_type: DataType,
    pub nullable: bool,
}

/// The mathematical model of a [`Field`].
pub struct FieldView {
    pub qualifier: Option<TableReferenceView>,
    pub name: Seq<char>,
    pub data_type: DataType,
    pub nullable: bool,
}

impl View for Field {
    type V = FieldView;

    open spec fn view(&self) -> FieldView {
        FieldView {
            qualifier: qualifier_view(self.qualifier),
            name: self.name@,
            data_type: self.data_type,
            nullable: self.nullable,
        }
    }
}

/// The model of a column's qualifier.
pub open spec fn qualifier_view(qualifier: Option<TableReference>) -> Option<TableReferenceView> {
    match qualifier {
        Some(table) => Some(table@),
        None => None,
    }
}

impl FieldView {
    /// The column's name behind its qualifier and a dot, or alone where the
    /// column has no qualifier.
    pub open spec fn qualified_name(self) -> Seq<char> {
        match self.qualifier {
            Some(table) => table.qualified_name() + seq!['.'] + self.name,
            None => self.name,
        }
    }

    /// Two columns cannot stand in one schema: they have the same qualifier
    /// and the same name.
    pub open spec fn clashes_with(self, other: FieldView) -> bool {
        self.qualifier == other.qualifier && self.name == other.name
    }
}

/// Whether two qualifiers are the same.
fn same_qualifier(left: &Option<TableReference>, right: &Option<TableReference>) -> (equal: bool)
    ensures
        equal == (qualifier_view(*left) == qualifier_view(*right)),
{
    match (left, right) {
        (Some(a), Some(b)) => *a == *b,
        (None, None) => true,
        _ => false,
    }
}

impl Clone for Field {
    fn clone(&self) -> (copy: Self)
        ensures
            copy == *self,
    {
        let qualifier = match &self.qualifier {
            Some(table) => Some(table.clone()),
            None => None,
        };
        Field {
            qualifier,
            name: self.name.clone(),
            data_type: self.data_type,
            nullable: self.nullable,
        }
    }
}

impl Field {
    /// A column without a qualifier.
    pub fn new(name: &str, data_type: DataType, nullable: bool) -> (field: Self)
        ensures
            field@ == (FieldView { qualifier: None, name: name@, data_type, nullable }),
    {
        Field { qualifier: None, name: String::from_str(name), data_type, nullable }
    }

    /// A column of the given table.
    pub fn qualified(qualifier: TableReference, name: &str, data_type: DataType, nullable: bool) -> (field:
        Self)
        ensures
            field@ == (FieldView { qualifier: Some(qualifier@), name: name@, data_type, nullable }),
    {
        Field { qualifier: Some(qualifier), name: String::from_str(name), data_type, nullable }
    }

    /// The column's name behind its qualifier and a dot, or alone where the
    /// column has no qualifier.
    pub fn qualified_name(&self) -> (text: String)
        ensures
            text@ == self@.qualified_name(),
    {
        match &self.qualifier {
            Some(table) => {
                proof {
                    reveal_strlit(".");
                    assert("."@ =~= seq!['.']);
                }
                let mut text = table.to_string();
                text.append(".");
                text.append(self.name.as_str());
                text
            },
            None => self.name.clone(),
        }
    }
}

/// The models of a list of fields, in order.
pub open spec fn field_views(fields: Seq<Field>) -> Seq<FieldView> {
    Seq::new(fields.len(), |i: int| fields[i]@)
}

/// No two columns have both the same qualifier and the same name.
pub open spec fn distinct_names(fields: Seq<FieldView>) -> bool {
    forall|i: int, j: int|
        0 <= i < j < fields.len() ==> !(#[trigger] fields[i]).clashes_with(#[trigger] fields[j])
}

/// Some column has the given name; a column's qualifier plays no part.
pub open spec fn has_column(fields: Seq<FieldView>, name: Seq<char>) -> bool {
    exists|i: int| 0 <= i < fields.len() && (#[trigger] fields[i]).name == name
}

/// The schema belongs to a changelog stream.
pub open spec fn is_updating(fields: Seq<FieldView>) -> bool {
    has_column(fields, UPDATING_META_FIELD@)
}

/// The qualified names of the columns, in order, with a comma and a space
/// between neighbours.
pub open spec fn joined_names(fields: Seq<FieldView>) -> Seq<char>
    decreases fields.len(),
{
    if fields.len() == 0 {
        Seq::empty()
    } else if fields.len() == 1 {
        fields[0].qualified_name()
    } else {
        joined_names(fields.drop_last()) + seq![',', ' '] + fields.last().qualified_name()
    }
}

/// A schema as text: the qualified names of its columns in square brackets,
/// and behind them the schema's metadata, of which a schema here has none.
pub open spec fn schema_text(fields: Seq<FieldView>) -> Seq<char> {
    "fields:["@ + joined_names(fields) + "], metadata:{}"@
}

/// An ordered list of columns, no two of which have both the same qualifier
/// and the same name.  A schema here carries no metadata.
#[derive(Debug)]
pub struct Schema {
    fields: Vec<Field>,
}

impl PartialEq for Schema {
    /// Two schemas are equal when they hold the same columns in the same
    /// order.
    fn eq(&self, other: &Self) -> (equal: bool) {
        if self.fields.len() != other.fields.len() {
            assert(self@.len() != other@.len());
            return false;
        }
        let mut i: usize = 0;
        while i < self.fields.len()
            invariant
                i <= self.fields.len(),
                self.fields.len() == other.fields.len(),
                forall|a: int| 0 <= a < i ==> self@[a] == other@[a],
            decreases self.fields.len() - i,
        {
            let left = &self.fields[i];
            let right = &other.fields[i];
            if !(same_qualifier(&left.qualifier, &right.qualifier) && left.name == right.name
                && left.data_type == right.data_type && left.nullable == right.nullable) {
                assert(self@[i as int] != other@[i as int]);
                return false;
            }
            i += 1;
        }
        assert(self@ =~= other@);
        true
    }
}

impl Eq for Schema {

}

impl vstd::std_specs::cmp::PartialEqSpecImpl for Schema {
    open spec fn obeys_eq_spec() -> bool {
        true
    }

    open spec fn eq_spec(&self, other: &Self) -> bool {
        self@ == other@
    }
}

/// A schema shared between the plan nodes that carry it.
pub type SchemaRef = Arc<Schema>;

impl View for Schema {
    type V = Seq<FieldView>;

    closed spec fn view(&self) -> Seq<FieldView> {
        field_views(self.fields@)
    }
}

impl Schema {
    #[verifier::type_invariant]
    spec fn names_are_distinct(self) -> bool {
        distinct_names(field_views(self.fields@))
    }

    /// The schema without columns.
    pub fn empty() -> (schema: Self)
        ensures
            schema@ == Seq::<FieldView>::empty(),
    {
        let schema = Schema { fields: Vec::new() };
        assert(schema@ =~= Seq::<FieldView>::empty());
        schema
    }

    /// The schema with the given columns, unless two of them have both the
    /// same qualifier and the same name.
    pub fn try_new(fields: Vec<Field>) -> (made: Option<Self>)
        ensures
            made is Some <==> distinct_names(field_views(fields@)),
            made matches Some(schema) ==> schema@ == field_views(fields@),
    {
        let ghost views = field_views(fields@);
        let mut j: usize = 0;
        while j < fields.len()
            invariant
                j <= fields.len(),
                views == field_views(fields@),
                forall|a: int, b: int|
                    0 <= a < b < j ==> !(#[trigger] views[a]).clashes_with(#[trigger] views[b]),
            decreases fields.len() - j,
        {
            let mut i: usize = 0;
            while i < j
                invariant
                    i <= j < fields.len(),
                    views == field_views(fields@),
                    forall|a: int|
                        0 <= a < i ==> !(#[trigger] views[a]).clashes_with(views[j as int]),
                decreases j - i,
            {
                if same_qualifier(&fields[i].qualifier, &fields[j].qualifier) && fields[i].name
                    == fields[j].name {
                    assert(views[i as int].clashes_with(views[j as int]));
                    return None;
                }
                i += 1;
            }
            j += 1;
        }
        Some(Schema { fields })
    }

    /// The number of columns.  In every schema that exists at run time the
    /// columns are named apart, which a caller learns here.
    pub fn len(&self) -> (n: usize)
        ensures
            n == self@.len(),
            distinct_names(self@),
    {
        proof {
            use_type_invariant(self);
        }
        self.fields.len()
    }

    /// The column at a position, if the schema has that many columns.
    pub fn field(&self, index: usize) -> (field: Option<&Field>)
        ensures
            match field {
                Some(field) => index < self@.len() && field@ == self@[index as int],
                None => index >= self@.len(),
            },
    {
        if index < self.fields.len() {
            Some(&self.fields[index])
        } else {
            None
        }
    }

    /// Whether some column has the given name.
    pub fn has_column_with_unqualified_name(&self, name: &str) -> (found: bool)
        ensures
            found == has_column(self@, name@),
    {
        let wanted = String::from_str(name);
        let mut i: usize = 0;
        while i < self.fields.len()
            invariant
                i <= self.fields.len(),
                wanted@ == name@,
                forall|a: int| 0 <= a < i ==> (#[trigger] self@[a]).name != name@,
            decreases self.fields.len() - i,
        {
            if self.fields[i].name == wanted {
                assert(self@[i as int].name == name@);
                return true;
            }
            i += 1;
        }
        false
    }

    /// The schema as text, such as `fields:[t.id, total], metadata:{}`: the
    /// qualified names of its columns in square brackets, and the empty
    /// metadata.
    pub fn to_string(&self) -> (text: String)
        ensures
            text@ == schema_text(self@),
    {
        proof {
            reveal_strlit(", ");
            assert(", "@ =~= seq![',', ' ']);
        }
        let mut text = String::from_str("fields:[");
        let mut i: usize = 0;
        proof {
            assert(self@.take(0) =~= Seq::<FieldView>::empty());
            assert(text@ =~= "fields:["@ + joined_names(self@.take(0)));
        }
        while i < self.fields.len()
            invariant
                i <= self.fields.len(),
                ", "@ == seq![',', ' '],
                text@ == "fields:["@ + joined_names(self@.take(i as int)),
            decreases self.fields.len() - i,
        {
            if i > 0 {
                text.append(", ");
            }
            let name = self.fields[i].qualified_name();
            text.append(name.as_str());
            proof {
                let before = self@.take(i as int);
                let after = self@.take(i + 1);
                assert(after.drop_last() =~= before);
                assert(after.last() == self@[i as int]);
                assert(text@ =~= "fields:["@ + joined_names(after));
            }
            i += 1;
        }
        text.append("], metadata:{}");
        proof {
            assert(self@.take(i as int) =~= self@);
        }
        text
    }

    /// Whether the schema belongs to a changelog stream.
    pub fn is_updating(&self) -> (updating: bool)
        ensures
            updating == is_updating(self@),
    {
        self.has_column_with_unqualified_name(UPDATING_META_FIELD)
    }
}

} // verus!
