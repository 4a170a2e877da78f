//! Scalar types and column types: what a datum can be, and whether it can
//! be null.

use vstd::prelude::*;

verus! {

/// The name of a column.
#[derive(Debug, PartialEq, Eq, Hash)]
pub struct ColumnName(pub String);

/// The type of a datum, without its nullability.
#[derive(Debug, PartialEq, Eq, Hash)]
pub enum ScalarType {
    Bool,
    Int16,
    Int32,
    Int64,
    Float32,
    Float64,
    Numeric { scale: Option<u8> },
    Date,
    Time,
    Timestamp,
    TimestampTz,
    Interval,
    Bytes,
    String,
    Char { length: Option<usize> },
    VarChar { length: Option<usize> },
    Jsonb,
    Uuid,
    Array(Box<ScalarType>),
    List { element_type: Box<ScalarType>, custom_oid: Option<u32> },
    Record { fields: Vec<(ColumnName, ColumnType)>, custom_oid: Option<u32>, custom_name: Option<String> },
    Oid,
    Dict { value_type: Box<ScalarType>, custom_oid: Option<u32> },
    RegProc,
}

/// A scalar type together with its nullability.
#[derive(Debug, PartialEq, Eq, Hash)]
pub struct ColumnType {
    /// The underlying scalar type of the column.
    pub scalar_type: ScalarType,
    /// Whether a datum of the column can be null.
    pub nullable: bool,
}

/// The mathematical value of a [`ScalarType`].
pub enum ScalarTypeV {
    Bool,
    Int16,
    Int32,
    Int64,
    Float32,
    Float64,
    Numeric { scale: Option<u8> },
    Date,
    Time,
    Timestamp,
    TimestampTz,
    Interval,
    Bytes,
    String,
    Char { length: Option<usize> },
    VarChar { length: Option<usize> },
    Jsonb,
    Uuid,
    Array(Box<ScalarTypeV>),
    List { element_type: Box<ScalarTypeV>, custom_oid: Option<u32> },
    Record { fields: Seq<(Seq<char>, ColumnTypeV)>, custom_oid: Option<u32>, custom_name: Option<Seq<char>> },
    Oid,
    Dict { value_type: Box<ScalarTypeV>, custom_oid: Option<u32> },
    RegProc,
}

/// The mathematical value of a [`ColumnType`].
pub struct ColumnTypeV {
    pub scalar_type: ScalarTypeV,
    pub nullable: bool,
}

impl View for ColumnName {
    type V = Seq<char>;

    open spec fn view(&self) -> Seq<char> {
        self.0@
    }
}

/// The view of an optional text.
pub open spec fn opt_text_view(s: Option<String>) -> Option<Seq<char>> {
    match s {
        Some(s) => Some(s@),
        None => None,
    }
}

/// The mathematical value of a scalar type.
pub open spec fn scalar_type_view(t: ScalarType) -> ScalarTypeV
    decreases t,
{
    match t {
        ScalarType::Bool => ScalarTypeV::Bool,
        ScalarType::Int16 => ScalarTypeV::Int16,
        ScalarType::Int32 => ScalarTypeV::Int32,
        ScalarType::Int64 => ScalarTypeV::Int64,
        ScalarType::Float32 => ScalarTypeV::Float32,
        ScalarType::Float64 => ScalarTypeV::Float64,
        ScalarType::Numeric { scale } => ScalarTypeV::Numeric { scale },
        ScalarType::Date => ScalarTypeV::Date,
        ScalarType::Time => ScalarTypeV::Time,
        ScalarType::Timestamp => ScalarTypeV::Timestamp,
        ScalarType::TimestampTz => ScalarTypeV::TimestampTz,
        ScalarType::Interval => ScalarTypeV::Interval,
        ScalarType::Bytes => ScalarTypeV::Bytes,
        ScalarType::String => ScalarTypeV::String,
        ScalarType::Char { length } => ScalarTypeV::Char { length },
        ScalarType::VarChar { length } => ScalarTypeV::VarChar { length },
        ScalarType::Jsonb => ScalarTypeV::Jsonb,
        ScalarType::Uuid => ScalarTypeV::Uuid,
        ScalarType::Array(t) => ScalarTypeV::Array(Box::new(scalar_type_view(*t))),
        ScalarType::List { element_type, custom_oid } => ScalarTypeV::List {
            element_type: Box::new(scalar_type_view(*element_type)),
            custom_oid,
        },
        ScalarType::Record { fields, custom_oid, custom_name } => ScalarTypeV::Record {
            fields: Seq::new(
                fields@.len(),
                |i: int|
                    if 0 <= i < fields@.len() {
                        (
                            fields@[i].0@,
                            ColumnTypeV {
                                scalar_type: scalar_type_view(fields@[i].1.scalar_type),
                                nullable: fields@[i].1.nullable,
                            },
                        )
                    } else {
                        (Seq::empty(), ColumnTypeV { scalar_type: ScalarTypeV::Bool, nullable: false })
                    },
            ),
            custom_oid,
            custom_name: opt_text_view(custom_name),
        },
        ScalarType::Oid => ScalarTypeV::Oid,
        ScalarType::Dict { value_type, custom_oid } => ScalarTypeV::Dict {
            value_type: Box::new(scalar_type_view(*value_type)),
            custom_oid,
        },
        ScalarType::RegProc => ScalarTypeV::RegProc,
    }
}

impl View for ScalarType {
type V = ScalarTypeV;

open spec fn view(&self) -> ScalarTypeV {
    scalar_type_view(*self)
}
}

impl View for ColumnType {
    type V = ColumnTypeV;

    open spec fn view(&self) -> ColumnTypeV {
        ColumnTypeV { scalar_type: self.scalar_type@, nullable: self.nullable }
    }
}

/// The views of a sequence of column types.
pub open spec fn column_types_view(s: Seq<ColumnType>) -> Seq<ColumnTypeV> {
    Seq::new(s.len(), |i: int| s[i]@)
}

impl ScalarTypeV {
    /// A number that tells the variants apart and ignores what they hold.
    pub open spec fn tag(self) -> int {
        match self {
            ScalarTypeV::Bool => 0,
            ScalarTypeV::Int16 => 1,
            ScalarTypeV::Int32 => 2,
            ScalarTypeV::Int64 => 3,
            ScalarTypeV::Float32 => 4,
            ScalarTypeV::Float64 => 5,
            ScalarTypeV::Numeric { .. } => 6,
            ScalarTypeV::Date => 7,
            ScalarTypeV::Time => 8,
            ScalarTypeV::Timestamp => 9,
            ScalarTypeV::TimestampTz => 10,
            ScalarTypeV::Interval => 11,
            ScalarTypeV::Bytes => 12,
            ScalarTypeV::String => 13,
            ScalarTypeV::Char { .. } => 14,
            ScalarTypeV::VarChar { .. } => 15,
            ScalarTypeV::Jsonb => 16,
            ScalarTypeV::Uuid => 17,
            ScalarTypeV::Array(_) => 18,
            ScalarTypeV::List { .. } => 19,
            ScalarTypeV::Record { .. } => 20,
            ScalarTypeV::Oid => 21,
            ScalarTypeV::Dict { .. } => 22,
            ScalarTypeV::RegProc => 23,
        }
    }

    /// Equality of two types up to what they embed: a numeric's scale, a
    /// character type's length, a custom identifier. Lists, arrays and maps
    /// compare their element types in the same way; records compare the
    /// names and the types of their fields.
    pub open spec fn base_eq(self, other: ScalarTypeV) -> bool
        decreases self,
    {
        match (self, other) {
            (ScalarTypeV::List { element_type: l, .. }, ScalarTypeV::List { element_type: r, .. }) => l.base_eq(*r),
            (ScalarTypeV::Array(l), ScalarTypeV::Array(r)) => l.base_eq(*r),
            (ScalarTypeV::Dict { value_type: l, .. }, ScalarTypeV::Dict { value_type: r, .. }) => l.base_eq(*r),
            (ScalarTypeV::Record { fields: fa, .. }, ScalarTypeV::Record { fields: fb, .. }) => {
                &&& fa.len() == fb.len()
                &&& forall|i: int|
                    0 <= i < fa.len() ==> fa[i].0 == fb[i].0 && (#[trigger] fa[i]).1.scalar_type.base_eq(
                        fb[i].1.scalar_type,
                    )
            },
            (s, o) => s.tag() == o.tag(),
        }
    }

    /// The same type with what it embeds reset: no scale, no length, no
    /// custom identifier, down through lists, arrays and maps.
    pub open spec fn default_embedded_value(self) -> ScalarTypeV
        decreases self,
    {
        match self {
            ScalarTypeV::List { element_type, .. } => ScalarTypeV::List {
                element_type: Box::new(element_type.default_embedded_value()),
                custom_oid: None,
            },
            ScalarTypeV::Dict { value_type, .. } => ScalarTypeV::Dict {
                value_type: Box::new(value_type.default_embedded_value()),
                custom_oid: None,
            },
            ScalarTypeV::Array(a) => ScalarTypeV::Array(Box::new(a.default_embedded_value())),
            ScalarTypeV::Numeric { .. } => ScalarTypeV::Numeric { scale: None },
            ScalarTypeV::Char { .. } => ScalarTypeV::Char { length: None },
            ScalarTypeV::VarChar { .. } => ScalarTypeV::VarChar { length: None },
            v => v,
        }
    }

    /// The column type of this scalar type with the given nullability.
    pub open spec fn nullable(self, nullable: bool) -> ColumnTypeV {
        ColumnTypeV { scalar_type: self, nullable }
    }
}

/// What the view of a record type holds, field by field.
pub proof fn lemma_record_view(t: ScalarType)
    requires
        t is Record,
    ensures
        t@ is Record,
        t@->Record_custom_oid == t->Record_custom_oid,
        t@->Record_custom_name == opt_text_view(t->Record_custom_name),
        t@->Record_fields.len() == t->Record_fields@.len(),
        forall|i: int|
            0 <= i < t->Record_fields@.len() ==> #[trigger] t@->Record_fields[i] == (
                t->Record_fields@[i].0@,
                t->Record_fields@[i].1@,
            ),
{
}

impl Clone for ColumnName {
    fn clone(&self) -> (r: Self)
        ensures
            r@ == self@,
    {
        ColumnName(self.0.clone())
    }
}

impl ColumnName {
    /// Makes a column name of a text.
    pub fn new(s: String) -> (r: ColumnName)
        ensures
            r@ == s@,
    {
        ColumnName(s)
    }

    /// Returns this column name as a `str`.
    pub fn as_str(&self) -> (r: &str)
        ensures
            r@ == self@,
    {
        self.0.as_str()
    }

    /// Returns a mutable reference to the string underlying this column name.
    pub fn as_mut_str(&mut self) -> (r: &mut String)
        ensures
            *r == old(self).0,
            final(self).0 == *final(r),
    {
        &mut self.0
    }

    /// Whether two names are the same text.
    pub fn same(&self, other: &ColumnName) -> (r: bool)
        ensures
            r == (self@ == other@),
    {
        self.0 == other.0
    }
}

impl Clone for ScalarType {
    #[verifier::loop_isolation(false)]
    fn clone(&self) -> (r: Self)
        ensures
            r@ == self@,
        decreases self,
    {
        match self {
            ScalarType::Bool => ScalarType::Bool,
            ScalarType::Int16 => ScalarType::Int16,
            ScalarType::Int32 => ScalarType::Int32,
            ScalarType::Int64 => ScalarType::Int64,
            ScalarType::Float32 => ScalarType::Float32,
            ScalarType::Float64 => ScalarType::Float64,
            ScalarType::Numeric { scale } => ScalarType::Numeric { scale: *scale },
            ScalarType::Date => ScalarType::Date,
            ScalarType::Time => ScalarType::Time,
            ScalarType::Timestamp => ScalarType::Timestamp,
            ScalarType::TimestampTz => ScalarType::TimestampTz,
            ScalarType::Interval => ScalarType::Interval,
            ScalarType::Bytes => ScalarType::Bytes,
            ScalarType::String => ScalarType::String,
            ScalarType::Char { length } => ScalarType::Char { length: *length },
            ScalarType::VarChar { length } => ScalarType::VarChar { length: *length },
            ScalarType::Jsonb => ScalarType::Jsonb,
            ScalarType::Uuid => ScalarType::Uuid,
            ScalarType::Array(t) => {
                let inner: &ScalarType = &**t;
                ScalarType::Array(Box::new(inner.clone()))
            },
            ScalarType::List { element_type, custom_oid } => {
                let inner: &ScalarType = &**element_type;
                ScalarType::List { element_type: Box::new(inner.clone()), custom_oid: *custom_oid }
            },
            ScalarType::Record { fields, custom_oid, custom_name } => {
                let mut out: Vec<(ColumnName, ColumnType)> = Vec::new();
                let mut i: usize = 0;
                while i < fields.len()
                    invariant
                        i <= fields.len(),
                        out.len() == i,
                        forall|j: int|
                            0 <= j < i ==> out@[j].0@ == fields@[j].0@ && out@[j].1@ == fields@[j].1@,
                    decreases fields.len() - i,
                {
                    let st = fields[i].1.scalar_type.clone();
                    out.push((fields[i].0.clone(), ColumnType { scalar_type: st, nullable: fields[i].1.nullable }));
                    i += 1;
                }
                let name = match custom_name {
                    Some(s) => Some(s.clone()),
                    None => None,
                };
                let r = ScalarType::Record { fields: out, custom_oid: *custom_oid, custom_name: name };
                assert(r@->Record_fields =~= self@->Record_fields);
                r
            },
            ScalarType::Oid => ScalarType::Oid,
            ScalarType::Dict { value_type, custom_oid } => {
                let inner: &ScalarType = &**value_type;
                ScalarType::Dict { value_type: Box::new(inner.clone()), custom_oid: *custom_oid }
            },
            ScalarType::RegProc => ScalarType::RegProc,
        }
    }
}

impl Clone for ColumnType {
    fn clone(&self) -> (r: Self)
        ensures
            r@ == self@,
    {
        ColumnType { scalar_type: self.scalar_type.clone(), nullable: self.nullable }
    }
}

impl ScalarType {
    /// The column type of this scalar type with the given nullability.
    pub fn nullable(self, nullable: bool) -> (r: ColumnType)
        ensures
            r.scalar_type == self,
            r.nullable == nullable,
            r@ == self@.nullable(nullable),
    {
        ColumnType { scalar_type: self, nullable }
    }

    /// The element type of a list type.
    pub fn unwrap_list_element_type(&self) -> (r: &ScalarType)
        requires
            self is List,
        ensures
            *r == *self->List_element_type,
            self@ is List,
            r@ == *self@->List_element_type,
    {
        match self {
            ScalarType::List { element_type, .. } => &**element_type,
            _ => unreached(),
        }
    }

    /// The element type of an array type.
    pub fn unwrap_array_element_type(&self) -> (r: &ScalarType)
        requires
            self is Array,
        ensures
            *r == *self->Array_0,
            self@ is Array,
            r@ == *self@->Array_0,
    {
        match self {
            ScalarType::Array(t) => &**t,
            _ => unreached(),
        }
    }

    /// The value type of a map type.
    pub fn unwrap_map_value_type(&self) -> (r: &ScalarType)
        requires
            self is Dict,
        ensures
            *r == *self->Dict_value_type,
            self@ is Dict,
            r@ == *self@->Dict_value_type,
    {
        match self {
            ScalarType::Dict { value_type, .. } => &**value_type,
            _ => unreached(),
        }
    }

    /// A number that tells the variants apart and ignores what they hold.
    pub fn base_tag(&self) -> (r: u8)
        ensures
            r as int == self@.tag(),
    {
        match self {
            ScalarType::Bool => 0,
            ScalarType::Int16 => 1,
            ScalarType::Int32 => 2,
            ScalarType::Int64 => 3,
            ScalarType::Float32 => 4,
            ScalarType::Float64 => 5,
            ScalarType::Numeric { .. } => 6,
            ScalarType::Date => 7,
            ScalarType::Time => 8,
            ScalarType::Timestamp => 9,
            ScalarType::TimestampTz => 10,
            ScalarType::Interval => 11,
            ScalarType::Bytes => 12,
            ScalarType::String => 13,
            ScalarType::Char { .. } => 14,
            ScalarType::VarChar { .. } => 15,
            ScalarType::Jsonb => 16,
            ScalarType::Uuid => 17,
            ScalarType::Array(_) => 18,
            ScalarType::List { .. } => 19,
            ScalarType::Record { .. } => 20,
            ScalarType::Oid => 21,
            ScalarType::Dict { .. } => 22,
            ScalarType::RegProc => 23,
        }
    }

    /// Whether two types are equal up to what they embed.
    #[verifier::loop_isolation(false)]
    pub fn base_eq(&self, other: &ScalarType) -> (r: bool)
        ensures
            r == self@.base_eq(other@),
        decreases self,
    {
        match self {
            ScalarType::List { element_type: l, .. } => match other {
                ScalarType::List { element_type: r, .. } => {
                    let a: &ScalarType = &**l;
                    a.base_eq(&**r)
                },
                _ => false,
            },
            ScalarType::Array(l) => match other {
                ScalarType::Array(r) => {
                    let a: &ScalarType = &**l;
                    a.base_eq(&**r)
                },
                _ => false,
            },
            ScalarType::Dict { value_type: l, .. } => match other {
                ScalarType::Dict { value_type: r, .. } => {
                    let a: &ScalarType = &**l;
                    a.base_eq(&**r)
                },
                _ => false,
            },
            ScalarType::Record { fields: fa, .. } => match other {
                ScalarType::Record { fields: fb, .. } => {
                    let ghost va = self@->Record_fields;
                    let ghost vb = other@->Record_fields;
                    if fa.len() != fb.len() {
                        return false;
                    }
                    let mut i: usize = 0;
                    while i < fa.len()
                        invariant
                            i <= fa.len(),
                            fa.len() == fb.len(),
                            forall|j: int|
                                0 <= j < i ==> va[j].0 == vb[j].0 && (#[trigger] va[j]).1.scalar_type.base_eq(
                                    vb[j].1.scalar_type,
                                ),
                        decreases fa.len() - i,
                    {
                        let same_name = fa[i].0.same(&fb[i].0);
                        let same_type = fa[i].1.scalar_type.base_eq(&fb[i].1.scalar_type);
                        if !same_name || !same_type {
                            assert(!(va[i as int].0 == vb[i as int].0 && va[i as int].1.scalar_type.base_eq(
                                vb[i as int].1.scalar_type,
                            )));
                            return false;
                        }
                        i += 1;
                    }
                    true
                },
                _ => false,
            },
            s => s.base_tag() == other.base_tag(),
        }
    }

    /// The same type with what it embeds reset to the defaults.
    pub fn default_embedded_value(&self) -> (r: ScalarType)
        ensures
            r@ == self@.default_embedded_value(),
        decreases self,
    {
        match self {
            ScalarType::List { element_type, .. } => {
                let inner: &ScalarType = &**element_type;
                ScalarType::List { element_type: Box::new(inner.default_embedded_value()), custom_oid: None }
            },
            ScalarType::Dict { value_type, .. } => {
                let inner: &ScalarType = &**value_type;
                ScalarType::Dict { value_type: Box::new(inner.default_embedded_value()), custom_oid: None }
            },
            ScalarType::Array(a) => {
                let inner: &ScalarType = &**a;
                ScalarType::Array(Box::new(inner.default_embedded_value()))
            },
            ScalarType::Numeric { .. } => ScalarType::Numeric { scale: None },
            ScalarType::Char { .. } => ScalarType::Char { length: None },
            ScalarType::VarChar { .. } => ScalarType::VarChar { length: None },
            v => v.clone(),
        }
    }
}

} // verus!
