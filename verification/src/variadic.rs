//! Functions of any number of arguments, and functions of none: what they
//! are, and what types they give.

use vstd::prelude::*;
use crate::scalar_type::{column_types_view, ColumnName, ColumnType, ColumnTypeV, ScalarType, ScalarTypeV};

verus! {

/// A function of no arguments.
#[derive(Clone, Copy, Debug, PartialEq, Eq, Hash)]
pub enum NullaryFunc {
    MzLogicalTimestamp,
}

impl NullaryFunc {
    /// The column type of the result.
    pub fn output_type(&self) -> (r: ColumnType)
        ensures
            r@ == (ScalarTypeV::Numeric { scale: Some(0u8) }).nullable(false),
    {
        match self {
            NullaryFunc::MzLogicalTimestamp => (ScalarType::Numeric { scale: Some(0) }).nullable(false),
        }
    }

    /// The name under which the function is shown.
    pub fn name(&self) -> (r: &'static str)
        ensures
            r@ == "mz_logical_timestamp"@,
    {
        match self {
            NullaryFunc::MzLogicalTimestamp => "mz_logical_timestamp",
        }
    }
}

/// A function of any number of arguments.
#[derive(Debug, PartialEq, Eq, Hash)]
pub enum VariadicFunc {
    Coalesce,
    Concat,
    MakeTimestamp,
    PadLeading,
    Substr,
    Replace,
    JsonbBuildArray,
    JsonbBuildObject,
    ArrayCreate { elem_type: ScalarType },
    ArrayToString { elem_type: ScalarType },
    ListCreate { elem_type: ScalarType },
    RecordCreate { field_names: Vec<ColumnName> },
    ListSlice,
    SplitPart,
    RegexpMatch,
    HmacString,
    HmacBytes,
    ErrorIfNull,
}

/// Whether any of the column types is nullable.
pub open spec fn any_nullable(types: Seq<ColumnTypeV>) -> bool {
    exists|i: int| 0 <= i < types.len() && (#[trigger] types[i]).nullable
}

/// The fields of a record of the given names and types, as many as there
/// are of both.
pub open spec fn record_fields(names: Seq<ColumnName>, types: Seq<ColumnTypeV>) -> Seq<(Seq<char>, ColumnTypeV)> {
    Seq::new(
        if names.len() <= types.len() {
            names.len()
        } else {
            types.len()
        },
        |i: int| (names[i]@, types[i]),
    )
}

impl VariadicFunc {
    /// Whether the result is null where an argument is null. A function
    /// that fails on a null argument does not give null for it.
    pub open spec fn propagates_nulls_spec(&self) -> bool {
        match self {
            VariadicFunc::Coalesce
            | VariadicFunc::Concat
            | VariadicFunc::JsonbBuildArray
            | VariadicFunc::JsonbBuildObject
            | VariadicFunc::ListCreate { .. }
            | VariadicFunc::RecordCreate { .. }
            | VariadicFunc::ArrayCreate { .. }
            | VariadicFunc::ArrayToString { .. }
            | VariadicFunc::ErrorIfNull => false,
            _ => true,
        }
    }

    /// Whether the result is null where an argument is null.
    #[verifier::when_used_as_spec(propagates_nulls_spec)]
    pub fn propagates_nulls(&self) -> (r: bool)
        ensures
            r == self.propagates_nulls_spec(),
    {
        match self {
            VariadicFunc::Coalesce
            | VariadicFunc::Concat
            | VariadicFunc::JsonbBuildArray
            | VariadicFunc::JsonbBuildObject
            | VariadicFunc::ListCreate { .. }
            | VariadicFunc::RecordCreate { .. }
            | VariadicFunc::ArrayCreate { .. }
            | VariadicFunc::ArrayToString { .. }
            | VariadicFunc::ErrorIfNull => false,
            _ => true,
        }
    }

    /// Whether the result can be null where no argument is.
    pub open spec fn introduces_nulls_spec(&self) -> bool {
        match self {
            VariadicFunc::ArrayCreate { .. } | VariadicFunc::ListCreate { .. } | VariadicFunc::ErrorIfNull => false,
            _ => true,
        }
    }

    /// Whether the result can be null where no argument is.
    #[verifier::when_used_as_spec(introduces_nulls_spec)]
    pub fn introduces_nulls(&self) -> (r: bool)
        ensures
            r == self.introduces_nulls_spec(),
    {
        match self {
            VariadicFunc::ArrayCreate { .. } | VariadicFunc::ListCreate { .. } | VariadicFunc::ErrorIfNull => false,
            _ => true,
        }
    }

    /// The argument types for which the function has a type: at least one
    /// where the type is that of the first argument.
    pub open spec fn typed_for(self, inputs: Seq<ColumnTypeV>) -> bool {
        match self {
            VariadicFunc::Coalesce | VariadicFunc::ListSlice | VariadicFunc::ErrorIfNull => inputs.len() > 0,
            _ => true,
        }
    }

    /// The scalar type of the result for arguments of the given types.
    pub open spec fn output_scalar_type(self, inputs: Seq<ColumnTypeV>) -> ScalarTypeV {
        match self {
            VariadicFunc::Coalesce | VariadicFunc::ListSlice | VariadicFunc::ErrorIfNull => inputs[0].scalar_type,
            VariadicFunc::Concat
            | VariadicFunc::PadLeading
            | VariadicFunc::Substr
            | VariadicFunc::Replace
            | VariadicFunc::ArrayToString { .. }
            | VariadicFunc::SplitPart => ScalarTypeV::String,
            VariadicFunc::MakeTimestamp => ScalarTypeV::Timestamp,
            VariadicFunc::JsonbBuildArray | VariadicFunc::JsonbBuildObject => ScalarTypeV::Jsonb,
            VariadicFunc::ArrayCreate { elem_type } => if elem_type@ is Array {
                elem_type@
            } else {
                ScalarTypeV::Array(Box::new(elem_type@))
            },
            VariadicFunc::ListCreate { elem_type } => ScalarTypeV::List {
                element_type: Box::new(elem_type@),
                custom_oid: None,
            },
            VariadicFunc::RecordCreate { field_names } => ScalarTypeV::Record {
                fields: record_fields(field_names@, inputs),
                custom_oid: None,
                custom_name: None,
            },
            VariadicFunc::RegexpMatch => ScalarTypeV::Array(Box::new(ScalarTypeV::String)),
            VariadicFunc::HmacString | VariadicFunc::HmacBytes => ScalarTypeV::Bytes,
        }
    }

    /// Whether the result is nullable for arguments of the given types:
    /// where the function introduces nulls, or propagates them and an
    /// argument is nullable.
    pub open spec fn output_nullable(self, inputs: Seq<ColumnTypeV>) -> bool {
        self.introduces_nulls_spec() || (self.propagates_nulls_spec() && any_nullable(inputs))
    }

    /// The column type of the result for arguments of the given column
    /// types.
    pub fn output_type(&self, input_types: Vec<ColumnType>) -> (r: ColumnType)
        requires
            self.typed_for(column_types_view(input_types@)),
        ensures
            r.scalar_type@ == self.output_scalar_type(column_types_view(input_types@)),
            r.nullable == self.output_nullable(column_types_view(input_types@)),
    {
        let ghost inputs = column_types_view(input_types@);
        proof {
            reveal_with_fuel(crate::scalar_type::scalar_type_view, 3);
        }
        let mut in_nullable = false;
        let mut i: usize = 0;
        while i < input_types.len()
            invariant
                i <= input_types.len(),
                inputs == column_types_view(input_types@),
                in_nullable == (exists|j: int| 0 <= j < i && (#[trigger] inputs[j]).nullable),
            decreases input_types.len() - i,
        {
            if input_types[i].nullable {
                assert(inputs[i as int].nullable);
                in_nullable = true;
            }
            i += 1;
        }
        let nullable = self.introduces_nulls() || (self.propagates_nulls() && in_nullable);
        let scalar_type = match self {
            VariadicFunc::Coalesce | VariadicFunc::ListSlice | VariadicFunc::ErrorIfNull => {
                assert(inputs[0] == input_types@[0]@);
                input_types[0].scalar_type.clone()
            },
            VariadicFunc::Concat
            | VariadicFunc::PadLeading
            | VariadicFunc::Substr
            | VariadicFunc::Replace
            | VariadicFunc::ArrayToString { .. }
            | VariadicFunc::SplitPart => ScalarType::String,
            VariadicFunc::MakeTimestamp => ScalarType::Timestamp,
            VariadicFunc::JsonbBuildArray | VariadicFunc::JsonbBuildObject => ScalarType::Jsonb,
            VariadicFunc::ArrayCreate { elem_type } => match elem_type {
                ScalarType::Array(_) => elem_type.clone(),
                _ => ScalarType::Array(Box::new(elem_type.clone())),
            },
            VariadicFunc::ListCreate { elem_type } => ScalarType::List {
                element_type: Box::new(elem_type.clone()),
                custom_oid: None,
            },
            VariadicFunc::RecordCreate { field_names } => {
                let n = if field_names.len() <= input_types.len() {
                    field_names.len()
                } else {
                    input_types.len()
                };
                let mut fields: Vec<(ColumnName, ColumnType)> = Vec::new();
                let mut k: usize = 0;
                while k < n
                    invariant
                        k <= n,
                        n <= field_names.len(),
                        n <= input_types.len(),
                        fields.len() == k,
                        forall|j: int|
                            0 <= j < k ==> (#[trigger] fields@[j]).0@ == field_names@[j]@ && fields@[j].1@
                                == input_types@[j]@,
                    decreases n - k,
                {
                    fields.push((field_names[k].clone(), input_types[k].clone()));
                    k += 1;
                }
                let st = ScalarType::Record { fields, custom_oid: None, custom_name: None };
                proof {
                    crate::scalar_type::lemma_record_view(st);
                    assert(st@->Record_fields =~= record_fields(field_names@, inputs));
                }
                st
            },
            VariadicFunc::RegexpMatch => ScalarType::Array(Box::new(ScalarType::String)),
            VariadicFunc::HmacString | VariadicFunc::HmacBytes => ScalarType::Bytes,
        };
        scalar_type.nullable(nullable)
    }

    /// The name under which the function is shown.
    pub fn name(&self) -> (r: &'static str)
        ensures
            r@ == self.name_spec(),
    {
        match self {
            VariadicFunc::Coalesce => "coalesce",
            VariadicFunc::Concat => "concat",
            VariadicFunc::MakeTimestamp => "makets",
            VariadicFunc::PadLeading => "lpad",
            VariadicFunc::Substr => "substr",
            VariadicFunc::Replace => "replace",
            VariadicFunc::JsonbBuildArray => "jsonb_build_array",
            VariadicFunc::JsonbBuildObject => "jsonb_build_object",
            VariadicFunc::ArrayCreate { .. } => "array_create",
            VariadicFunc::ArrayToString { .. } => "array_to_string",
            VariadicFunc::ListCreate { .. } => "list_create",
            VariadicFunc::RecordCreate { .. } => "record_create",
            VariadicFunc::ListSlice => "list_slice",
            VariadicFunc::SplitPart => "split_string",
            VariadicFunc::RegexpMatch => "regexp_match",
            VariadicFunc::HmacString | VariadicFunc::HmacBytes => "hmac",
            VariadicFunc::ErrorIfNull => "error_if_null",
        }
    }

    /// The name under which the function is shown.
    pub open spec fn name_spec(self) -> Seq<char> {
        match self {
            VariadicFunc::Coalesce => "coalesce"@,
            VariadicFunc::Concat => "concat"@,
            VariadicFunc::MakeTimestamp => "makets"@,
            VariadicFunc::PadLeading => "lpad"@,
            VariadicFunc::Substr => "substr"@,
            VariadicFunc::Replace => "replace"@,
            VariadicFunc::JsonbBuildArray => "jsonb_build_array"@,
            VariadicFunc::JsonbBuildObject => "jsonb_build_object"@,
            VariadicFunc::ArrayCreate { .. } => "array_create"@,
            VariadicFunc::ArrayToString { .. } => "array_to_string"@,
            VariadicFunc::ListCreate { .. } => "list_create"@,
            VariadicFunc::RecordCreate { .. } => "record_create"@,
            VariadicFunc::ListSlice => "list_slice"@,
            VariadicFunc::SplitPart => "split_string"@,
            VariadicFunc::RegexpMatch => "regexp_match"@,
            VariadicFunc::HmacString | VariadicFunc::HmacBytes => "hmac"@,
            VariadicFunc::ErrorIfNull => "error_if_null"@,
        }
    }
}

/// The nullability of the result of a function of any number of arguments
/// is what its two properties say.
pub proof fn lemma_variadic_nullability(f: VariadicFunc, inputs: Seq<ColumnTypeV>)
    ensures
        f.output_nullable(inputs) == (f.introduces_nulls_spec() || (f.propagates_nulls_spec() && any_nullable(inputs))),
{
}

} // verus!
