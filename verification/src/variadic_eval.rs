//! The functions of any number of operands on datums.

use vstd::prelude::*;
use crate::variadic::VariadicFunc;
use crate::datum::{Datum, DatumV, any_null, datums_view, res_view};
use crate::error::{EvalError, EvalErrorV};
use crate::float::FloatUnit;
use crate::func_datetime::make_timestamp;
use crate::func_digest::{hmac_bytes, hmac_spec, hmac_string};
use crate::func_jsonb::{has_null, jsonb_build_array, jsonb_build_object, keys_and_values, paired};
use crate::func_list::{
    array_create_multidim, array_create_multidim_spec, array_create_scalar, each_array, list_create, list_slice,
    list_slice_spec, scalar_dims, slice_bounds,
};
use crate::func_regex::{build_regex_spec, regexp_match_dynamic, regexp_match_of};
use crate::func_string::{
    concat_texts, default_pad, each_null_or_text, pad_leading, pad_leading_spec, replace, split_part,
    split_part_spec, substr, substr_spec, text_concat_variadic,
};
use crate::func_stringify::{array_to_string, array_to_string_text, conforms, not_of_type, plain};
use crate::pairs::{dedup_keep_first, pairs_sorted};
use crate::scalar_type::{ScalarType, ScalarTypeV};
use crate::shape::{
    check_all, check_keys_and_values, check_slice_bounds, check_texts, check_variant, shape_error, wrong_shape,
};
use crate::text::replaced;

verus! {

/// The first datum from place `i` on that is not null; null where there is
/// none.
pub open spec fn first_non_null(vals: Seq<DatumV>, i: int) -> DatumV
    decreases vals.len() - i,
{
    if i < 0 || i >= vals.len() {
        DatumV::Null
    } else if !(vals[i] is Null) {
        vals[i]
    } else {
        first_non_null(vals, i + 1)
    }
}

/// The first datum that is not null; null where there is none.
pub fn first_present(datums: &Vec<Datum>) -> (r: Datum)
    ensures
        r@ == first_non_null(datums_view(datums@), 0),
{
    let ghost vals = datums_view(datums@);
    let mut i: usize = 0;
    while i < datums.len()
        invariant
            i <= datums.len(),
            vals == datums_view(datums@),
            first_non_null(vals, 0) == first_non_null(vals, i as int),
        decreases datums.len() - i,
    {
        if !datums[i].is_null() {
            return datums[i].clone();
        }
        i += 1;
    }
    Datum::Null
}

/// The first datum, unless it is null: then the error whose message is the
/// second.
pub fn error_if_null_datums(datums: &Vec<Datum>) -> (r: Result<Datum, EvalError>)
    requires
        datums@.len() == 2,
        datums@[0]@ is Null ==> datums@[1]@ is String,
    ensures
        res_view(r) == if datums@[0]@ is Null {
            Err::<DatumV, EvalErrorV>(EvalErrorV::Internal(datums@[1]@->String_0))
        } else {
            Ok::<DatumV, EvalErrorV>(datums@[0]@)
        },
{
    if datums[0].is_null() {
        Err(EvalError::internal(datums[1].unwrap_str()))
    } else {
        Ok(datums[0].clone())
    }
}

/// Whether a type is an array type.
pub fn is_array_type(ty: &ScalarType) -> (r: bool)
    ensures
        r == ty is Array,
{
    match ty {
        ScalarType::Array(_) => true,
        _ => false,
    }
}

impl VariadicFunc {
    /// Whether the function is defined on the datums, none of which is a
    /// null that the function lets through.
    pub open spec fn accepts(self, vals: Seq<DatumV>) -> bool {
        match self {
            VariadicFunc::Coalesce => true,
            VariadicFunc::Concat => each_null_or_text(vals),
            VariadicFunc::MakeTimestamp => vals.len() == 6
                && (forall|i: int| 0 <= i < 5 ==> (#[trigger] vals[i]) is Int64)
                && vals[5] is Float64,
            VariadicFunc::PadLeading => 2 <= vals.len() <= 3
                && vals[0] is String
                && vals[1] is Int64
                && (vals.len() == 3 ==> vals[2] is String),
            VariadicFunc::Substr => 2 <= vals.len() <= 3
                && vals[0] is String
                && vals[1] is Int64
                && (vals.len() == 3 ==> vals[2] is Int64),
            VariadicFunc::Replace => vals.len() == 3 && vals[0] is String && vals[1] is String && vals[2] is String,
            VariadicFunc::JsonbBuildArray => true,
            VariadicFunc::JsonbBuildObject => (!any_null(vals) ==> keys_and_values(vals)),
            VariadicFunc::ArrayCreate { elem_type } => elem_type is Array ==> each_array(vals),
            VariadicFunc::ArrayToString { .. } => 2 <= vals.len() <= 3
                && (vals[0] is Null || vals[0] is Array)
                && (vals[1] is Null || vals[1] is String)
                && (vals.len() == 3 ==> vals[2] is Null || vals[2] is String),
            VariadicFunc::ListCreate { .. } => true,
            VariadicFunc::RecordCreate { .. } => true,
            VariadicFunc::ListSlice => slice_bounds(vals),
            VariadicFunc::SplitPart => vals.len() == 3 && vals[0] is String && vals[1] is String && vals[2] is Int64,
            VariadicFunc::RegexpMatch => 2 <= vals.len() <= 3
                && (forall|i: int| 0 <= i < vals.len() ==> (#[trigger] vals[i]) is String),
            VariadicFunc::HmacString => vals.len() == 3
                && vals[0] is String
                && vals[1] is String
                && vals[2] is String,
            VariadicFunc::HmacBytes => vals.len() == 3 && vals[0] is Bytes && vals[1] is Bytes && vals[2] is String,
            VariadicFunc::ErrorIfNull => vals.len() == 2 && (vals[0] is Null ==> vals[1] is String),
        }
    }

    /// Whether the operands alone decide the result. Where they do not, the
    /// floating-point unit of the host has a part in it.
    pub open spec fn exact(self) -> bool {
        match self {
            VariadicFunc::MakeTimestamp => false,
            VariadicFunc::ArrayToString { elem_type } => plain(elem_type@),
            _ => true,
        }
    }

    /// Whether the operands decide the result: the function is exact, or
    /// it is exact on these operands, because nothing is asked of the host
    /// for them.
    pub open spec fn exact_on(self, vals: Seq<DatumV>) -> bool {
        self.exact()
    }

    /// The result on datums that the function accepts, where it is exact.
    pub open spec fn result_spec(self, vals: Seq<DatumV>) -> Result<DatumV, EvalErrorV> {
        match self {
            VariadicFunc::Coalesce => Ok::<DatumV, EvalErrorV>(first_non_null(vals, 0)),
            VariadicFunc::Concat => Ok::<DatumV, EvalErrorV>(DatumV::String(concat_texts(vals))),
            VariadicFunc::PadLeading => pad_leading_spec(
                vals[0]->String_0,
                vals[1]->Int64_0 as int,
                if vals.len() == 3 {
                    vals[2]->String_0
                } else {
                    default_pad()
                },
            ),
            VariadicFunc::Substr => substr_spec(
                vals[0]->String_0,
                vals[1]->Int64_0 as int,
                if vals.len() == 3 {
                    Some(vals[2]->Int64_0 as int)
                } else {
                    None
                },
            ),
            VariadicFunc::Replace => Ok::<DatumV, EvalErrorV>(
                DatumV::String(replaced(vals[0]->String_0, vals[1]->String_0, vals[2]->String_0)),
            ),
            VariadicFunc::JsonbBuildArray => Ok::<DatumV, EvalErrorV>(
                if any_null(vals) {
                    DatumV::Null
                } else {
                    DatumV::List(vals)
                },
            ),
            VariadicFunc::JsonbBuildObject => Ok::<DatumV, EvalErrorV>(
                if any_null(vals) {
                    DatumV::Null
                } else {
                    DatumV::Dict(dedup_keep_first(pairs_sorted(paired(vals))))
                },
            ),
            VariadicFunc::ArrayCreate { elem_type } => if elem_type is Array {
                array_create_multidim_spec(vals)
            } else {
                Ok::<DatumV, EvalErrorV>(DatumV::Array { dims: scalar_dims(vals.len()), elements: vals })
            },
            VariadicFunc::ArrayToString { elem_type } => if vals[0] is Null || vals[1] is Null {
                Ok::<DatumV, EvalErrorV>(DatumV::Null)
            } else if conforms(vals[0], ScalarTypeV::Array(Box::new(elem_type@))) {
                Ok::<DatumV, EvalErrorV>(
                    DatumV::String(
                        array_to_string_text(
                            vals[0]->elements,
                            elem_type@,
                            vals[1]->String_0,
                            if vals.len() == 3 && vals[2] is String {
                                Some(vals[2]->String_0)
                            } else {
                                None
                            },
                        ),
                    ),
                )
            } else {
                Err::<DatumV, EvalErrorV>(not_of_type())
            },
            VariadicFunc::ListCreate { .. } => Ok::<DatumV, EvalErrorV>(DatumV::List(vals)),
            VariadicFunc::RecordCreate { .. } => Ok::<DatumV, EvalErrorV>(DatumV::List(vals)),
            VariadicFunc::ListSlice => Ok::<DatumV, EvalErrorV>(list_slice_spec(vals)),
            VariadicFunc::SplitPart => split_part_spec(vals[0]->String_0, vals[1]->String_0, vals[2]->Int64_0 as int),
            VariadicFunc::RegexpMatch => match build_regex_spec(
                vals[1]->String_0,
                if vals.len() == 3 {
                    vals[2]->String_0
                } else {
                    ""@
                },
            ) {
                Ok((p, ci)) => Ok::<DatumV, EvalErrorV>(regexp_match_of(p, ci, vals[0]->String_0)),
                Err(e) => Err::<DatumV, EvalErrorV>(e),
            },
            VariadicFunc::HmacString => hmac_spec(
                vstd::utf8::encode_utf8(vals[0]->String_0),
                vstd::utf8::encode_utf8(vals[1]->String_0),
                vals[2]->String_0,
            ),
            VariadicFunc::HmacBytes => hmac_spec(vals[0]->Bytes_0, vals[1]->Bytes_0, vals[2]->String_0),
            VariadicFunc::ErrorIfNull => if vals[0] is Null {
                Err::<DatumV, EvalErrorV>(EvalErrorV::Internal(vals[1]->String_0))
            } else {
                Ok::<DatumV, EvalErrorV>(vals[0])
            },
            _ => arbitrary(),
        }
    }

    /// The result on datums: null where the function lets nulls through and
    /// one of them is null; an error where it is not defined on them.
    #[verifier::opaque]
    pub open spec fn apply_spec(self, vals: Seq<DatumV>) -> Result<DatumV, EvalErrorV> {
        if self.propagates_nulls() && any_null(vals) {
            Ok(DatumV::Null)
        } else if !self.accepts(vals) {
            Err(wrong_shape())
        } else {
            self.result_spec(vals)
        }
    }

    /// Whether the function is defined on the datums.
    pub fn check(&self, datums: &Vec<Datum>) -> (r: bool)
        ensures
            r == self.accepts(datums_view(datums@)),
    {
        let ghost vals = datums_view(datums@);
        proof {
            assert(forall|i: int| 0 <= i < vals.len() ==> vals[i] == datums@[i]@);
        }
        match self {
            VariadicFunc::Coalesce => true,
            VariadicFunc::Concat => check_texts(datums, true),
            VariadicFunc::MakeTimestamp => datums.len() == 6
                && check_all(datums, 0, 5, 4)
                && check_variant(&datums[5], 6),
            VariadicFunc::PadLeading => 2 <= datums.len()
                && datums.len() <= 3
                && check_variant(&datums[0], 13)
                && check_variant(&datums[1], 4)
                && (datums.len() != 3 || check_variant(&datums[2], 13)),
            VariadicFunc::Substr => 2 <= datums.len()
                && datums.len() <= 3
                && check_variant(&datums[0], 13)
                && check_variant(&datums[1], 4)
                && (datums.len() != 3 || check_variant(&datums[2], 4)),
            VariadicFunc::Replace => datums.len() == 3
                && check_variant(&datums[0], 13)
                && check_variant(&datums[1], 13)
                && check_variant(&datums[2], 13),
            VariadicFunc::JsonbBuildArray => true,
            VariadicFunc::JsonbBuildObject => (has_null(datums) || check_keys_and_values(datums)),
            VariadicFunc::ArrayCreate { elem_type } => {
                (!is_array_type(elem_type) || check_all(datums, 0, datums.len(), 14))
            },
            VariadicFunc::ArrayToString { .. } => 2 <= datums.len()
                && datums.len() <= 3
                && (check_variant(&datums[0], 21) || check_variant(&datums[0], 14))
                && (check_variant(&datums[1], 21) || check_variant(&datums[1], 13))
                && (datums.len() != 3 || (check_variant(&datums[2], 21) || check_variant(&datums[2], 13))),
            VariadicFunc::ListCreate { .. } => true,
            VariadicFunc::RecordCreate { .. } => true,
            VariadicFunc::ListSlice => check_slice_bounds(datums),
            VariadicFunc::SplitPart => datums.len() == 3
                && check_variant(&datums[0], 13)
                && check_variant(&datums[1], 13)
                && check_variant(&datums[2], 4),
            VariadicFunc::RegexpMatch => 2 <= datums.len()
                && datums.len() <= 3
                && check_all(datums, 0, datums.len(), 13),
            VariadicFunc::HmacString => datums.len() == 3
                && check_variant(&datums[0], 13)
                && check_variant(&datums[1], 13)
                && check_variant(&datums[2], 13),
            VariadicFunc::HmacBytes => datums.len() == 3
                && check_variant(&datums[0], 12)
                && check_variant(&datums[1], 12)
                && check_variant(&datums[2], 13),
            VariadicFunc::ErrorIfNull => datums.len() == 2
                && (!check_variant(&datums[0], 21) || check_variant(&datums[1], 13)),
        }
    }

    /// The function on datums. Where the function lets nulls through, one
    /// null among them gives null before anything else is looked at.
    pub fn apply<F: FloatUnit>(&self, datums: &Vec<Datum>, fu: &F) -> (r: Result<Datum, EvalError>)
        ensures
            self.propagates_nulls() && any_null(datums_view(datums@)) ==> res_view(r) == Ok::<DatumV, EvalErrorV>(
                DatumV::Null,
            ),
            !(self.propagates_nulls() && any_null(datums_view(datums@))) && !self.accepts(datums_view(datums@))
                ==> res_view(r) == Err::<DatumV, EvalErrorV>(wrong_shape()),
            self.exact_on(datums_view(datums@)) ==> res_view(r) == self.apply_spec(datums_view(datums@)),
    {
        reveal(VariadicFunc::apply_spec);
        let ghost vals = datums_view(datums@);
        proof {
            assert(forall|i: int| 0 <= i < vals.len() ==> vals[i] == datums@[i]@);
        }
        if self.propagates_nulls() && has_null(datums) {
            return Ok(Datum::Null);
        }
        if !self.check(datums) {
            return Err(shape_error());
        }
        match self {
            VariadicFunc::Coalesce => Ok(first_present(datums)),
            VariadicFunc::Concat => Ok(text_concat_variadic(datums)),
            VariadicFunc::MakeTimestamp => Ok(make_timestamp(datums, fu)),
            VariadicFunc::PadLeading => pad_leading(datums),
            VariadicFunc::Substr => substr(datums),
            VariadicFunc::Replace => Ok(replace(datums)),
            VariadicFunc::JsonbBuildArray => Ok(jsonb_build_array(datums)),
            VariadicFunc::JsonbBuildObject => Ok(jsonb_build_object(datums)),
            VariadicFunc::ArrayCreate { elem_type } => if is_array_type(elem_type) {
                array_create_multidim(datums)
            } else {
                array_create_scalar(datums)
            },
            VariadicFunc::ArrayToString { elem_type } => array_to_string(datums, elem_type, fu),
            VariadicFunc::ListCreate { .. } => Ok(list_create(datums)),
            VariadicFunc::RecordCreate { .. } => Ok(list_create(datums)),
            VariadicFunc::ListSlice => Ok(list_slice(datums)),
            VariadicFunc::SplitPart => split_part(datums),
            VariadicFunc::RegexpMatch => regexp_match_dynamic(datums),
            VariadicFunc::HmacString => hmac_string(datums),
            VariadicFunc::HmacBytes => hmac_bytes(datums),
            VariadicFunc::ErrorIfNull => error_if_null_datums(datums),
        }
    }
}

} // verus!
