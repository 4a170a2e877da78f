//! Scalar expressions: trees of function applications over the columns of
//! a row.

use vstd::prelude::*;
use crate::binary::BinaryFunc;
use crate::binary_eval::{and_datums, and_spec, or_datums, or_spec};
use crate::collection_text::{elements_view, split_elements, split_spec, ElementText, ElementTextV};
use crate::datum::{any_null, datums_view, pairs_view, res_view, Datum, DatumV};
use crate::error::{EvalError, EvalErrorV};
use crate::float::FloatUnit;
use crate::func_jsonb::push_datum;
use crate::func_list::{array_create_scalar, scalar_dims};
use crate::func_string::{invalid_input, syntax_error};
use crate::pairs::{dedup_keep_first, keep_first, pairs_sorted, sort_pairs};
use crate::scalar_type::{ColumnType, ScalarType, ScalarTypeV};
use crate::shape::{check_bool, shape_error, wrong_shape};
use crate::unary::UnaryFunc;
use crate::variadic::{NullaryFunc, VariadicFunc};

verus! {

/// A scalar expression.
#[derive(Debug, PartialEq, Eq, Hash)]
pub enum MirScalarExpr {
    /// A column of the input row.
    Column(usize),
    /// A literal value, or the error that computing it gave.
    Literal(Result<Datum, EvalError>, ColumnType),
    /// A function of no arguments.
    CallNullary(NullaryFunc),
    /// A function of one argument.
    CallUnary { func: UnaryFunc, expr: Box<MirScalarExpr> },
    /// A function of two arguments.
    CallBinary { func: BinaryFunc, expr1: Box<MirScalarExpr>, expr2: Box<MirScalarExpr> },
    /// A function of any number of arguments.
    CallVariadic { func: VariadicFunc, exprs: Vec<MirScalarExpr> },
    /// A choice between two expressions by a third.
    If { cond: Box<MirScalarExpr>, then: Box<MirScalarExpr>, els: Box<MirScalarExpr> },
}


/// The greater of two numbers.
pub open spec fn max_nat(a: nat, b: nat) -> nat {
    if a >= b {
        a
    } else {
        b
    }
}

/// The depth of an expression: the longest way from it down to a column or
/// a literal, through the expressions by which functions cast elements too.
pub open spec fn depth(e: MirScalarExpr) -> nat
    decreases e,
{
    match e {
        MirScalarExpr::Column(_) => 0,
        MirScalarExpr::Literal(_, _) => 0,
        MirScalarExpr::CallNullary(_) => 0,
        MirScalarExpr::CallUnary { func, expr } => max_nat(depth(*expr), func_depth(func)) + 1,
        MirScalarExpr::CallBinary { expr1, expr2, .. } => max_nat(depth(*expr1), depth(*expr2)) + 1,
        MirScalarExpr::CallVariadic { exprs, .. } => max_depth(exprs@, exprs@.len()) + 1,
        MirScalarExpr::If { cond, then, els } => max_nat(max_nat(depth(*cond), depth(*then)), depth(*els)) + 1,
    }
}

/// The depth of the expression by which a function casts elements, 0 for a
/// function without one.
pub open spec fn func_depth(f: UnaryFunc) -> nat
    decreases f,
{
    match f {
        UnaryFunc::CastStringToArray { cast_expr, .. } => depth(*cast_expr),
        UnaryFunc::CastStringToList { cast_expr, .. } => depth(*cast_expr),
        UnaryFunc::CastStringToMap { cast_expr, .. } => depth(*cast_expr),
        UnaryFunc::CastList1ToList2 { cast_expr, .. } => depth(*cast_expr),
        _ => 0,
    }
}

/// The greatest depth among the first `n` expressions.
pub open spec fn max_depth(s: Seq<MirScalarExpr>, n: nat) -> nat
    decreases s, n,
{
    if n == 0 || n > s.len() {
        0
    } else {
        max_nat(max_depth(s, (n - 1) as nat), depth(s[n - 1]))
    }
}

/// No expression is deeper than the deepest.
pub proof fn lemma_max_depth(s: Seq<MirScalarExpr>, n: nat, i: int)
    requires
        0 <= i < n <= s.len(),
    ensures
        depth(s[i]) <= max_depth(s, n),
    decreases n,
{
    if i < n - 1 {
        lemma_max_depth(s, (n - 1) as nat, i);
    }
}

/// The error of a column that the row has not.
pub open spec fn no_column() -> EvalErrorV {
    EvalErrorV::Internal("column beyond the end of the row"@)
}

/// The error of the logical time, which no row has.
pub open spec fn no_logical_time() -> EvalErrorV {
    EvalErrorV::Internal("the logical time is not known to a row"@)
}

/// The conjunction of two results, of which the second is not looked at
/// where the first is false or an error.
pub open spec fn and_lazy(ra: Result<DatumV, EvalErrorV>, rb: Result<DatumV, EvalErrorV>) -> Result<
    DatumV,
    EvalErrorV,
> {
    match ra {
        Err(e) => Err(e),
        Ok(a) => if a is False {
            Ok(DatumV::False)
        } else {
            match rb {
                Err(e) => Err(e),
                Ok(b) => if (a.is_bool() || a is Null) && (b.is_bool() || b is Null) {
                    Ok(and_spec(a, b))
                } else {
                    Err(wrong_shape())
                },
            }
        },
    }
}

/// The disjunction of two results, of which the second is not looked at
/// where the first is true or an error.
pub open spec fn or_lazy(ra: Result<DatumV, EvalErrorV>, rb: Result<DatumV, EvalErrorV>) -> Result<
    DatumV,
    EvalErrorV,
> {
    match ra {
        Err(e) => Err(e),
        Ok(a) => if a is True {
            Ok(DatumV::True)
        } else {
            match rb {
                Err(e) => Err(e),
                Ok(b) => if (a.is_bool() || a is Null) && (b.is_bool() || b is Null) {
                    Ok(or_spec(a, b))
                } else {
                    Err(wrong_shape())
                },
            }
        },
    }
}

/// A function of two operands on their results: the error of the first
/// operand, else that of the second, else the function on the two datums.
/// Conjunction and disjunction look at the second only where the first
/// does not decide.
pub open spec fn binary_spec(
    func: BinaryFunc,
    ra: Result<DatumV, EvalErrorV>,
    rb: Result<DatumV, EvalErrorV>,
) -> Result<DatumV, EvalErrorV> {
    match func {
        BinaryFunc::And => and_lazy(ra, rb),
        BinaryFunc::Or => or_lazy(ra, rb),
        _ => match ra {
            Err(e) => Err(e),
            Ok(a) => match rb {
                Err(e) => Err(e),
                Ok(b) => func.apply_spec(a, b),
            },
        },
    }
}

/// The value of an expression on the datums of a row.
pub open spec fn eval_spec(e: MirScalarExpr, datums: Seq<DatumV>) -> Result<DatumV, EvalErrorV>
    decreases e, 0nat,
{
    match e {
        MirScalarExpr::Column(i) => if i < datums.len() {
            Ok(datums[i as int])
        } else {
            Err(no_column())
        },
        MirScalarExpr::Literal(r, _) => res_view(r),
        MirScalarExpr::CallNullary(_) => Err(no_logical_time()),
        MirScalarExpr::CallUnary { func, expr } => unary_spec(func, eval_spec(*expr, datums)),
        MirScalarExpr::CallBinary { func, expr1, expr2 } => binary_spec(
            func,
            eval_spec(*expr1, datums),
            eval_spec(*expr2, datums),
        ),
        MirScalarExpr::CallVariadic { func, exprs } => variadic_spec(func, exprs@, datums),
        MirScalarExpr::If { cond, then, els } => match eval_spec(*cond, datums) {
            Err(e) => Err(e),
            Ok(c) => if c is True {
                eval_spec(*then, datums)
            } else if c is False || c is Null {
                eval_spec(*els, datums)
            } else {
                Err(wrong_shape())
            },
        },
    }
}

/// The datums of the texts of elements: a text for each element that has
/// one, null for the others.
pub open spec fn text_datums(texts: Seq<ElementTextV>) -> Seq<DatumV> {
    Seq::new(
        texts.len(),
        |i: int|
            match texts[i].text {
                Some(t) => DatumV::String(t),
                None => DatumV::Null,
            },
    )
}

/// The keys of the texts of elements with the values beside them.
pub open spec fn keyed(texts: Seq<ElementTextV>, vals: Seq<DatumV>) -> Seq<(Seq<char>, DatumV)> {
    Seq::new(
        texts.len(),
        |i: int|
            (
                match texts[i].key {
                    Some(k) => k,
                    None => Seq::empty(),
                },
                vals[i],
            ),
    )
}

/// The array of one dimension of elements, unless they are an error.
pub open spec fn array_result(r: Result<Seq<DatumV>, EvalErrorV>) -> Result<DatumV, EvalErrorV> {
    match r {
        Ok(v) => Ok(DatumV::Array { dims: scalar_dims(v.len()), elements: v }),
        Err(e) => Err(e),
    }
}

/// The list of elements, unless they are an error.
pub open spec fn list_result(r: Result<Seq<DatumV>, EvalErrorV>) -> Result<DatumV, EvalErrorV> {
    match r {
        Ok(v) => Ok(DatumV::List(v)),
        Err(e) => Err(e),
    }
}

/// The map of the keys of elements with values, unless these are an
/// error: the keys ascend, and of several values of one key the first
/// stays.
pub open spec fn map_result(texts: Seq<ElementTextV>, r: Result<Seq<DatumV>, EvalErrorV>) -> Result<
    DatumV,
    EvalErrorV,
> {
    match r {
        Ok(v) => Ok(DatumV::Dict(dedup_keep_first(pairs_sorted(keyed(texts, v))))),
        Err(e) => Err(e),
    }
}

/// Whether the elements of a list type are lists, or the values of a map
/// type maps: their texts then stand between braces.
pub open spec fn nests(ty: ScalarTypeV) -> bool {
    match ty {
        ScalarTypeV::List { element_type, .. } => *element_type is List,
        ScalarTypeV::Dict { value_type, .. } => *value_type is Dict,
        _ => false,
    }
}

/// A function of one operand on its result: the error of the operand,
/// else the function on the datum. The cast of a list casts each element,
/// as the one column of a row, by the expression of the function; the
/// cast of a text to an array, a list or a map splits the text into the
/// texts of its elements and casts each that is not null.
pub open spec fn unary_spec(func: UnaryFunc, ra: Result<DatumV, EvalErrorV>) -> Result<DatumV, EvalErrorV>
    decreases func, 1nat,
{
    match ra {
        Err(e) => Err(e),
        Ok(a) => match func {
            UnaryFunc::CastList1ToList2 { cast_expr, .. } => if a is Null {
                Ok(DatumV::Null)
            } else if !(a is List) {
                Err(wrong_shape())
            } else {
                match cast_each_spec(*cast_expr, a->List_0, a->List_0.len(), false) {
                    Ok(v) => Ok(DatumV::List(v)),
                    Err(e) => Err(e),
                }
            },
            UnaryFunc::CastStringToArray { cast_expr, .. } => if a is Null {
                Ok(DatumV::Null)
            } else if !(a is String) {
                Err(wrong_shape())
            } else {
                match split_spec(a->String_0, false, false) {
                    None => Err(syntax_error("array"@, a->String_0)),
                    Some(texts) => array_result(cast_each_spec(*cast_expr, text_datums(texts), texts.len(), true)),
                }
            },
            UnaryFunc::CastStringToList { return_ty, cast_expr } => if a is Null {
                Ok(DatumV::Null)
            } else if !(a is String) {
                Err(wrong_shape())
            } else {
                match split_spec(a->String_0, nests(return_ty@), false) {
                    None => Err(syntax_error("list"@, a->String_0)),
                    Some(texts) => list_result(cast_each_spec(*cast_expr, text_datums(texts), texts.len(), true)),
                }
            },
            UnaryFunc::CastStringToMap { return_ty, cast_expr } => if a is Null {
                Ok(DatumV::Null)
            } else if !(a is String) {
                Err(wrong_shape())
            } else {
                match split_spec(a->String_0, nests(return_ty@), true) {
                    None => Err(syntax_error("map"@, a->String_0)),
                    Some(texts) => map_result(
                        texts,
                        cast_each_spec(*cast_expr, text_datums(texts), texts.len(), true),
                    ),
                }
            },
            _ => func.apply_spec(a),
        },
    }
}

/// The first `n` datums, each cast by an expression that takes it as the
/// one column of a row, or the first error. Where nulls are skipped a null
/// stays null without the expression being asked.
pub open spec fn cast_each_spec(cast_expr: MirScalarExpr, els: Seq<DatumV>, n: nat, skip_nulls: bool) -> Result<
    Seq<DatumV>,
    EvalErrorV,
>
    decreases cast_expr, n,
{
    if n == 0 || n > els.len() {
        Ok(Seq::empty())
    } else {
        match cast_each_spec(cast_expr, els, (n - 1) as nat, skip_nulls) {
            Err(e) => Err(e),
            Ok(vs) => if skip_nulls && els[n - 1] is Null {
                Ok(vs.push(DatumV::Null))
            } else {
                match eval_spec(cast_expr, seq![els[n - 1]]) {
                    Err(e) => Err(e),
                    Ok(v) => Ok(vs.push(v)),
                }
            },
        }
    }
}

/// A function of any number of operands on expressions: the first error
/// among the operands, else the function on their datums. The choice of
/// the first that is not null looks at no operand behind that one.
pub open spec fn variadic_spec(func: VariadicFunc, exprs: Seq<MirScalarExpr>, datums: Seq<DatumV>) -> Result<
    DatumV,
    EvalErrorV,
>
    decreases exprs, exprs.len() + 1,
{
    match func {
        VariadicFunc::Coalesce => coalesce_spec(exprs, datums, 0),
        _ => match eval_all_spec(exprs, datums, exprs.len()) {
            Err(e) => Err(e),
            Ok(vals) => func.apply_spec(vals),
        },
    }
}

/// The values of the first `n` expressions, or the first error among them.
pub open spec fn eval_all_spec(exprs: Seq<MirScalarExpr>, datums: Seq<DatumV>, n: nat) -> Result<
    Seq<DatumV>,
    EvalErrorV,
>
    decreases exprs, n,
{
    if n == 0 || n > exprs.len() {
        Ok(Seq::empty())
    } else {
        match eval_all_spec(exprs, datums, (n - 1) as nat) {
            Err(e) => Err(e),
            Ok(vs) => match eval_spec(exprs[n - 1], datums) {
                Err(e) => Err(e),
                Ok(v) => Ok(vs.push(v)),
            },
        }
    }
}

/// The first value from expression `i` on that is not null, or the error
/// that came before one was found; null where there is none.
pub open spec fn coalesce_spec(exprs: Seq<MirScalarExpr>, datums: Seq<DatumV>, i: nat) -> Result<DatumV, EvalErrorV>
    decreases exprs, exprs.len() - i,
{
    if i >= exprs.len() {
        Ok(DatumV::Null)
    } else {
        match eval_spec(exprs[i as int], datums) {
            Err(e) => Err(e),
            Ok(d) => if !(d is Null) {
                Ok(d)
            } else {
                coalesce_spec(exprs, datums, i + 1)
            },
        }
    }
}

/// Whether the row alone decides the value of an expression: whether each
/// function in it is exact.
pub open spec fn exact(e: MirScalarExpr) -> bool
    decreases e, 0nat,
{
    match e {
        MirScalarExpr::Column(_) => true,
        MirScalarExpr::Literal(_, _) => true,
        MirScalarExpr::CallNullary(_) => true,
        MirScalarExpr::CallUnary { func, expr } => exact(*expr) && unary_exact(func),
        MirScalarExpr::CallBinary { func, expr1, expr2 } => func.exact() && exact(*expr1) && exact(*expr2),
        MirScalarExpr::CallVariadic { func, exprs } => func.exact() && all_exact(exprs@, exprs@.len()),
        MirScalarExpr::If { cond, then, els } => exact(*cond) && exact(*then) && exact(*els),
    }
}

/// Whether a function of one operand is exact, and with it the expression
/// by which it casts elements.
pub open spec fn unary_exact(func: UnaryFunc) -> bool
    decreases func, 1nat,
{
    match func {
        UnaryFunc::CastList1ToList2 { cast_expr, .. } => exact(*cast_expr),
        UnaryFunc::CastStringToArray { cast_expr, .. } => exact(*cast_expr),
        UnaryFunc::CastStringToList { cast_expr, .. } => exact(*cast_expr),
        UnaryFunc::CastStringToMap { cast_expr, .. } => exact(*cast_expr),
        _ => func.exact(),
    }
}

/// Whether each of the first `n` expressions is exact.
pub open spec fn all_exact(s: Seq<MirScalarExpr>, n: nat) -> bool
    decreases s, n,
{
    n == 0 || n > s.len() || (all_exact(s, (n - 1) as nat) && exact(s[n - 1]))
}

/// Each of the expressions that are all exact is exact.
pub proof fn lemma_all_exact(s: Seq<MirScalarExpr>, n: nat, i: int)
    requires
        0 <= i < n <= s.len(),
        all_exact(s, n),
    ensures
        exact(s[i]),
    decreases n,
{
    if i < n - 1 {
        lemma_all_exact(s, (n - 1) as nat, i);
    }
}

/// An error among the first expressions is the error of all of them.
pub proof fn lemma_eval_all_error(s: Seq<MirScalarExpr>, datums: Seq<DatumV>, k: nat, n: nat)
    requires
        k <= n <= s.len(),
        eval_all_spec(s, datums, k) is Err,
    ensures
        eval_all_spec(s, datums, n) == eval_all_spec(s, datums, k),
    decreases n,
{
    if k < n {
        lemma_eval_all_error(s, datums, k, (n - 1) as nat);
    }
}

/// An error among the first elements is the error of all of them.
pub proof fn lemma_cast_each_error(cast_expr: MirScalarExpr, els: Seq<DatumV>, k: nat, n: nat, skip_nulls: bool)
    requires
        k <= n <= els.len(),
        cast_each_spec(cast_expr, els, k, skip_nulls) is Err,
    ensures
        cast_each_spec(cast_expr, els, n, skip_nulls) == cast_each_spec(cast_expr, els, k, skip_nulls),
    decreases n,
{
    if k < n {
        lemma_cast_each_error(cast_expr, els, k, (n - 1) as nat, skip_nulls);
    }
}

/// The view of datums or of an error.
pub open spec fn vals_view(r: Result<Vec<Datum>, EvalError>) -> Result<Seq<DatumV>, EvalErrorV> {
    match r {
        Ok(v) => Ok(datums_view(v@)),
        Err(e) => Err(e@),
    }
}

/// Wherever a function lets nulls through, one null operand gives null,
/// whatever the other operand is and whatever the function would make of
/// it: the quotient of 1 and null is null, and so is that of null and 0.
pub proof fn lemma_null_propagates(func: BinaryFunc, a: DatumV, b: DatumV)
    requires
        func.propagates_nulls(),
        a is Null || b is Null,
    ensures
        binary_spec(func, Ok(a), Ok(b)) == Ok::<DatumV, EvalErrorV>(DatumV::Null),
        func.apply_spec(a, b) == Ok::<DatumV, EvalErrorV>(DatumV::Null),
{
    reveal(BinaryFunc::apply_spec);
}

/// Wherever a function of one operand lets nulls through, null gives null.
pub proof fn lemma_unary_null_propagates(func: UnaryFunc, a: DatumV)
    requires
        func.propagates_nulls(),
        a is Null,
    ensures
        unary_spec(func, Ok(a)) == Ok::<DatumV, EvalErrorV>(DatumV::Null),
{
    reveal(UnaryFunc::apply_spec);
}

/// Wherever a function of any number of operands lets nulls through, one
/// null among the values of its operands gives null.
pub proof fn lemma_variadic_null_propagates(func: VariadicFunc, vals: Seq<DatumV>, i: int)
    requires
        func.propagates_nulls(),
        0 <= i < vals.len(),
        vals[i] is Null,
    ensures
        func.apply_spec(vals) == Ok::<DatumV, EvalErrorV>(DatumV::Null),
{
    reveal(VariadicFunc::apply_spec);
}

/// A conjunction whose first operand is false is false, whatever the
/// second is: an error too. So is one whose second operand is false,
/// unless the first is an error.
pub proof fn lemma_and_short_circuit(first: Result<DatumV, EvalErrorV>, second: Result<DatumV, EvalErrorV>)
    ensures
        and_lazy(Ok(DatumV::False), second) == Ok::<DatumV, EvalErrorV>(DatumV::False),
        binary_spec(BinaryFunc::And, Ok(DatumV::False), second) == Ok::<DatumV, EvalErrorV>(DatumV::False),
        first is Ok && (first->Ok_0.is_bool() || first->Ok_0 is Null) ==> and_lazy(first, Ok(DatumV::False)) == Ok::<
            DatumV,
            EvalErrorV,
        >(DatumV::False),
{
}

/// A disjunction whose first operand is true is true, whatever the second
/// is: an error too.
pub proof fn lemma_or_short_circuit(second: Result<DatumV, EvalErrorV>)
    ensures
        or_lazy(Ok(DatumV::True), second) == Ok::<DatumV, EvalErrorV>(DatumV::True),
        binary_spec(BinaryFunc::Or, Ok(DatumV::True), second) == Ok::<DatumV, EvalErrorV>(DatumV::True),
{
}

/// A result that is looked at. It is true of every result, and marks the
/// results that stand for those of operands.
pub open spec fn considered<T>(r: T) -> bool {
    true
}

/// What a function of one operand may give on the result of its operand,
/// whatever the host does: the error of the operand; null for a null
/// where the function lets nulls through; else, for a function that the
/// operand decides, what it is on the operand. Of a function on an
/// operand for which it asks the host nothing is said here.
#[verifier::opaque]
pub open spec fn unary_values(func: UnaryFunc, ra: Result<DatumV, EvalErrorV>, r: Result<DatumV, EvalErrorV>) -> bool {
    match ra {
        Err(e) => r == Err::<DatumV, EvalErrorV>(e),
        Ok(a) => if func.propagates_nulls() && a is Null {
            r == Ok::<DatumV, EvalErrorV>(DatumV::Null)
        } else if func.casts_elements() {
            true
        } else if !func.accepts(a) {
            r == Err::<DatumV, EvalErrorV>(wrong_shape())
        } else {
            func.exact_on(a) ==> r == func.result_spec(a)
        },
    }
}

/// What a function of two operands, but conjunction and disjunction, may
/// give on two datums, whatever the host does: null where the function
/// lets nulls through and one of the datums is null, before anything else
/// is looked at.
#[verifier::opaque]
pub open spec fn binary_values(func: BinaryFunc, a: DatumV, b: DatumV, r: Result<DatumV, EvalErrorV>) -> bool {
    if func.propagates_nulls() && (a is Null || b is Null) {
        r == Ok::<DatumV, EvalErrorV>(DatumV::Null)
    } else if !func.accepts(a, b) {
        r == Err::<DatumV, EvalErrorV>(wrong_shape())
    } else {
        func.exact_on(a, b) ==> r == func.result_spec(a, b)
    }
}

/// What a function of any number of operands may give on datums, whatever
/// the host does.
#[verifier::opaque]
pub open spec fn variadic_values(func: VariadicFunc, vals: Seq<DatumV>, r: Result<DatumV, EvalErrorV>) -> bool {
    if func.propagates_nulls() && any_null(vals) {
        r == Ok::<DatumV, EvalErrorV>(DatumV::Null)
    } else if !func.accepts(vals) {
        r == Err::<DatumV, EvalErrorV>(wrong_shape())
    } else {
        func.exact_on(vals) ==> r == func.result_spec(vals)
    }
}

/// Whether an expression may have a result on the datums of a row,
/// whatever the host does. Where every function in the expression is
/// exact there is one such result, that of `eval_spec`; a function that
/// asks the host may have any result that its shape allows, but a null
/// operand still gives null where the function lets nulls through, and an
/// error of an operand is still the error of the whole.
pub open spec fn possible(e: MirScalarExpr, datums: Seq<DatumV>, r: Result<DatumV, EvalErrorV>) -> bool
    decreases e, 0nat,
{
    match e {
        MirScalarExpr::Column(_) => r == eval_spec(e, datums),
        MirScalarExpr::Literal(_, _) => r == eval_spec(e, datums),
        MirScalarExpr::CallNullary(_) => r == eval_spec(e, datums),
        MirScalarExpr::CallUnary { func, expr } => exists|ra: Result<DatumV, EvalErrorV>|
            #[trigger] considered(ra) && possible(*expr, datums, ra) && unary_values(func, ra, r),
        MirScalarExpr::CallBinary { func, expr1, expr2 } => exists|ra: Result<DatumV, EvalErrorV>|
            #[trigger] considered(ra) && possible(*expr1, datums, ra) && second_possible(func, ra, *expr2, datums, r),
        MirScalarExpr::CallVariadic { func, exprs } => match func {
            VariadicFunc::Coalesce => coalesce_possible(exprs@, datums, 0, r),
            _ => exists|vals: Result<Seq<DatumV>, EvalErrorV>|
                #[trigger] considered(vals) && all_possible(exprs@, datums, exprs@.len(), vals) && match vals {
                    Err(e) => r == Err::<DatumV, EvalErrorV>(e),
                    Ok(v) => variadic_values(func, v, r),
                },
        },
        MirScalarExpr::If { cond, then, els } => exists|rc: Result<DatumV, EvalErrorV>|
            #[trigger] considered(rc) && possible(*cond, datums, rc) && match rc {
                Err(e) => r == Err::<DatumV, EvalErrorV>(e),
                Ok(c) => if c is True {
                    possible(*then, datums, r)
                } else if c is False || c is Null {
                    possible(*els, datums, r)
                } else {
                    r == Err::<DatumV, EvalErrorV>(wrong_shape())
                },
            },
    }
}

/// What a function of two operands may give after its first operand gave
/// a result: the error of the first operand; for a conjunction behind
/// false, false, and for a disjunction behind true, true, without the
/// second operand being looked at; else what the function may give on the
/// first datum and a result that the second operand may have.
pub open spec fn second_possible(
    func: BinaryFunc,
    ra: Result<DatumV, EvalErrorV>,
    b: MirScalarExpr,
    datums: Seq<DatumV>,
    r: Result<DatumV, EvalErrorV>,
) -> bool
    decreases b, 1nat,
{
    match ra {
        Err(e) => r == Err::<DatumV, EvalErrorV>(e),
        Ok(a) => if func is And && a is False {
            r == Ok::<DatumV, EvalErrorV>(DatumV::False)
        } else if func is Or && a is True {
            r == Ok::<DatumV, EvalErrorV>(DatumV::True)
        } else {
            exists|rb: Result<DatumV, EvalErrorV>| #[trigger] considered(rb) && possible(b, datums, rb) && match rb {
                    Err(e) => r == Err::<DatumV, EvalErrorV>(e),
                    Ok(vb) => if func is And {
                        r == and_lazy(ra, rb)
                    } else if func is Or {
                        r == or_lazy(ra, rb)
                    } else {
                        binary_values(func, a, vb, r)
                    },
                }
        },
    }
}

/// Whether the first `n` expressions may have the values, or the error
/// that is the first among their results.
pub open spec fn all_possible(
    exprs: Seq<MirScalarExpr>,
    datums: Seq<DatumV>,
    n: nat,
    vals: Result<Seq<DatumV>, EvalErrorV>,
) -> bool
    decreases exprs, n,
{
    if n == 0 || n > exprs.len() {
        vals == Ok::<Seq<DatumV>, EvalErrorV>(Seq::empty())
    } else {
        exists|before: Result<Seq<DatumV>, EvalErrorV>|
            #[trigger] considered(before) && all_possible(exprs, datums, (n - 1) as nat, before) && match before {
                Err(e) => vals == Err::<Seq<DatumV>, EvalErrorV>(e),
                Ok(vs) => last_possible(exprs[n - 1], datums, vs, vals),
            }
    }
}

/// Whether an expression may have a result that, behind the values of the
/// expressions before it, makes the values, or whose error is the error.
pub open spec fn last_possible(
    e: MirScalarExpr,
    datums: Seq<DatumV>,
    vs: Seq<DatumV>,
    vals: Result<Seq<DatumV>, EvalErrorV>,
) -> bool
    decreases e, 1nat,
{
    exists|rn: Result<DatumV, EvalErrorV>| #[trigger] considered(rn) && possible(e, datums, rn) && match rn {
            Err(e) => vals == Err::<Seq<DatumV>, EvalErrorV>(e),
            Ok(v) => vals == Ok::<Seq<DatumV>, EvalErrorV>(vs.push(v)),
        }
}

/// Whether the choice of the first value that is not null, from expression
/// `i` on, may have a result.
pub open spec fn coalesce_possible(
    exprs: Seq<MirScalarExpr>,
    datums: Seq<DatumV>,
    i: nat,
    r: Result<DatumV, EvalErrorV>,
) -> bool
    decreases exprs, exprs.len() - i,
{
    if i >= exprs.len() {
        r == Ok::<DatumV, EvalErrorV>(DatumV::Null)
    } else {
        exists|ri: Result<DatumV, EvalErrorV>|
            #[trigger] considered(ri) && possible(exprs[i as int], datums, ri) && match ri {
                Err(e) => r == Err::<DatumV, EvalErrorV>(e),
                Ok(d) => if !(d is Null) {
                    r == Ok::<DatumV, EvalErrorV>(d)
                } else {
                    coalesce_possible(exprs, datums, i + 1, r)
                },
            }
    }
}

/// Whether a function of any number of operands may have a result on
/// expressions: the choice of the first value that is not null looks at
/// no operand behind that one; any other function gives the first error
/// among its operands, else what it may give on their values.
pub open spec fn variadic_possible(
    func: VariadicFunc,
    exprs: Seq<MirScalarExpr>,
    datums: Seq<DatumV>,
    r: Result<DatumV, EvalErrorV>,
) -> bool {
    match func {
        VariadicFunc::Coalesce => coalesce_possible(exprs, datums, 0, r),
        _ => exists|vals: Result<Seq<DatumV>, EvalErrorV>|
            #[trigger] considered(vals) && all_possible(exprs, datums, exprs.len(), vals) && match vals {
                Err(e) => r == Err::<DatumV, EvalErrorV>(e),
                Ok(v) => variadic_values(func, v, r),
            },
    }
}

/// Wherever a function lets nulls through, a null among the values of its
/// operands gives null, whatever the function is and whatever the host
/// does: it is the one result that the function may have.
pub proof fn lemma_null_is_the_only_result(
    unary: UnaryFunc,
    binary: BinaryFunc,
    variadic: VariadicFunc,
    a: DatumV,
    b: DatumV,
    vals: Seq<DatumV>,
    r: Result<DatumV, EvalErrorV>,
)
    ensures
        unary.propagates_nulls() && a is Null && unary_values(unary, Ok(a), r) ==> r == Ok::<DatumV, EvalErrorV>(
            DatumV::Null,
        ),
        binary.propagates_nulls() && (a is Null || b is Null) && binary_values(binary, a, b, r) ==> r == Ok::<
            DatumV,
            EvalErrorV,
        >(DatumV::Null),
        variadic.propagates_nulls() && any_null(vals) && variadic_values(variadic, vals, r) ==> r == Ok::<
            DatumV,
            EvalErrorV,
        >(DatumV::Null),
{
    reveal(unary_values);
    reveal(binary_values);
    reveal(variadic_values);
}

/// An error among the first expressions is the error of all of them.
pub proof fn lemma_all_possible_error(s: Seq<MirScalarExpr>, datums: Seq<DatumV>, k: nat, n: nat, e: EvalErrorV)
    requires
        1 <= k <= n <= s.len(),
        all_possible(s, datums, k, Err(e)),
    ensures
        all_possible(s, datums, n, Err(e)),
    decreases n,
{
    if k < n {
        lemma_all_possible_error(s, datums, k, (n - 1) as nat, e);
        assert(considered(Err::<Seq<DatumV>, EvalErrorV>(e)));
    }
}

/// Null propagation at evaluation, for every expression: where a function
/// of two operands lets nulls through, where each operand can only give a
/// datum, and one of them only null, null is the only result that the
/// application can have, whatever the function is and whatever the host
/// does. The quotient of 1 and null is null, and so is that of null and
/// 0: no zero, range or domain is looked at.
pub proof fn lemma_binary_null_at_eval(
    func: BinaryFunc,
    a: MirScalarExpr,
    b: MirScalarExpr,
    datums: Seq<DatumV>,
    r: Result<DatumV, EvalErrorV>,
)
    requires
        func.propagates_nulls(),
        forall|ra: Result<DatumV, EvalErrorV>| #[trigger] possible(a, datums, ra) ==> ra is Ok,
        forall|rb: Result<DatumV, EvalErrorV>| #[trigger] possible(b, datums, rb) ==> rb is Ok,
        (forall|ra: Result<DatumV, EvalErrorV>| #[trigger] possible(a, datums, ra) ==> ra->Ok_0 is Null) || (forall|
            rb: Result<DatumV, EvalErrorV>,
        | #[trigger] possible(b, datums, rb) ==> rb->Ok_0 is Null),
        possible(MirScalarExpr::CallBinary { func, expr1: Box::new(a), expr2: Box::new(b) }, datums, r),
    ensures
        r == Ok::<DatumV, EvalErrorV>(DatumV::Null),
{
    reveal(binary_values);
    let ra = choose|ra: Result<DatumV, EvalErrorV>|
        #[trigger] considered(ra) && possible(a, datums, ra) && second_possible(func, ra, b, datums, r);
    assert(possible(a, datums, ra));
    let rb = choose|rb: Result<DatumV, EvalErrorV>|
        #[trigger] considered(rb) && possible(b, datums, rb) && match rb {
            Err(e) => r == Err::<DatumV, EvalErrorV>(e),
            Ok(vb) => if func is And {
                r == and_lazy(ra, rb)
            } else if func is Or {
                r == or_lazy(ra, rb)
            } else {
                binary_values(func, ra->Ok_0, vb, r)
            },
        };
    assert(possible(b, datums, rb));
}

/// A function that its operands decide, at evaluation: where each of two
/// operands can only give one datum, neither of them a null that the
/// function lets through, and the function is defined on the two datums
/// and asks nothing of the host for them, the application can only have
/// the result that the function has on them, whatever the host does.
/// Whether one JSON value holds another is decided so where neither holds
/// a double.
pub proof fn lemma_binary_decided_at_eval(
    func: BinaryFunc,
    a: MirScalarExpr,
    b: MirScalarExpr,
    datums: Seq<DatumV>,
    x: DatumV,
    y: DatumV,
    r: Result<DatumV, EvalErrorV>,
)
    requires
        !(func is And) && !(func is Or),
        forall|ra: Result<DatumV, EvalErrorV>| #[trigger]
            possible(a, datums, ra) ==> ra == Ok::<DatumV, EvalErrorV>(x),
        forall|rb: Result<DatumV, EvalErrorV>| #[trigger]
            possible(b, datums, rb) ==> rb == Ok::<DatumV, EvalErrorV>(y),
        !(func.propagates_nulls() && (x is Null || y is Null)),
        func.accepts(x, y),
        func.exact_on(x, y),
        possible(MirScalarExpr::CallBinary { func, expr1: Box::new(a), expr2: Box::new(b) }, datums, r),
    ensures
        r == func.result_spec(x, y),
{
    reveal(binary_values);
    let ra = choose|ra: Result<DatumV, EvalErrorV>|
        #[trigger] considered(ra) && possible(a, datums, ra) && second_possible(func, ra, b, datums, r);
    assert(possible(a, datums, ra));
    let rb = choose|rb: Result<DatumV, EvalErrorV>|
        #[trigger] considered(rb) && possible(b, datums, rb) && match rb {
            Err(e) => r == Err::<DatumV, EvalErrorV>(e),
            Ok(vb) => if func is And {
                r == and_lazy(ra, rb)
            } else if func is Or {
                r == or_lazy(ra, rb)
            } else {
                binary_values(func, ra->Ok_0, vb, r)
            },
        };
    assert(possible(b, datums, rb));
}

/// A function that its operand decides, at evaluation: where the operand
/// can only give one datum, no null that the function lets through, and
/// the function is defined on the datum and asks nothing of the host for
/// it, the application can only have the result that the function has on
/// it, whatever the host does.
pub proof fn lemma_unary_decided_at_eval(
    func: UnaryFunc,
    a: MirScalarExpr,
    datums: Seq<DatumV>,
    x: DatumV,
    r: Result<DatumV, EvalErrorV>,
)
    requires
        !func.casts_elements(),
        forall|ra: Result<DatumV, EvalErrorV>| #[trigger]
            possible(a, datums, ra) ==> ra == Ok::<DatumV, EvalErrorV>(x),
        !(func.propagates_nulls() && x is Null),
        func.accepts(x),
        func.exact_on(x),
        possible(MirScalarExpr::CallUnary { func, expr: Box::new(a) }, datums, r),
    ensures
        r == func.result_spec(x),
{
    reveal(unary_values);
    let ra = choose|ra: Result<DatumV, EvalErrorV>|
        #[trigger] considered(ra) && possible(a, datums, ra) && unary_values(func, ra, r);
    assert(possible(a, datums, ra));
}

/// Null propagation at evaluation for a function of one operand: where
/// the function lets nulls through and its operand can only give null,
/// null is the only result that the application can have.
pub proof fn lemma_unary_null_at_eval(
    func: UnaryFunc,
    a: MirScalarExpr,
    datums: Seq<DatumV>,
    r: Result<DatumV, EvalErrorV>,
)
    requires
        func.propagates_nulls(),
        forall|ra: Result<DatumV, EvalErrorV>| #[trigger]
            possible(a, datums, ra) ==> ra == Ok::<DatumV, EvalErrorV>(DatumV::Null),
        possible(MirScalarExpr::CallUnary { func, expr: Box::new(a) }, datums, r),
    ensures
        r == Ok::<DatumV, EvalErrorV>(DatumV::Null),
{
    reveal(unary_values);
    let ra = choose|ra: Result<DatumV, EvalErrorV>|
        #[trigger] considered(ra) && possible(a, datums, ra) && unary_values(func, ra, r);
    assert(possible(a, datums, ra));
}

/// Null propagation at evaluation for a function of any number of
/// operands: where the function lets nulls through and its operands can
/// only give datums with a null among them, null is the only result that
/// the application can have.
pub proof fn lemma_variadic_null_at_eval(
    func: VariadicFunc,
    exprs: Seq<MirScalarExpr>,
    datums: Seq<DatumV>,
    r: Result<DatumV, EvalErrorV>,
)
    requires
        func.propagates_nulls(),
        forall|vals: Result<Seq<DatumV>, EvalErrorV>| #[trigger]
            all_possible(exprs, datums, exprs.len(), vals) ==> vals is Ok && any_null(vals->Ok_0),
        variadic_possible(func, exprs, datums, r),
    ensures
        r == Ok::<DatumV, EvalErrorV>(DatumV::Null),
{
    reveal(variadic_values);
    let vals = choose|vals: Result<Seq<DatumV>, EvalErrorV>|
        #[trigger] considered(vals) && all_possible(exprs, datums, exprs.len(), vals) && match vals {
            Err(e) => r == Err::<DatumV, EvalErrorV>(e),
            Ok(v) => variadic_values(func, v, r),
        };
    assert(all_possible(exprs, datums, exprs.len(), vals));
}

/// The conjunction of two expressions on a row. The second is evaluated
/// only where the first is neither false nor an error.
pub fn and<F: FloatUnit>(
    datums: &Vec<Datum>,
    a_expr: &MirScalarExpr,
    b_expr: &MirScalarExpr,
    fu: &F,
) -> (r: Result<Datum, EvalError>)
    ensures
        exact(*a_expr) && eval_spec(*a_expr, datums_view(datums@)) == Ok::<DatumV, EvalErrorV>(DatumV::False)
            ==> res_view(r) == Ok::<DatumV, EvalErrorV>(DatumV::False),
        exact(*a_expr) && exact(*b_expr) ==> res_view(r) == and_lazy(
            eval_spec(*a_expr, datums_view(datums@)),
            eval_spec(*b_expr, datums_view(datums@)),
        ),
        exists|ra: Result<DatumV, EvalErrorV>|
            #[trigger] considered(ra) && possible(*a_expr, datums_view(datums@), ra) && second_possible(
                BinaryFunc::And,
                ra,
                *b_expr,
                datums_view(datums@),
                res_view(r),
            ),
    decreases max_nat(depth(*a_expr), depth(*b_expr)) + 1, 1nat,
{
    let ghost dv = datums_view(datums@);
    let first = a_expr.eval(datums, fu);
    let ghost ra = res_view(first);
    assert(considered(ra));
    let a = match first {
        Ok(a) => a,
        Err(e) => {
            assert(second_possible(BinaryFunc::And, ra, *b_expr, dv, Err(e@)));
            return Err(e);
        },
    };
    if let Datum::False = a {
        assert(second_possible(BinaryFunc::And, ra, *b_expr, dv, Ok(DatumV::False)));
        return Ok(Datum::False);
    }
    let second = b_expr.eval(datums, fu);
    let ghost rb = res_view(second);
    assert(considered(rb));
    let b = match second {
        Ok(b) => b,
        Err(e) => {
            assert(possible(*b_expr, dv, rb));
            assert(second_possible(BinaryFunc::And, ra, *b_expr, dv, Err(e@)));
            return Err(e);
        },
    };
    let r = if (check_bool(&a) || a.is_null()) && (check_bool(&b) || b.is_null()) {
        Ok(and_datums(&a, &b))
    } else {
        Err(shape_error())
    };
    assert(possible(*b_expr, dv, rb));
    assert(res_view(r) == and_lazy(ra, rb));
    assert(second_possible(BinaryFunc::And, ra, *b_expr, dv, res_view(r)));
    r
}

/// The disjunction of two expressions on a row. The second is evaluated
/// only where the first is neither true nor an error.
pub fn or<F: FloatUnit>(
    datums: &Vec<Datum>,
    a_expr: &MirScalarExpr,
    b_expr: &MirScalarExpr,
    fu: &F,
) -> (r: Result<Datum, EvalError>)
    ensures
        exact(*a_expr) && eval_spec(*a_expr, datums_view(datums@)) == Ok::<DatumV, EvalErrorV>(DatumV::True)
            ==> res_view(r) == Ok::<DatumV, EvalErrorV>(DatumV::True),
        exact(*a_expr) && exact(*b_expr) ==> res_view(r) == or_lazy(
            eval_spec(*a_expr, datums_view(datums@)),
            eval_spec(*b_expr, datums_view(datums@)),
        ),
        exists|ra: Result<DatumV, EvalErrorV>|
            #[trigger] considered(ra) && possible(*a_expr, datums_view(datums@), ra) && second_possible(
                BinaryFunc::Or,
                ra,
                *b_expr,
                datums_view(datums@),
                res_view(r),
            ),
    decreases max_nat(depth(*a_expr), depth(*b_expr)) + 1, 1nat,
{
    let ghost dv = datums_view(datums@);
    let first = a_expr.eval(datums, fu);
    let ghost ra = res_view(first);
    assert(considered(ra));
    let a = match first {
        Ok(a) => a,
        Err(e) => {
            assert(second_possible(BinaryFunc::Or, ra, *b_expr, dv, Err(e@)));
            return Err(e);
        },
    };
    if let Datum::True = a {
        assert(second_possible(BinaryFunc::Or, ra, *b_expr, dv, Ok(DatumV::True)));
        return Ok(Datum::True);
    }
    let second = b_expr.eval(datums, fu);
    let ghost rb = res_view(second);
    assert(considered(rb));
    let b = match second {
        Ok(b) => b,
        Err(e) => {
            assert(possible(*b_expr, dv, rb));
            assert(second_possible(BinaryFunc::Or, ra, *b_expr, dv, Err(e@)));
            return Err(e);
        },
    };
    let r = if (check_bool(&a) || a.is_null()) && (check_bool(&b) || b.is_null()) {
        Ok(or_datums(&a, &b))
    } else {
        Err(shape_error())
    };
    assert(possible(*b_expr, dv, rb));
    assert(res_view(r) == or_lazy(ra, rb));
    assert(second_possible(BinaryFunc::Or, ra, *b_expr, dv, res_view(r)));
    r
}

/// The values of expressions on a row, or the first error.
pub fn eval_all<F: FloatUnit>(datums: &Vec<Datum>, exprs: &Vec<MirScalarExpr>, fu: &F) -> (r: Result<
    Vec<Datum>,
    EvalError,
>)
    ensures
        all_exact(exprs@, exprs@.len()) ==> vals_view(r) == eval_all_spec(
            exprs@,
            datums_view(datums@),
            exprs@.len(),
        ),
        r is Ok ==> r->Ok_0@.len() == exprs@.len(),
        all_possible(exprs@, datums_view(datums@), exprs@.len(), vals_view(r)),
    decreases max_depth(exprs@, exprs@.len()) + 1, 0nat,
{
    let ghost dv = datums_view(datums@);
    let mut out: Vec<Datum> = Vec::new();
    let mut i: usize = 0;
    assert(datums_view(out@) =~= Seq::<DatumV>::empty());
    while i < exprs.len()
        invariant
            i <= exprs@.len(),
            out@.len() == i,
            dv == datums_view(datums@),
            all_exact(exprs@, exprs@.len()) ==> eval_all_spec(exprs@, dv, i as nat) == Ok::<Seq<DatumV>, EvalErrorV>(
                datums_view(out@),
            ),
            all_possible(exprs@, dv, i as nat, Ok(datums_view(out@))),
        decreases exprs.len() - i,
    {
        proof {
            lemma_max_depth(exprs@, exprs@.len(), i as int);
            if all_exact(exprs@, exprs@.len()) {
                lemma_all_exact(exprs@, exprs@.len(), i as int);
            }
        }
        let ghost before = Ok::<Seq<DatumV>, EvalErrorV>(datums_view(out@));
        let one = exprs[i].eval(datums, fu);
        let ghost rn = res_view(one);
        assert(considered(before) && considered(rn));
        match one {
            Ok(d) => {
                push_datum(&mut out, d);
                assert(last_possible(exprs@[i as int], dv, before->Ok_0, Ok(datums_view(out@))));
                assert(all_possible(exprs@, dv, (i + 1) as nat, Ok(datums_view(out@))));
            },
            Err(e) => {
                proof {
                    if all_exact(exprs@, exprs@.len()) {
                        assert(eval_all_spec(exprs@, dv, (i + 1) as nat) == Err::<Seq<DatumV>, EvalErrorV>(e@));
                        lemma_eval_all_error(exprs@, dv, (i + 1) as nat, exprs@.len());
                    }
                    assert(last_possible(exprs@[i as int], dv, before->Ok_0, Err(e@)));
                    assert(all_possible(exprs@, dv, (i + 1) as nat, Err(e@)));
                    lemma_all_possible_error(exprs@, dv, (i + 1) as nat, exprs@.len(), e@);
                }
                return Err(e);
            },
        }
        i += 1;
    }
    Ok(out)
}

/// The first of the expressions that is not null on a row; the
/// expressions behind it are not evaluated.
pub fn coalesce<F: FloatUnit>(datums: &Vec<Datum>, exprs: &Vec<MirScalarExpr>, fu: &F) -> (r: Result<
    Datum,
    EvalError,
>)
    ensures
        all_exact(exprs@, exprs@.len()) ==> res_view(r) == coalesce_spec(exprs@, datums_view(datums@), 0),
        coalesce_possible(exprs@, datums_view(datums@), 0, res_view(r)),
    decreases max_depth(exprs@, exprs@.len()) + 1, 1nat,
{
    let ghost dv = datums_view(datums@);
    let mut i: usize = 0;
    while i < exprs.len()
        invariant
            i <= exprs@.len(),
            dv == datums_view(datums@),
            all_exact(exprs@, exprs@.len()) ==> coalesce_spec(exprs@, dv, 0) == coalesce_spec(exprs@, dv, i as nat),
            forall|x: Result<DatumV, EvalErrorV>| #[trigger]
                coalesce_possible(exprs@, dv, i as nat, x) ==> coalesce_possible(exprs@, dv, 0, x),
        decreases exprs.len() - i,
    {
        proof {
            lemma_max_depth(exprs@, exprs@.len(), i as int);
            if all_exact(exprs@, exprs@.len()) {
                lemma_all_exact(exprs@, exprs@.len(), i as int);
            }
        }
        let one = exprs[i].eval(datums, fu);
        let ghost ri = res_view(one);
        assert(considered(ri));
        match one {
            Ok(d) => {
                if !d.is_null() {
                    assert(coalesce_possible(exprs@, dv, i as nat, Ok(d@)));
                    return Ok(d);
                }
                assert forall|x: Result<DatumV, EvalErrorV>| #[trigger]
                    coalesce_possible(exprs@, dv, (i + 1) as nat, x) implies coalesce_possible(exprs@, dv, 0, x) by {
                    assert(coalesce_possible(exprs@, dv, i as nat, x));
                }
            },
            Err(e) => {
                assert(coalesce_possible(exprs@, dv, i as nat, Err(e@)));
                return Err(e);
            },
        }
        i += 1;
    }
    assert(coalesce_possible(exprs@, dv, exprs@.len(), Ok(DatumV::Null)));
    Ok(Datum::Null)
}

/// The value of the first expression on a row, unless it is null: then
/// the error whose message is the value of the second. Both are
/// evaluated.
pub fn error_if_null<F: FloatUnit>(datums: &Vec<Datum>, exprs: &Vec<MirScalarExpr>, fu: &F) -> (r:
    Result<Datum, EvalError>)
    ensures
        all_exact(exprs@, exprs@.len()) ==> res_view(r) == variadic_spec(
            VariadicFunc::ErrorIfNull,
            exprs@,
            datums_view(datums@),
        ),
        variadic_possible(VariadicFunc::ErrorIfNull, exprs@, datums_view(datums@), res_view(r)),
    decreases max_depth(exprs@, exprs@.len()) + 1, 1nat,
{
    let all = eval_all(datums, exprs, fu);
    let ghost vals = vals_view(all);
    assert(considered(vals));
    let r = match all {
        Ok(v) => VariadicFunc::ErrorIfNull.apply(&v, fu),
        Err(e) => Err(e),
    };
    proof {
        reveal(VariadicFunc::apply_spec);
        reveal(variadic_values);
    }
    r
}

/// Datums, each cast by an expression that takes it as the one column of
/// a row, or the first error. Where nulls are skipped a null stays null
/// and the expression is not asked.
pub fn cast_elements<F: FloatUnit>(
    cast_expr: &MirScalarExpr,
    elements: &Vec<Datum>,
    skip_nulls: bool,
    fu: &F,
) -> (r: Result<Vec<Datum>, EvalError>)
    ensures
        exact(*cast_expr) ==> vals_view(r) == cast_each_spec(
            *cast_expr,
            datums_view(elements@),
            elements@.len() as nat,
            skip_nulls,
        ),
        r is Ok ==> r->Ok_0@.len() == elements@.len(),
    decreases depth(*cast_expr) + 1, 0nat,
{
    let ghost els = datums_view(elements@);
    let mut out: Vec<Datum> = Vec::new();
    let mut i: usize = 0;
    assert(datums_view(out@) =~= Seq::<DatumV>::empty());
    while i < elements.len()
        invariant
            i <= elements@.len(),
            out@.len() == i,
            els == datums_view(elements@),
            exact(*cast_expr) ==> cast_each_spec(*cast_expr, els, i as nat, skip_nulls) == Ok::<
                Seq<DatumV>,
                EvalErrorV,
            >(datums_view(out@)),
        decreases elements.len() - i,
    {
        if skip_nulls && elements[i].is_null() {
            push_datum(&mut out, Datum::Null);
        } else {
            let mut row: Vec<Datum> = Vec::new();
            row.push(elements[i].clone());
            assert(datums_view(row@) =~= seq![els[i as int]]);
            match cast_expr.eval(&row, fu) {
                Ok(d) => {
                    push_datum(&mut out, d);
                },
                Err(e) => {
                    proof {
                        if exact(*cast_expr) {
                            assert(cast_each_spec(*cast_expr, els, (i + 1) as nat, skip_nulls) == Err::<
                                Seq<DatumV>,
                                EvalErrorV,
                            >(e@));
                            lemma_cast_each_error(*cast_expr, els, (i + 1) as nat, els.len(), skip_nulls);
                        }
                    }
                    return Err(e);
                },
            }
        }
        i += 1;
    }
    Ok(out)
}

/// A list with each element cast by an expression.
pub fn cast_list1_to_list2<F: FloatUnit>(a: &Datum, cast_expr: &MirScalarExpr, fu: &F) -> (r: Result<
    Datum,
    EvalError,
>)
    requires
        a@ is List,
    ensures
        exact(*cast_expr) ==> res_view(r) == match cast_each_spec(
            *cast_expr,
            a@->List_0,
            a@->List_0.len(),
            false,
        ) {
            Ok(v) => Ok::<DatumV, EvalErrorV>(DatumV::List(v)),
            Err(e) => Err::<DatumV, EvalErrorV>(e),
        },
    decreases depth(*cast_expr) + 1, 1nat,
{
    let elements = a.unwrap_list();
    match cast_elements(cast_expr, elements, false, fu) {
        Ok(v) => Ok(Datum::list(v)),
        Err(e) => Err(e),
    }
}

/// The datums of the texts of elements.
pub fn datums_of_texts(texts: &Vec<ElementText>) -> (r: Vec<Datum>)
    ensures
        datums_view(r@) == text_datums(elements_view(texts@)),
        r@.len() == texts@.len(),
{
    let mut out: Vec<Datum> = Vec::new();
    let mut i: usize = 0;
    while i < texts.len()
        invariant
            i <= texts@.len(),
            out@.len() == i,
            forall|j: int| 0 <= j < i ==> (#[trigger] out@[j])@ == text_datums(elements_view(texts@))[j],
        decreases texts.len() - i,
    {
        let d = match &texts[i].text {
            Some(t) => Datum::String(t.clone()),
            None => Datum::Null,
        };
        out.push(d);
        i += 1;
    }
    assert(datums_view(out@) =~= text_datums(elements_view(texts@)));
    out
}

/// The array of the elements whose texts are given, each text cast by an
/// expression; a null element stays null.
pub fn array_of_texts<F: FloatUnit>(texts: &Vec<ElementText>, cast_expr: &MirScalarExpr, fu: &F) -> (r:
    Result<Datum, EvalError>)
    ensures
        exact(*cast_expr) ==> res_view(r) == array_result(
            cast_each_spec(*cast_expr, text_datums(elements_view(texts@)), texts@.len(), true),
        ),
        r is Ok ==> r->Ok_0@ is Array,
    decreases depth(*cast_expr) + 1, 1nat,
{
    let elements = datums_of_texts(texts);
    match cast_elements(cast_expr, &elements, true, fu) {
        Ok(v) => array_create_scalar(&v),
        Err(e) => Err(e),
    }
}

/// The list of the elements whose texts are given, each text cast by an
/// expression; a null element stays null.
pub fn list_of_texts<F: FloatUnit>(texts: &Vec<ElementText>, cast_expr: &MirScalarExpr, fu: &F) -> (r:
    Result<Datum, EvalError>)
    ensures
        exact(*cast_expr) ==> res_view(r) == list_result(
            cast_each_spec(*cast_expr, text_datums(elements_view(texts@)), texts@.len(), true),
        ),
        r is Ok ==> r->Ok_0@ is List,
    decreases depth(*cast_expr) + 1, 1nat,
{
    let elements = datums_of_texts(texts);
    match cast_elements(cast_expr, &elements, true, fu) {
        Ok(v) => Ok(Datum::list(v)),
        Err(e) => Err(e),
    }
}

/// The map of the keyed elements whose texts are given, each text cast by
/// an expression; a null element stays null. The keys ascend, and of
/// several elements with one key the first stays.
pub fn map_of_texts<F: FloatUnit>(texts: &Vec<ElementText>, cast_expr: &MirScalarExpr, fu: &F) -> (r:
    Result<Datum, EvalError>)
    ensures
        exact(*cast_expr) ==> res_view(r) == map_result(
            elements_view(texts@),
            cast_each_spec(*cast_expr, text_datums(elements_view(texts@)), texts@.len(), true),
        ),
        r is Ok ==> r->Ok_0@ is Dict,
    decreases depth(*cast_expr) + 1, 1nat,
{
    let elements = datums_of_texts(texts);
    match cast_elements(cast_expr, &elements, true, fu) {
        Ok(v) => {
            let mut pairs: Vec<(String, Datum)> = Vec::new();
            let mut i: usize = 0;
            while i < texts.len()
                invariant
                    i <= texts@.len(),
                    v@.len() == texts@.len(),
                    pairs@.len() == i,
                    forall|j: int|
                        0 <= j < i ==> ((#[trigger] pairs@[j]).0@, pairs@[j].1@) == keyed(
                            elements_view(texts@),
                            datums_view(v@),
                        )[j],
                decreases texts.len() - i,
            {
                let k = match &texts[i].key {
                    Some(k) => k.clone(),
                    None => String::new(),
                };
                pairs.push((k, v[i].clone()));
                i += 1;
            }
            assert(pairs_view(pairs@) =~= keyed(elements_view(texts@), datums_view(v@)));
            Ok(Datum::dict(keep_first(sort_pairs(&pairs))))
        },
        Err(e) => Err(e),
    }
}

/// Whether the elements of a list type are lists, or the values of a map
/// type maps.
pub fn check_nests(ty: &ScalarType) -> (r: bool)
    ensures
        r == nests(ty@),
{
    match ty {
        ScalarType::List { .. } => {
            match ty.unwrap_list_element_type() {
                ScalarType::List { .. } => true,
                _ => false,
            }
        },
        ScalarType::Dict { .. } => {
            match ty.unwrap_map_value_type() {
                ScalarType::Dict { .. } => true,
                _ => false,
            }
        },
        _ => false,
    }
}

/// The array that a text denotes, each element cast from its text by an
/// expression.
pub fn cast_string_to_array<F: FloatUnit>(a: &Datum, cast_expr: &MirScalarExpr, fu: &F) -> (r: Result<
    Datum,
    EvalError,
>)
    requires
        a@ is String,
    ensures
        exact(*cast_expr) ==> res_view(r) == match split_spec(a@->String_0, false, false) {
            None => Err(syntax_error("array"@, a@->String_0)),
            Some(texts) => array_result(cast_each_spec(*cast_expr, text_datums(texts), texts.len(), true)),
        },
        r is Ok ==> r->Ok_0@ is Array,
    decreases depth(*cast_expr) + 1, 2nat,
{
    match split_elements(a.unwrap_str(), false, false) {
        Some(texts) => array_of_texts(&texts, cast_expr, fu),
        None => Err(invalid_input("array", a.unwrap_str())),
    }
}

/// The list that a text denotes, each element cast from its text by an
/// expression. Where the elements of the list are lists the text of an
/// element may stand between braces.
pub fn cast_string_to_list<F: FloatUnit>(
    a: &Datum,
    list_typ: &ScalarType,
    cast_expr: &MirScalarExpr,
    fu: &F,
) -> (r: Result<Datum, EvalError>)
    requires
        a@ is String,
    ensures
        exact(*cast_expr) ==> res_view(r) == match split_spec(a@->String_0, nests(list_typ@), false) {
            None => Err(syntax_error("list"@, a@->String_0)),
            Some(texts) => list_result(cast_each_spec(*cast_expr, text_datums(texts), texts.len(), true)),
        },
        r is Ok ==> r->Ok_0@ is List,
    decreases depth(*cast_expr) + 1, 2nat,
{
    let nested = check_nests(list_typ);
    match split_elements(a.unwrap_str(), nested, false) {
        Some(texts) => list_of_texts(&texts, cast_expr, fu),
        None => Err(invalid_input("list", a.unwrap_str())),
    }
}

/// The map that a text denotes, each value cast from its text by an
/// expression. Where the values of the map are maps the text of a value
/// may stand between braces.
pub fn cast_string_to_map<F: FloatUnit>(
    a: &Datum,
    map_typ: &ScalarType,
    cast_expr: &MirScalarExpr,
    fu: &F,
) -> (r: Result<Datum, EvalError>)
    requires
        a@ is String,
    ensures
        exact(*cast_expr) ==> res_view(r) == match split_spec(a@->String_0, nests(map_typ@), true) {
            None => Err(syntax_error("map"@, a@->String_0)),
            Some(texts) => map_result(texts, cast_each_spec(*cast_expr, text_datums(texts), texts.len(), true)),
        },
        r is Ok ==> r->Ok_0@ is Dict,
    decreases depth(*cast_expr) + 1, 2nat,
{
    let nested = check_nests(map_typ);
    match split_elements(a.unwrap_str(), nested, true) {
        Some(texts) => map_of_texts(&texts, cast_expr, fu),
        None => Err(invalid_input("map", a.unwrap_str())),
    }
}

impl UnaryFunc {
    /// The function on the value of an expression on a row. The error of
    /// the operand comes first; then a null operand of a function that
    /// lets nulls through gives null.
    pub fn eval<F: FloatUnit>(&self, datums: &Vec<Datum>, a: &MirScalarExpr, fu: &F) -> (r: Result<
        Datum,
        EvalError,
    >)
        ensures
            exact(*a) && eval_spec(*a, datums_view(datums@)) is Err ==> res_view(r) == eval_spec(
                *a,
                datums_view(datums@),
            ),
            exact(*a) && self.propagates_nulls() && eval_spec(*a, datums_view(datums@)) == Ok::<DatumV, EvalErrorV>(
                DatumV::Null,
            ) ==> res_view(r) == Ok::<DatumV, EvalErrorV>(DatumV::Null),
            exact(*a) && unary_exact(*self) ==> res_view(r) == unary_spec(*self, eval_spec(*a, datums_view(datums@))),
            exists|ra: Result<DatumV, EvalErrorV>|
                #[trigger] considered(ra)
                && possible(*a, datums_view(datums@), ra)
                && unary_values(*self, ra, res_view(r)),
        decreases max_nat(depth(*a), func_depth(*self)) + 1, 3nat,
    {
        let first = a.eval(datums, fu);
        let ghost ra = res_view(first);
        proof {
            reveal(unary_values);
            reveal(UnaryFunc::apply_spec);
            assert(considered(ra));
        }
        let a = match first {
            Ok(a) => a,
            Err(e) => {
                return Err(e);
            },
        };
        match self {
            UnaryFunc::CastList1ToList2 { cast_expr, .. } => {
                if a.is_null() {
                    Ok(Datum::Null)
                } else if a.rank() != 15 {
                    Err(shape_error())
                } else {
                    cast_list1_to_list2(&a, cast_expr, fu)
                }
            },
            UnaryFunc::CastStringToArray { cast_expr, .. } => {
                if a.is_null() {
                    Ok(Datum::Null)
                } else if a.rank() != 13 {
                    Err(shape_error())
                } else {
                    cast_string_to_array(&a, cast_expr, fu)
                }
            },
            UnaryFunc::CastStringToList { return_ty, cast_expr } => {
                if a.is_null() {
                    Ok(Datum::Null)
                } else if a.rank() != 13 {
                    Err(shape_error())
                } else {
                    cast_string_to_list(&a, return_ty, cast_expr, fu)
                }
            },
            UnaryFunc::CastStringToMap { return_ty, cast_expr } => {
                if a.is_null() {
                    Ok(Datum::Null)
                } else if a.rank() != 13 {
                    Err(shape_error())
                } else {
                    cast_string_to_map(&a, return_ty, cast_expr, fu)
                }
            },
            _ => self.apply(&a, fu),
        }
    }
}

impl BinaryFunc {
    /// The function on the values of two expressions on a row. The error
    /// of the first operand comes first, then that of the second; then a
    /// null operand of a function that lets nulls through gives null.
    /// Conjunction and disjunction evaluate the second operand only where
    /// the first does not decide.
    pub fn eval<F: FloatUnit>(
        &self,
        datums: &Vec<Datum>,
        a_expr: &MirScalarExpr,
        b_expr: &MirScalarExpr,
        fu: &F,
    ) -> (r: Result<Datum, EvalError>)
        ensures
            exact(*a_expr) && exact(*b_expr) && self.propagates_nulls() && eval_spec(*a_expr, datums_view(datums@))
                is Ok && eval_spec(*b_expr, datums_view(datums@)) is Ok && (eval_spec(
                *a_expr,
                datums_view(datums@),
            )->Ok_0 is Null || eval_spec(*b_expr, datums_view(datums@))->Ok_0 is Null) ==> res_view(r) == Ok::<
                DatumV,
                EvalErrorV,
            >(DatumV::Null),
            *self == BinaryFunc::And && exact(*a_expr) && eval_spec(*a_expr, datums_view(datums@)) == Ok::<
                DatumV,
                EvalErrorV,
            >(DatumV::False) ==> res_view(r) == Ok::<DatumV, EvalErrorV>(DatumV::False),
            *self == BinaryFunc::Or && exact(*a_expr) && eval_spec(*a_expr, datums_view(datums@)) == Ok::<
                DatumV,
                EvalErrorV,
            >(DatumV::True) ==> res_view(r) == Ok::<DatumV, EvalErrorV>(DatumV::True),
            self.exact() && exact(*a_expr) && exact(*b_expr) ==> res_view(r) == binary_spec(
                *self,
                eval_spec(*a_expr, datums_view(datums@)),
                eval_spec(*b_expr, datums_view(datums@)),
            ),
            exists|ra: Result<DatumV, EvalErrorV>|
                #[trigger] considered(ra) && possible(*a_expr, datums_view(datums@), ra) && second_possible(
                    *self,
                    ra,
                    *b_expr,
                    datums_view(datums@),
                    res_view(r),
                ),
        decreases max_nat(depth(*a_expr), depth(*b_expr)) + 1, 2nat,
    {
        match self {
            BinaryFunc::And => and(datums, a_expr, b_expr, fu),
            BinaryFunc::Or => or(datums, a_expr, b_expr, fu),
            _ => {
                let ghost dv = datums_view(datums@);
                let first = a_expr.eval(datums, fu);
                let ghost ra = res_view(first);
                assert(considered(ra));
                let a = match first {
                    Ok(a) => a,
                    Err(e) => {
                        assert(second_possible(*self, ra, *b_expr, dv, Err(e@)));
                        return Err(e);
                    },
                };
                let second = b_expr.eval(datums, fu);
                let ghost rb = res_view(second);
                assert(considered(rb));
                let b = match second {
                    Ok(b) => b,
                    Err(e) => {
                        assert(possible(*b_expr, dv, rb));
                        assert(second_possible(*self, ra, *b_expr, dv, Err(e@)));
                        return Err(e);
                    },
                };
                let r = self.apply(&a, &b, fu);
                proof {
                    reveal(BinaryFunc::apply_spec);
                    reveal(binary_values);
                    assert(binary_values(*self, a@, b@, res_view(r)));
                    assert(possible(*b_expr, dv, rb));
                    assert(second_possible(*self, ra, *b_expr, dv, res_view(r)));
                }
                r
            },
        }
    }
}

impl VariadicFunc {
    /// The function on the values of expressions on a row. The first error
    /// among the operands comes first; then one null among them gives
    /// null, where the function lets nulls through. The choice of the
    /// first operand that is not null evaluates no operand behind it.
    pub fn eval<F: FloatUnit>(&self, datums: &Vec<Datum>, exprs: &Vec<MirScalarExpr>, fu: &F) -> (r:
        Result<Datum, EvalError>)
        ensures
            all_exact(exprs@, exprs@.len()) && self.propagates_nulls() && eval_all_spec(
                exprs@,
                datums_view(datums@),
                exprs@.len(),
            ) is Ok && any_null(eval_all_spec(exprs@, datums_view(datums@), exprs@.len())->Ok_0) ==> res_view(r)
                == Ok::<DatumV, EvalErrorV>(DatumV::Null),
            self.exact() && all_exact(exprs@, exprs@.len()) ==> res_view(r) == variadic_spec(
                *self,
                exprs@,
                datums_view(datums@),
            ),
            variadic_possible(*self, exprs@, datums_view(datums@), res_view(r)),
        decreases max_depth(exprs@, exprs@.len()) + 1, 2nat,
    {
        match self {
            VariadicFunc::Coalesce => coalesce(datums, exprs, fu),
            VariadicFunc::ErrorIfNull => error_if_null(datums, exprs, fu),
            _ => {
                let all = eval_all(datums, exprs, fu);
                let ghost vals = vals_view(all);
                assert(considered(vals));
                let r = match all {
                    Ok(v) => self.apply(&v, fu),
                    Err(e) => Err(e),
                };
                proof {
                    reveal(VariadicFunc::apply_spec);
                    reveal(variadic_values);
                }
                r
            },
        }
    }
}

impl MirScalarExpr {
    /// The value of the expression on the datums of a row. A column that
    /// the row has not, the logical time, and a condition that is neither
    /// a truth value nor null are errors.
    pub fn eval<F: FloatUnit>(&self, datums: &Vec<Datum>, fu: &F) -> (r: Result<Datum, EvalError>)
        ensures
            exact(*self) ==> res_view(r) == eval_spec(*self, datums_view(datums@)),
            possible(*self, datums_view(datums@), res_view(r)),
        decreases depth(*self), 4nat,
    {
        match self {
            MirScalarExpr::Column(i) => {
                if *i < datums.len() {
                    assert(datums_view(datums@)[*i as int] == datums@[*i as int]@);
                    Ok(datums[*i].clone())
                } else {
                    assert(datums_view(datums@).len() == datums@.len());
                    Err(EvalError::internal("column beyond the end of the row"))
                }
            },
            MirScalarExpr::Literal(res, _) => match res {
                Ok(d) => Ok(d.clone()),
                Err(e) => Err(e.clone()),
            },
            MirScalarExpr::CallNullary(_) => Err(EvalError::internal("the logical time is not known to a row")),
            MirScalarExpr::CallUnary { func, expr } => func.eval(datums, expr, fu),
            MirScalarExpr::CallBinary { func, expr1, expr2 } => func.eval(datums, expr1, expr2, fu),
            MirScalarExpr::CallVariadic { func, exprs } => func.eval(datums, exprs, fu),
            MirScalarExpr::If { cond, then, els } => {
                let c = cond.eval(datums, fu);
                assert(considered(res_view(c)));
                match c {
                    Ok(Datum::True) => then.eval(datums, fu),
                    Ok(Datum::False) | Ok(Datum::Null) => els.eval(datums, fu),
                    Ok(_) => Err(shape_error()),
                    Err(e) => Err(e),
                }
            },
        }
    }
}

} // verus!
