//! The typed evaluation kernel of a SQL engine: scalar, aggregate and
//! table functions over datums, with their type inference and errors.
//!
//! A datum is a value of one of the scalar types ([`datum`],
//! [`scalar_type`]); a row holds the datums of one record ([`row`]), and a
//! relation is described by the types and names of its columns
//! ([`relation`]). A scalar expression ([`expr`]) is a tree of functions
//! of one, two or any number of operands ([`unary`], [`binary`],
//! [`variadic`]) over the columns of a row; aggregate functions
//! ([`aggregate`]) reduce the datums of a group, and table functions
//! ([`table`]) make rows of one row. Every failure that depends on the
//! data is a value of one closed error type ([`error`]).
//!
//! Decimal arithmetic, calendar arithmetic, regular expressions, digests,
//! character encodings and the reading of JSON texts are those of the
//! crates that the library is built on; what is taken from them is named
//! in [`numeric`], [`datetime`], [`pattern`], [`func_digest`],
//! [`func_format`] and [`json_read`].
//! Floating-point arithmetic is the host's ([`float`]); the integer
//! nearest to a float is found on its bits ([`float_round`]).

pub mod error;
pub mod units;
pub mod scalar_type;
pub mod datum;
pub mod row;
pub mod relation;
pub mod order;
pub mod numeric;
pub mod numeric_order;
pub mod float;
pub mod float_round;
pub mod datetime;
pub mod strings;
pub mod text;
pub mod pairs;
pub mod pattern;
pub mod jsonb;
pub mod json_read;
pub mod collection_text;
pub mod shape;
pub mod func_int;
pub mod func_float;
pub mod func_numeric;
pub mod func_string;
pub mod func_format;
pub mod func_parse;
pub mod func_stringify;
pub mod func_to_char;
pub mod func_encoding;
pub mod func_digest;
pub mod func_regex;
pub mod func_datetime;
pub mod func_jsonb;
pub mod func_list;
pub mod unary;
pub mod binary;
pub mod variadic;
pub mod unary_eval;
pub mod binary_eval;
pub mod variadic_eval;
pub mod expr;
pub mod aggregate;
pub mod table;
pub mod plan;
pub mod session;
pub mod log_file;
