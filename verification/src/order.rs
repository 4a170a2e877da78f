//! The total order of datums: by variant first, then by what the variant
//! holds.

use vstd::prelude::*;
use crate::datum::{ArrayDimension, Datum, DatumV, Interval, Numeric, Time, Timestamp};
use crate::datum::{datums_view, pairs_view};
use crate::numeric_order::{numeric_order, numeric_order_spec};

verus! {

/// How one value stands to another.
#[derive(Clone, Copy, Debug, PartialEq, Eq, Structural)]
pub enum Order {
    Less,
    Equal,
    Greater,
}

impl Order {
    /// The order the other way round.
    pub open spec fn reverse_spec(self) -> Order {
        match self {
            Order::Less => Order::Greater,
            Order::Equal => Order::Equal,
            Order::Greater => Order::Less,
        }
    }

    /// The order the other way round.
    pub fn reverse(self) -> (r: Order)
        ensures
            r == self.reverse_spec(),
    {
        match self {
            Order::Less => Order::Greater,
            Order::Equal => Order::Equal,
            Order::Greater => Order::Less,
        }
    }
}

/// The order of two integers.
pub open spec fn int_order(a: int, b: int) -> Order {
    if a < b {
        Order::Less
    } else if a == b {
        Order::Equal
    } else {
        Order::Greater
    }
}

/// The place of a double among the doubles, from its bits: negative values
/// below positive ones, the two zeros at the same place, every NaN at one
/// place above all else.
pub open spec fn float64_key(bits: u64) -> int {
    let negative = bits >= 0x8000_0000_0000_0000u64;
    let magnitude: int = if negative {
        bits - 0x8000_0000_0000_0000u64
    } else {
        bits as int
    };
    if magnitude > 0x7ff0_0000_0000_0000u64 {
        0x7ff0_0000_0000_0001
    } else if negative {
        -magnitude
    } else {
        magnitude
    }
}

/// The place of a single among the singles, from its bits.
pub open spec fn float32_key(bits: u32) -> int {
    let negative = bits >= 0x8000_0000u32;
    let magnitude: int = if negative {
        bits - 0x8000_0000u32
    } else {
        bits as int
    };
    if magnitude > 0x7f80_0000u32 {
        0x7f80_0001
    } else if negative {
        -magnitude
    } else {
        magnitude
    }
}

/// The place of a double, computed.
pub fn float64_place(bits: u64) -> (r: i64)
    ensures
        r == float64_key(bits),
{
    let negative = bits >= 0x8000_0000_0000_0000u64;
    let magnitude: u64 = if negative {
        bits - 0x8000_0000_0000_0000u64
    } else {
        bits
    };
    if magnitude > 0x7ff0_0000_0000_0000u64 {
        0x7ff0_0000_0000_0001i64
    } else if negative {
        -(magnitude as i64)
    } else {
        magnitude as i64
    }
}

/// The place of a single, computed.
pub fn float32_place(bits: u32) -> (r: i64)
    ensures
        r == float32_key(bits),
{
    let negative = bits >= 0x8000_0000u32;
    let magnitude: u32 = if negative {
        bits - 0x8000_0000u32
    } else {
        bits
    };
    if magnitude > 0x7f80_0000u32 {
        0x7f80_0001i64
    } else if negative {
        -(magnitude as i64)
    } else {
        magnitude as i64
    }
}

/// Whether the bits are those of a NaN double.
pub open spec fn float64_is_nan(bits: u64) -> bool {
    float64_key(bits) == 0x7ff0_0000_0000_0001
}

/// Whether the bits are those of a zero double, of either sign.
pub open spec fn float64_is_zero(bits: u64) -> bool {
    float64_key(bits) == 0
}

/// Whether the bits are those of a NaN single.
pub open spec fn float32_is_nan(bits: u32) -> bool {
    float32_key(bits) == 0x7f80_0001
}

/// Whether the bits are those of a zero single, of either sign.
pub open spec fn float32_is_zero(bits: u32) -> bool {
    float32_key(bits) == 0
}

/// The order of two integers, computed.
pub fn order_i128(a: i128, b: i128) -> (r: Order)
    ensures
        r == int_order(a as int, b as int),
{
    if a < b {
        Order::Less
    } else if a == b {
        Order::Equal
    } else {
        Order::Greater
    }
}

/// The order of two sequences of bytes: by the first place at which they
/// differ; a prefix stands before what it is a prefix of.
pub open spec fn bytes_order(a: Seq<u8>, b: Seq<u8>, i: int) -> Order
    decreases a.len() - i,
{
    if i >= a.len() && i >= b.len() {
        Order::Equal
    } else if i >= a.len() {
        Order::Less
    } else if i >= b.len() {
        Order::Greater
    } else if a[i] != b[i] {
        int_order(a[i] as int, b[i] as int)
    } else {
        bytes_order(a, b, i + 1)
    }
}

/// The order of two texts, character by character.
pub open spec fn text_order(a: Seq<char>, b: Seq<char>, i: int) -> Order
    decreases a.len() - i,
{
    if i >= a.len() && i >= b.len() {
        Order::Equal
    } else if i >= a.len() {
        Order::Less
    } else if i >= b.len() {
        Order::Greater
    } else if a[i] != b[i] {
        int_order(a[i] as u32 as int, b[i] as u32 as int)
    } else {
        text_order(a, b, i + 1)
    }
}

/// The order of two lists of dimensions.
pub open spec fn dims_order(a: Seq<ArrayDimension>, b: Seq<ArrayDimension>, i: int) -> Order
    decreases a.len() - i,
{
    if i >= a.len() && i >= b.len() {
        Order::Equal
    } else if i >= a.len() {
        Order::Less
    } else if i >= b.len() {
        Order::Greater
    } else if a[i].lower_bound != b[i].lower_bound {
        int_order(a[i].lower_bound as int, b[i].lower_bound as int)
    } else if a[i].length != b[i].length {
        int_order(a[i].length as int, b[i].length as int)
    } else {
        dims_order(a, b, i + 1)
    }
}

impl DatumV {
    /// The place of the variant in the order of variants.
    pub open spec fn rank(self) -> int {
        match self {
            DatumV::False => 0,
            DatumV::True => 1,
            DatumV::Int16(_) => 2,
            DatumV::Int32(_) => 3,
            DatumV::Int64(_) => 4,
            DatumV::Float32(_) => 5,
            DatumV::Float64(_) => 6,
            DatumV::Date(_) => 7,
            DatumV::Time(_) => 8,
            DatumV::Timestamp(_) => 9,
            DatumV::TimestampTz(_) => 10,
            DatumV::Interval(_) => 11,
            DatumV::Bytes(_) => 12,
            DatumV::String(_) => 13,
            DatumV::Array { .. } => 14,
            DatumV::List(_) => 15,
            DatumV::Dict(_) => 16,
            DatumV::Numeric(_) => 17,
            DatumV::JsonNull => 18,
            DatumV::Uuid(_) => 19,
            DatumV::Dummy => 20,
            DatumV::Null => 21,
        }
    }
}

/// The order of two times of day.
pub open spec fn time_order(a: Time, b: Time) -> Order {
    if a.secs != b.secs {
        int_order(a.secs as int, b.secs as int)
    } else {
        int_order(a.nanos as int, b.nanos as int)
    }
}

/// The order of two timestamps.
pub open spec fn timestamp_order(a: Timestamp, b: Timestamp) -> Order {
    if a.date.days != b.date.days {
        int_order(a.date.days as int, b.date.days as int)
    } else {
        time_order(a.time, b.time)
    }
}

/// The order of two intervals: by months, then by clock time.
pub open spec fn interval_order(a: Interval, b: Interval) -> Order {
    if a.months != b.months {
        int_order(a.months as int, b.months as int)
    } else {
        int_order(a.duration as int, b.duration as int)
    }
}

/// The order of two datums. Datums of different variants stand as their
/// variants do, SQL null last. Datums of one variant stand as what they
/// hold: numbers by value, floats with every NaN at one place above all
/// others and the two zeros at one place, texts and bytes by the first
/// difference, lists and maps element by element.
pub open spec fn datum_order(a: DatumV, b: DatumV) -> Order
    decreases a, 0nat, 0nat,
{
    if a.rank() != b.rank() {
        int_order(a.rank(), b.rank())
    } else {
        match (a, b) {
            (DatumV::Int16(x), DatumV::Int16(y)) => int_order(x as int, y as int),
            (DatumV::Int32(x), DatumV::Int32(y)) => int_order(x as int, y as int),
            (DatumV::Int64(x), DatumV::Int64(y)) => int_order(x as int, y as int),
            (DatumV::Float32(x), DatumV::Float32(y)) => int_order(float32_key(x), float32_key(y)),
            (DatumV::Float64(x), DatumV::Float64(y)) => int_order(float64_key(x), float64_key(y)),
            (DatumV::Date(x), DatumV::Date(y)) => int_order(x.days as int, y.days as int),
            (DatumV::Time(x), DatumV::Time(y)) => time_order(x, y),
            (DatumV::Timestamp(x), DatumV::Timestamp(y)) => timestamp_order(x, y),
            (DatumV::TimestampTz(x), DatumV::TimestampTz(y)) => timestamp_order(x, y),
            (DatumV::Interval(x), DatumV::Interval(y)) => interval_order(x, y),
            (DatumV::Bytes(x), DatumV::Bytes(y)) => bytes_order(x, y, 0),
            (DatumV::String(x), DatumV::String(y)) => text_order(x, y, 0),
            (DatumV::Array { dims: dx, elements: ex }, DatumV::Array { dims: dy, elements: ey }) => {
                let o = list_order(ex, ey, 0);
                if o != Order::Equal {
                    o
                } else {
                    dims_order(dx, dy, 0)
                }
            },
            (DatumV::List(x), DatumV::List(y)) => list_order(x, y, 0),
            (DatumV::Dict(x), DatumV::Dict(y)) => dict_order(x, y, 0),
            (DatumV::Numeric(x), DatumV::Numeric(y)) => numeric_order_spec(x, y),
            (DatumV::Uuid(x), DatumV::Uuid(y)) => int_order(x as int, y as int),
            _ => Order::Equal,
        }
    }
}

/// The order of two lists of datums from place `i` on.
pub open spec fn list_order(a: Seq<DatumV>, b: Seq<DatumV>, i: int) -> Order
    decreases a, 1nat, a.len() - i,
{
    if i < 0 || (i >= a.len() && i >= b.len()) {
        Order::Equal
    } else if i >= a.len() {
        Order::Less
    } else if i >= b.len() {
        Order::Greater
    } else if datum_order(a[i], b[i]) != Order::Equal {
        datum_order(a[i], b[i])
    } else {
        list_order(a, b, i + 1)
    }
}

/// The order of two lists of keyed datums from place `i` on.
pub open spec fn dict_order(a: Seq<(Seq<char>, DatumV)>, b: Seq<(Seq<char>, DatumV)>, i: int) -> Order
    decreases a, 1nat, a.len() - i,
{
    if i < 0 || (i >= a.len() && i >= b.len()) {
        Order::Equal
    } else if i >= a.len() {
        Order::Less
    } else if i >= b.len() {
        Order::Greater
    } else if text_order(a[i].0, b[i].0, 0) != Order::Equal {
        text_order(a[i].0, b[i].0, 0)
    } else if datum_order(a[i].1, b[i].1) != Order::Equal {
        datum_order(a[i].1, b[i].1)
    } else {
        dict_order(a, b, i + 1)
    }
}

/// Whether two datums stand at the same place of the order. This is the
/// equality of SQL values.
pub open spec fn datum_eq(a: DatumV, b: DatumV) -> bool {
    datum_order(a, b) == Order::Equal
}

/// The order of two sequences of bytes, computed.
pub fn order_bytes(a: &Vec<u8>, b: &Vec<u8>) -> (r: Order)
    ensures
        r == bytes_order(a@, b@, 0),
{
    let mut i: usize = 0;
    while i < a.len() && i < b.len()
        invariant
            i <= a.len(),
            i <= b.len(),
            bytes_order(a@, b@, 0) == bytes_order(a@, b@, i as int),
        decreases a.len() - i,
    {
        if a[i] != b[i] {
            return if a[i] < b[i] {
                Order::Less
            } else {
                Order::Greater
            };
        }
        i += 1;
    }
    if i >= a.len() && i >= b.len() {
        Order::Equal
    } else if i >= a.len() {
        Order::Less
    } else {
        Order::Greater
    }
}

/// The order of two texts, computed.
pub fn order_text(a: &str, b: &str) -> (r: Order)
    ensures
        r == text_order(a@, b@, 0),
{
    let la = a.unicode_len();
    let lb = b.unicode_len();
    let mut i: usize = 0;
    while i < la && i < lb
        invariant
            la == a@.len(),
            lb == b@.len(),
            i <= la,
            i <= lb,
            text_order(a@, b@, 0) == text_order(a@, b@, i as int),
        decreases la - i,
    {
        let x = a.get_char(i);
        let y = b.get_char(i);
        if x != y {
            return if (x as u32) < (y as u32) {
                Order::Less
            } else {
                Order::Greater
            };
        }
        i += 1;
    }
    if i >= la && i >= lb {
        Order::Equal
    } else if i >= la {
        Order::Less
    } else {
        Order::Greater
    }
}

/// The order of two lists of dimensions, computed.
pub fn order_dims(a: &Vec<ArrayDimension>, b: &Vec<ArrayDimension>) -> (r: Order)
    ensures
        r == dims_order(a@, b@, 0),
{
    let mut i: usize = 0;
    while i < a.len() && i < b.len()
        invariant
            i <= a.len(),
            i <= b.len(),
            dims_order(a@, b@, 0) == dims_order(a@, b@, i as int),
        decreases a.len() - i,
    {
        if a[i].lower_bound != b[i].lower_bound {
            return if a[i].lower_bound < b[i].lower_bound {
                Order::Less
            } else {
                Order::Greater
            };
        }
        if a[i].length != b[i].length {
            return if a[i].length < b[i].length {
                Order::Less
            } else {
                Order::Greater
            };
        }
        i += 1;
    }
    if i >= a.len() && i >= b.len() {
        Order::Equal
    } else if i >= a.len() {
        Order::Less
    } else {
        Order::Greater
    }
}

impl Datum {
    /// The place of the variant in the order of variants.
    pub fn rank(&self) -> (r: u8)
        ensures
            r as int == self@.rank(),
    {
        match self {
            Datum::False => 0,
            Datum::True => 1,
            Datum::Int16(_) => 2,
            Datum::Int32(_) => 3,
            Datum::Int64(_) => 4,
            Datum::Float32(_) => 5,
            Datum::Float64(_) => 6,
            Datum::Date(_) => 7,
            Datum::Time(_) => 8,
            Datum::Timestamp(_) => 9,
            Datum::TimestampTz(_) => 10,
            Datum::Interval(_) => 11,
            Datum::Bytes(_) => 12,
            Datum::String(_) => 13,
            Datum::Array { .. } => 14,
            Datum::List(_) => 15,
            Datum::Dict(_) => 16,
            Datum::Numeric(_) => 17,
            Datum::JsonNull => 18,
            Datum::Uuid(_) => 19,
            Datum::Dummy => 20,
            Datum::Null => 21,
        }
    }

    /// The order of two datums. A numeric that is not well formed stands
    /// where the order of its parts puts it: see [`numeric_order`].
    #[verifier::loop_isolation(false)]
    pub fn compare(&self, other: &Datum) -> (r: Order)
        ensures
            r == datum_order(self@, other@),
        decreases self,
    {
        let ra = self.rank();
        let rb = other.rank();
        if ra != rb {
            return if ra < rb {
                Order::Less
            } else {
                Order::Greater
            };
        }
        match self {
            Datum::Int16(x) => order_i128(*x as i128, other.unwrap_int16() as i128),
            Datum::Int32(x) => order_i128(*x as i128, other.unwrap_int32() as i128),
            Datum::Int64(x) => order_i128(*x as i128, other.unwrap_int64() as i128),
            Datum::Float32(x) => order_i128(
                float32_place(*x) as i128,
                float32_place(other.unwrap_float32()) as i128,
            ),
            Datum::Float64(x) => order_i128(
                float64_place(*x) as i128,
                float64_place(other.unwrap_float64()) as i128,
            ),
            Datum::Date(x) => order_i128(x.days as i128, other.unwrap_date().days as i128),
            Datum::Time(x) => order_time(*x, other.unwrap_time()),
            Datum::Timestamp(x) => order_timestamp(*x, other.unwrap_timestamp()),
            Datum::TimestampTz(x) => order_timestamp(*x, other.unwrap_timestamptz()),
            Datum::Interval(x) => {
                let y = other.unwrap_interval();
                if x.months != y.months {
                    order_i128(x.months as i128, y.months as i128)
                } else {
                    order_i128(x.duration, y.duration)
                }
            },
            Datum::Bytes(x) => order_bytes(x, other.unwrap_bytes()),
            Datum::String(x) => order_text(x.as_str(), other.unwrap_str()),
            Datum::Array { dims, elements } => {
                let oe = other.unwrap_array_elements();
                let od = other.unwrap_array_dims();
                proof {
                    crate::datum::lemma_array_view(*self);
                }
                let ghost va = datums_view(elements@);
                let ghost vb = datums_view(oe@);
                let mut i: usize = 0;
                let mut o = Order::Equal;
                while o == Order::Equal && i < elements.len() && i < oe.len()
                    invariant
                        i <= elements.len(),
                        i <= oe.len(),
                        o == Order::Equal ==> list_order(va, vb, 0) == list_order(va, vb, i as int),
                        o != Order::Equal ==> list_order(va, vb, 0) == o,
                    decreases elements.len() - i, if o == Order::Equal { 1nat } else { 0nat },
                {
                    let c = elements[i].compare(&oe[i]);
                    if c != Order::Equal {
                        o = c;
                    } else {
                        i += 1;
                    }
                }
                if o != Order::Equal {
                    return o;
                }
                if i < elements.len() {
                    return Order::Greater;
                }
                if i < oe.len() {
                    return Order::Less;
                }
                order_dims(dims, od)
            },
            Datum::List(x) => {
                let y = other.unwrap_list();
                proof {
                    crate::datum::lemma_list_view(*self);
                }
                let ghost va = datums_view(x@);
                let ghost vb = datums_view(y@);
                let mut i: usize = 0;
                let mut o = Order::Equal;
                while o == Order::Equal && i < x.len() && i < y.len()
                    invariant
                        i <= x.len(),
                        i <= y.len(),
                        o == Order::Equal ==> list_order(va, vb, 0) == list_order(va, vb, i as int),
                        o != Order::Equal ==> list_order(va, vb, 0) == o,
                    decreases x.len() - i, if o == Order::Equal { 1nat } else { 0nat },
                {
                    let c = x[i].compare(&y[i]);
                    if c != Order::Equal {
                        o = c;
                    } else {
                        i += 1;
                    }
                }
                if o != Order::Equal {
                    o
                } else if i < x.len() {
                    Order::Greater
                } else if i < y.len() {
                    Order::Less
                } else {
                    Order::Equal
                }
            },
            Datum::Dict(x) => {
                let y = other.unwrap_map();
                proof {
                    crate::datum::lemma_dict_view(*self);
                }
                let ghost va = pairs_view(x@);
                let ghost vb = pairs_view(y@);
                let mut i: usize = 0;
                let mut o = Order::Equal;
                while o == Order::Equal && i < x.len() && i < y.len()
                    invariant
                        i <= x.len(),
                        i <= y.len(),
                        o == Order::Equal ==> dict_order(va, vb, 0) == dict_order(va, vb, i as int),
                        o != Order::Equal ==> dict_order(va, vb, 0) == o,
                    decreases x.len() - i, if o == Order::Equal { 1nat } else { 0nat },
                {
                    let k = order_text(x[i].0.as_str(), y[i].0.as_str());
                    if k != Order::Equal {
                        o = k;
                    } else {
                        let c = x[i].1.compare(&y[i].1);
                        if c != Order::Equal {
                            o = c;
                        } else {
                            i += 1;
                        }
                    }
                }
                if o != Order::Equal {
                    o
                } else if i < x.len() {
                    Order::Greater
                } else if i < y.len() {
                    Order::Less
                } else {
                    Order::Equal
                }
            },
            Datum::Numeric(x) => numeric_order(x, &other.unwrap_numeric()),
            Datum::Uuid(x) => {
                let y = other.unwrap_uuid();
                if *x < y {
                    Order::Less
                } else if *x == y {
                    Order::Equal
                } else {
                    Order::Greater
                }
            },
            _ => Order::Equal,
        }
    }

    /// Whether two datums are equal as SQL values.
    pub fn equals(&self, other: &Datum) -> (r: bool)
        ensures
            r == datum_eq(self@, other@),
    {
        self.compare(other) == Order::Equal
    }
}

/// The order of two times of day, computed.
pub fn order_time(a: Time, b: Time) -> (r: Order)
    ensures
        r == time_order(a, b),
{
    if a.secs != b.secs {
        order_i128(a.secs as i128, b.secs as i128)
    } else {
        order_i128(a.nanos as i128, b.nanos as i128)
    }
}

/// The order of two timestamps, computed.
pub fn order_timestamp(a: Timestamp, b: Timestamp) -> (r: Order)
    ensures
        r == timestamp_order(a, b),
{
    if a.date.days != b.date.days {
        order_i128(a.date.days as i128, b.date.days as i128)
    } else {
        order_time(a.time, b.time)
    }
}

} // verus!
