//! Datums: the tagged values that flow through evaluation, and their
//! mathematical model.

use vstd::prelude::*;

verus! {

/// The first day that a date can hold, counted from January 1 of year 1 as
/// day 1: January 1 of the year -262143.
pub const MIN_DAYS: i32 = -95_746_129i32;

/// The last day that a date can hold: December 31 of the year 262142.
pub const MAX_DAYS: i32 = 95_745_399i32;

/// Seconds in a day.
pub const SECS_PER_DAY: u32 = 86_400u32;

/// Nanoseconds in a second.
pub const NANOS_PER_SEC: u32 = 1_000_000_000u32;

/// A calendar date, held as the number of days since December 31 of the
/// year 0 in the proleptic Gregorian calendar.
#[derive(Clone, Copy, Debug, PartialEq, Eq, Structural, Hash)]
pub struct Date {
    pub days: i32,
}

/// A time of day, without leap seconds.
#[derive(Clone, Copy, Debug, PartialEq, Eq, Structural, Hash)]
pub struct Time {
    /// Seconds since midnight, below 86 400.
    pub secs: u32,
    /// Nanoseconds within the second, below 1 000 000 000.
    pub nanos: u32,
}

/// A date with a time of day. A timestamp with time zone holds the moment
/// in UTC.
#[derive(Clone, Copy, Debug, PartialEq, Eq, Structural, Hash)]
pub struct Timestamp {
    pub date: Date,
    pub time: Time,
}

/// A span of time: calendar months, and clock time in nanoseconds, kept
/// apart because the one cannot be converted into the other.
#[derive(Clone, Copy, Debug, PartialEq, Eq, Structural, Hash)]
pub struct Interval {
    pub months: i32,
    pub duration: i128,
}

/// An arbitrary-precision decimal, held as the four parts of its
/// representation: the count of digits of the coefficient, the exponent,
/// the sign and special-value bits, and the coefficient in units of three
/// decimal digits, least significant first.
#[derive(Clone, Copy, Debug, PartialEq, Eq, Hash)]
pub struct Numeric {
    pub digits: u32,
    pub exponent: i32,
    pub bits: u8,
    pub lsu: [u16; 13],
}

/// One dimension of an array: its lower bound and its length.
#[derive(Clone, Copy, Debug, PartialEq, Eq, Structural, Hash)]
pub struct ArrayDimension {
    pub lower_bound: usize,
    pub length: usize,
}

/// A value. SQL null (`Null`) and JSON null (`JsonNull`) are different
/// values. The variants stand in the order in which datums of different
/// variants sort.
#[derive(Debug, PartialEq, Eq, Hash)]
pub enum Datum {
    False,
    True,
    Int16(i16),
    Int32(i32),
    Int64(i64),
    /// The bits of an IEEE 754 single.
    Float32(u32),
    /// The bits of an IEEE 754 double.
    Float64(u64),
    Date(Date),
    Time(Time),
    Timestamp(Timestamp),
    TimestampTz(Timestamp),
    Interval(Interval),
    Bytes(Vec<u8>),
    String(String),
    Array { dims: Vec<ArrayDimension>, elements: Vec<Datum> },
    List(Vec<Datum>),
    /// Key and value pairs, the keys unique and ascending.
    Dict(Vec<(String, Datum)>),
    Numeric(Numeric),
    JsonNull,
    Uuid(u128),
    Dummy,
    Null,
}

/// The mathematical value of a [`Datum`].
pub enum DatumV {
    False,
    True,
    Int16(i16),
    Int32(i32),
    Int64(i64),
    Float32(u32),
    Float64(u64),
    Date(Date),
    Time(Time),
    Timestamp(Timestamp),
    TimestampTz(Timestamp),
    Interval(Interval),
    Bytes(Seq<u8>),
    String(Seq<char>),
    Array { dims: Seq<ArrayDimension>, elements: Seq<DatumV> },
    List(Seq<DatumV>),
    Dict(Seq<(Seq<char>, DatumV)>),
    Numeric(Numeric),
    JsonNull,
    Uuid(u128),
    Dummy,
    Null,
}

/// The mathematical value of a datum.
pub open spec fn datum_view(d: Datum) -> DatumV
    decreases d,
{
    match d {
        Datum::False => DatumV::False,
        Datum::True => DatumV::True,
        Datum::Int16(i) => DatumV::Int16(i),
        Datum::Int32(i) => DatumV::Int32(i),
        Datum::Int64(i) => DatumV::Int64(i),
        Datum::Float32(b) => DatumV::Float32(b),
        Datum::Float64(b) => DatumV::Float64(b),
        Datum::Date(x) => DatumV::Date(x),
        Datum::Time(x) => DatumV::Time(x),
        Datum::Timestamp(x) => DatumV::Timestamp(x),
        Datum::TimestampTz(x) => DatumV::TimestampTz(x),
        Datum::Interval(x) => DatumV::Interval(x),
        Datum::Bytes(b) => DatumV::Bytes(b@),
        Datum::String(s) => DatumV::String(s@),
        Datum::Array { dims, elements } => DatumV::Array {
            dims: dims@,
            elements: Seq::new(
                elements@.len(),
                |i: int| if 0 <= i < elements@.len() { datum_view(elements@[i]) } else { DatumV::Null },
            ),
        },
        Datum::List(v) => DatumV::List(
            Seq::new(v@.len(), |i: int| if 0 <= i < v@.len() { datum_view(v@[i]) } else { DatumV::Null }),
        ),
        Datum::Dict(v) => DatumV::Dict(
            Seq::new(
                v@.len(),
                |i: int|
                    if 0 <= i < v@.len() {
                        (v@[i].0@, datum_view(v@[i].1))
                    } else {
                        (Seq::empty(), DatumV::Null)
                    },
            ),
        ),
        Datum::Numeric(n) => DatumV::Numeric(n),
        Datum::JsonNull => DatumV::JsonNull,
        Datum::Uuid(u) => DatumV::Uuid(u),
        Datum::Dummy => DatumV::Dummy,
        Datum::Null => DatumV::Null,
    }
}

impl View for Datum {
    type V = DatumV;

    open spec fn view(&self) -> DatumV {
        datum_view(*self)
    }
}

/// The values of a sequence of datums.
pub open spec fn datums_view(s: Seq<Datum>) -> Seq<DatumV> {
    Seq::new(s.len(), |i: int| s[i]@)
}

/// The values of a sequence of keyed datums.
pub open spec fn pairs_view(s: Seq<(String, Datum)>) -> Seq<(Seq<char>, DatumV)> {
    Seq::new(s.len(), |i: int| (s[i].0@, s[i].1@))
}

/// The value of a result of evaluation.
pub open spec fn res_view(r: Result<Datum, crate::error::EvalError>) -> Result<DatumV, crate::error::EvalErrorV> {
    match r {
        Ok(d) => Ok(d@),
        Err(e) => Err(e@),
    }
}

/// What the value of a list holds: the values of its elements.
pub proof fn lemma_list_view(d: Datum)
    requires
        d is List,
    ensures
        d@ == DatumV::List(datums_view(d->List_0@)),
{
    assert(d@->List_0 =~= datums_view(d->List_0@));
}

/// What the value of a map holds: its keys and the values of its values.
pub proof fn lemma_dict_view(d: Datum)
    requires
        d is Dict,
    ensures
        d@ == DatumV::Dict(pairs_view(d->Dict_0@)),
{
    assert(d@->Dict_0 =~= pairs_view(d->Dict_0@));
}

/// What the value of an array holds: its dimensions and the values of its
/// elements.
pub proof fn lemma_array_view(d: Datum)
    requires
        d is Array,
    ensures
        d@ == (DatumV::Array { dims: d->dims@, elements: datums_view(d->elements@) }),
{
    assert(d@->elements =~= datums_view(d->elements@));
}

impl Date {
    /// A date is well formed when its day lies in the range of the calendar.
    pub open spec fn wf(self) -> bool {
        MIN_DAYS <= self.days <= MAX_DAYS
    }
}

impl Time {
    /// A time is well formed when it lies within one day.
    pub open spec fn wf(self) -> bool {
        self.secs < SECS_PER_DAY && self.nanos < NANOS_PER_SEC
    }

    /// The nanoseconds since midnight.
    pub open spec fn nanos_of_day(self) -> int {
        self.secs as int * 1_000_000_000 + self.nanos as int
    }
}

impl Timestamp {
    /// A timestamp is well formed when its date and its time are.
    pub open spec fn wf(self) -> bool {
        self.date.wf() && self.time.wf()
    }
}

impl DatumV {
    /// Whether the value is SQL null.
    pub open spec fn is_null(self) -> bool {
        self is Null
    }

    /// The datum of a truth value.
    pub open spec fn from_bool(b: bool) -> DatumV {
        if b {
            DatumV::True
        } else {
            DatumV::False
        }
    }

    /// Whether the value is `True` or `False`.
    pub open spec fn is_bool(self) -> bool {
        self is True || self is False
    }

    /// Whether the value is a text.
    pub open spec fn is_str(self) -> bool {
        self is String
    }
}

/// Whether any value of a sequence is SQL null.
pub open spec fn any_null(s: Seq<DatumV>) -> bool {
    exists|i: int| 0 <= i < s.len() && (#[trigger] s[i]) is Null
}

/// Copies a vector of datums.
pub fn clone_datums(v: &Vec<Datum>) -> (r: Vec<Datum>)
    ensures
        datums_view(r@) == datums_view(v@),
        r@.len() == v@.len(),
{
    let mut out: Vec<Datum> = Vec::new();
    let mut i: usize = 0;
    while i < v.len()
        invariant
            i <= v.len(),
            out.len() == i,
            forall|j: int| 0 <= j < i ==> out@[j]@ == v@[j]@,
        decreases v.len() - i,
    {
        out.push(v[i].clone());
        i += 1;
    }
    assert(datums_view(out@) =~= datums_view(v@));
    out
}

/// Copies a vector of bytes.
pub fn clone_bytes(v: &Vec<u8>) -> (r: Vec<u8>)
    ensures
        r@ == v@,
{
    let mut out: Vec<u8> = Vec::new();
    let mut i: usize = 0;
    while i < v.len()
        invariant
            i <= v.len(),
            out.len() == i,
            forall|j: int| 0 <= j < i ==> out@[j] == v@[j],
        decreases v.len() - i,
    {
        out.push(v[i]);
        i += 1;
    }
    assert(out@ =~= v@);
    out
}

impl Clone for Datum {
    #[verifier::loop_isolation(false)]
    fn clone(&self) -> (r: Self)
        ensures
            r@ == self@,
        decreases self,
    {
        match self {
            Datum::False => Datum::False,
            Datum::True => Datum::True,
            Datum::Int16(i) => Datum::Int16(*i),
            Datum::Int32(i) => Datum::Int32(*i),
            Datum::Int64(i) => Datum::Int64(*i),
            Datum::Float32(b) => Datum::Float32(*b),
            Datum::Float64(b) => Datum::Float64(*b),
            Datum::Date(x) => Datum::Date(*x),
            Datum::Time(x) => Datum::Time(*x),
            Datum::Timestamp(x) => Datum::Timestamp(*x),
            Datum::TimestampTz(x) => Datum::TimestampTz(*x),
            Datum::Interval(x) => Datum::Interval(*x),
            Datum::Bytes(b) => Datum::Bytes(clone_bytes(b)),
            Datum::String(s) => Datum::String(s.clone()),
            Datum::Array { dims, elements } => {
                let mut out: Vec<Datum> = Vec::new();
                let mut i: usize = 0;
                while i < elements.len()
                    invariant
                        i <= elements.len(),
                        out.len() == i,
                        forall|j: int| 0 <= j < i ==> out@[j]@ == elements@[j]@,
                    decreases elements.len() - i,
                {
                    out.push(elements[i].clone());
                    i += 1;
                }
                let mut ds: Vec<ArrayDimension> = Vec::new();
                let mut k: usize = 0;
                while k < dims.len()
                    invariant
                        k <= dims.len(),
                        ds.len() == k,
                        forall|j: int| 0 <= j < k ==> ds@[j] == dims@[j],
                    decreases dims.len() - k,
                {
                    ds.push(dims[k]);
                    k += 1;
                }
                assert(ds@ =~= dims@);
                let r = Datum::Array { dims: ds, elements: out };
                proof {
                    lemma_array_view(r);
                    lemma_array_view(*self);
                    assert(datums_view(out@) =~= datums_view(elements@));
                }
                r
            },
            Datum::List(v) => {
                let mut out: Vec<Datum> = Vec::new();
                let mut i: usize = 0;
                while i < v.len()
                    invariant
                        i <= v.len(),
                        out.len() == i,
                        forall|j: int| 0 <= j < i ==> out@[j]@ == v@[j]@,
                    decreases v.len() - i,
                {
                    out.push(v[i].clone());
                    i += 1;
                }
                let r = Datum::List(out);
                proof {
                    lemma_list_view(r);
                    lemma_list_view(*self);
                    assert(datums_view(out@) =~= datums_view(v@));
                }
                r
            },
            Datum::Dict(v) => {
                let mut out: Vec<(String, Datum)> = Vec::new();
                let mut i: usize = 0;
                while i < v.len()
                    invariant
                        i <= v.len(),
                        out.len() == i,
                        forall|j: int| 0 <= j < i ==> out@[j].0@ == v@[j].0@ && out@[j].1@ == v@[j].1@,
                    decreases v.len() - i,
                {
                    out.push((v[i].0.clone(), v[i].1.clone()));
                    i += 1;
                }
                let r = Datum::Dict(out);
                proof {
                    lemma_dict_view(r);
                    lemma_dict_view(*self);
                    assert(pairs_view(out@) =~= pairs_view(v@));
                }
                r
            },
            Datum::Numeric(n) => Datum::Numeric(*n),
            Datum::JsonNull => Datum::JsonNull,
            Datum::Uuid(u) => Datum::Uuid(*u),
            Datum::Dummy => Datum::Dummy,
            Datum::Null => Datum::Null,
        }
    }
}

impl Datum {
    /// Whether the datum is SQL null.
    pub fn is_null(&self) -> (r: bool)
        ensures
            r == self@.is_null(),
    {
        match self {
            Datum::Null => true,
            _ => false,
        }
    }

    /// The datum of a truth value.
    pub fn from_bool(b: bool) -> (r: Datum)
        ensures
            r@ == DatumV::from_bool(b),
    {
        if b {
            Datum::True
        } else {
            Datum::False
        }
    }

    /// The datum of a text.
    pub fn from_str(s: &str) -> (r: Datum)
        ensures
            r@ == DatumV::String(s@),
    {
        Datum::String(s.to_owned())
    }

    /// The truth value of a boolean datum.
    pub fn unwrap_bool(&self) -> (r: bool)
        requires
            self@.is_bool(),
        ensures
            self@ == DatumV::from_bool(r),
    {
        match self {
            Datum::True => true,
            Datum::False => false,
            _ => unreached(),
        }
    }

    pub fn unwrap_int16(&self) -> (r: i16)
        requires
            self@ is Int16,
        ensures
            self@ == DatumV::Int16(r),
    {
        match self {
            Datum::Int16(i) => *i,
            _ => unreached(),
        }
    }

    pub fn unwrap_int32(&self) -> (r: i32)
        requires
            self@ is Int32,
        ensures
            self@ == DatumV::Int32(r),
    {
        match self {
            Datum::Int32(i) => *i,
            _ => unreached(),
        }
    }

    pub fn unwrap_int64(&self) -> (r: i64)
        requires
            self@ is Int64,
        ensures
            self@ == DatumV::Int64(r),
    {
        match self {
            Datum::Int64(i) => *i,
            _ => unreached(),
        }
    }

    /// The bits of a single-precision float datum.
    pub fn unwrap_float32(&self) -> (r: u32)
        requires
            self@ is Float32,
        ensures
            self@ == DatumV::Float32(r),
    {
        match self {
            Datum::Float32(i) => *i,
            _ => unreached(),
        }
    }

    /// The bits of a double-precision float datum.
    pub fn unwrap_float64(&self) -> (r: u64)
        requires
            self@ is Float64,
        ensures
            self@ == DatumV::Float64(r),
    {
        match self {
            Datum::Float64(i) => *i,
            _ => unreached(),
        }
    }

    pub fn unwrap_date(&self) -> (r: Date)
        requires
            self@ is Date,
        ensures
            self@ == DatumV::Date(r),
    {
        match self {
            Datum::Date(i) => *i,
            _ => unreached(),
        }
    }

    pub fn unwrap_time(&self) -> (r: Time)
        requires
            self@ is Time,
        ensures
            self@ == DatumV::Time(r),
    {
        match self {
            Datum::Time(i) => *i,
            _ => unreached(),
        }
    }

    pub fn unwrap_timestamp(&self) -> (r: Timestamp)
        requires
            self@ is Timestamp,
        ensures
            self@ == DatumV::Timestamp(r),
    {
        match self {
            Datum::Timestamp(i) => *i,
            _ => unreached(),
        }
    }

    pub fn unwrap_timestamptz(&self) -> (r: Timestamp)
        requires
            self@ is TimestampTz,
        ensures
            self@ == DatumV::TimestampTz(r),
    {
        match self {
            Datum::TimestampTz(i) => *i,
            _ => unreached(),
        }
    }

    pub fn unwrap_interval(&self) -> (r: Interval)
        requires
            self@ is Interval,
        ensures
            self@ == DatumV::Interval(r),
    {
        match self {
            Datum::Interval(i) => *i,
            _ => unreached(),
        }
    }

    pub fn unwrap_numeric(&self) -> (r: Numeric)
        requires
            self@ is Numeric,
        ensures
            self@ == DatumV::Numeric(r),
    {
        match self {
            Datum::Numeric(i) => *i,
            _ => unreached(),
        }
    }

    pub fn unwrap_uuid(&self) -> (r: u128)
        requires
            self@ is Uuid,
        ensures
            self@ == DatumV::Uuid(r),
    {
        match self {
            Datum::Uuid(i) => *i,
            _ => unreached(),
        }
    }

    pub fn unwrap_str(&self) -> (r: &str)
        requires
            self@ is String,
        ensures
            self@ == DatumV::String(r@),
    {
        match self {
            Datum::String(s) => s.as_str(),
            _ => unreached(),
        }
    }

    pub fn unwrap_bytes(&self) -> (r: &Vec<u8>)
        requires
            self@ is Bytes,
        ensures
            self@ == DatumV::Bytes(r@),
    {
        match self {
            Datum::Bytes(b) => b,
            _ => unreached(),
        }
    }

    /// The elements of a list datum.
    pub fn unwrap_list(&self) -> (r: &Vec<Datum>)
        requires
            self@ is List,
        ensures
            self@ == DatumV::List(datums_view(r@)),
    {
        proof {
            if self is List {
                lemma_list_view(*self);
            }
        }
        match self {
            Datum::List(v) => v,
            _ => unreached(),
        }
    }

    /// The pairs of a map datum.
    pub fn unwrap_map(&self) -> (r: &Vec<(String, Datum)>)
        requires
            self@ is Dict,
        ensures
            self@ == DatumV::Dict(pairs_view(r@)),
    {
        proof {
            if self is Dict {
                lemma_dict_view(*self);
            }
        }
        match self {
            Datum::Dict(v) => v,
            _ => unreached(),
        }
    }

    /// The elements of an array datum, in storage order.
    pub fn unwrap_array_elements(&self) -> (r: &Vec<Datum>)
        requires
            self@ is Array,
        ensures
            self@->elements == datums_view(r@),
    {
        proof {
            if self is Array {
                lemma_array_view(*self);
            }
        }
        match self {
            Datum::Array { elements, .. } => elements,
            _ => unreached(),
        }
    }

    /// The dimensions of an array datum.
    pub fn unwrap_array_dims(&self) -> (r: &Vec<ArrayDimension>)
        requires
            self@ is Array,
        ensures
            self@->dims == r@,
    {
        proof {
            if self is Array {
                lemma_array_view(*self);
            }
        }
        match self {
            Datum::Array { dims, .. } => dims,
            _ => unreached(),
        }
    }

    /// The list datum of the given elements.
    pub fn list(v: Vec<Datum>) -> (r: Datum)
        ensures
            r@ == DatumV::List(datums_view(v@)),
    {
        let r = Datum::List(v);
        proof {
            lemma_list_view(r);
        }
        r
    }

    /// The map datum of the given pairs.
    pub fn dict(v: Vec<(String, Datum)>) -> (r: Datum)
        ensures
            r@ == DatumV::Dict(pairs_view(v@)),
    {
        let r = Datum::Dict(v);
        proof {
            lemma_dict_view(r);
        }
        r
    }

    /// The array datum of the given dimensions and elements.
    pub fn array(dims: Vec<ArrayDimension>, elements: Vec<Datum>) -> (r: Datum)
        ensures
            r@ == (DatumV::Array { dims: dims@, elements: datums_view(elements@) }),
    {
        let r = Datum::Array { dims, elements };
        proof {
            lemma_array_view(r);
        }
        r
    }

    /// The array without dimensions and without elements.
    pub fn empty_array() -> (r: Datum)
        ensures
            r@ == (DatumV::Array { dims: Seq::empty(), elements: Seq::empty() }),
    {
        let r = Datum::array(Vec::new(), Vec::new());
        assert(datums_view(Seq::<Datum>::empty()) =~= Seq::<DatumV>::empty());
        r
    }

    /// The list without elements.
    pub fn empty_list() -> (r: Datum)
        ensures
            r@ == DatumV::List(Seq::empty()),
    {
        let r = Datum::list(Vec::new());
        assert(datums_view(Seq::<Datum>::empty()) =~= Seq::<DatumV>::empty());
        r
    }
}

} // verus!
