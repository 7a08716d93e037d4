//! The column types that the plotting and validation logic reasons about.
//!
//! `DataType` holds, as plain values, everything the library reads of an
//! Arrow column type: which variant it is and the parameters that take part
//! in equality.

use vstd::prelude::*;
use crate::text::{decimal, push_decimal};

verus! {

/// Resolution of a time-based column type.
#[derive(Debug, Clone, Copy, PartialEq, Eq, Structural)]
pub enum TimeUnit {
    Second,
    Millisecond,
    Microsecond,
    Nanosecond,
}

/// Resolution of an interval column type.
#[derive(Debug, Clone, Copy, PartialEq, Eq, Structural)]
pub enum IntervalUnit {
    YearMonth,
    DayTime,
    MonthDayNano,
}

/// The type of a column of a query result.
///
/// `Other` stands for every column type that no rule of the library names;
/// it carries what `{:?}` writes for the type.
#[derive(Debug)]
pub enum DataType {
    Null,
    Boolean,
    Int8,
    Int16,
    Int32,
    Int64,
    UInt8,
    UInt16,
    UInt32,
    UInt64,
    Float16,
    Float32,
    Float64,
    Utf8,
    LargeUtf8,
    Binary,
    LargeBinary,
    Date32,
    Date64,
    Time32(TimeUnit),
    Time64(TimeUnit),
    Timestamp(TimeUnit, Option<String>),
    Duration(TimeUnit),
    Interval(IntervalUnit),
    Decimal128(u8, i8),
    Decimal256(u8, i8),
    Other(String),
}

/// The view of an optional string, as an optional sequence of characters.
pub open spec fn opt_text(s: Option<String>) -> Option<Seq<char>> {
    match s {
        Some(t) => Some(t@),
        None => None,
    }
}

impl DataType {
    /// Two column types are the same type: same variant, equal parameters,
    /// strings compared by their characters.
    pub open spec fn same_type(self, other: DataType) -> bool {
        match (self, other) {
            (DataType::Timestamp(u1, z1), DataType::Timestamp(u2, z2)) => u1 == u2 && opt_text(z1)
                == opt_text(z2),
            (DataType::Other(a), DataType::Other(b)) => a@ == b@,
            _ => self == other,
        }
    }

    /// Whether the type holds numbers.
    pub open spec fn numeric(self) -> bool {
        match self {
            DataType::Int8 | DataType::Int16 | DataType::Int32 | DataType::Int64 | DataType::UInt8
            | DataType::UInt16 | DataType::UInt32 | DataType::UInt64 | DataType::Float16
            | DataType::Float32 | DataType::Float64 | DataType::Decimal128(_, _)
            | DataType::Decimal256(_, _) => true,
            _ => false,
        }
    }

    /// Whether the type holds text categories.
    pub open spec fn categorical(self) -> bool {
        match self {
            DataType::Utf8 | DataType::LargeUtf8 => true,
            _ => false,
        }
    }

    /// Whether the type holds points or spans of time.
    pub open spec fn temporal(self) -> bool {
        match self {
            DataType::Date32 | DataType::Date64 | DataType::Time32(_) | DataType::Time64(_)
            | DataType::Timestamp(_, _) | DataType::Duration(_) | DataType::Interval(_) => true,
            _ => false,
        }
    }

    /// A copy of the type.
    pub fn copy_type(&self) -> (r: DataType)
        ensures
            r == *self,
    {
        match self {
            DataType::Null => DataType::Null,
            DataType::Boolean => DataType::Boolean,
            DataType::Int8 => DataType::Int8,
            DataType::Int16 => DataType::Int16,
            DataType::Int32 => DataType::Int32,
            DataType::Int64 => DataType::Int64,
            DataType::UInt8 => DataType::UInt8,
            DataType::UInt16 => DataType::UInt16,
            DataType::UInt32 => DataType::UInt32,
            DataType::UInt64 => DataType::UInt64,
            DataType::Float16 => DataType::Float16,
            DataType::Float32 => DataType::Float32,
            DataType::Float64 => DataType::Float64,
            DataType::Utf8 => DataType::Utf8,
            DataType::LargeUtf8 => DataType::LargeUtf8,
            DataType::Binary => DataType::Binary,
            DataType::LargeBinary => DataType::LargeBinary,
            DataType::Date32 => DataType::Date32,
            DataType::Date64 => DataType::Date64,
            DataType::Time32(u) => DataType::Time32(*u),
            DataType::Time64(u) => DataType::Time64(*u),
            DataType::Timestamp(u, z) => DataType::Timestamp(
                *u,
                match z {
                    Some(t) => Some(t.clone()),
                    None => None,
                },
            ),
            DataType::Duration(u) => DataType::Duration(*u),
            DataType::Interval(u) => DataType::Interval(*u),
            DataType::Decimal128(p, q) => DataType::Decimal128(*p, *q),
            DataType::Decimal256(p, q) => DataType::Decimal256(*p, *q),
            DataType::Other(t) => DataType::Other(t.clone()),
        }
    }

    /// Whether `self` is the same type as `other`.
    pub fn equals(&self, other: &DataType) -> (r: bool)
        ensures
            r == self.same_type(*other),
    {
        match (self, other) {
            (DataType::Null, DataType::Null) => true,
            (DataType::Boolean, DataType::Boolean) => true,
            (DataType::Int8, DataType::Int8) => true,
            (DataType::Int16, DataType::Int16) => true,
            (DataType::Int32, DataType::Int32) => true,
            (DataType::Int64, DataType::Int64) => true,
            (DataType::UInt8, DataType::UInt8) => true,
            (DataType::UInt16, DataType::UInt16) => true,
            (DataType::UInt32, DataType::UInt32) => true,
            (DataType::UInt64, DataType::UInt64) => true,
            (DataType::Float16, DataType::Float16) => true,
            (DataType::Float32, DataType::Float32) => true,
            (DataType::Float64, DataType::Float64) => true,
            (DataType::Utf8, DataType::Utf8) => true,
            (DataType::LargeUtf8, DataType::LargeUtf8) => true,
            (DataType::Binary, DataType::Binary) => true,
            (DataType::LargeBinary, DataType::LargeBinary) => true,
            (DataType::Date32, DataType::Date32) => true,
            (DataType::Date64, DataType::Date64) => true,
            (DataType::Time32(a), DataType::Time32(b)) => *a == *b,
            (DataType::Time64(a), DataType::Time64(b)) => *a == *b,
            (DataType::Timestamp(a, x), DataType::Timestamp(b, y)) => {
                if *a != *b {
                    false
                } else {
                    match (x, y) {
                        (Some(s), Some(t)) => *s == *t,
                        (None, None) => true,
                        _ => false,
                    }
                }
            },
            (DataType::Duration(a), DataType::Duration(b)) => *a == *b,
            (DataType::Interval(a), DataType::Interval(b)) => *a == *b,
            (DataType::Decimal128(p, s), DataType::Decimal128(q, t)) => *p == *q && *s == *t,
            (DataType::Decimal256(p, s), DataType::Decimal256(q, t)) => *p == *q && *s == *t,
            (DataType::Other(a), DataType::Other(b)) => *a == *b,
            _ => false,
        }
    }
}

/// Whether some type of `types` is the same type as `dtype`.
pub open spec fn type_listed(types: Seq<DataType>, dtype: DataType) -> bool {
    exists|i: int| 0 <= i < types.len() && (#[trigger] types[i]).same_type(dtype)
}

/// Whether `dtype` is the same type as one of `types`.
pub fn list_contains_type(types: &Vec<DataType>, dtype: &DataType) -> (r: bool)
    ensures
        r == type_listed(types@, *dtype),
{
    let mut i: usize = 0;
    while i < types.len()
        invariant
            i <= types.len(),
            forall|j: int| 0 <= j < i ==> !(#[trigger] types@[j]).same_type(*dtype),
        decreases types.len() - i,
    {
        if types[i].equals(dtype) {
            return true;
        }
        i = i + 1;
    }
    false
}

/// What `{:?}` writes for a string: the string in double quotes, with the
/// characters the standard library escapes written as escapes.
pub uninterp spec fn str_debug(s: Seq<char>) -> Seq<char>;

/// Writes `s` as `{:?}` does (`<str as Debug>::fmt`). Which characters are
/// escaped, and how, follows the standard library's Unicode tables, so the
/// contract only names the result.
#[verifier::external_body]
fn debug_quoted(s: &str) -> (r: String)
    ensures
        r@ == str_debug(s@),
{
    format!("{:?}", s)
}

/// The name of a time unit.
pub open spec fn time_unit_text(u: TimeUnit) -> Seq<char> {
    match u {
        TimeUnit::Second => "Second"@,
        TimeUnit::Millisecond => "Millisecond"@,
        TimeUnit::Microsecond => "Microsecond"@,
        TimeUnit::Nanosecond => "Nanosecond"@,
    }
}

/// The name of an interval unit.
pub open spec fn interval_unit_text(u: IntervalUnit) -> Seq<char> {
    match u {
        IntervalUnit::YearMonth => "YearMonth"@,
        IntervalUnit::DayTime => "DayTime"@,
        IntervalUnit::MonthDayNano => "MonthDayNano"@,
    }
}

/// An integer in decimal, with a minus sign when negative.
pub open spec fn signed_decimal(x: int) -> Seq<char> {
    if x < 0 {
        "-"@ + decimal((-x) as nat)
    } else {
        decimal(x as nat)
    }
}

/// What `{:?}` writes for a column type, as Arrow's derived `Debug` does.
pub open spec fn type_debug(t: DataType) -> Seq<char> {
    match t {
        DataType::Null => "Null"@,
        DataType::Boolean => "Boolean"@,
        DataType::Int8 => "Int8"@,
        DataType::Int16 => "Int16"@,
        DataType::Int32 => "Int32"@,
        DataType::Int64 => "Int64"@,
        DataType::UInt8 => "UInt8"@,
        DataType::UInt16 => "UInt16"@,
        DataType::UInt32 => "UInt32"@,
        DataType::UInt64 => "UInt64"@,
        DataType::Float16 => "Float16"@,
        DataType::Float32 => "Float32"@,
        DataType::Float64 => "Float64"@,
        DataType::Utf8 => "Utf8"@,
        DataType::LargeUtf8 => "LargeUtf8"@,
        DataType::Binary => "Binary"@,
        DataType::LargeBinary => "LargeBinary"@,
        DataType::Date32 => "Date32"@,
        DataType::Date64 => "Date64"@,
        DataType::Time32(u) => "Time32("@ + time_unit_text(u) + ")"@,
        DataType::Time64(u) => "Time64("@ + time_unit_text(u) + ")"@,
        DataType::Timestamp(u, None) => "Timestamp("@ + time_unit_text(u) + ", None)"@,
        DataType::Timestamp(u, Some(z)) => "Timestamp("@ + time_unit_text(u) + ", Some("@
            + str_debug(z@) + "))"@,
        DataType::Duration(u) => "Duration("@ + time_unit_text(u) + ")"@,
        DataType::Interval(u) => "Interval("@ + interval_unit_text(u) + ")"@,
        DataType::Decimal128(p, q) => "Decimal128("@ + decimal(p as nat) + ", "@ + signed_decimal(
            q as int,
        ) + ")"@,
        DataType::Decimal256(p, q) => "Decimal256("@ + decimal(p as nat) + ", "@ + signed_decimal(
            q as int,
        ) + ")"@,
        DataType::Other(d) => d@,
    }
}

/// What `{:?}` writes for a list of column types: their texts, separated by
/// `, `, in square brackets.
pub open spec fn types_debug(ts: Seq<DataType>) -> Seq<char> {
    "["@ + joined_types(ts) + "]"@
}

/// The texts of the types, separated by `, `.
pub open spec fn joined_types(ts: Seq<DataType>) -> Seq<char>
    decreases ts.len(),
{
    if ts.len() == 0 {
        Seq::empty()
    } else if ts.len() == 1 {
        type_debug(ts[0])
    } else {
        joined_types(ts.drop_last()) + ", "@ + type_debug(ts.last())
    }
}

fn time_unit_name(u: TimeUnit) -> (r: &'static str)
    ensures
        r@ == time_unit_text(u),
{
    match u {
        TimeUnit::Second => "Second",
        TimeUnit::Millisecond => "Millisecond",
        TimeUnit::Microsecond => "Microsecond",
        TimeUnit::Nanosecond => "Nanosecond",
    }
}

fn interval_unit_name(u: IntervalUnit) -> (r: &'static str)
    ensures
        r@ == interval_unit_text(u),
{
    match u {
        IntervalUnit::YearMonth => "YearMonth",
        IntervalUnit::DayTime => "DayTime",
        IntervalUnit::MonthDayNano => "MonthDayNano",
    }
}

fn push_signed(s: &mut String, x: i8)
    ensures
        final(s)@ == old(s)@ + signed_decimal(x as int),
{
    let v: i16 = x as i16;
    if v < 0 {
        s.append("-");
        push_decimal(s, (0 - v) as usize);
    } else {
        push_decimal(s, v as usize);
    }
}

fn unit_call(opening: &str, unit: &str) -> (r: String)
    ensures
        r@ == opening@ + unit@ + ")"@,
{
    let mut t = String::from_str(opening);
    t.append(unit);
    t.append(")");
    t
}

fn decimal_call(opening: &str, p: u8, q: i8) -> (r: String)
    ensures
        r@ == opening@ + decimal(p as nat) + ", "@ + signed_decimal(q as int) + ")"@,
{
    let mut t = String::from_str(opening);
    push_decimal(&mut t, p as usize);
    t.append(", ");
    push_signed(&mut t, q);
    t.append(")");
    t
}

impl DataType {
    /// What `{:?}` writes for the type.
    pub fn debug_text(&self) -> (r: String)
        ensures
            r@ == type_debug(*self),
    {
        match self {
            DataType::Null => String::from_str("Null"),
            DataType::Boolean => String::from_str("Boolean"),
            DataType::Int8 => String::from_str("Int8"),
            DataType::Int16 => String::from_str("Int16"),
            DataType::Int32 => String::from_str("Int32"),
            DataType::Int64 => String::from_str("Int64"),
            DataType::UInt8 => String::from_str("UInt8"),
            DataType::UInt16 => String::from_str("UInt16"),
            DataType::UInt32 => String::from_str("UInt32"),
            DataType::UInt64 => String::from_str("UInt64"),
            DataType::Float16 => String::from_str("Float16"),
            DataType::Float32 => String::from_str("Float32"),
            DataType::Float64 => String::from_str("Float64"),
            DataType::Utf8 => String::from_str("Utf8"),
            DataType::LargeUtf8 => String::from_str("LargeUtf8"),
            DataType::Binary => String::from_str("Binary"),
            DataType::LargeBinary => String::from_str("LargeBinary"),
            DataType::Date32 => String::from_str("Date32"),
            DataType::Date64 => String::from_str("Date64"),
            DataType::Time32(u) => unit_call("Time32(", time_unit_name(*u)),
            DataType::Time64(u) => unit_call("Time64(", time_unit_name(*u)),
            DataType::Timestamp(u, z) => {
                let mut t = String::from_str("Timestamp(");
                t.append(time_unit_name(*u));
                match z {
                    None => {
                        t.append(", None)");
                    },
                    Some(zone) => {
                        t.append(", Some(");
                        let q = debug_quoted(zone.as_str());
                        t.append(q.as_str());
                        t.append("))");
                    },
                }
                t
            },
            DataType::Duration(u) => unit_call("Duration(", time_unit_name(*u)),
            DataType::Interval(u) => unit_call("Interval(", interval_unit_name(*u)),
            DataType::Decimal128(p, q) => decimal_call("Decimal128(", *p, *q),
            DataType::Decimal256(p, q) => decimal_call("Decimal256(", *p, *q),
            DataType::Other(d) => d.clone(),
        }
    }
}

/// What `{:?}` writes for a list of column types.
pub fn types_debug_text(ts: &Vec<DataType>) -> (r: String)
    ensures
        r@ == types_debug(ts@),
{
    let mut t = String::from_str("[");
    let ghost start = t@;
    let mut i: usize = 0;
    while i < ts.len()
        invariant
            i <= ts.len(),
            start == "["@,
            t@ == start + joined_types(ts@.take(i as int)),
        decreases ts.len() - i,
    {
        assert(ts@.take(i + 1).drop_last() =~= ts@.take(i as int));
        if i > 0 {
            t.append(", ");
        }
        let d = ts[i].debug_text();
        t.append(d.as_str());
        proof {
            if i == 0 {
                assert(joined_types(ts@.take(0)) =~= Seq::<char>::empty());
            }
        }
        assert(t@ =~= start + joined_types(ts@.take(i + 1)));
        i = i + 1;
    }
    assert(ts@.take(ts.len() as int) =~= ts@);
    t.append("]");
    t
}

/// The numeric column types are exactly the integer, floating-point and
/// decimal ones; the categorical ones exactly the two string types; the
/// temporal ones exactly dates, times, timestamps, durations and intervals.
pub proof fn law_type_families(t: DataType)
    ensures
        t.numeric() <==> (t is Int8 || t is Int16 || t is Int32 || t is Int64 || t is UInt8
            || t is UInt16 || t is UInt32 || t is UInt64 || t is Float16 || t is Float32
            || t is Float64 || t is Decimal128 || t is Decimal256),
        t.categorical() <==> (t is Utf8 || t is LargeUtf8),
        t.temporal() <==> (t is Date32 || t is Date64 || t is Time32 || t is Time64
            || t is Timestamp || t is Duration || t is Interval),
{
}

/// Being the same type is an equivalence: every type is the same type as
/// itself, in both directions, and through a third. The same types are
/// written alike by `{:?}` and belong to the same families.
pub proof fn law_same_type_is_equivalence(a: DataType, b: DataType, c: DataType)
    ensures
        a.same_type(a),
        a.same_type(b) ==> b.same_type(a),
        a.same_type(b) && b.same_type(c) ==> a.same_type(c),
        a.same_type(b) ==> type_debug(a) == type_debug(b),
        a.same_type(b) ==> a.numeric() == b.numeric() && a.categorical() == b.categorical()
            && a.temporal() == b.temporal(),
{
}

/// A type is always found among types that list it, wherever it stands.
pub proof fn law_listed_type_found(types: Seq<DataType>, i: int)
    requires
        0 <= i < types.len(),
    ensures
        type_listed(types, types[i]),
{
    law_same_type_is_equivalence(types[i], types[i], types[i]);
}

} // verus!
