//! Shaping a JSON object into one row of a class schema.
//!
//! A row is written as the pre-order sequence of its cells: a struct cell is
//! followed by the cells of its children, a list cell by the cells of its items.
//! Optional fields degrade to null where a value does not fit; required fields
//! fail the row.

use vstd::prelude::*;

use crate::json::{json_as_i64, lookup, object_get, Json, Num};
use crate::schema::{ColumnType, Field};

verus! {

broadcast use vstd::std_specs::vec::group_vec_axioms;

/// Why a value did not fit its column.
#[derive(Clone, Copy, Debug, PartialEq, Eq, Structural)]
pub enum Fault {
    /// A required field is absent.
    Missing,
    /// An integer lies outside the column's range.
    OutOfRange,
    /// The value has another type than the column.
    WrongType,
    /// A struct column did not get a JSON object.
    NotAnObject,
    /// A list column did not get a JSON array.
    NotAnArray,
    /// The column's type cannot be filled from JSON.
    Unsupported,
}

/// One cell of a row, in pre-order.
#[derive(Debug)]
pub enum Slot<'a> {
    /// An absent optional value; for a struct or list column, a null that keeps the
    /// column's child shape.
    Null,
    /// An optional value that did not fit and was replaced by null; a warning is due.
    Nulled(Fault),
    Int32(i32),
    Int64(i64),
    Float(Num),
    Bool(bool),
    /// A string value, as the JSON holds it.
    Str(&'a String),
    /// A string column that holds the canonical JSON text of this value.
    Text(&'a Json),
    Timestamp(i64),
    /// A struct with this many children; their cells follow.
    Struct(usize),
    /// A list with this many items; their cells follow.
    List(usize),
}

/// Why a row could not be built.
#[derive(Debug)]
pub enum ConvError<'a> {
    /// The value given for the row is not a JSON object.
    TopLevelNotObject,
    /// A required field is absent or got a value that does not fit it.
    Field { fault: Fault, field: &'a String },
}

/// What `str::parse::<i64>` accepts: an optional sign, then decimal digits, within range.
pub open spec fn parsed_i64(s: Seq<char>) -> Option<i64> {
    let signed = s.len() > 0 && (s[0] == '-' || s[0] == '+');
    let digits = if signed {
        s.drop_first()
    } else {
        s
    };
    let magnitude = decimal_value(digits);
    let v = if signed && s[0] == '-' {
        -magnitude
    } else {
        magnitude
    };
    if digits.len() > 0 && all_decimal(digits) && i64::MIN <= v <= i64::MAX {
        Some(v as i64)
    } else {
        None
    }
}

pub open spec fn all_decimal(d: Seq<char>) -> bool {
    forall|i: int| 0 <= i < d.len() ==> '0' <= #[trigger] d[i] <= '9'
}

pub open spec fn decimal_value(d: Seq<char>) -> int
    decreases d.len(),
{
    if d.len() == 0 {
        0
    } else {
        decimal_value(d.drop_last()) * 10 + (d.last() as int - '0' as int)
    }
}

/// Relies on `str::parse::<i64>`, which reads an optional `+` or `-` and decimal
/// digits, and fails on anything else or on a value outside `i64`.
#[verifier::external_body]
fn parse_i64(s: &str) -> (r: Option<i64>)
    ensures
        r == parsed_i64(s@),
{
    s.parse::<i64>().ok()
}

/// A value that does not fit an optional column becomes null; a required column fails.
pub open spec fn degrade<'a>(f: &'a Field, fault: Fault) -> Result<Seq<Slot<'a>>, ConvError<'a>> {
    if f.nullable {
        Ok(seq![Slot::Nulled(fault)])
    } else {
        Err(ConvError::Field { fault, field: &f.name })
    }
}

/// The cells of column `f` for value `v` (`None`: the key is absent).
pub open spec fn conv<'a>(v: Option<&'a Json>, f: &'a Field) -> Result<Seq<Slot<'a>>, ConvError<'a>>
    decreases f, 0int, 0int,
{
    match v {
        None => if f.nullable {
            Ok(seq![Slot::Null])
        } else {
            Err(ConvError::Field { fault: Fault::Missing, field: &f.name })
        },
        Some(j) => match f.ty {
            ColumnType::Int32 => match json_as_i64(*j) {
                Some(n) => if i32::MIN <= n <= i32::MAX {
                    Ok(seq![Slot::Int32(n as i32)])
                } else {
                    degrade(f, Fault::OutOfRange)
                },
                None => degrade(f, Fault::WrongType),
            },
            ColumnType::Int64 => match json_as_i64(*j) {
                Some(n) => Ok(seq![Slot::Int64(n)]),
                None => degrade(f, Fault::WrongType),
            },
            ColumnType::Float64 => match *j {
                Json::Num(n) => Ok(seq![Slot::Float(n)]),
                _ => degrade(f, Fault::WrongType),
            },
            ColumnType::Boolean => match *j {
                Json::Bool(b) => Ok(seq![Slot::Bool(b)]),
                _ => degrade(f, Fault::WrongType),
            },
            ColumnType::Utf8 | ColumnType::Binary => match j {
                Json::Str(s) => Ok(seq![Slot::Str(s)]),
                Json::Null => degrade(f, Fault::WrongType),
                _ => Ok(seq![Slot::Text(j)]),
            },
            ColumnType::TimestampMs => match json_as_i64(*j) {
                Some(n) => Ok(seq![Slot::Timestamp(n)]),
                None => match *j {
                    Json::Str(s) => match parsed_i64(s@) {
                        Some(n) => Ok(seq![Slot::Timestamp(n)]),
                        None => degrade(f, Fault::WrongType),
                    },
                    _ => degrade(f, Fault::WrongType),
                },
            },
            ColumnType::Struct(children) => match *j {
                Json::Object(entries) => match conv_fields(entries@, children@, children@.len() as int) {
                    Ok(s) => Ok(seq![Slot::Struct(children.len())] + s),
                    Err(e) => Err(e),
                },
                _ => degrade(f, Fault::NotAnObject),
            },
            ColumnType::List(child) => match *j {
                Json::Array(items) => match conv_items(items@, &*child, items@.len() as int) {
                    Ok(s) => Ok(seq![Slot::List(items.len())] + s),
                    Err(e) => Err(e),
                },
                _ => degrade(f, Fault::NotAnArray),
            },
            ColumnType::Other => Err(ConvError::Field { fault: Fault::Unsupported, field: &f.name }),
        },
    }
}

/// The cells of the first `n` fields of `fs`, each looked up by name in `entries`;
/// the first failing field decides the error.
pub open spec fn conv_fields<'a>(entries: Seq<(String, Json)>, fs: Seq<Field>, n: int) -> Result<Seq<Slot<'a>>, ConvError<'a>>
    decreases fs, 1int, n,
{
    if n <= 0 || n > fs.len() {
        Ok(seq![])
    } else {
        match conv_fields(entries, fs, n - 1) {
            Err(e) => Err(e),
            Ok(p) => match conv(lookup(entries, fs[n - 1].name@), &fs[n - 1]) {
                Ok(s) => Ok(p + s),
                Err(e) => Err(e),
            },
        }
    }
}

/// The cells of the first `n` items of a list whose items have type `child`.
pub open spec fn conv_items<'a>(items: Seq<Json>, child: &'a Field, n: int) -> Result<Seq<Slot<'a>>, ConvError<'a>>
    decreases child, 1int, n,
{
    if n <= 0 || n > items.len() {
        Ok(seq![])
    } else {
        match conv_items(items, child, n - 1) {
            Err(e) => Err(e),
            Ok(p) => match conv(Some(&items[n - 1]), child) {
                Ok(s) => Ok(p + s),
                Err(e) => Err(e),
            },
        }
    }
}


/// An integer outside the 32-bit range in an optional 32-bit column becomes a null
/// with a warning due, and the row goes on.
pub proof fn lemma_int32_overflow_is_null<'a>(v: &'a Json, f: &'a Field)
    requires
        f.ty == ColumnType::Int32,
        f.nullable,
        json_as_i64(*v) matches Some(n) && (n < i32::MIN || n > i32::MAX),
    ensures
        conv(Some(v), f) == Ok::<Seq<Slot<'a>>, ConvError<'a>>(seq![Slot::Nulled(Fault::OutOfRange)]),
{
}

/// An empty JSON array in a list column is a list of no items, not a null.
pub proof fn lemma_empty_array_is_empty_list<'a>(v: &'a Json, f: &'a Field)
    requires
        f.ty is List,
        v matches Json::Array(items) && items@.len() == 0,
    ensures
        conv(Some(v), f) == Ok::<Seq<Slot<'a>>, ConvError<'a>>(seq![Slot::List(0)]),
{
    let items = v->Array_0;
    let child = f.ty->List_0;
    assert(conv_items(items@, &*child, 0) == Ok::<Seq<Slot<'a>>, ConvError<'a>>(seq![]));
    assert(seq![Slot::List(0)] + Seq::<Slot<'a>>::empty() =~= seq![Slot::List(0)]);
}

/// An absent optional field, of any type (a struct included), is a single null,
/// whose child shape the column's type keeps.
pub proof fn lemma_absent_optional_is_null<'a>(f: &'a Field)
    requires
        f.nullable,
    ensures
        conv(None, f) == Ok::<Seq<Slot<'a>>, ConvError<'a>>(seq![Slot::Null]),
{
}

/// A value of the wrong kind in an optional struct or list column (JSON null
/// included) becomes a null with a warning due.
pub proof fn lemma_mismatched_group_is_null<'a>(v: &'a Json, f: &'a Field)
    requires
        f.nullable,
        (f.ty is Struct && !(v is Object)) || (f.ty is List && !(v is Array)),
    ensures
        conv(Some(v), f) is Ok,
        conv(Some(v), f)->Ok_0 == seq![Slot::Nulled(if f.ty is Struct { Fault::NotAnObject } else { Fault::NotAnArray })],
{
}

/// Once a field fails, every longer prefix of the fields fails with the same error.
pub proof fn lemma_fields_error_persists(entries: Seq<(String, Json)>, fs: Seq<Field>, k: int, m: int)
    requires
        0 < k <= m <= fs.len(),
        conv_fields(entries, fs, k) is Err,
    ensures
        conv_fields(entries, fs, m) == conv_fields(entries, fs, k),
    decreases m - k,
{
    if m > k {
        lemma_fields_error_persists(entries, fs, k, m - 1);
    }
}

/// Once an item fails, every longer prefix of the items fails with the same error.
pub proof fn lemma_items_error_persists<'a>(items: Seq<Json>, child: &'a Field, k: int, m: int)
    requires
        0 < k <= m <= items.len(),
        conv_items(items, child, k) is Err,
    ensures
        conv_items(items, child, m) == conv_items(items, child, k),
    decreases m - k,
{
    if m > k {
        lemma_items_error_persists(items, child, k, m - 1);
    }
}

fn degrade_to<'a>(field: &'a Field, fault: Fault, out: &mut Vec<Slot<'a>>) -> (r: Result<(), ConvError<'a>>)
    ensures
        match degrade(field, fault) {
            Ok(s) => r is Ok && final(out)@ == old(out)@ + s,
            Err(e) => r == Err::<(), ConvError<'a>>(e),
        },
{
    if field.nullable {
        out.push(Slot::Nulled(fault));
        assert(final(out)@ =~= old(out)@ + seq![Slot::Nulled(fault)]);
        Ok(())
    } else {
        Err(ConvError::Field { fault, field: &field.name })
    }
}

fn push_one<'a>(slot: Slot<'a>, out: &mut Vec<Slot<'a>>) -> (r: Result<(), ConvError<'a>>)
    ensures
        r is Ok,
        final(out)@ == old(out)@ + seq![slot],
{
    out.push(slot);
    assert(final(out)@ =~= old(out)@ + seq![slot]);
    Ok(())
}

fn json_i64(v: &Json) -> (r: Option<i64>)
    ensures
        r == json_as_i64(*v),
{
    match v {
        Json::Num(Num::Int(i)) => Some(*i),
        Json::Num(Num::UInt(u)) => if *u <= i64::MAX as u64 {
            Some(*u as i64)
        } else {
            None
        },
        _ => None,
    }
}

/// Appends to `out` the cells of column `field` for `value` (`None`: absent).
/// On success `out` grows by exactly `conv(value, field)`; on failure the error is
/// that of the first field that failed.
pub fn build_array<'a>(value: Option<&'a Json>, field: &'a Field, out: &mut Vec<Slot<'a>>) -> (r: Result<(), ConvError<'a>>)
    ensures
        match conv(value, field) {
            Ok(s) => r is Ok && final(out)@ == old(out)@ + s,
            Err(e) => r == Err::<(), ConvError<'a>>(e),
        },
    decreases field, 0int, 0int,
{
    let v = match value {
        None => {
            if field.nullable {
                return push_one(Slot::Null, out);
            }
            return Err(ConvError::Field { fault: Fault::Missing, field: &field.name });
        },
        Some(v) => v,
    };
    match &field.ty {
        ColumnType::Int32 => match json_i64(v) {
            Some(n) => if i32::MIN as i64 <= n && n <= i32::MAX as i64 {
                push_one(Slot::Int32(n as i32), out)
            } else {
                degrade_to(field, Fault::OutOfRange, out)
            },
            None => degrade_to(field, Fault::WrongType, out),
        },
        ColumnType::Int64 => match json_i64(v) {
            Some(n) => push_one(Slot::Int64(n), out),
            None => degrade_to(field, Fault::WrongType, out),
        },
        ColumnType::Float64 => match v {
            Json::Num(n) => push_one(Slot::Float(*n), out),
            _ => degrade_to(field, Fault::WrongType, out),
        },
        ColumnType::Boolean => match v {
            Json::Bool(b) => push_one(Slot::Bool(*b), out),
            _ => degrade_to(field, Fault::WrongType, out),
        },
        ColumnType::Utf8 | ColumnType::Binary => match v {
            Json::Str(s) => push_one(Slot::Str(s), out),
            Json::Null => degrade_to(field, Fault::WrongType, out),
            _ => push_one(Slot::Text(v), out),
        },
        ColumnType::TimestampMs => match json_i64(v) {
            Some(n) => push_one(Slot::Timestamp(n), out),
            None => match v {
                Json::Str(s) => match parse_i64(s.as_str()) {
                    Some(n) => push_one(Slot::Timestamp(n), out),
                    None => degrade_to(field, Fault::WrongType, out),
                },
                _ => degrade_to(field, Fault::WrongType, out),
            },
        },
        ColumnType::Struct(children) => match v {
            Json::Object(entries) => {
                let ghost start = old(out)@;
                out.push(Slot::Struct(children.len()));
                let n = children.len();
                let mut i: usize = 0;
                while i < n
                    invariant
                        n == children@.len(),
                        i <= n,
                        value == Some(v),
                        field.ty == ColumnType::Struct(*children),
                        *v == Json::Object(*entries),
                        conv_fields(entries@, children@, i as int) is Ok,
                        out@ == start + seq![Slot::Struct(n)] + conv_fields(entries@, children@, i as int)->Ok_0,
                    decreases n - i,
                {
                    let child: &'a Field = &children[i];
                    let r = build_array(object_get(entries, child.name.as_str()), child, out);
                    if r.is_err() {
                        proof {
                            assert(conv_fields(entries@, children@, i + 1) is Err);
                            lemma_fields_error_persists(entries@, children@, i + 1, n as int);
                            assert(conv(value, field) == conv_fields(entries@, children@, i + 1));
                        }
                        return r;
                    }
                    assert(out@ =~= start + seq![Slot::Struct(n)] + conv_fields(entries@, children@, i + 1)->Ok_0);
                    i = i + 1;
                }
                assert(final(out)@ =~= start + (seq![Slot::Struct(n)] + conv_fields(entries@, children@, n as int)->Ok_0));
                Ok(())
            },
            _ => degrade_to(field, Fault::NotAnObject, out),
        },
        ColumnType::List(child) => match v {
            Json::Array(items) => {
                let ghost start = old(out)@;
                let child: &'a Field = &**child;
                let n = items.len();
                out.push(Slot::List(n));
                let mut i: usize = 0;
                while i < n
                    invariant
                        n == items@.len(),
                        i <= n,
                        value == Some(v),
                        field.ty matches ColumnType::List(c) && *c == *child,
                        *v == Json::Array(*items),
                        conv_items(items@, child, i as int) is Ok,
                        out@ == start + seq![Slot::List(n)] + conv_items(items@, child, i as int)->Ok_0,
                    decreases n - i,
                {
                    let r = build_array(Some(&items[i]), child, out);
                    if r.is_err() {
                        proof {
                            assert(conv_items(items@, child, i + 1) is Err);
                            lemma_items_error_persists(items@, child, i + 1, n as int);
                            assert(conv(value, field) == conv_items(items@, child, i + 1));
                        }
                        return r;
                    }
                    assert(out@ =~= start + seq![Slot::List(n)] + conv_items(items@, child, i + 1)->Ok_0);
                    i = i + 1;
                }
                assert(final(out)@ =~= start + (seq![Slot::List(n)] + conv_items(items@, child, n as int)->Ok_0));
                Ok(())
            },
            _ => degrade_to(field, Fault::NotAnArray, out),
        },
        ColumnType::Other => Err(ConvError::Field { fault: Fault::Unsupported, field: &field.name }),
    }
}

/// The row of `schema` for the JSON object `data`: each schema field is looked up by
/// name, keys that the schema lacks are dropped.
pub open spec fn row_of<'a>(data: &'a Json, schema: Seq<Field>) -> Result<Seq<Slot<'a>>, ConvError<'a>> {
    match *data {
        Json::Object(entries) => conv_fields(entries@, schema, schema.len() as int),
        _ => Err(ConvError::TopLevelNotObject),
    }
}

/// Converts a JSON object to one row of `schema`, as the pre-order sequence of its cells.
pub fn convert_json<'a>(data: &'a Json, schema: &'a Vec<Field>) -> (r: Result<Vec<Slot<'a>>, ConvError<'a>>)
    ensures
        match row_of(data, schema@) {
            Ok(s) => r matches Ok(row) && row@ == s,
            Err(e) => r matches Err(e2) && e2 == e,
        },
{
    match data {
        Json::Object(entries) => {
            let mut out: Vec<Slot<'a>> = Vec::new();
            let n = schema.len();
            let mut i: usize = 0;
            while i < n
                invariant
                    n == schema@.len(),
                    i <= n,
                    *data == Json::Object(*entries),
                    conv_fields(entries@, schema@, i as int) is Ok,
                    out@ == conv_fields(entries@, schema@, i as int)->Ok_0,
                decreases n - i,
            {
                let f: &'a Field = &schema[i];
                let r = build_array(object_get(entries, f.name.as_str()), f, &mut out);
                match r {
                    Err(e) => {
                        proof {
                            lemma_fields_error_persists(entries@, schema@, i + 1, n as int);
                        }
                        return Err(e);
                    },
                    Ok(()) => {},
                }
                assert(out@ =~= conv_fields(entries@, schema@, i + 1)->Ok_0);
                i = i + 1;
            }
            Ok(out)
        },
        _ => Err(ConvError::TopLevelNotObject),
    }
}

} // verus!
