//! Reading rows back: the JSON that a row of cells denotes, and the law that
//! a JSON object that fits its schema survives the trip through a row.

use vstd::prelude::*;

use crate::convert::{conv, conv_fields, conv_items, Slot};
use crate::json::{lookup, Json, Num};
use crate::schema::{ColumnType, Field};

verus! {

broadcast use vstd::std_specs::vec::group_vec_axioms;

/// JSON as plain data: what a row is read back as.
pub enum Datum {
    Null,
    Bool(bool),
    Int(i64),
    Float(Num),
    Str(Seq<char>),
    /// A string column that holds this value's canonical text.
    Text(Json),
    Array(Seq<Datum>),
    /// Members in schema order.
    Object(Seq<(Seq<char>, Datum)>),
}

/// `j` fits column `f` strictly: every value has exactly the column's type, and only
/// optional fields are absent.
pub open spec fn fits(j: Json, f: Field) -> bool
    decreases f, 0int, 0int,
{
    match f.ty {
        ColumnType::Int32 => j matches Json::Num(Num::Int(n)) && i32::MIN <= n <= i32::MAX,
        ColumnType::Int64 | ColumnType::TimestampMs => j matches Json::Num(Num::Int(_)),
        ColumnType::Float64 => j is Num,
        ColumnType::Boolean => j is Bool,
        ColumnType::Utf8 | ColumnType::Binary => j is Str,
        ColumnType::Struct(children) => match j {
            Json::Object(entries) => fits_fields(entries@, children@, children@.len() as int),
            _ => false,
        },
        ColumnType::List(child) => match j {
            Json::Array(items) => fits_items(items@, *child, items@.len() as int),
            _ => false,
        },
        ColumnType::Other => false,
    }
}

/// The first `n` fields of `fs` fit the members `entries`.
pub open spec fn fits_fields(entries: Seq<(String, Json)>, fs: Seq<Field>, n: int) -> bool
    decreases fs, 1int, n,
{
    if n <= 0 || n > fs.len() {
        true
    } else {
        fits_fields(entries, fs, n - 1) && match lookup(entries, fs[n - 1].name@) {
            None => fs[n - 1].nullable,
            Some(v) => fits(*v, fs[n - 1]),
        }
    }
}

/// The first `n` items fit the list's item column.
pub open spec fn fits_items(items: Seq<Json>, child: Field, n: int) -> bool
    decreases child, 1int, n,
{
    if n <= 0 || n > items.len() {
        true
    } else {
        fits_items(items, child, n - 1) && fits(items[n - 1], child)
    }
}

/// The JSON `j` with only the keys of column `f`, in schema order.
pub open spec fn project(j: Json, f: Field) -> Datum
    decreases f, 0int, 0int,
{
    match f.ty {
        ColumnType::Struct(children) => match j {
            Json::Object(entries) => Datum::Object(project_fields(entries@, children@, children@.len() as int)),
            _ => Datum::Null,
        },
        ColumnType::List(child) => match j {
            Json::Array(items) => Datum::Array(project_items(items@, *child, items@.len() as int)),
            _ => Datum::Null,
        },
        _ => match j {
            Json::Num(Num::Int(n)) => if f.ty is Float64 {
                Datum::Float(Num::Int(n))
            } else {
                Datum::Int(n)
            },
            Json::Num(n) => Datum::Float(n),
            Json::Bool(b) => Datum::Bool(b),
            Json::Str(s) => Datum::Str(s@),
            _ => Datum::Null,
        },
    }
}

/// The members of the first `n` fields that `entries` has.
pub open spec fn project_fields(entries: Seq<(String, Json)>, fs: Seq<Field>, n: int) -> Seq<(Seq<char>, Datum)>
    decreases fs, 1int, n,
{
    if n <= 0 || n > fs.len() {
        seq![]
    } else {
        let p = project_fields(entries, fs, n - 1);
        match lookup(entries, fs[n - 1].name@) {
            None => p,
            Some(v) => p.push((fs[n - 1].name@, project(*v, fs[n - 1]))),
        }
    }
}

pub open spec fn project_items(items: Seq<Json>, child: Field, n: int) -> Seq<Datum>
    decreases child, 1int, n,
{
    if n <= 0 || n > items.len() {
        seq![]
    } else {
        project_items(items, child, n - 1).push(project(items[n - 1], child))
    }
}

/// Reads the value of column `f` from the cells at `pos`: the value (`None` for a
/// null) and the position after its cells.
pub open spec fn decode_at(cells: Seq<Slot>, pos: int, f: Field) -> (Option<Datum>, int)
    decreases f, 0int, 0int,
{
    if pos < 0 || pos >= cells.len() {
        (None, pos)
    } else {
        match cells[pos] {
            Slot::Null | Slot::Nulled(_) => (None, pos + 1),
            Slot::Int32(n) => (Some(Datum::Int(n as i64)), pos + 1),
            Slot::Int64(n) | Slot::Timestamp(n) => (Some(Datum::Int(n)), pos + 1),
            Slot::Float(n) => (Some(Datum::Float(n)), pos + 1),
            Slot::Bool(b) => (Some(Datum::Bool(b)), pos + 1),
            Slot::Str(s) => (Some(Datum::Str(s@)), pos + 1),
            Slot::Text(j) => (Some(Datum::Text(*j)), pos + 1),
            Slot::Struct(_) => match f.ty {
                ColumnType::Struct(children) => {
                    let (es, q) = decode_fields(cells, pos + 1, children@, children@.len() as int);
                    (Some(Datum::Object(es)), q)
                },
                _ => (None, pos + 1),
            },
            Slot::List(k) => match f.ty {
                ColumnType::List(child) => {
                    let (xs, q) = decode_items(cells, pos + 1, *child, k as int);
                    (Some(Datum::Array(xs)), q)
                },
                _ => (None, pos + 1),
            },
        }
    }
}

/// Reads the first `n` fields of a struct from the cells at `pos`; null fields are omitted.
pub open spec fn decode_fields(cells: Seq<Slot>, pos: int, fs: Seq<Field>, n: int) -> (Seq<(Seq<char>, Datum)>, int)
    decreases fs, 1int, n,
{
    if n <= 0 || n > fs.len() {
        (seq![], pos)
    } else {
        let (es, p) = decode_fields(cells, pos, fs, n - 1);
        let (d, q) = decode_at(cells, p, fs[n - 1]);
        match d {
            Some(v) => (es.push((fs[n - 1].name@, v)), q),
            None => (es, q),
        }
    }
}

/// Reads `n` list items from the cells at `pos`; a null item reads as JSON null.
pub open spec fn decode_items(cells: Seq<Slot>, pos: int, child: Field, n: int) -> (Seq<Datum>, int)
    decreases child, 1int, n,
{
    if n <= 0 {
        (seq![], pos)
    } else {
        let (xs, p) = decode_items(cells, pos, child, n - 1);
        let (d, q) = decode_at(cells, p, child);
        match d {
            Some(v) => (xs.push(v), q),
            None => (xs.push(Datum::Null), q),
        }
    }
}

/// A value that fits column `f` converts, and reading its cells back, wherever they
/// stand in a row, gives the value with only the schema's keys.
pub proof fn lemma_value_round_trip(j: Json, f: Field, pre: Seq<Slot>, post: Seq<Slot>)
    requires
        fits(j, f),
    ensures
        conv(Some(&j), &f) is Ok,
        decode_at(pre + conv(Some(&j), &f)->Ok_0 + post, pre.len() as int, f) == (
            Some(project(j, f)),
            (pre.len() + conv(Some(&j), &f)->Ok_0.len()) as int,
        ),
    decreases f, 0int, 0int,
{
    let all = pre + conv(Some(&j), &f)->Ok_0 + post;
    match f.ty {
        ColumnType::Struct(children) => {
            let entries = j->Object_0;
            let n = children@.len() as int;
            lemma_fields_round_trip(entries@, children@, n, pre.push(Slot::Struct(children.len())), post);
            let s = conv_fields(entries@, children@, n)->Ok_0;
            assert(all =~= pre.push(Slot::Struct(children.len())) + s + post);
            assert(all[pre.len() as int] == Slot::Struct(children.len()));
        },
        ColumnType::List(child) => {
            let items = j->Array_0;
            let n = items@.len() as int;
            lemma_items_round_trip(items@, *child, n, pre.push(Slot::List(items.len())), post);
            let s = conv_items(items@, &*child, n)->Ok_0;
            assert(all =~= pre.push(Slot::List(items.len())) + s + post);
            assert(all[pre.len() as int] == Slot::List(items.len()));
        },
        _ => {
            assert(all[pre.len() as int] == conv(Some(&j), &f)->Ok_0[0]);
        },
    }
}

/// Fields that fit convert, and read back as the members that the object has.
pub proof fn lemma_fields_round_trip(entries: Seq<(String, Json)>, fs: Seq<Field>, n: int, pre: Seq<Slot>, post: Seq<Slot>)
    requires
        0 <= n <= fs.len(),
        fits_fields(entries, fs, n),
    ensures
        conv_fields(entries, fs, n) is Ok,
        decode_fields(pre + conv_fields(entries, fs, n)->Ok_0 + post, pre.len() as int, fs, n) == (
            project_fields(entries, fs, n),
            (pre.len() + conv_fields(entries, fs, n)->Ok_0.len()) as int,
        ),
    decreases fs, 1int, n,
{
    if n > 0 {
        let f = fs[n - 1];
        let s1 = conv(lookup(entries, f.name@), &fs[n - 1]);
        lemma_fields_round_trip(entries, fs, n - 1, pre, s1->Ok_0 + post);
        let p = conv_fields(entries, fs, n - 1)->Ok_0;
        match lookup(entries, f.name@) {
            None => {
                assert(s1 == Ok::<Seq<Slot>, crate::convert::ConvError>(seq![Slot::Null]));
                let all = pre + (p + s1->Ok_0) + post;
                assert(all =~= pre + p + (s1->Ok_0 + post));
                assert(all[pre.len() + p.len() as int] == Slot::Null);
                assert(decode_at(all, pre.len() + p.len() as int, f) == (None::<Datum>, (pre.len() + p.len() + 1) as int));
                assert(conv_fields(entries, fs, n)->Ok_0 == p + s1->Ok_0);
                assert(decode_fields(all, pre.len() as int, fs, n - 1) == (project_fields(entries, fs, n - 1), (pre.len() + p.len()) as int));
            },
            Some(v) => {
                lemma_value_round_trip(*v, f, pre + p, post);
                let all = pre + (p + s1->Ok_0) + post;
                assert(all =~= pre + p + (s1->Ok_0 + post));
                assert(all =~= (pre + p) + s1->Ok_0 + post);
                assert(conv_fields(entries, fs, n)->Ok_0 == p + s1->Ok_0);
                assert(decode_fields(all, pre.len() as int, fs, n - 1) == (project_fields(entries, fs, n - 1), (pre.len() + p.len()) as int));
            },
        }
    }
}

/// Items that fit convert, and read back as the list.
pub proof fn lemma_items_round_trip(items: Seq<Json>, child: Field, n: int, pre: Seq<Slot>, post: Seq<Slot>)
    requires
        0 <= n <= items.len(),
        fits_items(items, child, n),
    ensures
        conv_items(items, &child, n) is Ok,
        decode_items(pre + conv_items(items, &child, n)->Ok_0 + post, pre.len() as int, child, n) == (
            project_items(items, child, n),
            (pre.len() + conv_items(items, &child, n)->Ok_0.len()) as int,
        ),
    decreases child, 1int, n,
{
    if n > 0 {
        let s1 = conv(Some(&items[n - 1]), &child);
        lemma_value_round_trip(items[n - 1], child, Seq::empty(), Seq::empty());
        lemma_items_round_trip(items, child, n - 1, pre, s1->Ok_0 + post);
        let p = conv_items(items, &child, n - 1)->Ok_0;
        lemma_value_round_trip(items[n - 1], child, pre + p, post);
        let all = pre + (p + s1->Ok_0) + post;
        assert(all =~= pre + p + (s1->Ok_0 + post));
        assert(all =~= (pre + p) + s1->Ok_0 + post);
    }
}

/// A JSON object whose values fit the schema strictly converts to a row, and reading
/// the row back gives the object with only the schema's keys, in schema order.
pub proof fn lemma_row_round_trip<'a>(entries: Seq<(String, Json)>, schema: Seq<Field>)
    requires
        fits_fields(entries, schema, schema.len() as int),
    ensures
        conv_fields::<'a>(entries, schema, schema.len() as int) is Ok,
        decode_fields(conv_fields::<'a>(entries, schema, schema.len() as int)->Ok_0, 0, schema, schema.len() as int).0
            == project_fields(entries, schema, schema.len() as int),
{
    let s = conv_fields(entries, schema, schema.len() as int)->Ok_0;
    lemma_fields_round_trip(entries, schema, schema.len() as int, Seq::empty(), Seq::empty());
    assert(Seq::<Slot>::empty() + s + Seq::<Slot>::empty() =~= s);
}

} // verus!
