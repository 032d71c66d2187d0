//! Events: the datum that flows through the pipeline.

use vstd::arithmetic::div_mod::{lemma_basic_div, lemma_div_denominator, lemma_div_is_ordered, lemma_fundamental_div_mod, lemma_mod_pos_bound};
use vstd::prelude::*;

use crate::json::{Json, Num};

verus! {

/// One log event: a time-ordered identifier, the payload, and metadata whose keys are unique.
#[derive(Debug)]
pub struct Event {
    /// The event's UUID, as a big-endian 128-bit integer.
    pub id: u128,
    pub data: Json,
    pub metadata: Vec<(String, Json)>,
}

/// The lower-case hexadecimal digit for `n` in `0..16`.
pub open spec fn hex_digit(n: int) -> char {
    seq!['0', '1', '2', '3', '4', '5', '6', '7', '8', '9', 'a', 'b', 'c', 'd', 'e', 'f'][n]
}

pub open spec fn pow16(e: nat) -> int
    decreases e,
{
    if e == 0 {
        1
    } else {
        16 * pow16((e - 1) as nat)
    }
}

/// The `k`-th hexadecimal digit of `id`, counted from the most significant one.
pub open spec fn nibble(id: u128, k: int) -> int {
    (id as int / pow16((31 - k) as nat)) % 16
}

/// Which of the 32 digits stands at position `p` of the hyphenated form.
pub open spec fn digit_at(p: int) -> int {
    if p < 8 {
        p
    } else if p < 13 {
        p - 1
    } else if p < 18 {
        p - 2
    } else if p < 23 {
        p - 3
    } else {
        p - 4
    }
}

/// The hyphenated lower-case text of a UUID: 8-4-4-4-12 hexadecimal digits.
pub open spec fn uuid_text_of(id: u128) -> Seq<char> {
    Seq::new(
        36,
        |p: int|
            if p == 8 || p == 13 || p == 18 || p == 23 {
                '-'
            } else {
                hex_digit(nibble(id, digit_at(p)))
            },
    )
}

/// `s` sorts before `t`: at the first position where they differ, `s` has the smaller character.
pub open spec fn text_before(s: Seq<char>, t: Seq<char>) -> bool {
    exists|k: int|
        0 <= k < s.len() && k < t.len() && (forall|j: int| 0 <= j < k ==> s[j] == t[j]) && (#[trigger] s[k] as u32)
            < (t[k] as u32)
}

/// The value of the first `k` hexadecimal digits of `id`.
pub open spec fn top_digits(id: u128, k: int) -> int {
    id as int / pow16((32 - k) as nat)
}

proof fn lemma_pow16_positive(e: nat)
    ensures
        pow16(e) > 0,
    decreases e,
{
    if e > 0 {
        lemma_pow16_positive((e - 1) as nat);
    }
}

proof fn lemma_top_step(id: u128, k: int)
    requires
        0 <= k < 32,
    ensures
        top_digits(id, k + 1) == top_digits(id, k) * 16 + nibble(id, k),
        0 <= nibble(id, k) < 16,
{
    let p = pow16((31 - k) as nat);
    lemma_pow16_positive((31 - k) as nat);
    assert(pow16((32 - k) as nat) == 16 * p);
    lemma_div_denominator(id as int, p, 16);
    assert(p * 16 == 16 * p) by (nonlinear_arith);
    let y = id as int / p;
    lemma_fundamental_div_mod(y, 16);
    lemma_mod_pos_bound(y, 16);
}

proof fn lemma_top_equal(a: u128, b: u128, k: int)
    requires
        0 <= k <= 32,
        forall|j: int| 0 <= j < k ==> nibble(a, j) == nibble(b, j),
    ensures
        top_digits(a, k) == top_digits(b, k),
    decreases k,
{
    if k == 0 {
        reveal_with_fuel(pow16, 33);
        assert(pow16(32) == 0x1_0000_0000_0000_0000_0000_0000_0000_0000int);
        lemma_basic_div(a as int, pow16(32));
        lemma_basic_div(b as int, pow16(32));
    } else {
        lemma_top_equal(a, b, k - 1);
        lemma_top_step(a, k - 1);
        lemma_top_step(b, k - 1);
    }
}

proof fn lemma_first_difference(a: u128, b: u128, k: int) -> (d: int)
    requires
        a < b,
        0 <= k <= 32,
        forall|j: int| 0 <= j < k ==> nibble(a, j) == nibble(b, j),
    ensures
        k <= d < 32,
        forall|j: int| 0 <= j < d ==> nibble(a, j) == nibble(b, j),
        nibble(a, d) < nibble(b, d),
    decreases 32 - k,
{
    lemma_top_equal(a, b, k);
    if k == 32 {
        assert(pow16(0) == 1);
        assert(top_digits(a, 32) == a as int);
        assert(top_digits(b, 32) == b as int);
        assert(false);
        k
    } else if nibble(a, k) != nibble(b, k) {
        lemma_top_step(a, k);
        lemma_top_step(b, k);
        lemma_pow16_positive((31 - k) as nat);
        lemma_div_is_ordered(a as int, b as int, pow16((31 - k) as nat));
        k
    } else {
        lemma_first_difference(a, b, k + 1)
    }
}

/// The code of the hexadecimal digit for `n`.
pub open spec fn hex_code(n: int) -> int {
    if n < 10 {
        48 + n
    } else {
        87 + n
    }
}

proof fn lemma_hex_digit_code(n: int)
    requires
        0 <= n < 16,
    ensures
        hex_digit(n) as u32 == hex_code(n),
{
    let d = seq!['0', '1', '2', '3', '4', '5', '6', '7', '8', '9', 'a', 'b', 'c', 'd', 'e', 'f'];
    assert(hex_digit(n) == d[n]);
    if n == 0 {
        assert(d[0] == '0');
    } else if n == 1 {
        assert(d[1] == '1');
    } else if n == 2 {
        assert(d[2] == '2');
    } else if n == 3 {
        assert(d[3] == '3');
    } else if n == 4 {
        assert(d[4] == '4');
    } else if n == 5 {
        assert(d[5] == '5');
    } else if n == 6 {
        assert(d[6] == '6');
    } else if n == 7 {
        assert(d[7] == '7');
    } else if n == 8 {
        assert(d[8] == '8');
    } else if n == 9 {
        assert(d[9] == '9');
    } else if n == 10 {
        assert(d[10] == 'a');
    } else if n == 11 {
        assert(d[11] == 'b');
    } else if n == 12 {
        assert(d[12] == 'c');
    } else if n == 13 {
        assert(d[13] == 'd');
    } else if n == 14 {
        assert(d[14] == 'e');
    } else {
        assert(d[15] == 'f');
    }
}

/// The position of hexadecimal digit `k` in the hyphenated form.
pub open spec fn digit_position(k: int) -> int {
    if k < 8 {
        k
    } else if k < 12 {
        k + 1
    } else if k < 16 {
        k + 2
    } else if k < 20 {
        k + 3
    } else {
        k + 4
    }
}

/// UUID texts sort as their integers do.
pub proof fn lemma_uuid_text_ordered(a: u128, b: u128)
    requires
        a < b,
    ensures
        text_before(uuid_text_of(a), uuid_text_of(b)),
{
    let d = lemma_first_difference(a, b, 0);
    let p = digit_position(d);
    let sa = uuid_text_of(a);
    let sb = uuid_text_of(b);
    lemma_top_step(a, d);
    lemma_top_step(b, d);
    lemma_hex_digit_code(nibble(a, d));
    lemma_hex_digit_code(nibble(b, d));
    assert(digit_at(p) == d);
    assert forall|j: int| 0 <= j < p implies sa[j] == sb[j] by {
        if !(j == 8 || j == 13 || j == 18 || j == 23) {
            assert(digit_at(j) < d);
        }
    }
    assert((sa[p] as u32) < (sb[p] as u32));
}

/// Relies on uuid's `Uuid::from_u128` (the integer's big-endian bytes) and on the
/// `Display` of `Uuid`, which writes the hyphenated lower-case form.
#[verifier::external_body]
pub(crate) fn uuid_text(id: u128) -> (r: String)
    ensures
        r@ == uuid_text_of(id),
{
    uuid::Uuid::from_u128(id).to_string()
}

/// The JSON value that serde_json reads from a text, where the text is JSON.
pub uninterp spec fn parsed_json(s: Seq<char>) -> Option<Json>;

/// Relies on `serde_json::from_str::<serde_json::Value>`: whether the text is JSON and
/// what it holds depend on the text alone.
#[verifier::external_body]
pub(crate) fn parse_json(s: &str) -> (r: Option<Json>)
    ensures
        r == parsed_json(s@),
{
    serde_json::from_str::<serde_json::Value>(s).ok().map(from_serde)
}

/// serde_json's JSON value, carried opaquely across the reader's boundary.
#[verifier::external_type_specification]
#[verifier::external_body]
pub struct ExValue(serde_json::Value);

/// serde_json's JSON number, carried opaquely across the reader's boundary.
#[verifier::external_type_specification]
#[verifier::external_body]
pub struct ExJsonNumber(serde_json::Number);

/// Relies on `serde_json::Num::as_i64`, `as_u64` and `as_f64`: an integer where it
/// fits `i64` or `u64`, else the float's bit pattern.
#[verifier::external_body]
fn number_from_serde(n: &serde_json::Number) -> Num {
    match (n.as_i64(), n.as_u64()) {
        (Some(i), _) => Num::Int(i),
        (None, Some(u)) => Num::UInt(u),
        _ => Num::Float(n.as_f64().map(|f| f.to_bits()).unwrap_or(0)),
    }
}

/// Relies on the variants of `serde_json::Value`: converts a value one for one.
#[verifier::external_body]
fn from_serde(v: serde_json::Value) -> Json {
    match v {
        serde_json::Value::Null => Json::Null,
        serde_json::Value::Bool(b) => Json::Bool(b),
        serde_json::Value::Number(n) => Json::Num(number_from_serde(&n)),
        serde_json::Value::String(s) => Json::Str(s),
        serde_json::Value::Array(a) => Json::Array(a.into_iter().map(from_serde).collect()),
        serde_json::Value::Object(m) => Json::Object(m.into_iter().map(|(k, v)| (k, from_serde(v))).collect()),
    }
}

} // verus!
