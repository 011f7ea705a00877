//! Lenient reading of loosely typed JSON fields of the game-record API:
//! integers that may arrive as other values, and dates that arrive either
//! as an object of parts or as text.

use vstd::prelude::*;

use crate::text::{lemma_padded_width, padded_int_text, pow10, push_char, push_padded_int};

verus! {

/// A JSON number as the parser holds it: a non-negative integer, a negative
/// integer, or a floating-point number (whose value the logic never reads).
#[derive(Debug, Clone, PartialEq)]
pub enum JsonNumber {
    PosInt(u64),
    NegInt(i64),
    Float,
}

/// A JSON value. Objects keep their members in the order given; a lookup
/// takes the first member with the key.
#[derive(Debug, PartialEq)]
pub enum JsonValue {
    Null,
    Bool(bool),
    Number(JsonNumber),
    String(String),
    Array(Vec<JsonValue>),
    Object(Vec<(String, JsonValue)>),
}

/// The number as an `i64`, when it is an integer in range.
pub open spec fn number_as_i64(n: JsonNumber) -> Option<i64> {
    match n {
        JsonNumber::PosInt(u) => if u <= i64::MAX { Some(u as i64) } else { None },
        JsonNumber::NegInt(i) => Some(i),
        JsonNumber::Float => None,
    }
}

/// The value as an `i64`, when it is an integer number in range.
pub open spec fn value_as_i64(v: JsonValue) -> Option<i64> {
    match v {
        JsonValue::Number(n) => number_as_i64(n),
        _ => None,
    }
}

/// The value of the first member named `key`.
pub open spec fn member(entries: Seq<(String, JsonValue)>, key: Seq<char>) -> Option<JsonValue>
    decreases entries.len(),
{
    if entries.len() == 0 {
        None
    } else if entries[0].0@ == key {
        Some(entries[0].1)
    } else {
        member(entries.drop_first(), key)
    }
}

/// A lookup finds a member exactly when one is named `key`, and then gives
/// the value of the first such member: none before it has that name.
pub proof fn lemma_member_first(entries: Seq<(String, JsonValue)>, key: Seq<char>)
    ensures
        member(entries, key) is None <==> forall|i: int|
            0 <= i < entries.len() ==> #[trigger] entries[i].0@ != key,
        member(entries, key) is Some ==> exists|i: int|
            0 <= i < entries.len() && #[trigger] entries[i].0@ == key && member(entries, key)
                == Some(entries[i].1) && forall|j: int| 0 <= j < i ==> #[trigger] entries[j].0@ != key,
    decreases entries.len(),
{
    if entries.len() > 0 {
        let rest = entries.drop_first();
        lemma_member_first(rest, key);
        if entries[0].0@ == key {
            assert(entries[0].0@ == key);
        } else {
            assert forall|i: int| 1 <= i < entries.len() implies #[trigger] entries[i].0@ == rest[i
                - 1].0@ by {}
            if member(rest, key) is Some {
                let k = choose|k: int|
                    0 <= k < rest.len() && #[trigger] rest[k].0@ == key && member(rest, key) == Some(
                        rest[k].1,
                    ) && forall|j: int| 0 <= j < k ==> #[trigger] rest[j].0@ != key;
                assert(entries[k + 1] == rest[k]);
                assert forall|j: int| 0 <= j < k + 1 implies #[trigger] entries[j].0@ != key by {
                    if j > 0 {
                        assert(entries[j] == rest[j - 1]);
                    }
                }
            } else {
                assert forall|i: int| 0 <= i < entries.len() implies #[trigger] entries[i].0@ != key by {
                    if i > 0 {
                        assert(entries[i] == rest[i - 1]);
                    }
                }
            }
        }
    }
}

/// The member `key` read as an `i64`, or `default` when it is missing or no
/// integer in range.
pub open spec fn member_i64_or(entries: Seq<(String, JsonValue)>, key: Seq<char>, default: i64) -> i64 {
    match member(entries, key) {
        Some(v) => match value_as_i64(v) {
            Some(i) => i,
            None => default,
        },
        None => default,
    }
}

/// The number as an `i64`, when it is an integer in range (serde_json's
/// `Number::as_i64`).
pub fn number_to_i64(n: &JsonNumber) -> (r: Option<i64>)
    ensures
        r == number_as_i64(*n),
{
    match n {
        JsonNumber::PosInt(u) => if *u <= 9223372036854775807u64 {
            Some(*u as i64)
        } else {
            None
        },
        JsonNumber::NegInt(i) => Some(*i),
        JsonNumber::Float => None,
    }
}

/// The value as an `i64`, when it is an integer number in range
/// (serde_json's `Value::as_i64`).
pub fn value_to_i64(v: &JsonValue) -> (r: Option<i64>)
    ensures
        r == value_as_i64(*v),
{
    match v {
        JsonValue::Number(n) => number_to_i64(n),
        _ => None,
    }
}

/// The error text when a number is no integer in range.
pub open spec fn not_i64_text() -> Seq<char> {
    "not i64"@
}

/// Reads an integer field that may arrive as another kind of value: a number
/// gives its `i64` value, or an error when it is no integer in range; any
/// other value (text such as `""`, null, ...) gives 0.
pub fn i64_or_default(v: &JsonValue) -> (r: Result<i64, String>)
    ensures
        match *v {
            JsonValue::Number(n) => match number_as_i64(n) {
                Some(i) => r == Ok::<i64, String>(i),
                None => r matches Err(e) && e@ == not_i64_text(),
            },
            _ => r == Ok::<i64, String>(0),
        },
{
    match v {
        JsonValue::Number(n) => match number_to_i64(n) {
            Some(i) => Ok(i),
            None => Err(String::from_str("not i64")),
        },
        _ => Ok(0),
    }
}

/// Whether the string's text is `key`.
fn text_is(s: &String, key: &str) -> (r: bool)
    ensures
        r == (s@ == key@),
{
    *s == String::from_str(key)
}

/// The value of the first member named `key`.
pub fn find_member<'a>(entries: &'a Vec<(String, JsonValue)>, key: &str) -> (r: Option<&'a JsonValue>)
    ensures
        match member(entries@, key@) {
            Some(v) => r matches Some(x) && *x == v,
            None => r is None,
        },
{
    let mut i: usize = 0;
    assert(entries@.skip(0) =~= entries@);
    while i < entries.len()
        invariant
            i <= entries@.len(),
            member(entries@, key@) == member(entries@.skip(i as int), key@),
        decreases entries@.len() - i,
    {
        if text_is(&entries[i].0, key) {
            return Some(&entries[i].1);
        }
        assert(entries@.skip(i as int).drop_first() =~= entries@.skip(i + 1));
        i = i + 1;
    }
    None
}

/// The member `key` read as an `i64`, or `default`.
fn member_i64(entries: &Vec<(String, JsonValue)>, key: &str, default: i64) -> (r: i64)
    ensures
        r == member_i64_or(entries@, key@, default),
{
    match find_member(entries, key) {
        Some(v) => match value_to_i64(v) {
            Some(i) => i,
            None => default,
        },
        None => default,
    }
}

/// The text of a date object: `YYYY-MM-DD HH:MM` with each part
/// zero-padded as std's `{:04}` / `{:02}` write them (a negative part keeps
/// its sign; a part wider than its width is written whole).
pub open spec fn date_parts_text(y: i64, mo: i64, d: i64, h: i64, mi: i64) -> Seq<char> {
    padded_int_text(y as int, 4) + seq!['-'] + padded_int_text(mo as int, 2) + seq!['-']
        + padded_int_text(d as int, 2) + seq![' '] + padded_int_text(h as int, 2) + seq![':']
        + padded_int_text(mi as int, 2)
}

/// A date whose parts are in their usual ranges (year up to four digits,
/// the others up to two) is written in exactly 16 characters.
pub proof fn lemma_date_text_width(y: i64, mo: i64, d: i64, h: i64, mi: i64)
    requires
        0 <= y <= 9999,
        0 <= mo <= 99,
        0 <= d <= 99,
        0 <= h <= 99,
        0 <= mi <= 99,
    ensures
        date_parts_text(y, mo, d, h, mi).len() == 16,
{
    reveal_with_fuel(pow10, 5);
    lemma_padded_width(y as int, 4);
    lemma_padded_width(mo as int, 2);
    lemma_padded_width(d as int, 2);
    lemma_padded_width(h as int, 2);
    lemma_padded_width(mi as int, 2);
}

/// The text of a date field: an object of parts `year`, `month`, `day`,
/// `hour`, `minute` (missing or non-integer parts default to 0, 1, 1, 0, 0)
/// becomes `YYYY-MM-DD HH:MM`; text is kept as it is; anything else gives
/// the empty text.
pub open spec fn mihoyo_date_text(v: JsonValue) -> Seq<char> {
    match v {
        JsonValue::Object(m) => date_parts_text(
            member_i64_or(m@, "year"@, 0),
            member_i64_or(m@, "month"@, 1),
            member_i64_or(m@, "day"@, 1),
            member_i64_or(m@, "hour"@, 0),
            member_i64_or(m@, "minute"@, 0),
        ),
        JsonValue::String(s) => s@,
        _ => Seq::empty(),
    }
}

/// Reads a date field: either an object `{year, month, day, hour, minute}`,
/// written as `YYYY-MM-DD HH:MM`, or plain text, kept; anything else gives
/// the empty text.
pub fn format_mihoyo_date(v: JsonValue) -> (text: String)
    ensures
        text@ == mihoyo_date_text(v),
{
    match v {
        JsonValue::Object(m) => {
            let y = member_i64(&m, "year", 0);
            let mo = member_i64(&m, "month", 1);
            let d = member_i64(&m, "day", 1);
            let h = member_i64(&m, "hour", 0);
            let mi = member_i64(&m, "minute", 0);
            let mut out = String::new();
            push_padded_int(&mut out, y, 4);
            push_char(&mut out, '-');
            push_padded_int(&mut out, mo, 2);
            push_char(&mut out, '-');
            push_padded_int(&mut out, d, 2);
            push_char(&mut out, ' ');
            push_padded_int(&mut out, h, 2);
            push_char(&mut out, ':');
            push_padded_int(&mut out, mi, 2);
            assert(out@ =~= date_parts_text(y, mo, d, h, mi));
            out
        },
        JsonValue::String(s) => s,
        _ => String::new(),
    }
}

} // verus!
