//! The "DS" request signature of the game-record API, version 2 for GET
//! requests: a timestamp, a random number and the MD5 digest of the salted,
//! sorted query.

use md5::{Digest, Md5};
use rand::Rng;
use std::time::{SystemTime, UNIX_EPOCH};
use vstd::prelude::*;
use vstd::seq_lib::lemma_sorted_unique;
use vstd::utf8::encode_utf8;

use crate::text::{
    chars_of, dec_digits, hex_text, int_text, join_with, lemma_lex_total_ordering, lex_order,
    push_char, push_decimal, push_hex, push_int, push_joined, sort_texts, split_chars, split_on,
    views,
};

verus! {

/// DS salt for the game-record APIs (web client type).
pub const SALT_X4: &'static str = "xV8v4Qu54lUKrEYFZkJhB8cuOh9Asafs";

/// The MD5 digest of `data`.
pub uninterp spec fn md5_digest_of(data: Seq<u8>) -> Seq<u8>;

/// md-5's `Md5::new`, `update` and `finalize`: the 16-byte MD5 digest of
/// `data`. The contract names the digest and states its length; it does not
/// restate the MD5 algorithm.
#[verifier::external_body]
fn md5_digest(data: &[u8]) -> (digest: Vec<u8>)
    ensures
        digest@ == md5_digest_of(data@),
        digest@.len() == 16,
{
    let mut hasher = Md5::new();
    hasher.update(data);
    hasher.finalize().to_vec()
}

/// std's `SystemTime::now().duration_since(UNIX_EPOCH)`: the time since the
/// Unix epoch as whole seconds and whole milliseconds, or `None` when the
/// clock reads before the epoch. Of the time itself nothing is stated.
#[verifier::external_body]
pub(crate) fn time_since_epoch() -> (t: Option<(u64, u128)>)
    ensures
        t matches Some((secs, millis)) ==> secs == millis / 1000,
{
    match SystemTime::now().duration_since(UNIX_EPOCH) {
        Ok(d) => Some((d.as_secs(), d.as_millis())),
        Err(_) => None,
    }
}

/// rand's `thread_rng().gen_range(low..=high)`: a random number within the
/// inclusive range; which one is left open.
#[verifier::external_body]
pub(crate) fn random_in_range(low: i32, high: i32) -> (r: i32)
    requires
        low <= high,
    ensures
        low <= r <= high,
{
    rand::thread_rng().gen_range(low..=high)
}

/// rand's `random::<u64>()`: a random 64-bit number; nothing is stated of it.
#[verifier::external_body]
pub(crate) fn random_u64() -> u64 {
    rand::random::<u64>()
}

/// The parameters of a query string: none for the empty query, otherwise the
/// pieces between `&` separators.
pub open spec fn query_params(query: Seq<char>) -> Seq<Seq<char>> {
    if query.len() == 0 {
        Seq::empty()
    } else {
        split_on(query, '&')
    }
}

/// The query with its parameters in lexicographic order.
pub open spec fn sorted_query(query: Seq<char>) -> Seq<char> {
    join_with(query_params(query).sort_by(lex_order()), '&')
}

/// The message whose digest is signed.
pub open spec fn ds2_message(salt: Seq<char>, t: u64, r: i32, query: Seq<char>) -> Seq<char> {
    "salt="@ + salt + "&t="@ + dec_digits(t as nat) + "&r="@ + int_text(r as int) + "&b=&q="@
        + sorted_query(query)
}

/// The MD5 digest of the UTF-8 encoding of the signed message.
pub open spec fn ds2_digest(salt: Seq<char>, t: u64, r: i32, query: Seq<char>) -> Seq<u8> {
    md5_digest_of(encode_utf8(ds2_message(salt, t, r, query)))
}

/// The DS2 header value `"{t},{r},{md5 hex of the message}"`.
pub open spec fn ds2_text(salt: Seq<char>, t: u64, r: i32, query: Seq<char>) -> Seq<char> {
    dec_digits(t as nat) + seq![','] + int_text(r as int) + seq![','] + hex_text(
        ds2_digest(salt, t, r, query),
    )
}

/// `ds` is the DS2 value of `query` for time `t` and random number `r`
/// drawn from `100001..=200000`; its digest has 16 bytes, so its last part
/// has 32 hexadecimal digits.
pub open spec fn ds2_signed_at(salt: Seq<char>, query: Seq<char>, ds: Seq<char>, t: u64, r: i32) -> bool {
    &&& 100001 <= r <= 200000
    &&& ds == ds2_text(salt, t, r, query)
    &&& ds2_digest(salt, t, r, query).len() == 16
}

/// The DS2 value for timestamp `t` and random number `r`.
pub fn ds2_sign(salt: &str, query: &str, t: u64, r: i32) -> (ds: String)
    ensures
        ds@ == ds2_text(salt@, t, r, query@),
        ds2_digest(salt@, t, r, query@).len() == 16,
{
    let params = if query.is_empty() {
        Vec::new()
    } else {
        split_chars(&chars_of(query), '&')
    };
    assert(views(params@) == query_params(query@));
    let sorted = sort_texts(params);
    proof {
        lemma_lex_total_ordering();
        query_params(query@).lemma_sort_by_ensures(lex_order());
        lemma_sorted_unique(
            views(sorted@),
            query_params(query@).sort_by(lex_order()),
            lex_order(),
        );
    }
    let mut msg = String::new();
    msg.append("salt=");
    msg.append(salt);
    msg.append("&t=");
    push_decimal(&mut msg, t as u128);
    msg.append("&r=");
    push_int(&mut msg, r as i64);
    msg.append("&b=&q=");
    push_joined(&mut msg, &sorted, '&');
    assert(msg@ =~= ds2_message(salt@, t, r, query@));
    let digest = md5_digest(msg.as_str().as_bytes());
    let mut ds = String::new();
    push_decimal(&mut ds, t as u128);
    push_char(&mut ds, ',');
    push_int(&mut ds, r as i64);
    push_char(&mut ds, ',');
    push_hex(&mut ds, digest.as_slice());
    assert(ds@ =~= ds2_text(salt@, t, r, query@));
    ds
}

/// `ds` is the DS2 value of `query` for some time and some random number
/// drawn from `100001..=200000`.
pub open spec fn ds2_signed(salt: Seq<char>, query: Seq<char>, ds: Seq<char>) -> bool {
    exists|t: u64, r: i32| #[trigger] ds2_signed_at(salt, query, ds, t, r)
}

/// The DS2 value for a clock reading and a random number: the timestamp is
/// the reading's whole seconds since the Unix epoch (not its milliseconds).
/// `None` exactly when there is no reading (the clock reads before the
/// epoch).
pub fn ds2_at_clock(salt: &str, query: &str, clock: Option<(u64, u128)>, r: i32) -> (ds: Option<String>)
    requires
        clock matches Some((secs, millis)) ==> secs == millis / 1000,
    ensures
        clock is None <==> ds is None,
        clock matches Some((secs, millis)) ==> (ds matches Some(d) && d@ == ds2_text(
            salt@,
            (millis / 1000) as u64,
            r,
            query@,
        ) && d@ == ds2_text(salt@, secs, r, query@)),
        clock matches Some((secs, _)) ==> ds2_digest(salt@, secs, r, query@).len() == 16,
{
    match clock {
        Some((secs, _)) => Some(ds2_sign(salt, query, secs, r)),
        None => None,
    }
}

/// Generates the DS2 value for a GET request with the given query: the
/// current Unix time in whole seconds, a random number in `100001..=200000`,
/// and the digest of the salted, sorted query. `None` when the clock reads
/// before the epoch. Which time and which random number were used is left
/// open here; `ds2_at_clock` states the value for a given reading.
pub fn ds2_get(salt: &str, query: &str) -> (ds: Option<String>)
    ensures
        ds matches Some(d) ==> ds2_signed(salt@, query@, d@),
{
    let clock = time_since_epoch();
    let r = random_in_range(100001, 200000);
    let ds = ds2_at_clock(salt, query, clock, r);
    proof {
        if let Some((secs, _)) = clock {
            assert(ds2_signed_at(salt@, query@, ds.unwrap()@, secs, r));
        }
    }
    ds
}

/// Hexadecimal text has two digits per byte.
pub proof fn lemma_hex_text_len(bytes: Seq<u8>)
    ensures
        hex_text(bytes).len() == 2 * bytes.len(),
    decreases bytes.len(),
{
    if bytes.len() > 0 {
        lemma_hex_text_len(bytes.drop_last());
    }
}

/// The digest part of a DS2 value has 32 hexadecimal digits.
pub proof fn lemma_ds2_digest_digits(salt: Seq<char>, query: Seq<char>, ds: Seq<char>, t: u64, r: i32)
    requires
        ds2_signed_at(salt, query, ds, t, r),
    ensures
        hex_text(ds2_digest(salt, t, r, query)).len() == 32,
{
    lemma_hex_text_len(ds2_digest(salt, t, r, query));
}

/// The signature does not depend on the order of the query's parameters:
/// two queries with the same parameters, in any order, are signed alike.
pub proof fn lemma_ds2_ignores_param_order(
    salt: Seq<char>,
    t: u64,
    r: i32,
    q1: Seq<char>,
    q2: Seq<char>,
)
    requires
        query_params(q1).to_multiset() == query_params(q2).to_multiset(),
    ensures
        ds2_text(salt, t, r, q1) == ds2_text(salt, t, r, q2),
{
    lemma_lex_total_ordering();
    query_params(q1).lemma_sort_by_ensures(lex_order());
    query_params(q2).lemma_sort_by_ensures(lex_order());
    lemma_sorted_unique(
        query_params(q1).sort_by(lex_order()),
        query_params(q2).sort_by(lex_order()),
        lex_order(),
    );
    assert(sorted_query(q1) == sorted_query(q2));
    assert(ds2_message(salt, t, r, q1) == ds2_message(salt, t, r, q2));
}

} // verus!
