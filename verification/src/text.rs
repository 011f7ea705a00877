//! Character-level text building: decimal and hexadecimal rendering,
//! splitting, joining and ordering of character sequences.

use vstd::prelude::*;
use vstd::multiset::Multiset;
use vstd::relations::{sorted_by, total_ordering};

verus! {

/// The character of a decimal or lowercase hexadecimal digit `d < 16`.
pub open spec fn digit_char(d: nat) -> char {
    if d < 10 {
        (d + 48) as char
    } else {
        (d + 87) as char
    }
}

/// Decimal digits of `n`, most significant first, without leading zeros.
pub open spec fn dec_digits(n: nat) -> Seq<char>
    decreases n,
{
    if n < 10 {
        seq![digit_char(n)]
    } else {
        dec_digits(n / 10).push(digit_char(n % 10))
    }
}

/// Appends one character (std `String::push`).
#[verifier::external_body]
pub(crate) fn push_char(s: &mut String, c: char)
    ensures
        final(s)@ == old(s)@.push(c),
{
    s.push(c);
}

/// The character of digit `d`.
pub fn digit(d: u8) -> (c: char)
    requires
        d < 16,
    ensures
        c == digit_char(d as nat),
{
    if d < 10 {
        (d + 48) as char
    } else {
        (d + 87) as char
    }
}

/// Appends the decimal rendering of `n`.
pub fn push_decimal(out: &mut String, n: u128)
    ensures
        final(out)@ == old(out)@ + dec_digits(n as nat),
    decreases n,
{
    if n >= 10 {
        push_decimal(out, n / 10);
    }
    push_char(out, digit((n % 10) as u8));
}


/// The characters of a string slice, in order.
pub fn chars_of(s: &str) -> (v: Vec<char>)
    ensures
        v@ == s@,
{
    broadcast use vstd::string::group_string_axioms;
    let mut v: Vec<char> = Vec::new();
    for c in it: s.chars()
        invariant
            v@ == it.seq().take(it.index() as int),
    {
        v.push(c);
    }
    v
}


/// `count` zero characters (empty when `count <= 0`).
pub open spec fn zeros(count: int) -> Seq<char> {
    Seq::new(if count < 0 { 0nat } else { count as nat }, |i: int| '0')
}

/// Absolute value of an integer.
pub open spec fn abs(n: int) -> nat {
    if n < 0 { (-n) as nat } else { n as nat }
}

/// The sign prefix of an integer's decimal rendering.
pub open spec fn sign_text(n: int) -> Seq<char> {
    if n < 0 { seq!['-'] } else { Seq::empty() }
}

/// Rendering of an integer as std's `{}` writes it.
pub open spec fn int_text(n: int) -> Seq<char> {
    sign_text(n) + dec_digits(abs(n))
}

/// Rendering of an integer as std's `{:0w$}` writes it: the sign, then
/// zeros up to a total width of `width`, then the digits.
pub open spec fn padded_int_text(n: int, width: nat) -> Seq<char> {
    sign_text(n) + zeros(width - sign_text(n).len() - dec_digits(abs(n)).len())
        + dec_digits(abs(n))
}

/// Number of decimal digits of `n`.
pub fn decimal_len(n: u128) -> (len: usize)
    ensures
        len == dec_digits(n as nat).len(),
        1 <= len <= 39,
    decreases n,
{
    if n >= 10 {
        let k = decimal_len(n / 10);
        proof { lemma_dec_len_bound(n as nat); }
        k + 1
    } else {
        1
    }
}

/// A decimal rendering is never empty, and a `u128` has at most 39 digits.
proof fn lemma_dec_len_bound(n: nat)
    requires
        n <= u128::MAX,
    ensures
        1 <= dec_digits(n).len(),
        dec_digits(n).len() <= 39,
{
    lemma_dec_len_pow(n, 39);
    assert(pow10(39) == 1000000000000000000000000000000000000000nat) by {
        reveal_with_fuel(pow10, 40);
    }
}

/// `n < 10^k` (written as a product) has at most `k` digits.
pub proof fn lemma_dec_len_pow(n: nat, k: nat)
    ensures
        1 <= dec_digits(n).len(),
        n < pow10(k) && k >= 1 ==> dec_digits(n).len() <= k,
    decreases n,
{
    if n >= 10 {
        lemma_dec_len_pow(n / 10, (k - 1) as nat);
        if n < pow10(k) && k >= 1 {
            if k == 1 {
                assert(pow10(1) == 10) by { reveal_with_fuel(pow10, 2); }
            } else {
                assert(pow10(k) == 10 * pow10((k - 1) as nat));
                assert(n / 10 < pow10((k - 1) as nat));
            }
        }
    }
}

/// A non-negative number with at most `width` digits is rendered by
/// `{:0width$}` in exactly `width` characters.
pub proof fn lemma_padded_width(n: int, width: nat)
    requires
        0 <= n < pow10(width),
        width >= 1,
    ensures
        padded_int_text(n, width).len() == width,
{
    lemma_dec_len_pow(n as nat, width);
}

/// Ten to the power `k`.
pub open spec fn pow10(k: nat) -> nat
    decreases k,
{
    if k == 0 { 1 } else { 10 * pow10((k - 1) as nat) }
}

/// Appends `count` zero characters.
pub fn push_zeros(out: &mut String, count: usize)
    ensures
        final(out)@ == old(out)@ + zeros(count as int),
{
    let mut i: usize = 0;
    while i < count
        invariant
            i <= count,
            out@ == old(out)@ + zeros(i as int),
        decreases count - i,
    {
        push_char(out, '0');
        i = i + 1;
        assert(out@ =~= old(out)@ + zeros(i as int));
    }
}

/// Magnitude of a signed integer, as an unsigned one.
pub fn magnitude(n: i64) -> (m: u128)
    ensures
        m == abs(n as int),
{
    if n < 0 {
        (-(n as i128)) as u128
    } else {
        n as u128
    }
}

/// Appends `n` as std's `{}` writes it.
pub fn push_int(out: &mut String, n: i64)
    ensures
        final(out)@ == old(out)@ + int_text(n as int),
{
    if n < 0 {
        push_char(out, '-');
    }
    push_decimal(out, magnitude(n));
    assert(out@ =~= old(out)@ + int_text(n as int));
}

/// Appends `n` as std's `{:0width$}` writes it.
pub fn push_padded_int(out: &mut String, n: i64, width: usize)
    ensures
        final(out)@ == old(out)@ + padded_int_text(n as int, width as nat),
{
    let m = magnitude(n);
    let digits = decimal_len(m);
    let sign: usize = if n < 0 { 1 } else { 0 };
    if n < 0 {
        push_char(out, '-');
    }
    let used = sign + digits;
    if used < width {
        push_zeros(out, width - used);
    } else {
        push_zeros(out, 0);
    }
    push_decimal(out, m);
    assert(out@ =~= old(out)@ + padded_int_text(n as int, width as nat));
}

/// Lowercase hexadecimal rendering of bytes, two digits per byte.
pub open spec fn hex_text(bytes: Seq<u8>) -> Seq<char>
    decreases bytes.len(),
{
    if bytes.len() == 0 {
        Seq::empty()
    } else {
        hex_text(bytes.drop_last()) + seq![
            digit_char((bytes.last() / 16) as nat),
            digit_char((bytes.last() % 16) as nat),
        ]
    }
}

/// Appends the lowercase hexadecimal rendering of `bytes`.
pub fn push_hex(out: &mut String, bytes: &[u8])
    ensures
        final(out)@ == old(out)@ + hex_text(bytes@),
{
    let mut i: usize = 0;
    while i < bytes.len()
        invariant
            i <= bytes@.len(),
            out@ == old(out)@ + hex_text(bytes@.take(i as int)),
        decreases bytes@.len() - i,
    {
        let b = bytes[i];
        push_char(out, digit(b / 16));
        push_char(out, digit(b % 16));
        assert(bytes@.take(i + 1).drop_last() =~= bytes@.take(i as int));
        i = i + 1;
        assert(out@ =~= old(out)@ + hex_text(bytes@.take(i as int)));
    }
    assert(bytes@.take(bytes@.len() as int) =~= bytes@);
}

/// The `k` lowest hexadecimal digits of `n`, most significant first; for a
/// `u64` and `k == 16` this is std's `{:016x}`.
pub open spec fn hex_fixed(n: nat, k: nat) -> Seq<char>
    decreases k,
{
    if k == 0 {
        Seq::empty()
    } else {
        hex_fixed(n / 16, (k - 1) as nat).push(digit_char(n % 16))
    }
}

/// Appends the `k` lowest hexadecimal digits of `n`.
pub fn push_hex_fixed(out: &mut String, n: u64, k: usize)
    ensures
        final(out)@ == old(out)@ + hex_fixed(n as nat, k as nat),
    decreases k,
{
    if k > 0 {
        push_hex_fixed(out, n / 16, k - 1);
        push_char(out, digit((n % 16) as u8));
    }
}


/// The views of a sequence of character vectors.
pub open spec fn views(v: Seq<Vec<char>>) -> Seq<Seq<char>> {
    v.map_values(|p: Vec<char>| p@)
}

/// Lexicographic order on character sequences by code point; for UTF-8
/// text this is the order of `str`'s `Ord`.
pub open spec fn lex_le(a: Seq<char>, b: Seq<char>) -> bool
    decreases a.len(),
{
    if a.len() == 0 {
        true
    } else if b.len() == 0 {
        false
    } else if a[0] != b[0] {
        (a[0] as int) < (b[0] as int)
    } else {
        lex_le(a.drop_first(), b.drop_first())
    }
}

/// `lex_le` as a relation value.
pub open spec fn lex_order() -> spec_fn(Seq<char>, Seq<char>) -> bool {
    |a: Seq<char>, b: Seq<char>| lex_le(a, b)
}

proof fn lemma_lex_reflexive(a: Seq<char>)
    ensures
        lex_le(a, a),
    decreases a.len(),
{
    if a.len() > 0 {
        lemma_lex_reflexive(a.drop_first());
    }
}

proof fn lemma_lex_antisymmetric(a: Seq<char>, b: Seq<char>)
    requires
        lex_le(a, b),
        lex_le(b, a),
    ensures
        a == b,
    decreases a.len(),
{
    if a.len() > 0 && b.len() > 0 {
        if a[0] == b[0] {
            lemma_lex_antisymmetric(a.drop_first(), b.drop_first());
            assert(a =~= seq![a[0]] + a.drop_first());
            assert(b =~= seq![b[0]] + b.drop_first());
        } else {
        }
    } else {
        assert(a =~= b);
    }
}

proof fn lemma_lex_transitive(a: Seq<char>, b: Seq<char>, c: Seq<char>)
    requires
        lex_le(a, b),
        lex_le(b, c),
    ensures
        lex_le(a, c),
    decreases a.len(),
{
    if a.len() > 0 && b.len() > 0 && c.len() > 0 {
        if a[0] == b[0] && b[0] == c[0] {
            lemma_lex_transitive(a.drop_first(), b.drop_first(), c.drop_first());
        }
    }
}

proof fn lemma_lex_connected(a: Seq<char>, b: Seq<char>)
    ensures
        lex_le(a, b) || lex_le(b, a),
    decreases a.len(),
{
    if a.len() > 0 && b.len() > 0 {
        if a[0] == b[0] {
            lemma_lex_connected(a.drop_first(), b.drop_first());
        } else {
        }
    }
}

/// The lexicographic order is a total order.
pub proof fn lemma_lex_total_ordering()
    ensures
        total_ordering(lex_order()),
{
    assert forall|a: Seq<char>| #[trigger] lex_order()(a, a) by {
        lemma_lex_reflexive(a);
    }
    assert forall|a: Seq<char>, b: Seq<char>|
        #[trigger] lex_order()(a, b) && #[trigger] lex_order()(b, a) implies a == b by {
        lemma_lex_antisymmetric(a, b);
    }
    assert forall|a: Seq<char>, b: Seq<char>, c: Seq<char>|
        #[trigger] lex_order()(a, b) && #[trigger] lex_order()(b, c) implies lex_order()(a, c) by {
        lemma_lex_transitive(a, b, c);
    }
    assert forall|a: Seq<char>, b: Seq<char>|
        #[trigger] lex_order()(a, b) || #[trigger] lex_order()(b, a) by {
        lemma_lex_connected(a, b);
    }
}

/// Compares two character vectors lexicographically.
pub fn lex_le_exec(a: &Vec<char>, b: &Vec<char>) -> (r: bool)
    ensures
        r == lex_le(a@, b@),
{
    let mut i: usize = 0;
    assert(a@.skip(0) =~= a@ && b@.skip(0) =~= b@);
    while i < a.len() && i < b.len()
        invariant
            i <= a@.len(),
            i <= b@.len(),
            lex_le(a@, b@) == lex_le(a@.skip(i as int), b@.skip(i as int)),
        decreases a@.len() - i,
    {
        if a[i] != b[i] {
            return a[i] < b[i];
        }
        assert(a@.skip(i as int).drop_first() =~= a@.skip(i + 1));
        assert(b@.skip(i as int).drop_first() =~= b@.skip(i + 1));
        i = i + 1;
    }
    i == a.len()
}

/// Pieces of `s` between occurrences of `sep`, as std's `str::split` with a
/// character pattern yields them (always at least one piece).
pub open spec fn split_on(s: Seq<char>, sep: char) -> Seq<Seq<char>>
    decreases s.len(),
{
    if s.len() == 0 {
        seq![Seq::empty()]
    } else {
        let rest = split_on(s.drop_last(), sep);
        if s.last() == sep {
            rest.push(Seq::empty())
        } else {
            rest.update(rest.len() - 1, rest.last().push(s.last()))
        }
    }
}

/// `split_on` yields at least one piece.
pub proof fn lemma_split_nonempty(s: Seq<char>, sep: char)
    ensures
        split_on(s, sep).len() >= 1,
    decreases s.len(),
{
    if s.len() > 0 {
        lemma_split_nonempty(s.drop_last(), sep);
    }
}

/// Splits a character vector at every occurrence of `sep`.
pub fn split_chars(s: &Vec<char>, sep: char) -> (pieces: Vec<Vec<char>>)
    ensures
        views(pieces@) == split_on(s@, sep),
{
    let mut pieces: Vec<Vec<char>> = Vec::new();
    let mut cur: Vec<char> = Vec::new();
    let mut i: usize = 0;
    assert(views(pieces@).push(cur@) =~= split_on(s@.take(0), sep));
    while i < s.len()
        invariant
            i <= s@.len(),
            views(pieces@).push(cur@) == split_on(s@.take(i as int), sep),
        decreases s@.len() - i,
    {
        let c = s[i];
        let ghost prefix = s@.take(i + 1);
        assert(prefix.drop_last() =~= s@.take(i as int));
        assert(prefix.last() == c);
        proof { lemma_split_nonempty(s@.take(i as int), sep); }
        if c == sep {
            let done = cur;
            pieces.push(done);
            cur = Vec::new();
            assert(views(pieces@).push(cur@) =~= split_on(prefix, sep));
        } else {
            cur.push(c);
            assert(views(pieces@).push(cur@) =~= split_on(prefix, sep));
        }
        i = i + 1;
    }
    pieces.push(cur);
    assert(s@.take(s@.len() as int) =~= s@);
    pieces
}

/// The pieces of `list` with `sep` between consecutive ones.
pub open spec fn join_with(list: Seq<Seq<char>>, sep: char) -> Seq<char>
    decreases list.len(),
{
    if list.len() == 0 {
        Seq::empty()
    } else if list.len() == 1 {
        list[0]
    } else {
        join_with(list.drop_last(), sep).push(sep) + list.last()
    }
}

/// Joining the pieces of a split with the separator gives the text back,
/// and no piece holds the separator.
pub proof fn lemma_split_join(s: Seq<char>, sep: char)
    ensures
        join_with(split_on(s, sep), sep) == s,
        forall|i: int, j: int|
            0 <= i < split_on(s, sep).len() && 0 <= j < split_on(s, sep)[i].len()
                ==> #[trigger] split_on(s, sep)[i][j] != sep,
    decreases s.len(),
{
    if s.len() > 0 {
        let rest = split_on(s.drop_last(), sep);
        lemma_split_join(s.drop_last(), sep);
        lemma_split_nonempty(s.drop_last(), sep);
        let pieces = split_on(s, sep);
        if s.last() == sep {
            assert(pieces.drop_last() =~= rest);
            assert(join_with(pieces, sep) =~= s);
            assert forall|i: int, j: int|
                0 <= i < pieces.len() && 0 <= j < pieces[i].len() implies #[trigger] pieces[i][j]
                != sep by {
                assert(i < rest.len());
                assert(pieces[i] == rest[i]);
            }
        } else {
            if rest.len() == 1 {
                assert(join_with(pieces, sep) =~= s);
            } else {
                assert(pieces.drop_last() =~= rest.drop_last());
                assert(pieces.last() == rest.last().push(s.last()));
                assert(join_with(pieces, sep) =~= join_with(rest, sep).push(s.last()));
                assert(s =~= s.drop_last().push(s.last()));
            }
            assert forall|i: int, j: int|
                0 <= i < pieces.len() && 0 <= j < pieces[i].len() implies #[trigger] pieces[i][j]
                != sep by {
                if i < rest.len() - 1 {
                    assert(pieces[i] == rest[i]);
                } else if j < rest.last().len() {
                    assert(pieces[i][j] == rest[i][j]);
                }
            }
        }
    }
}

/// Appends every character of `chars`.
pub fn push_chars(out: &mut String, chars: &Vec<char>)
    ensures
        final(out)@ == old(out)@ + chars@,
{
    let mut i: usize = 0;
    while i < chars.len()
        invariant
            i <= chars@.len(),
            out@ == old(out)@ + chars@.take(i as int),
        decreases chars@.len() - i,
    {
        push_char(out, chars[i]);
        i = i + 1;
        assert(out@ =~= old(out)@ + chars@.take(i as int));
    }
    assert(chars@.take(chars@.len() as int) =~= chars@);
}

/// Appends the pieces of `list` with `sep` between consecutive ones.
pub fn push_joined(out: &mut String, list: &Vec<Vec<char>>, sep: char)
    ensures
        final(out)@ == old(out)@ + join_with(views(list@), sep),
{
    let mut i: usize = 0;
    while i < list.len()
        invariant
            i <= list@.len(),
            out@ == old(out)@ + join_with(views(list@).take(i as int), sep),
        decreases list@.len() - i,
    {
        assert(views(list@).take(i + 1).drop_last() =~= views(list@).take(i as int));
        if i > 0 {
            push_char(out, sep);
        }
        push_chars(out, &list[i]);
        i = i + 1;
        assert(out@ =~= old(out)@ + join_with(views(list@).take(i as int), sep));
    }
    assert(views(list@).take(list@.len() as int) =~= views(list@));
}

/// Sorts character vectors into lexicographic order.
pub fn sort_texts(items: Vec<Vec<char>>) -> (sorted: Vec<Vec<char>>)
    ensures
        sorted_by(views(sorted@), lex_order()),
        views(sorted@).to_multiset() == views(items@).to_multiset(),
{
    broadcast use vstd::seq_lib::group_to_multiset_ensures;
    let ghost original = views(items@);
    let mut rest = items;
    let mut res: Vec<Vec<char>> = Vec::new();
    proof { lemma_lex_total_ordering(); }
    while rest.len() > 0
        invariant
            total_ordering(lex_order()),
            sorted_by(views(res@), lex_order()),
            views(res@).to_multiset().add(views(rest@).to_multiset()) == original.to_multiset(),
        decreases rest@.len(),
    {
        let ghost rest_before = views(rest@);
        let x = rest.pop().unwrap();
        assert(views(rest@) =~= rest_before.drop_last());
        assert(rest_before =~= views(rest@).push(x@));
        let mut j: usize = 0;
        while j < res.len() && lex_le_exec(&res[j], &x)
            invariant
                j <= res@.len(),
                forall|k: int| 0 <= k < j ==> lex_le(#[trigger] views(res@)[k], x@),
            decreases res@.len() - j,
        {
            j = j + 1;
        }
        let ghost before = views(res@);
        res.insert(j, x);
        assert(views(res@) =~= before.insert(j as int, x@));
        assert forall|a: int, b: int| 0 <= a < b < views(res@).len() implies
            lex_le(#[trigger] views(res@)[a], #[trigger] views(res@)[b]) by {
            if b < j {
                assert(lex_order()(before[a], before[b]));
            } else if a < j && b == j {
            } else if a < j {
                assert(lex_order()(before[a], before[b - 1]));
            } else if a == j {
                assert(j < before.len());
                assert(!lex_le(before[j as int], x@));
                lemma_lex_connected(before[j as int], x@);
                if b - 1 > j {
                    assert(lex_order()(before[j as int], before[b - 1]));
                    lemma_lex_transitive(x@, before[j as int], before[b - 1]);
                }
            } else {
                assert(lex_order()(before[a - 1], before[b - 1]));
            }
        }
        proof {
            vstd::seq_lib::to_multiset_insert(before, j as int, x@);
            vstd::seq_lib::to_multiset_build(views(rest@), x@);
        }
        assert(views(res@).to_multiset().add(views(rest@).to_multiset()) =~= original.to_multiset());
    }
    assert(views(rest@).to_multiset() =~= Multiset::empty());
    assert(views(res@).to_multiset() =~= views(res@).to_multiset().add(views(rest@).to_multiset()));
    res
}

} // verus!
