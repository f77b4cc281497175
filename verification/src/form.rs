//! Query text in `application/x-www-form-urlencoded` form: how pairs are written, and how
//! such text is read back.

use vstd::prelude::*;

use crate::api::{form_byte, form_unreserved, form_urlencoded, hex_upper};

verus! {

broadcast use vstd::utf8::encode_utf8_decode_utf8;

/// One query pair as form-encoded text: the encoded name, `=`, the encoded value.
pub open spec fn query_pair_text(p: (Seq<char>, Seq<char>)) -> Seq<char> {
    form_urlencoded(vstd::utf8::encode_utf8(p.0)) + seq!['='] + form_urlencoded(
        vstd::utf8::encode_utf8(p.1),
    )
}

/// The query pairs `pairs` as form-encoded text, joined by `&` in order.
pub open spec fn query_text(pairs: Seq<(Seq<char>, Seq<char>)>) -> Seq<char>
    decreases pairs.len(),
{
    if pairs.len() == 0 {
        Seq::empty()
    } else if pairs.len() == 1 {
        query_pair_text(pairs[0])
    } else {
        query_pair_text(pairs[0]) + seq!['&'] + query_text(pairs.skip(1))
    }
}

/// Whether `c` is a hexadecimal digit, in either case.
pub open spec fn is_hex(c: char) -> bool {
    ('0' <= c <= '9') || ('A' <= c <= 'F') || ('a' <= c <= 'f')
}

/// The value of a hexadecimal digit.
pub open spec fn hex_value(c: char) -> int {
    if '0' <= c <= '9' {
        c as int - 48
    } else if 'A' <= c <= 'F' {
        c as int - 55
    } else {
        c as int - 87
    }
}

/// The bytes that form-encoded text stands for: `+` is a space, `%` and two hexadecimal
/// digits the byte they spell, any other character its UTF-8 bytes.
pub open spec fn form_decode(s: Seq<char>) -> Seq<u8>
    decreases s.len(),
{
    if s.len() == 0 {
        Seq::empty()
    } else if s[0] == '+' {
        seq![32u8] + form_decode(s.skip(1))
    } else if s[0] == '%' && s.len() >= 3 && is_hex(s[1]) && is_hex(s[2]) {
        seq![(hex_value(s[1]) * 16 + hex_value(s[2])) as u8] + form_decode(s.skip(3))
    } else {
        vstd::utf8::encode_scalar(s[0] as u32) + form_decode(s.skip(1))
    }
}

/// The parts of `s` between the characters `c`, in order (one part when there is none).
pub open spec fn split_on(s: Seq<char>, c: char) -> Seq<Seq<char>>
    decreases s.len(),
{
    if s.len() == 0 {
        seq![Seq::empty()]
    } else {
        let rest = split_on(s.skip(1), c);
        if s[0] == c {
            seq![Seq::<char>::empty()] + rest
        } else {
            rest.update(0, seq![s[0]] + rest[0])
        }
    }
}

/// `s` cut at its first `c`: what comes before it, and what comes after it if there is one.
pub open spec fn split_first(s: Seq<char>, c: char) -> (Seq<char>, Option<Seq<char>>)
    decreases s.len(),
{
    if s.len() == 0 {
        (Seq::empty(), None)
    } else if s[0] == c {
        (Seq::empty(), Some(s.skip(1)))
    } else {
        let (n, v) = split_first(s.skip(1), c);
        (seq![s[0]] + n, v)
    }
}

/// The name and value that one part of a query stands for; a part without `=` has an empty
/// value.
pub open spec fn decode_pair(part: Seq<char>) -> (Seq<char>, Seq<char>) {
    let (n, v) = split_first(part, '=');
    (
        vstd::utf8::decode_utf8(form_decode(n)),
        vstd::utf8::decode_utf8(
            form_decode(
                match v {
                    Some(t) => t,
                    None => Seq::empty(),
                },
            ),
        ),
    )
}

/// The pairs that query text stands for: its parts between `&`, each read as `decode_pair`
/// says. The empty query has no pairs.
pub open spec fn decode_query(q: Seq<char>) -> Seq<(Seq<char>, Seq<char>)> {
    if q.len() == 0 {
        Seq::empty()
    } else {
        split_on(q, '&').map_values(|p: Seq<char>| decode_pair(p))
    }
}

/// Whether `s` holds neither `&` nor `=`.
pub open spec fn no_separator(s: Seq<char>) -> bool {
    forall|i: int| 0 <= i < s.len() ==> #[trigger] s[i] != '&' && s[i] != '='
}

proof fn lemma_form_concat(a: Seq<u8>, b: Seq<u8>)
    ensures
        form_urlencoded(a + b) == form_urlencoded(a) + form_urlencoded(b),
    decreases b.len(),
{
    if b.len() == 0 {
        assert(a + b =~= a);
        assert(form_urlencoded(a) + form_urlencoded(b) =~= form_urlencoded(a));
    } else {
        assert((a + b).drop_last() =~= a + b.drop_last());
        assert((a + b).last() == b.last());
        lemma_form_concat(a, b.drop_last());
        assert(form_urlencoded(a + b) =~= form_urlencoded(a) + form_urlencoded(b));
    }
}

proof fn lemma_form_front(b: Seq<u8>)
    requires
        b.len() > 0,
    ensures
        form_urlencoded(b) == form_byte(b[0]) + form_urlencoded(b.skip(1)),
{
    assert(b =~= seq![b[0]] + b.skip(1));
    lemma_form_concat(seq![b[0]], b.skip(1));
    let one = seq![b[0]];
    assert(one.drop_last() =~= Seq::<u8>::empty());
    assert(one.last() == b[0]);
    assert(form_urlencoded(one.drop_last()) =~= Seq::<char>::empty());
    assert(form_urlencoded(one) =~= form_byte(b[0]));
}

proof fn lemma_hex_round(d: int)
    requires
        0 <= d < 16,
    ensures
        is_hex(hex_upper(d)),
        hex_value(hex_upper(d)) == d,
        hex_upper(d) != '&',
        hex_upper(d) != '=',
{
}

proof fn lemma_byte_round(x: u8, rest: Seq<char>)
    ensures
        form_decode(form_byte(x) + rest) == seq![x] + form_decode(rest),
{
    let s = form_byte(x) + rest;
    if form_unreserved(x) {
        assert(s[0] == x as char);
        assert(s.skip(1) =~= rest);
        assert(((x as char) as u32) == x as u32);
        assert((x as u32 & 0x7F) as u8 == x) by (bit_vector)
            requires
                x < 128u8,
        ;
        assert(vstd::utf8::encode_scalar((x as char) as u32) =~= seq![x]);
    } else if x == 32 {
        assert(s[0] == '+');
        assert(s.skip(1) =~= rest);
    } else {
        let hi = x as int / 16;
        let lo = x as int % 16;
        lemma_hex_round(hi);
        lemma_hex_round(lo);
        assert(s[0] == '%');
        assert(s[1] == hex_upper(hi));
        assert(s[2] == hex_upper(lo));
        assert(s.skip(3) =~= rest);
        assert(hi * 16 + lo == x) by (nonlinear_arith)
            requires
                hi == x as int / 16,
                lo == x as int % 16,
        ;
    }
}

/// Form decoding reads back the bytes that form encoding wrote.
pub proof fn lemma_form_round_trip(b: Seq<u8>)
    ensures
        form_decode(form_urlencoded(b)) == b,
    decreases b.len(),
{
    if b.len() == 0 {
        assert(form_urlencoded(b) =~= Seq::<char>::empty());
    } else {
        lemma_form_front(b);
        lemma_byte_round(b[0], form_urlencoded(b.skip(1)));
        lemma_form_round_trip(b.skip(1));
        assert(b =~= seq![b[0]] + b.skip(1));
    }
}

/// Form-encoded text holds neither `&` nor `=`.
pub proof fn lemma_form_no_separator(b: Seq<u8>)
    ensures
        no_separator(form_urlencoded(b)),
    decreases b.len(),
{
    if b.len() > 0 {
        lemma_form_no_separator(b.drop_last());
        let x = b.last();
        if !form_unreserved(x) && x != 32 {
            lemma_hex_round(x as int / 16);
            lemma_hex_round(x as int % 16);
        }
        let f = form_urlencoded(b);
        let g = form_urlencoded(b.drop_last());
        assert(f == g + form_byte(x));
        assert forall|i: int| 0 <= i < f.len() implies #[trigger] f[i] != '&' && f[i] != '=' by {
            if i < g.len() {
                assert(f[i] == g[i]);
            } else {
                assert(f[i] == form_byte(x)[i - g.len()]);
            }
        }
    }
}

proof fn lemma_split_on_plain(a: Seq<char>, c: char)
    requires
        forall|i: int| 0 <= i < a.len() ==> a[i] != c,
    ensures
        split_on(a, c) == seq![a],
    decreases a.len(),
{
    if a.len() > 0 {
        assert forall|i: int| 0 <= i < a.skip(1).len() implies a.skip(1)[i] != c by {
            assert(a.skip(1)[i] == a[i + 1]);
        }
        lemma_split_on_plain(a.skip(1), c);
        assert(a[0] != c);
        assert(seq![a[0]] + a.skip(1) =~= a);
        assert(split_on(a, c) =~= seq![a]);
    } else {
        assert(a =~= Seq::<char>::empty());
    }
}

proof fn lemma_split_on_cut(a: Seq<char>, c: char, b: Seq<char>)
    requires
        forall|i: int| 0 <= i < a.len() ==> a[i] != c,
    ensures
        split_on(a + seq![c] + b, c) == seq![a] + split_on(b, c),
    decreases a.len(),
{
    let s = a + seq![c] + b;
    if a.len() == 0 {
        assert(s[0] == c);
        assert(s.skip(1) =~= b);
        assert(a =~= Seq::<char>::empty());
    } else {
        assert forall|i: int| 0 <= i < a.skip(1).len() implies a.skip(1)[i] != c by {
            assert(a.skip(1)[i] == a[i + 1]);
        }
        lemma_split_on_cut(a.skip(1), c, b);
        assert(s.skip(1) =~= a.skip(1) + seq![c] + b);
        assert(s[0] == a[0]);
        assert(seq![a[0]] + a.skip(1) =~= a);
        assert(split_on(s, c) =~= seq![a] + split_on(b, c));
    }
}

proof fn lemma_split_first_cut(a: Seq<char>, c: char, b: Seq<char>)
    requires
        forall|i: int| 0 <= i < a.len() ==> a[i] != c,
    ensures
        split_first(a + seq![c] + b, c) == (a, Some(b)),
    decreases a.len(),
{
    let s = a + seq![c] + b;
    if a.len() == 0 {
        assert(s[0] == c);
        assert(s.skip(1) =~= b);
        assert(a =~= Seq::<char>::empty());
    } else {
        assert forall|i: int| 0 <= i < a.skip(1).len() implies a.skip(1)[i] != c by {
            assert(a.skip(1)[i] == a[i + 1]);
        }
        lemma_split_first_cut(a.skip(1), c, b);
        assert(s.skip(1) =~= a.skip(1) + seq![c] + b);
        assert(s[0] == a[0]);
        assert(seq![a[0]] + a.skip(1) =~= a);
    }
}

proof fn lemma_pair_round_trip(p: (Seq<char>, Seq<char>))
    ensures
        decode_pair(query_pair_text(p)) == p,
        forall|i: int|
            0 <= i < query_pair_text(p).len() ==> #[trigger] query_pair_text(p)[i] != '&',
        query_pair_text(p).len() > 0,
{
    let n = form_urlencoded(vstd::utf8::encode_utf8(p.0));
    let v = form_urlencoded(vstd::utf8::encode_utf8(p.1));
    lemma_form_no_separator(vstd::utf8::encode_utf8(p.0));
    lemma_form_no_separator(vstd::utf8::encode_utf8(p.1));
    lemma_form_round_trip(vstd::utf8::encode_utf8(p.0));
    lemma_form_round_trip(vstd::utf8::encode_utf8(p.1));
    assert forall|i: int| 0 <= i < n.len() implies n[i] != '=' by {
        assert(n[i] != '&' && n[i] != '=');
    }
    lemma_split_first_cut(n, '=', v);
    let t = query_pair_text(p);
    assert(t == n + seq!['='] + v);
    assert forall|i: int| 0 <= i < t.len() implies #[trigger] t[i] != '&' by {
        if i < n.len() {
            assert(t[i] == n[i]);
            assert(n[i] != '&' && n[i] != '=');
        } else if i > n.len() {
            assert(t[i] == v[i - n.len() - 1]);
            assert(v[i - n.len() - 1] != '&' && v[i - n.len() - 1] != '=');
        }
    }
}

proof fn lemma_query_split(pairs: Seq<(Seq<char>, Seq<char>)>)
    requires
        pairs.len() > 0,
    ensures
        split_on(query_text(pairs), '&') == pairs.map_values(
            |p: (Seq<char>, Seq<char>)| query_pair_text(p),
        ),
        query_text(pairs).len() > 0,
    decreases pairs.len(),
{
    lemma_pair_round_trip(pairs[0]);
    if pairs.len() == 1 {
        lemma_split_on_plain(query_pair_text(pairs[0]), '&');
        assert(pairs.map_values(|p: (Seq<char>, Seq<char>)| query_pair_text(p)) =~= seq![
            query_pair_text(pairs[0]),
        ]);
    } else {
        lemma_query_split(pairs.skip(1));
        lemma_split_on_cut(query_pair_text(pairs[0]), '&', query_text(pairs.skip(1)));
        assert(pairs.map_values(|p: (Seq<char>, Seq<char>)| query_pair_text(p)) =~= seq![
            query_pair_text(pairs[0]),
        ] + pairs.skip(1).map_values(|p: (Seq<char>, Seq<char>)| query_pair_text(p)));
    }
}

/// Reading query text back gives the pairs it was written from, in order.
pub proof fn lemma_query_round_trip(pairs: Seq<(Seq<char>, Seq<char>)>)
    ensures
        decode_query(query_text(pairs)) == pairs,
{
    if pairs.len() > 0 {
        lemma_query_split(pairs);
        let parts = pairs.map_values(|p: (Seq<char>, Seq<char>)| query_pair_text(p));
        assert forall|i: int| 0 <= i < pairs.len() implies decode_pair(parts[i]) == pairs[i] by {
            lemma_pair_round_trip(pairs[i]);
        }
        assert(decode_query(query_text(pairs)) =~= pairs);
    }
}

} // verus!
