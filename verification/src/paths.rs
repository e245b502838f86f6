//! Percent-encoding of path and query values, and query strings.

use crate::text::push_char;
use vstd::prelude::*;
use vstd::utf8::encode_utf8;

verus! {

/// The bytes that stand for themselves in an encoded value:
/// `A-Z a-z 0-9 - _ . ~`.
pub open spec fn is_unreserved(b: u8) -> bool {
    (65 <= b <= 90) || (97 <= b <= 122) || (48 <= b <= 57) || b == 45 || b == 95 || b == 46 || b
        == 126
}

/// The upper-case hexadecimal digit for `d` (0..=15).
pub open spec fn hex_digit(d: int) -> char {
    if d < 10 {
        ((d + 48) as u32) as char
    } else {
        ((d + 55) as u32) as char
    }
}

/// The encoding of one byte: itself when unreserved, else `%XY` with two
/// upper-case hexadecimal digits.
pub open spec fn encode_byte(b: u8) -> Seq<char> {
    if is_unreserved(b) {
        seq![(b as u32) as char]
    } else {
        seq!['%', hex_digit((b / 16) as int), hex_digit((b % 16) as int)]
    }
}

/// The percent-encoding of a byte string.
pub open spec fn percent_encode(bs: Seq<u8>) -> Seq<char>
    decreases bs.len(),
{
    if bs.len() == 0 {
        Seq::empty()
    } else {
        percent_encode(bs.drop_last()) + encode_byte(bs.last())
    }
}

fn hex_char(d: u8) -> (c: char)
    requires
        d < 16,
    ensures
        c == hex_digit(d as int),
{
    if d < 10 {
        (48u8 + d) as char
    } else {
        (55u8 + d) as char
    }
}

/// Percent-encodes the UTF-8 bytes of `s`: unreserved bytes are kept, every
/// other byte becomes `%XY`.
pub fn urlencoding_encode(s: &str) -> (out: String)
    ensures
        out@ == percent_encode(encode_utf8(s@)),
{
    let bs = s.as_bytes();
    let mut out = String::new();
    let mut i: usize = 0;
    while i < bs.len()
        invariant
            i <= bs@.len(),
            bs@ == encode_utf8(s@),
            out@ == percent_encode(bs@.subrange(0, i as int)),
        decreases bs@.len() - i,
    {
        let b = bs[i];
        assert(bs@.subrange(0, i + 1).drop_last() =~= bs@.subrange(0, i as int));
        if (65 <= b && b <= 90) || (97 <= b && b <= 122) || (48 <= b && b <= 57) || b == 45 || b
            == 95 || b == 46 || b == 126 {
            push_char(&mut out, b as char);
        } else {
            push_char(&mut out, '%');
            push_char(&mut out, hex_char(b / 16));
            push_char(&mut out, hex_char(b % 16));
        }
        i = i + 1;
    }
    assert(bs@.subrange(0, bs@.len() as int) =~= bs@);
    out
}

/// A text made only of unreserved characters is its own encoding.
pub proof fn law_unreserved_text_is_unchanged(bs: Seq<u8>)
    requires
        forall|i: int| 0 <= i < bs.len() ==> is_unreserved(#[trigger] bs[i]),
    ensures
        percent_encode(bs) == bs.map_values(|b: u8| (b as u32) as char),
    decreases bs.len(),
{
    if bs.len() > 0 {
        let front = bs.drop_last();
        assert forall|i: int| 0 <= i < front.len() implies is_unreserved(#[trigger] front[i]) by {
            assert(front[i] == bs[i]);
        }
        law_unreserved_text_is_unchanged(front);
        assert(percent_encode(bs) =~= bs.map_values(|b: u8| (b as u32) as char));
    }
}

proof fn lemma_encode_byte_shape(b: u8)
    ensures
        encode_byte(b).len() == 1 <==> is_unreserved(b),
        encode_byte(b).len() == 1 || encode_byte(b).len() == 3,
        encode_byte(b).len() == 1 ==> encode_byte(b)[0] != '%',
        encode_byte(b).len() == 3 ==> encode_byte(b)[0] == '%' && encode_byte(b)[1] != '%'
            && encode_byte(b)[2] != '%',
{
}

proof fn lemma_encode_byte_injective(x: u8, y: u8)
    requires
        encode_byte(x) == encode_byte(y),
    ensures
        x == y,
{
    lemma_encode_byte_shape(x);
    lemma_encode_byte_shape(y);
    if is_unreserved(x) {
        assert(encode_byte(x)[0] == encode_byte(y)[0]);
    } else {
        assert(encode_byte(x)[1] == encode_byte(y)[1]);
        assert(encode_byte(x)[2] == encode_byte(y)[2]);
        assert(x / 16 == y / 16);
        assert(x % 16 == y % 16);
    }
}

proof fn lemma_encoding_length(bs: Seq<u8>)
    ensures
        percent_encode(bs).len() >= bs.len(),
    decreases bs.len(),
{
    if bs.len() > 0 {
        lemma_encoding_length(bs.drop_last());
        lemma_encode_byte_shape(bs.last());
    }
}

/// In an encoding, every `%` is followed by two more characters.
proof fn lemma_percent_is_followed(bs: Seq<u8>)
    ensures
        forall|i: int|
            0 <= i < percent_encode(bs).len() && #[trigger] percent_encode(bs)[i] == '%' ==> i + 2
                < percent_encode(bs).len(),
    decreases bs.len(),
{
    if bs.len() > 0 {
        let front = bs.drop_last();
        lemma_percent_is_followed(front);
        lemma_encode_byte_shape(bs.last());
        let e = percent_encode(bs);
        let ef = percent_encode(front);
        let t = encode_byte(bs.last());
        assert forall|i: int| 0 <= i < e.len() && #[trigger] e[i] == '%' implies i + 2 < e.len() by {
            if i < ef.len() {
                assert(e[i] == ef[i]);
            } else {
                assert(e[i] == t[i - ef.len()]);
            }
        }
    }
}

/// Distinct byte strings have distinct encodings, so distinct references
/// give distinct request paths.
pub proof fn law_encoding_is_injective(a: Seq<u8>, b: Seq<u8>)
    requires
        percent_encode(a) == percent_encode(b),
    ensures
        a == b,
    decreases a.len() + b.len(),
{
    lemma_encoding_length(a);
    lemma_encoding_length(b);
    if a.len() == 0 || b.len() == 0 {
        if a.len() > 0 {
            lemma_encode_byte_shape(a.last());
        }
        if b.len() > 0 {
            lemma_encode_byte_shape(b.last());
        }
        assert(a =~= b);
    } else {
        let a1 = a.drop_last();
        let b1 = b.drop_last();
        let ta = encode_byte(a.last());
        let tb = encode_byte(b.last());
        let e = percent_encode(a);
        let l = e.len() as int;
        lemma_encode_byte_shape(a.last());
        lemma_encode_byte_shape(b.last());
        if ta.len() == tb.len() {
            assert(percent_encode(a1) =~= e.subrange(0, l - ta.len()));
            assert(percent_encode(b1) =~= e.subrange(0, l - tb.len()));
            assert(ta =~= e.subrange(l - ta.len(), l));
            assert(tb =~= e.subrange(l - tb.len(), l));
            lemma_encode_byte_injective(a.last(), b.last());
            law_encoding_is_injective(a1, b1);
            assert(a =~= a1.push(a.last()));
            assert(b =~= b1.push(b.last()));
        } else if ta.len() == 1 {
            lemma_percent_is_followed(a1);
            let ea = percent_encode(a1);
            assert(e[l - 3] == tb[0]);
            assert(e[l - 3] == ea[l - 3]);
        } else {
            lemma_percent_is_followed(b1);
            let eb = percent_encode(b1);
            assert(e[l - 3] == ta[0]);
            assert(e[l - 3] == eb[l - 3]);
        }
    }
}

/// Encoding a concatenation encodes each part: each byte is encoded on its
/// own, independently of its neighbours.
pub proof fn law_encoding_concatenates(a: Seq<u8>, b: Seq<u8>)
    ensures
        percent_encode(a + b) == percent_encode(a) + percent_encode(b),
    decreases b.len(),
{
    if b.len() == 0 {
        assert(a + b =~= a);
        assert(percent_encode(a) + percent_encode(b) =~= percent_encode(a));
    } else {
        let front = b.drop_last();
        law_encoding_concatenates(a, front);
        assert((a + b).drop_last() =~= a + front);
        assert((a + b).last() == b.last());
        assert(percent_encode(a + b) =~= percent_encode(a) + percent_encode(b));
    }
}

/// How one byte is encoded: the letters `A-Z` and `a-z`, the digits `0-9`
/// and `-`, `_`, `.`, `~` (bytes 65-90, 97-122, 48-57, 45, 95, 46, 126)
/// stand for themselves; every other byte, `#` (35), `?` (63), `&` (38),
/// `+` (43), `/` (47) and space (32) among them, becomes `%` and its two
/// upper-case hexadecimal digits, so `#` becomes `%23`.
pub proof fn law_byte_encoding(b: u8)
    ensures
        percent_encode(seq![b]) == if (65 <= b <= 90) || (97 <= b <= 122) || (48 <= b <= 57) || b
            == 45 || b == 95 || b == 46 || b == 126 {
            seq![(b as u32) as char]
        } else {
            seq!['%', "0123456789ABCDEF"@[(b / 16) as int], "0123456789ABCDEF"@[(b % 16) as int]]
        },
{
    reveal_strlit("0123456789ABCDEF");
    assert(seq![b].drop_last() =~= Seq::<u8>::empty());
    assert(seq![b].last() == b);
    assert(percent_encode(Seq::<u8>::empty()) =~= Seq::<char>::empty());
    assert(percent_encode(seq![b]) == percent_encode(seq![b].drop_last()) + encode_byte(b));
    lemma_hex_digit_is_literal((b / 16) as int);
    lemma_hex_digit_is_literal((b % 16) as int);
    assert(percent_encode(seq![b]) =~= encode_byte(b));
}

proof fn lemma_hex_digit_is_literal(d: int)
    requires
        0 <= d < 16,
    ensures
        hex_digit(d) == "0123456789ABCDEF"@[d],
{
    reveal_strlit("0123456789ABCDEF");
    if d == 0 { assert(hex_digit(d) == '0'); }
    else if d == 1 { assert(hex_digit(d) == '1'); }
    else if d == 2 { assert(hex_digit(d) == '2'); }
    else if d == 3 { assert(hex_digit(d) == '3'); }
    else if d == 4 { assert(hex_digit(d) == '4'); }
    else if d == 5 { assert(hex_digit(d) == '5'); }
    else if d == 6 { assert(hex_digit(d) == '6'); }
    else if d == 7 { assert(hex_digit(d) == '7'); }
    else if d == 8 { assert(hex_digit(d) == '8'); }
    else if d == 9 { assert(hex_digit(d) == '9'); }
    else if d == 10 { assert(hex_digit(d) == 'A'); }
    else if d == 11 { assert(hex_digit(d) == 'B'); }
    else if d == 12 { assert(hex_digit(d) == 'C'); }
    else if d == 13 { assert(hex_digit(d) == 'D'); }
    else if d == 14 { assert(hex_digit(d) == 'E'); }
    else { assert(hex_digit(d) == 'F'); }
}

/// An encoded value is made only of letters, digits, `-`, `_`, `.`, `~`
/// and `%` (code points 65-90, 97-122, 48-57, 45, 95, 46, 126 and 37): no
/// `#`, `?`, `&`, `=`, `+`, `/` or space survives, so an encoded value can
/// neither start a fragment or a query, nor split a parameter or a path
/// segment.
pub proof fn law_encoded_characters(bs: Seq<u8>)
    ensures
        forall|i: int|
            0 <= i < percent_encode(bs).len() ==> {
                let c = (#[trigger] percent_encode(bs)[i]) as u32;
                (65 <= c <= 90) || (97 <= c <= 122) || (48 <= c <= 57) || c == 45 || c == 95 || c
                    == 46 || c == 126 || c == 37
            },
    decreases bs.len(),
{
    if bs.len() > 0 {
        let front = bs.drop_last();
        law_encoded_characters(front);
        let b = bs.last();
        let e = percent_encode(bs);
        let ef = percent_encode(front);
        let t = encode_byte(b);
        lemma_hex_digit_is_literal((b / 16) as int);
        lemma_hex_digit_is_literal((b % 16) as int);
        reveal_strlit("0123456789ABCDEF");
        assert forall|i: int| 0 <= i < e.len() implies {
            let c = (#[trigger] e[i]) as u32;
            (65 <= c <= 90) || (97 <= c <= 122) || (48 <= c <= 57) || c == 45 || c == 95 || c == 46
                || c == 126 || c == 37
        } by {
            if i < ef.len() {
                assert(e[i] == ef[i]);
            } else {
                assert(e[i] == t[i - ef.len()]);
            }
        }
    }
}

/// Parameters joined with `&`.
pub open spec fn joined(parts: Seq<Seq<char>>) -> Seq<char>
    decreases parts.len(),
{
    if parts.len() == 0 {
        Seq::empty()
    } else if parts.len() == 1 {
        parts[0]
    } else {
        joined(parts.drop_last()) + "&"@ + parts.last()
    }
}

/// A path with its query: `base` alone when there are no parameters, else
/// `base?p1&p2...`.
pub open spec fn with_query(base: Seq<char>, params: Seq<Seq<char>>) -> Seq<char> {
    if params.len() == 0 {
        base
    } else {
        base + "?"@ + joined(params)
    }
}

/// Appends the query made of `params` to `path`.
pub fn append_query(path: String, params: &Vec<String>) -> (res: String)
    ensures
        res@ == with_query(path@, params@.map_values(|p: String| p@)),
{
    let ghost views = params@.map_values(|p: String| p@);
    if params.len() == 0 {
        return path;
    }
    let mut q = String::new();
    let mut i: usize = 0;
    while i < params.len()
        invariant
            i <= params@.len(),
            views == params@.map_values(|p: String| p@),
            q@ == joined(views.subrange(0, i as int)),
        decreases params@.len() - i,
    {
        let ghost before = views.subrange(0, i as int);
        assert(views.subrange(0, i + 1).drop_last() =~= before);
        if i > 0 {
            q.append("&");
        }
        q.append(params[i].as_str());
        i = i + 1;
    }
    assert(views.subrange(0, params@.len() as int) =~= views);
    let mut res = path;
    res.append("?");
    res.append(q.as_str());
    res
}

} // verus!
