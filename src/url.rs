//! Percent-encoding of identifying fields that go into the URL by hand
//! (item and character names), so that a space becomes `%20` and never `+`.

use vstd::prelude::*;
use vstd::utf8::encode_utf8;

verus! {

/// ASCII letters, digits and `-`, `.`, `_`, `~` stay as they are.
pub open spec fn is_unreserved(b: u8) -> bool {
    (48 <= b <= 57) || (65 <= b <= 90) || (97 <= b <= 122) || b == 45 || b == 46 || b == 95 || b
        == 126
}

/// Upper-case hexadecimal digit of `d < 16`.
pub open spec fn hex_digit(d: u8) -> char {
    if d < 10 {
        ((48 + d) as u8) as char
    } else {
        ((55 + d) as u8) as char
    }
}

/// One byte, kept or written `%XY`.
pub open spec fn byte_escape(b: u8) -> Seq<char> {
    if is_unreserved(b) {
        seq![b as char]
    } else {
        seq!['%', hex_digit(b / 16), hex_digit(b % 16)]
    }
}

/// Percent-encoding of a byte sequence.
pub open spec fn percent_encode(bytes: Seq<u8>) -> Seq<char>
    decreases bytes.len(),
{
    if bytes.len() == 0 {
        seq![]
    } else {
        percent_encode(bytes.drop_last()) + byte_escape(bytes.last())
    }
}

/// Percent-encoding of the UTF-8 bytes of a text.
pub open spec fn url_encoded(s: Seq<char>) -> Seq<char> {
    percent_encode(encode_utf8(s))
}

/// Relies on `urlencoding::encode`: every byte of the UTF-8 text that is not
/// an ASCII letter, digit, `-`, `.`, `_` or `~` becomes `%` followed by two
/// upper-case hex digits; the others are kept.
#[verifier::external_body]
pub(crate) fn url_encode(s: &str) -> (r: String)
    ensures
        r@ == url_encoded(s@),
{
    urlencoding::encode(s).into_owned()
}

/// The characters that percent-encoding can produce.
pub open spec fn is_encoded_char(c: char) -> bool {
    ('0' <= c <= '9') || ('A' <= c <= 'Z') || ('a' <= c <= 'z') || c == '-' || c == '.' || c == '_'
        || c == '~' || c == '%'
}

proof fn lemma_byte_escape_chars(b: u8)
    ensures
        forall|i: int| 0 <= i < byte_escape(b).len() ==> is_encoded_char(#[trigger] byte_escape(b)[i]),
{
    if is_unreserved(b) {
        assert(byte_escape(b)[0] == b as char);
    } else {
        assert(b / 16 < 16);
        assert(b % 16 < 16);
    }
}

/// Percent-encoding yields only letters, digits, `-`, `.`, `_`, `~` and `%`:
/// in particular never a space and never `+`.
pub proof fn lemma_encoded_chars(bytes: Seq<u8>)
    ensures
        forall|i: int|
            0 <= i < percent_encode(bytes).len() ==> is_encoded_char(
                #[trigger] percent_encode(bytes)[i],
            ),
    decreases bytes.len(),
{
    if bytes.len() > 0 {
        let init = bytes.drop_last();
        lemma_encoded_chars(init);
        lemma_byte_escape_chars(bytes.last());
        let a = percent_encode(init);
        let b = byte_escape(bytes.last());
        assert forall|i: int| 0 <= i < percent_encode(bytes).len() implies is_encoded_char(
            #[trigger] percent_encode(bytes)[i],
        ) by {
            if i < a.len() {
                assert(percent_encode(bytes)[i] == a[i]);
            } else {
                assert(percent_encode(bytes)[i] == b[i - a.len()]);
            }
        }
    }
}

/// An encoded name never holds a space or a `+`.
pub proof fn lemma_no_space_or_plus(s: Seq<char>)
    ensures
        forall|i: int|
            0 <= i < url_encoded(s).len() ==> #[trigger] url_encoded(s)[i] != ' ' && url_encoded(
                s,
            )[i] != '+',
{
    lemma_encoded_chars(encode_utf8(s));
}

} // verus!

verus! {

proof fn lemma_encode_utf8_concat(a: Seq<char>, b: Seq<char>)
    ensures
        encode_utf8(a + b) == encode_utf8(a) + encode_utf8(b),
    decreases a.len(),
{
    if a.len() == 0 {
        assert(a + b =~= b);
        assert(encode_utf8(a) =~= Seq::<u8>::empty());
        assert(encode_utf8(a) + encode_utf8(b) =~= encode_utf8(b));
    } else {
        assert((a + b).drop_first() =~= a.drop_first() + b);
        assert((a + b)[0] == a[0]);
        lemma_encode_utf8_concat(a.drop_first(), b);
        assert(encode_utf8(a + b) =~= encode_utf8(a) + encode_utf8(b));
    }
}

proof fn lemma_percent_encode_concat(a: Seq<u8>, b: Seq<u8>)
    ensures
        percent_encode(a + b) == percent_encode(a) + percent_encode(b),
    decreases b.len(),
{
    if b.len() == 0 {
        assert(a + b =~= a);
        assert(percent_encode(a) + percent_encode(b) =~= percent_encode(a));
    } else {
        assert((a + b).drop_last() =~= a + b.drop_last());
        assert((a + b).last() == b.last());
        lemma_percent_encode_concat(a, b.drop_last());
        assert(percent_encode(a + b) =~= percent_encode(a) + percent_encode(b));
    }
}

/// `t` occurs in `s` as a contiguous run.
pub open spec fn contains_run(s: Seq<char>, t: Seq<char>) -> bool {
    exists|i: int| 0 <= i && i + t.len() <= s.len() && #[trigger] s.subrange(i, i + t.len()) == t
}

/// A space in a name is sent as `%20`, and the encoded name never holds a
/// space or a `+`.
pub proof fn law_space_as_pct20(s: Seq<char>, i: int)
    requires
        0 <= i < s.len(),
        s[i] == ' ',
    ensures
        contains_run(url_encoded(s), seq!['%', '2', '0']),
        forall|k: int|
            0 <= k < url_encoded(s).len() ==> #[trigger] url_encoded(s)[k] != ' ' && url_encoded(
                s,
            )[k] != '+',
{
    lemma_no_space_or_plus(s);
    let a = s.take(i);
    let b = s.skip(i + 1);
    let sp = seq![' '];
    assert(s =~= a + sp + b);
    lemma_encode_utf8_concat(a + sp, b);
    lemma_encode_utf8_concat(a, sp);
    assert(sp.drop_first() =~= Seq::<char>::empty());
    assert((' ' as u32) == 32);
    assert(sp[0] == ' ');
    assert(vstd::utf8::has_width_1_encoding(32u32));
    assert(vstd::utf8::leading_byte_width_1(32u32) == 32u8) by {
        assert(((32u32 & 0x7Fu32) as u8) == 32u8) by (bit_vector);
    }
    assert(vstd::utf8::encode_scalar(32u32) =~= seq![32u8]);
    assert(encode_utf8(sp.drop_first()) =~= Seq::<u8>::empty());
    assert(encode_utf8(sp) =~= seq![32u8]);
    let ea = encode_utf8(a);
    let eb = encode_utf8(b);
    lemma_percent_encode_concat(ea + seq![32u8], eb);
    lemma_percent_encode_concat(ea, seq![32u8]);
    assert(seq![32u8].drop_last() =~= Seq::<u8>::empty());
    assert(!is_unreserved(32u8));
    assert(hex_digit(2u8) == '2');
    assert(hex_digit(0u8) == '0');
    assert(byte_escape(32u8) =~= seq!['%', '2', '0']);
    assert(seq![32u8].last() == 32u8);
    assert(percent_encode(Seq::<u8>::empty()) =~= Seq::<char>::empty());
    assert(percent_encode(seq![32u8]) == percent_encode(seq![32u8].drop_last()) + byte_escape(
        32u8,
    ));
    assert(percent_encode(seq![32u8]) =~= seq!['%', '2', '0']);
    let pa = percent_encode(ea);
    let whole = url_encoded(s);
    assert(whole == pa + seq!['%', '2', '0'] + percent_encode(eb));
    assert(whole.subrange(pa.len() as int, pa.len() as int + 3) =~= seq!['%', '2', '0']);
}

} // verus!

verus! {

/// Value of an upper-case hexadecimal digit.
pub open spec fn hex_value(c: char) -> int {
    if c <= '9' {
        c as int - 48
    } else {
        c as int - 55
    }
}

/// Percent-decoding into bytes: `%XY` is the byte `0xXY`, any other
/// character is its own (ASCII) byte.
pub open spec fn percent_decode(t: Seq<char>) -> Seq<u8>
    decreases t.len(),
{
    if t.len() == 0 {
        seq![]
    } else if t[0] == '%' && t.len() >= 3 {
        seq![(hex_value(t[1]) * 16 + hex_value(t[2])) as u8] + percent_decode(t.skip(3))
    } else {
        seq![t[0] as u8] + percent_decode(t.skip(1))
    }
}

proof fn lemma_decode_escape(b: u8, rest: Seq<char>)
    ensures
        percent_decode(byte_escape(b) + rest) == seq![b] + percent_decode(rest),
{
    let t = byte_escape(b) + rest;
    if is_unreserved(b) {
        assert(t[0] == b as char);
        assert(t.skip(1) =~= rest);
    } else {
        let hi = b / 16;
        let lo = b % 16;
        assert(t[0] == '%' && t[1] == hex_digit(hi) && t[2] == hex_digit(lo));
        assert(hex_value(hex_digit(hi)) == hi as int);
        assert(hex_value(hex_digit(lo)) == lo as int);
        assert(t.skip(3) =~= rest);
    }
}

proof fn lemma_encode_front(bytes: Seq<u8>)
    requires
        bytes.len() > 0,
    ensures
        percent_encode(bytes) == byte_escape(bytes[0]) + percent_encode(bytes.drop_first()),
{
    assert(bytes =~= seq![bytes[0]] + bytes.drop_first());
    lemma_percent_encode_concat(seq![bytes[0]], bytes.drop_first());
    assert(seq![bytes[0]].drop_last() =~= Seq::<u8>::empty());
    assert(seq![bytes[0]].last() == bytes[0]);
    assert(percent_encode(Seq::<u8>::empty()) =~= Seq::<char>::empty());
    assert(percent_encode(seq![bytes[0]]) =~= byte_escape(bytes[0]));
}

/// Decoding the percent-encoding of bytes gives the bytes back.
pub proof fn lemma_percent_round_trip(bytes: Seq<u8>)
    ensures
        percent_decode(percent_encode(bytes)) == bytes,
    decreases bytes.len(),
{
    if bytes.len() > 0 {
        lemma_encode_front(bytes);
        lemma_decode_escape(bytes[0], percent_encode(bytes.drop_first()));
        lemma_percent_round_trip(bytes.drop_first());
        assert(seq![bytes[0]] + bytes.drop_first() =~= bytes);
    }
}

/// An encoded name decodes, as percent-encoded UTF-8, back to the name.
pub proof fn law_encoded_name_decodes(s: Seq<char>)
    ensures
        vstd::utf8::decode_utf8(percent_decode(url_encoded(s))) == s,
{
    lemma_percent_round_trip(encode_utf8(s));
    vstd::utf8::encode_utf8_decode_utf8(s);
}

} // verus!
