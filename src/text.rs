//! Decimal rendering of numbers and the UTF-8 bytes of rendered text.
use vstd::prelude::*;
use vstd::utf8::{encode_utf8, encode_scalar, is_ascii_chars, is_ascii_chars_encode_utf8};
use crate::bytes::{all_digits, digits_value};

verus! {

pub open spec fn digit_char(d: nat) -> char {
    if d == 0 {
        '0'
    } else if d == 1 {
        '1'
    } else if d == 2 {
        '2'
    } else if d == 3 {
        '3'
    } else if d == 4 {
        '4'
    } else if d == 5 {
        '5'
    } else if d == 6 {
        '6'
    } else if d == 7 {
        '7'
    } else if d == 8 {
        '8'
    } else {
        '9'
    }
}

/// The decimal text of `n`, most significant digit first, with no leading zero.
pub open spec fn dec_chars(n: nat) -> Seq<char>
    decreases n,
{
    if n < 10 {
        seq![digit_char(n)]
    } else {
        dec_chars(n / 10).push(digit_char(n % 10))
    }
}

/// The bytes of an ASCII text, one per character.
pub open spec fn ascii_bytes(s: Seq<char>) -> Seq<u8> {
    Seq::new(s.len(), |i: int| s[i] as u8)
}

/// The UTF-8 encoding of a concatenation is the concatenation of the encodings.
pub proof fn lemma_encode_utf8_concat(a: Seq<char>, b: Seq<char>)
    ensures
        encode_utf8(a + b) == encode_utf8(a) + encode_utf8(b),
    decreases a.len(),
{
    if a.len() == 0 {
        assert(a + b =~= b);
        assert(encode_utf8(a) =~= Seq::<u8>::empty());
        assert(encode_utf8(a) + encode_utf8(b) =~= encode_utf8(b));
    } else {
        lemma_encode_utf8_concat(a.drop_first(), b);
        assert((a + b).drop_first() =~= a.drop_first() + b);
        assert((a + b)[0] == a[0]);
        let head = encode_scalar(a[0] as u32);
        assert(head + (encode_utf8(a.drop_first()) + encode_utf8(b)) =~= (head + encode_utf8(
            a.drop_first(),
        )) + encode_utf8(b));
    }
}

/// An ASCII text is encoded one byte per character.
pub proof fn lemma_ascii_encoding(s: Seq<char>)
    requires
        is_ascii_chars(s),
    ensures
        encode_utf8(s) == ascii_bytes(s),
{
    is_ascii_chars_encode_utf8(s);
    assert(encode_utf8(s) =~= ascii_bytes(s));
}

/// Decimal text is ASCII, and its bytes are digits that spell the number back.
pub proof fn lemma_dec_chars(n: nat)
    ensures
        is_ascii_chars(dec_chars(n)),
        all_digits(ascii_bytes(dec_chars(n))),
        digits_value(ascii_bytes(dec_chars(n))) == n,
        1 <= dec_chars(n).len(),
    decreases n,
{
    let d = n % 10;
    assert(digit_char(d) as u8 == 48 + d && '\0' <= digit_char(d) <= '\u{7f}');
    if n < 10 {
        let b = ascii_bytes(dec_chars(n));
        assert(b.drop_last() =~= Seq::<u8>::empty());
        assert(digits_value(b.drop_last()) == 0);
        assert(b.last() == digit_char(d) as u8);
        assert(digits_value(b) == (b.last() - 48) as nat);
    } else {
        lemma_dec_chars(n / 10);
        let s = dec_chars(n / 10);
        let b = ascii_bytes(dec_chars(n));
        assert(b.drop_last() =~= ascii_bytes(s));
        assert(b.last() == digit_char(d) as u8);
        assert(digits_value(b) == (n / 10) * 10 + d);
        assert forall|i: int| 0 <= i < dec_chars(n).len() implies '\0' <= #[trigger] dec_chars(
            n,
        )[i] <= '\u{7f}' by {
            if i < s.len() {
                assert(dec_chars(n)[i] == s[i]);
            }
        }
        assert forall|i: int| 0 <= i < b.len() implies crate::bytes::is_digit(#[trigger] b[i]) by {
            if i < s.len() {
                assert(b[i] == ascii_bytes(s)[i]);
            }
        }
    }
}

/// The one-character text of a decimal digit.
fn digit_text(d: usize) -> (r: &'static str)
    requires
        d < 10,
    ensures
        r@ == seq![digit_char(d as nat)],
{
    proof {
        reveal_strlit("0");
        reveal_strlit("1");
        reveal_strlit("2");
        reveal_strlit("3");
        reveal_strlit("4");
        reveal_strlit("5");
        reveal_strlit("6");
        reveal_strlit("7");
        reveal_strlit("8");
        reveal_strlit("9");
    }
    let r = match d {
        0 => "0",
        1 => "1",
        2 => "2",
        3 => "3",
        4 => "4",
        5 => "5",
        6 => "6",
        7 => "7",
        8 => "8",
        _ => "9",
    };
    assert(r@ =~= seq![digit_char(d as nat)]);
    r
}

/// The decimal text of `n`.
pub fn decimal_string(n: usize) -> (r: String)
    ensures
        r@ == dec_chars(n as nat),
    decreases n,
{
    if n < 10 {
        String::from_str(digit_text(n))
    } else {
        let mut s = decimal_string(n / 10);
        s.append(digit_text(n % 10));
        s
    }
}

} // verus!
