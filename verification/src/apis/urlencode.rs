//! `application/x-www-form-urlencoded` encoding of query values.

use vstd::prelude::*;
use crate::apis::text;
use crate::apis::text::{hex_digit, push_char};
use vstd::string::StringSliceAdditionalSpecFns;

verus! {

/// Bytes that the form-urlencoded serializer leaves as they are:
/// `*`, `-`, `.`, `_`, ASCII digits and ASCII letters.
pub open spec fn is_form_unreserved(b: u8) -> bool {
    ||| b == 0x2a
    ||| b == 0x2d
    ||| b == 0x2e
    ||| b == 0x5f
    ||| 0x30 <= b <= 0x39
    ||| 0x41 <= b <= 0x5a
    ||| 0x61 <= b <= 0x7a
}

/// How one byte is written: unreserved bytes as the same ASCII character,
/// the space as `+`, every other byte as `%` and two upper-case hex digits.
pub open spec fn form_encode_byte(b: u8) -> Seq<char> {
    if is_form_unreserved(b) {
        seq![b as char]
    } else if b == 0x20 {
        seq!['+']
    } else {
        seq!['%', text::hex_upper((b / 16) as nat), text::hex_upper((b % 16) as nat)]
    }
}

/// The form-urlencoded serialization of a byte string: each byte encoded
/// in turn.
pub open spec fn form_urlencoded(bytes: Seq<u8>) -> Seq<char>
    decreases bytes.len(),
{
    if bytes.len() == 0 {
        Seq::empty()
    } else {
        form_urlencoded(bytes.drop_last()) + form_encode_byte(bytes.last())
    }
}

/// The characters that form-urlencoded output is made of: ASCII letters and
/// digits, `*`, `-`, `.`, `_`, `+` and `%`.
pub open spec fn is_form_output_char(c: char) -> bool {
    let u = c as u32;
    ||| u == 0x2a
    ||| u == 0x2d
    ||| u == 0x2e
    ||| u == 0x5f
    ||| u == 0x2b
    ||| u == 0x25
    ||| 0x30 <= u <= 0x39
    ||| 0x41 <= u <= 0x5a
    ||| 0x61 <= u <= 0x7a
}

/// The encoding of any byte string is made only of letters, digits and
/// `* - . _ + %`: it can stand in a query string as it is.
pub proof fn lemma_form_urlencoded_chars(bytes: Seq<u8>)
    ensures
        forall|i: int|
            0 <= i < form_urlencoded(bytes).len() ==> is_form_output_char(
                #[trigger] form_urlencoded(bytes)[i],
            ),
    decreases bytes.len(),
{
    if bytes.len() > 0 {
        lemma_form_urlencoded_chars(bytes.drop_last());
        let b = bytes.last();
        let head = form_urlencoded(bytes.drop_last());
        let tail = form_encode_byte(b);
        assert forall|i: int| 0 <= i < tail.len() implies is_form_output_char(#[trigger] tail[i]) by {
            if is_form_unreserved(b) {
                assert((b as char) as u32 == b);
            } else if b != 0x20 {
                assert(b / 16 < 16 && b % 16 < 16);
            }
        }
        assert forall|i: int| 0 <= i < form_urlencoded(bytes).len() implies is_form_output_char(
            #[trigger] form_urlencoded(bytes)[i],
        ) by {
            if i < head.len() {
                assert(form_urlencoded(bytes)[i] == head[i]);
            } else {
                assert(form_urlencoded(bytes)[i] == tail[i - head.len()]);
            }
        }
    }
}

/// How a single byte is written: the letters, digits and `*`, `-`, `.`, `_`
/// as the same ASCII character, the space as `+`, and every other byte as `%`
/// followed by the upper-case hexadecimal digits (`0`-`9`, `A`-`F`) of its
/// high and its low four bits.
pub proof fn lemma_form_urlencoded_byte(b: u8)
    ensures
        ({
            let out = form_urlencoded(seq![b]);
            let unreserved = b == 0x2a || b == 0x2d || b == 0x2e || b == 0x5f || (0x30 <= b
                && b <= 0x39) || (0x41 <= b && b <= 0x5a) || (0x61 <= b && b <= 0x7a);
            let hi = b / 16;
            let lo = b % 16;
            &&& unreserved ==> out.len() == 1 && out[0] as u32 == b
            &&& b == 0x20 ==> out == seq!['+']
            &&& (!unreserved && b != 0x20) ==> {
                &&& out.len() == 3
                &&& out[0] == '%'
                &&& out[1] as u32 == if hi < 10 { 48 + hi } else { 55 + hi }
                &&& out[2] as u32 == if lo < 10 { 48 + lo } else { 55 + lo }
            }
        }),
{
    let bytes = seq![b];
    assert(bytes.drop_last() =~= Seq::<u8>::empty());
    assert(form_urlencoded(Seq::<u8>::empty()) == Seq::<char>::empty());
    assert(bytes.last() == b);
    assert(form_urlencoded(bytes) =~= form_encode_byte(b));
    if b == 0x2a || b == 0x2d || b == 0x2e || b == 0x5f || (0x30 <= b && b <= 0x39) || (0x41 <= b
        && b <= 0x5a) || (0x61 <= b && b <= 0x7a) {
        assert((b as char) as u32 == b);
    } else if b != 0x20 {
        text::lemma_hex_upper_code((b / 16) as nat);
        text::lemma_hex_upper_code((b % 16) as nat);
    }
}

/// The encoding of a concatenation is the concatenation of the encodings:
/// each byte is encoded on its own.
pub proof fn lemma_form_urlencoded_concat(a: Seq<u8>, b: Seq<u8>)
    ensures
        form_urlencoded(a + b) == form_urlencoded(a) + form_urlencoded(b),
    decreases b.len(),
{
    if b.len() == 0 {
        assert(a + b =~= a);
        assert(form_urlencoded(a) + form_urlencoded(b) =~= form_urlencoded(a));
    } else {
        lemma_form_urlencoded_concat(a, b.drop_last());
        assert((a + b).drop_last() =~= a + b.drop_last());
        assert((a + b).last() == b.last());
        assert(form_urlencoded(a + b) =~= form_urlencoded(a) + form_urlencoded(b));
    }
}

/// A byte string made only of unreserved bytes (letters, digits, `*-._`) is
/// encoded as itself.
pub proof fn lemma_form_urlencoded_unreserved(bytes: Seq<u8>)
    requires
        forall|i: int| 0 <= i < bytes.len() ==> is_form_unreserved(#[trigger] bytes[i]),
    ensures
        form_urlencoded(bytes) == bytes.map_values(|b: u8| b as char),
    decreases bytes.len(),
{
    if bytes.len() > 0 {
        let init = bytes.drop_last();
        assert forall|i: int| 0 <= i < init.len() implies is_form_unreserved(#[trigger] init[i]) by {
            assert(init[i] == bytes[i]);
        }
        lemma_form_urlencoded_unreserved(init);
        assert(form_urlencoded(bytes) =~= bytes.map_values(|b: u8| b as char));
    }
}

/// Decoding of form-urlencoded text as produced by `form_urlencoded`: `+` is
/// a space, `%` with two upper-case hex digits is the byte they write, any
/// other character is the byte of its code.
pub open spec fn form_urldecoded(s: Seq<char>) -> Seq<u8>
    decreases s.len(),
{
    if s.len() == 0 {
        Seq::empty()
    } else if s[0] == '%' && s.len() >= 3 {
        seq![(text::hex_value(s[1]) * 16 + text::hex_value(s[2])) as u8] + form_urldecoded(
            s.skip(3),
        )
    } else if s[0] == '+' {
        seq![0x20u8] + form_urldecoded(s.skip(1))
    } else {
        seq![s[0] as u8] + form_urldecoded(s.skip(1))
    }
}

proof fn lemma_form_urlencoded_front(bytes: Seq<u8>)
    requires
        bytes.len() > 0,
    ensures
        form_urlencoded(bytes) == form_encode_byte(bytes[0]) + form_urlencoded(bytes.drop_first()),
    decreases bytes.len(),
{
    if bytes.len() == 1 {
        assert(bytes.drop_last() =~= Seq::<u8>::empty());
        assert(bytes.drop_first() =~= Seq::<u8>::empty());
        assert(form_urlencoded(bytes) =~= form_encode_byte(bytes[0]) + form_urlencoded(
            bytes.drop_first(),
        ));
    } else {
        let init = bytes.drop_last();
        lemma_form_urlencoded_front(init);
        assert(init.drop_first() =~= bytes.drop_first().drop_last());
        assert(init[0] == bytes[0]);
        assert(bytes.drop_first().last() == bytes.last());
        assert(form_urlencoded(bytes) =~= form_encode_byte(bytes[0]) + form_urlencoded(
            bytes.drop_first(),
        ));
    }
}

proof fn lemma_decode_encoded_byte(b: u8, rest: Seq<char>)
    ensures
        form_urldecoded(form_encode_byte(b) + rest) == seq![b] + form_urldecoded(rest),
{
    let s = form_encode_byte(b) + rest;
    if is_form_unreserved(b) {
        assert((b as char) as u32 == b);
        assert(s[0] == b as char);
        assert(s.skip(1) =~= rest);
    } else if b == 0x20 {
        assert(s[0] == '+');
        assert(s.skip(1) =~= rest);
    } else {
        assert(b / 16 < 16 && b % 16 < 16);
        text::lemma_hex_value_of_digit((b / 16) as nat);
        text::lemma_hex_value_of_digit((b % 16) as nat);
        assert(s[0] == '%');
        assert(s[1] == text::hex_upper((b / 16) as nat));
        assert(s[2] == text::hex_upper((b % 16) as nat));
        assert(s.skip(3) =~= rest);
    }
}

/// Decoding the encoding of a byte string gives the byte string back: no
/// information is lost, and different inputs are encoded differently.
pub proof fn lemma_form_urlencoded_decodes_back(bytes: Seq<u8>)
    ensures
        form_urldecoded(form_urlencoded(bytes)) == bytes,
    decreases bytes.len(),
{
    if bytes.len() > 0 {
        lemma_form_urlencoded_front(bytes);
        lemma_decode_encoded_byte(bytes[0], form_urlencoded(bytes.drop_first()));
        lemma_form_urlencoded_decodes_back(bytes.drop_first());
        assert(bytes =~= seq![bytes[0]] + bytes.drop_first());
    }
}

fn push_encoded_byte(s: &mut String, b: u8)
    ensures
        final(s)@ == old(s)@ + form_encode_byte(b),
{
    if b == 0x2a || b == 0x2d || b == 0x2e || b == 0x5f || (0x30 <= b && b <= 0x39)
        || (0x41 <= b && b <= 0x5a) || (0x61 <= b && b <= 0x7a) {
        push_char(s, b as char);
    } else if b == 0x20 {
        push_char(s, '+');
    } else {
        push_char(s, '%');
        push_char(s, hex_digit(b / 16));
        push_char(s, hex_digit(b % 16));
    }
    assert(s@ =~= old(s)@ + form_encode_byte(b));
}

/// Encodes `s` for use in a query string: the UTF-8 bytes of `s`, encoded
/// as `application/x-www-form-urlencoded` (the encoding of
/// `form_urlencoded::byte_serialize`).
pub fn urlencode(s: &str) -> (r: String)
    ensures
        r@ == form_urlencoded(s.spec_bytes()),
{
    let bytes = s.as_bytes();
    let mut r = String::new();
    let mut i: usize = 0;
    while i < bytes.len()
        invariant
            i <= bytes@.len(),
            bytes@ == s.spec_bytes(),
            r@ == form_urlencoded(bytes@.take(i as int)),
        decreases bytes@.len() - i,
    {
        push_encoded_byte(&mut r, bytes[i]);
        assert(bytes@.take(i + 1).drop_last() =~= bytes@.take(i as int));
        i = i + 1;
    }
    assert(bytes@.take(i as int) =~= bytes@);
    r
}

} // verus!
