//! Standard base64 (RFC 4648, section 4: the `A-Z a-z 0-9 + /` alphabet with
//! `=` padding) of a byte string, and its decoding.

use vstd::prelude::*;

verus! {

/// The character of a 6-bit value in the standard alphabet.
pub open spec fn base64_digit(v: nat) -> char {
    if v < 26 {
        ((v + 65) as u8) as char
    } else if v < 52 {
        ((v + 71) as u8) as char
    } else if v < 62 {
        ((v - 4) as u8) as char
    } else if v == 62 {
        '+'
    } else {
        '/'
    }
}

/// The 6-bit value of a character of the standard alphabet.
pub open spec fn base64_digit_value(c: char) -> nat {
    let u = c as u32;
    if 65 <= u <= 90 {
        (u - 65) as nat
    } else if 97 <= u <= 122 {
        (u - 71) as nat
    } else if 48 <= u <= 57 {
        (u + 4) as nat
    } else if c == '+' {
        62
    } else {
        63
    }
}

/// The standard base64 encoding of `bytes`: each group of three bytes as four
/// characters of six bits each, a final group of one or two bytes padded
/// with `=` to four characters.
pub open spec fn base64_encoded(bytes: Seq<u8>) -> Seq<char>
    decreases bytes.len(),
{
    if bytes.len() == 0 {
        Seq::empty()
    } else {
        let x0 = bytes[0] as nat;
        if bytes.len() == 1 {
            seq![base64_digit(x0 / 4), base64_digit((x0 % 4) * 16), '=', '=']
        } else {
            let x1 = bytes[1] as nat;
            if bytes.len() == 2 {
                seq![
                    base64_digit(x0 / 4),
                    base64_digit((x0 % 4) * 16 + x1 / 16),
                    base64_digit((x1 % 16) * 4),
                    '=',
                ]
            } else {
                let x2 = bytes[2] as nat;
                seq![
                    base64_digit(x0 / 4),
                    base64_digit((x0 % 4) * 16 + x1 / 16),
                    base64_digit((x1 % 16) * 4 + x2 / 64),
                    base64_digit(x2 % 64),
                ] + base64_encoded(bytes.skip(3))
            }
        }
    }
}

/// Decoding of standard base64: each group of four characters gives three
/// bytes, or one or two when it ends with `==` or `=`.
pub open spec fn base64_decoded(s: Seq<char>) -> Seq<u8>
    decreases s.len(),
{
    if s.len() < 4 {
        Seq::empty()
    } else {
        let a = base64_digit_value(s[0]);
        let b = base64_digit_value(s[1]);
        let c = base64_digit_value(s[2]);
        let d = base64_digit_value(s[3]);
        let x = (a * 4 + b / 16) as u8;
        let y = ((b % 16) * 16 + c / 4) as u8;
        let z = ((c % 4) * 64 + d) as u8;
        if s[2] == '=' {
            seq![x]
        } else if s[3] == '=' {
            seq![x, y]
        } else {
            seq![x, y, z] + base64_decoded(s.skip(4))
        }
    }
}

proof fn lemma_digit(v: nat)
    requires
        v < 64,
    ensures
        base64_digit_value(base64_digit(v)) == v,
        base64_digit(v) != '=',
{
    if v < 26 {
        assert((((v + 65) as u8) as char) as u32 == v + 65);
    } else if v < 52 {
        assert((((v + 71) as u8) as char) as u32 == v + 71);
    } else if v < 62 {
        assert((((v - 4) as u8) as char) as u32 == v - 4);
    }
}

proof fn lemma_regroup(x0: nat, x1: nat, x2: nat)
    by (nonlinear_arith)
    requires
        x0 < 256,
        x1 < 256,
        x2 < 256,
    ensures
        x0 / 4 < 64,
        (x0 % 4) * 16 + x1 / 16 < 64,
        (x1 % 16) * 4 + x2 / 64 < 64,
        x2 % 64 < 64,
        (x0 / 4) * 4 + ((x0 % 4) * 16 + x1 / 16) / 16 == x0,
        (((x0 % 4) * 16 + x1 / 16) % 16) * 16 + ((x1 % 16) * 4 + x2 / 64) / 4 == x1,
        (((x1 % 16) * 4 + x2 / 64) % 4) * 64 + x2 % 64 == x2,
{
}

/// Decoding the standard base64 encoding of a byte string gives the byte
/// string back.
pub proof fn lemma_base64_decodes_back(bytes: Seq<u8>)
    ensures
        base64_decoded(base64_encoded(bytes)) == bytes,
    decreases bytes.len(),
{
    if bytes.len() > 0 {
        let s = base64_encoded(bytes);
        let x0 = bytes[0] as nat;
        let x1: nat = if bytes.len() > 1 { bytes[1] as nat } else { 0 };
        let x2: nat = if bytes.len() > 2 { bytes[2] as nat } else { 0 };
        lemma_regroup(x0, x1, x2);
        lemma_digit(x0 / 4);
        lemma_digit((x0 % 4) * 16 + x1 / 16);
        lemma_digit((x1 % 16) * 4 + x2 / 64);
        lemma_digit(x2 % 64);
        if bytes.len() == 1 {
            assert(base64_decoded(s) =~= bytes);
        } else if bytes.len() == 2 {
            assert(base64_decoded(s) =~= bytes);
        } else {
            lemma_base64_decodes_back(bytes.skip(3));
            assert(s.skip(4) =~= base64_encoded(bytes.skip(3)));
            assert(base64_decoded(s) =~= bytes);
        }
    }
}

} // verus!
