//! Query-string encoding used when building search URLs.

use vstd::prelude::*;
use crate::text::push_char;
use vstd::string::StringSliceAdditionalSpecFns;
use vstd::utf8::{decode_utf8, encode_utf8, encode_utf8_decode_utf8};

verus! {

/// Bytes that pass through unchanged: ASCII letters, digits and `- _ . ~`.
pub open spec fn is_unreserved(b: u8) -> bool {
    ||| (65 <= b && b <= 90)
    ||| (97 <= b && b <= 122)
    ||| (48 <= b && b <= 57)
    ||| b == 45
    ||| b == 95
    ||| b == 46
    ||| b == 126
}

/// Upper-case hexadecimal digit for a value below 16.
pub open spec fn hex_digit(n: u8) -> char {
    if n < 10 {
        (48 + n) as char
    } else {
        (55 + n) as char
    }
}

/// The encoding of one byte: itself when unreserved, `+` for a space, and
/// `%XY` (upper-case hex) for every other byte.
pub open spec fn encode_byte(b: u8) -> Seq<char> {
    if is_unreserved(b) {
        seq![b as char]
    } else if b == 32 {
        seq!['+']
    } else {
        seq!['%', hex_digit(b / 16), hex_digit(b % 16)]
    }
}

/// The encoding of a byte sequence: the byte encodings, concatenated in order.
pub open spec fn encoded(bytes: Seq<u8>) -> Seq<char>
    decreases bytes.len(),
{
    if bytes.len() == 0 {
        Seq::empty()
    } else {
        encoded(bytes.drop_last()) + encode_byte(bytes.last())
    }
}

fn hex_char(n: u8) -> (c: char)
    requires
        n < 16,
    ensures
        c == hex_digit(n),
{
    if n < 10 {
        (48 + n) as char
    } else {
        (55 + n) as char
    }
}

/// Percent-encodes the UTF-8 bytes of `s` for use in a URL query
/// (`application/x-www-form-urlencoded` style: a space becomes `+`).
pub fn encode(s: &str) -> (r: String)
    ensures
        r@ == encoded(s.spec_bytes()),
{
    let bytes = s.as_bytes();
    let mut result = String::new();
    let mut i: usize = 0;
    while i < bytes.len()
        invariant
            0 <= i <= bytes@.len(),
            bytes@ == s.spec_bytes(),
            result@ == encoded(bytes@.subrange(0, i as int)),
        decreases bytes@.len() - i,
    {
        let byte = bytes[i];
        let ghost before = result@;
        if (65 <= byte && byte <= 90) || (97 <= byte && byte <= 122) || (48 <= byte && byte <= 57)
            || byte == 45 || byte == 95 || byte == 46 || byte == 126 {
            push_char(&mut result, byte as char);
        } else if byte == 32 {
            push_char(&mut result, '+');
        } else {
            push_char(&mut result, '%');
            push_char(&mut result, hex_char(byte / 16));
            push_char(&mut result, hex_char(byte % 16));
        }
        proof {
            let next = bytes@.subrange(0, i + 1);
            assert(next.drop_last() =~= bytes@.subrange(0, i as int));
            assert(next.last() == byte);
            assert(result@ =~= before + encode_byte(byte));
        }
        i += 1;
    }
    proof {
        assert(bytes@.subrange(0, bytes@.len() as int) =~= bytes@);
    }
    result
}

/// A character that may stand in a URL query unescaped: an unreserved
/// character, `+` or `%`.
pub open spec fn url_safe(c: char) -> bool {
    ||| ('A' <= c && c <= 'Z')
    ||| ('a' <= c && c <= 'z')
    ||| ('0' <= c && c <= '9')
    ||| c == '-' || c == '_' || c == '.' || c == '~' || c == '+' || c == '%'
}

/// Whatever the input, the encoding holds only URL-safe characters, and it is
/// at least as long as the input and at most three times as long.
pub proof fn law_encoding_is_url_safe(bytes: Seq<u8>)
    ensures
        forall|i: int| 0 <= i < encoded(bytes).len() ==> url_safe(#[trigger] encoded(bytes)[i]),
        bytes.len() <= encoded(bytes).len() <= 3 * bytes.len(),
    decreases bytes.len(),
{
    if bytes.len() > 0 {
        let prefix = bytes.drop_last();
        let b = bytes.last();
        law_encoding_is_url_safe(prefix);
        let e = encode_byte(b);
        assert forall|j: int| 0 <= j < e.len() implies url_safe(#[trigger] e[j]) by {
            if !is_unreserved(b) && b != 32 && j > 0 {
                let n: u8 = if j == 1 { b / 16 } else { b % 16 };
                assert(n < 16);
                if n < 10 {
                    assert(hex_digit(n) == (48 + n) as char);
                } else {
                    assert(hex_digit(n) == (55 + n) as char);
                }
            }
        }
        let whole = encoded(bytes);
        assert(whole == encoded(prefix) + e);
        assert forall|i: int| 0 <= i < whole.len() implies url_safe(#[trigger] whole[i]) by {
            if i < encoded(prefix).len() {
                assert(whole[i] == encoded(prefix)[i]);
            } else {
                assert(whole[i] == e[i - encoded(prefix).len()]);
            }
        }
    }
}

/// The value of a hexadecimal digit (either case), or -1.
pub open spec fn hex_value(c: char) -> int {
    if '0' <= c && c <= '9' {
        c as int - 48
    } else if 'A' <= c && c <= 'F' {
        c as int - 55
    } else if 'a' <= c && c <= 'f' {
        c as int - 87
    } else {
        -1
    }
}

/// Form decoding, the inverse of `encoded`: `+` is a space byte, `%` and two
/// hexadecimal digits are that byte, and any other character stands for its
/// own code (its low byte).
pub open spec fn form_decode(s: Seq<char>) -> Seq<u8>
    decreases s.len(),
{
    if s.len() == 0 {
        Seq::empty()
    } else if s[0] == '%' && s.len() >= 3 && hex_value(s[1]) >= 0 && hex_value(s[2]) >= 0 {
        seq![(hex_value(s[1]) * 16 + hex_value(s[2])) as u8] + form_decode(s.skip(3))
    } else if s[0] == '+' {
        seq![32u8] + form_decode(s.skip(1))
    } else {
        seq![(s[0] as int) as u8] + form_decode(s.skip(1))
    }
}

/// The encoding of a non-empty byte sequence begins with the encoding of its
/// first byte.
proof fn lemma_encoded_front(bytes: Seq<u8>)
    requires
        bytes.len() > 0,
    ensures
        encoded(bytes) == encode_byte(bytes[0]) + encoded(bytes.drop_first()),
    decreases bytes.len(),
{
    if bytes.len() > 1 {
        lemma_encoded_front(bytes.drop_last());
        assert(bytes.drop_last().drop_first() =~= bytes.drop_first().drop_last());
        assert(bytes.drop_first().last() == bytes.last());
        assert(encoded(bytes.drop_first()) == encoded(bytes.drop_first().drop_last()) + encode_byte(bytes.last()));
        assert(encoded(bytes) =~= encode_byte(bytes[0]) + encoded(bytes.drop_first()));
    } else {
        assert(bytes.drop_last() =~= Seq::<u8>::empty());
        assert(bytes.drop_first() =~= Seq::<u8>::empty());
        assert(encoded(bytes) =~= encode_byte(bytes[0]) + encoded(bytes.drop_first()));
    }
}

/// A hexadecimal digit as written by the encoder reads back as its value.
proof fn lemma_hex_digit_value(n: u8)
    requires
        n < 16,
    ensures
        hex_value(hex_digit(n)) == n,
{
}

/// Decoding the encoding of one byte followed by more text gives that byte
/// followed by the decoding of the rest.
proof fn lemma_decode_encoded_byte(b: u8, rest: Seq<char>)
    ensures
        form_decode(encode_byte(b) + rest) == seq![b] + form_decode(rest),
{
    let e = encode_byte(b);
    let t = e + rest;
    if is_unreserved(b) {
        assert(t[0] == b as char);
        assert(t.skip(1) =~= rest);
    } else if b == 32 {
        assert(t[0] == '+');
        assert(t.skip(1) =~= rest);
    } else {
        lemma_hex_digit_value(b / 16);
        lemma_hex_digit_value(b % 16);
        assert(t[0] == '%' && t[1] == hex_digit(b / 16) && t[2] == hex_digit(b % 16));
        assert(t.skip(3) =~= rest);
        assert((b / 16) * 16 + b % 16 == b);
    }
}

/// Form decoding undoes the encoding: the bytes come back unchanged.
pub proof fn law_form_decode_inverts_encoding(bytes: Seq<u8>)
    ensures
        form_decode(encoded(bytes)) == bytes,
    decreases bytes.len(),
{
    if bytes.len() == 0 {
    } else {
        lemma_encoded_front(bytes);
        lemma_decode_encoded_byte(bytes[0], encoded(bytes.drop_first()));
        law_form_decode_inverts_encoding(bytes.drop_first());
        assert(seq![bytes[0]] + bytes.drop_first() =~= bytes);
    }
}

/// Different strings never encode alike: decoding the query (form decoding,
/// then UTF-8) gives the string back.
pub proof fn law_encoding_is_injective(a: Seq<char>, b: Seq<char>)
    ensures
        decode_utf8(form_decode(encoded(encode_utf8(a)))) == a,
        encoded(encode_utf8(a)) == encoded(encode_utf8(b)) ==> a == b,
{
    law_form_decode_inverts_encoding(encode_utf8(a));
    law_form_decode_inverts_encoding(encode_utf8(b));
    encode_utf8_decode_utf8(a);
    encode_utf8_decode_utf8(b);
}

} // verus!
