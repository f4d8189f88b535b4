//! Percent-encoding over the unreserved alphabet of RFC 3986.
use vstd::prelude::*;
use vstd::string::StringSliceAdditionalSpecFns;

use crate::text::push_char;

verus! {

/// The bytes `[A-Za-z0-9-._~]`, which pass through the encoder unchanged.
pub open spec fn is_unreserved(b: u8) -> bool {
    (0x41 <= b && b <= 0x5A) || (0x61 <= b && b <= 0x7A) || (0x30 <= b && b <= 0x39) || b == 0x2D
        || b == 0x2E || b == 0x5F || b == 0x7E
}

/// The uppercase hexadecimal digit of a value below sixteen.
pub open spec fn hex_digit(n: u8) -> char {
    if n < 10 {
        ((n + 48) as u8) as char
    } else {
        ((n + 55) as u8) as char
    }
}

/// What one byte becomes: itself as a character, or `%` and two uppercase hex digits.
pub open spec fn encode_byte(b: u8) -> Seq<char> {
    if is_unreserved(b) {
        seq![b as char]
    } else {
        seq!['%', hex_digit(b / 16), hex_digit(b % 16)]
    }
}

/// The percent-encoding of a byte string.
pub open spec fn pct_encode(bs: Seq<u8>) -> Seq<char>
    decreases bs.len(),
{
    if bs.len() == 0 {
        seq![]
    } else {
        pct_encode(bs.drop_last()) + encode_byte(bs.last())
    }
}

/// The percent-encoding of a string's UTF-8 bytes.
pub open spec fn oauth_encoded(s: Seq<char>) -> Seq<char> {
    pct_encode(vstd::utf8::encode_utf8(s))
}

fn hex_char(n: u8) -> (c: char)
    requires
        n < 16,
    ensures
        c == hex_digit(n),
{
    if n < 10 {
        (n + 48) as char
    } else {
        (n + 55) as char
    }
}

fn is_unreserved_byte(b: u8) -> (r: bool)
    ensures
        r == is_unreserved(b),
{
    (0x41 <= b && b <= 0x5A) || (0x61 <= b && b <= 0x7A) || (0x30 <= b && b <= 0x39) || b == 0x2D
        || b == 0x2E || b == 0x5F || b == 0x7E
}

/// Percent-encodes `s`: every byte of its UTF-8 form that is unreserved stands as
/// itself, every other byte becomes `%` followed by two uppercase hex digits.
pub fn oauth_encode(s: &str) -> (r: String)
    ensures
        r@ == oauth_encoded(s@),
{
    let bytes = s.as_bytes();
    let mut out = String::new();
    let mut i: usize = 0;
    while i < bytes.len()
        invariant
            bytes@ == vstd::utf8::encode_utf8(s@),
            i <= bytes@.len(),
            out@ == pct_encode(bytes@.take(i as int)),
        decreases bytes@.len() - i,
    {
        let b = bytes[i];
        if is_unreserved_byte(b) {
            push_char(&mut out, b as char);
        } else {
            push_char(&mut out, '%');
            push_char(&mut out, hex_char(b / 16));
            push_char(&mut out, hex_char(b % 16));
        }
        proof {
            assert(bytes@.take(i + 1).drop_last() =~= bytes@.take(i as int));
        }
        i += 1;
    }
    proof {
        assert(bytes@.take(bytes@.len() as int) =~= bytes@);
    }
    out
}

/// The value of an uppercase hexadecimal digit.
pub open spec fn hex_value(c: char) -> int {
    if '0' <= c && c <= '9' {
        c as int - 48
    } else {
        c as int - 55
    }
}

/// Whether `c` is one of `0-9A-F`.
pub open spec fn is_upper_hex(c: char) -> bool {
    ('0' <= c && c <= '9') || ('A' <= c && c <= 'F')
}

/// Whether `c` is an unreserved character.
pub open spec fn is_unreserved_char(c: char) -> bool {
    ('A' <= c && c <= 'Z') || ('a' <= c && c <= 'z') || ('0' <= c && c <= '9') || c == '-'
        || c == '.' || c == '_' || c == '~'
}

/// Reads percent-encoded text back into bytes: `%XY` gives the byte `0xXY`,
/// any other character gives its own code.
pub open spec fn pct_decode(s: Seq<char>) -> Seq<u8>
    decreases s.len(),
{
    if s.len() == 0 {
        seq![]
    } else if s.len() >= 3 && s[s.len() - 3] == '%' {
        pct_decode(s.take(s.len() - 3)) + seq![
            (hex_value(s[s.len() - 2]) * 16 + hex_value(s[s.len() - 1])) as u8,
        ]
    } else {
        pct_decode(s.drop_last()) + seq![s.last() as u8]
    }
}

/// Every character is unreserved, or is a `%` that two uppercase hex digits follow.
pub open spec fn only_uppercase_escapes(s: Seq<char>) -> bool {
    forall|i: int|
        0 <= i < s.len() ==> is_unreserved_char(#[trigger] s[i]) || (s[i] == '%' && i + 2 < s.len()
            && is_upper_hex(s[i + 1]) && is_upper_hex(s[i + 2]))
}

proof fn lemma_hex_digit(n: u8)
    requires
        n < 16,
    ensures
        is_upper_hex(hex_digit(n)),
        hex_value(hex_digit(n)) == n,
{
}

proof fn lemma_encode_byte(b: u8)
    ensures
        only_uppercase_escapes(encode_byte(b)),
        is_unreserved(b) ==> encode_byte(b) == seq![b as char],
{
    lemma_hex_digit(b / 16);
    lemma_hex_digit(b % 16);
}

proof fn lemma_no_escape_at_end(bs: Seq<u8>)
    ensures
        pct_encode(bs).len() >= 1 ==> pct_encode(bs).last() != '%',
        pct_encode(bs).len() >= 2 ==> pct_encode(bs)[pct_encode(bs).len() - 2] != '%',
    decreases bs.len(),
{
    if bs.len() > 0 {
        lemma_no_escape_at_end(bs.drop_last());
        lemma_hex_digit(bs.last() / 16);
        lemma_hex_digit(bs.last() % 16);
    }
}

/// Decoding what the encoder produced gives back the bytes it was given.
pub proof fn lemma_decode_encode(bs: Seq<u8>)
    ensures
        pct_decode(pct_encode(bs)) == bs,
    decreases bs.len(),
{
    if bs.len() > 0 {
        let front = pct_encode(bs.drop_last());
        let b = bs.last();
        lemma_decode_encode(bs.drop_last());
        lemma_no_escape_at_end(bs.drop_last());
        lemma_hex_digit(b / 16);
        lemma_hex_digit(b % 16);
        let e = front + encode_byte(b);
        if is_unreserved(b) {
            assert(e.drop_last() =~= front);
            if e.len() >= 3 {
                assert(e[e.len() - 3] == front[front.len() - 2]);
            }
        } else {
            assert(e.take(e.len() - 3) =~= front);
        }
        assert(bs.drop_last().push(b) =~= bs);
    }
}

/// The encoder's output holds unreserved characters and `%XY` escapes with
/// uppercase hex digits, and nothing else.
pub proof fn lemma_encode_uppercase_escapes(bs: Seq<u8>)
    ensures
        only_uppercase_escapes(pct_encode(bs)),
    decreases bs.len(),
{
    if bs.len() > 0 {
        let front = pct_encode(bs.drop_last());
        let tail = encode_byte(bs.last());
        lemma_encode_uppercase_escapes(bs.drop_last());
        lemma_encode_byte(bs.last());
        let e = front + tail;
        assert forall|i: int| 0 <= i < e.len() implies is_unreserved_char(#[trigger] e[i]) || (e[i]
            == '%' && i + 2 < e.len() && is_upper_hex(e[i + 1]) && is_upper_hex(e[i + 2])) by {
            if i < front.len() {
                assert(e[i] == front[i]);
                if e[i] == '%' {
                    assert(e[i + 1] == front[i + 1]);
                    assert(e[i + 2] == front[i + 2]);
                }
            } else {
                assert(e[i] == tail[i - front.len()]);
            }
        }
    }
}

/// A byte string made of unreserved bytes alone is encoded as itself.
pub proof fn lemma_encode_unreserved_bytes(bs: Seq<u8>)
    requires
        forall|i: int| 0 <= i < bs.len() ==> is_unreserved(#[trigger] bs[i]),
    ensures
        pct_encode(bs) == bs.map_values(|b: u8| b as char),
    decreases bs.len(),
{
    if bs.len() > 0 {
        lemma_encode_unreserved_bytes(bs.drop_last());
        lemma_encode_byte(bs.last());
        assert(pct_encode(bs) =~= bs.map_values(|b: u8| b as char));
    }
}

/// The percent-encoding of a string
/// - reads back, through `pct_decode`, as the string's UTF-8 bytes;
/// - holds only unreserved characters and `%XY` escapes with uppercase hex digits;
/// - leaves a string of unreserved characters as it is.
pub proof fn lemma_oauth_encode_laws(s: &str)
    ensures
        pct_decode(oauth_encoded(s@)) == s.spec_bytes(),
        only_uppercase_escapes(oauth_encoded(s@)),
        (forall|i: int| 0 <= i < s@.len() ==> is_unreserved_char(#[trigger] s@[i]))
            ==> oauth_encoded(s@) == s@,
{
    lemma_decode_encode(s.spec_bytes());
    lemma_encode_uppercase_escapes(s.spec_bytes());
    if forall|i: int| 0 <= i < s@.len() ==> is_unreserved_char(#[trigger] s@[i]) {
        assert(vstd::string::is_ascii(s)) by {
            assert forall|i: int| 0 <= i < s@.len() implies '\0' <= #[trigger] s@[i] <= '\u{7f}' by {
                assert(is_unreserved_char(s@[i]));
            }
        }
        vstd::string::is_ascii_spec_bytes(s);
        let bs = s.spec_bytes();
        assert forall|i: int| 0 <= i < bs.len() implies is_unreserved(#[trigger] bs[i]) by {
            assert(is_unreserved_char(s@[i]));
        }
        lemma_encode_unreserved_bytes(bs);
        assert(bs.map_values(|b: u8| b as char) =~= s@);
    }
}

} // verus!
