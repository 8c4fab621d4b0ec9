//! Verified codecs for the textual forms the service exchanges with its
//! collaborators: hex-encoded byte strings and decimal `u32` numerals.
//!
//! The specification functions here are the vocabulary of the library's
//! contracts: `hex_decoded`/`hex_encoded` relate hex text to bytes, and
//! `dec_value`/`dec_chars` relate decimal text to numbers. The executable
//! functions are proved against them, and the round-trip lemmas state that
//! encoding and decoding are mutually inverse.

use vstd::prelude::*;
use vstd::string::StrSliceExecFns;
use vstd::string::StringExecFns;

use crate::errors::ErrorKind;
use crate::errors::WalletError;

verus! {

/// True of an ASCII hex digit, either case.
pub open spec fn is_hex_digit(c: char) -> bool {
    ('0' <= c && c <= '9') || ('a' <= c && c <= 'f') || ('A' <= c && c <= 'F')
}

/// Numeric value of a hex digit (0 for other characters).
pub open spec fn hex_digit_value(c: char) -> int {
    if '0' <= c && c <= '9' {
        c as u32 - '0' as u32
    } else if 'a' <= c && c <= 'f' {
        c as u32 - 'a' as u32 + 10
    } else if 'A' <= c && c <= 'F' {
        c as u32 - 'A' as u32 + 10
    } else {
        0
    }
}

/// True of a string that hex-encodes a byte sequence: even length, hex
/// digits throughout.
pub open spec fn is_hex_str(s: Seq<char>) -> bool {
    &&& s.len() % 2 == 0
    &&& forall|i: int| 0 <= i < s.len() ==> is_hex_digit(#[trigger] s[i])
}

/// The byte written as the hex digit pair `hi` `lo`.
pub open spec fn hex_byte(hi: char, lo: char) -> u8 {
    (hex_digit_value(hi) * 16 + hex_digit_value(lo)) as u8
}

/// The bytes a hex string stands for, two digits per byte.
pub open spec fn hex_decoded(s: Seq<char>) -> Seq<u8> {
    Seq::new((s.len() / 2) as nat, |i: int| hex_byte(s[2 * i], s[2 * i + 1]))
}

/// The lowercase hex digit for a value below 16 ('0' for larger values).
pub open spec fn hex_digit_char(v: int) -> char {
    if v == 1 { '1' } else if v == 2 { '2' } else if v == 3 { '3' }
    else if v == 4 { '4' } else if v == 5 { '5' } else if v == 6 { '6' }
    else if v == 7 { '7' } else if v == 8 { '8' } else if v == 9 { '9' }
    else if v == 10 { 'a' } else if v == 11 { 'b' } else if v == 12 { 'c' }
    else if v == 13 { 'd' } else if v == 14 { 'e' } else if v == 15 { 'f' }
    else { '0' }
}

/// The lowercase hex encoding of a byte sequence, two digits per byte.
pub open spec fn hex_encoded(b: Seq<u8>) -> Seq<char> {
    Seq::new(
        2 * b.len(),
        |i: int|
            if i % 2 == 0 {
                hex_digit_char(b[i / 2] as int / 16)
            } else {
                hex_digit_char(b[i / 2] as int % 16)
            },
    )
}

/// The numeric value of a hex digit, or `None` for any other character.
fn hex_val(c: char) -> (r: Option<u8>)
    ensures
        r is Some <==> is_hex_digit(c),
        r matches Some(v) ==> v as int == hex_digit_value(c) && v < 16,
{
    if '0' <= c && c <= '9' {
        Some(c as u8 - 48)
    } else if 'a' <= c && c <= 'f' {
        Some(c as u8 - 97 + 10)
    } else if 'A' <= c && c <= 'F' {
        Some(c as u8 - 65 + 10)
    } else {
        None
    }
}

/// Decode a hex string into bytes.
///
/// Succeeds exactly on even-length strings of hex digits; the result is
/// the byte sequence the string stands for.
pub fn hex_to_bytes(s: &str) -> (r: Result<Vec<u8>, WalletError>)
    ensures
        r is Ok <==> is_hex_str(s@),
        r matches Ok(v) ==> v@ == hex_decoded(s@),
        r matches Err(e) ==> e.kind is InvalidHex,
{
    let len = s.unicode_len();
    if len % 2 != 0 {
        return Err(WalletError::new(ErrorKind::InvalidHex, "hex string has odd length"));
    }
    let mut out: Vec<u8> = Vec::new();
    let mut i: usize = 0;
    while i < len
        invariant
            len == s@.len(),
            len % 2 == 0,
            i % 2 == 0,
            i <= len,
            out@.len() == i / 2,
            forall|j: int| 0 <= j < i ==> is_hex_digit(#[trigger] s@[j]),
            forall|j: int|
                0 <= j < i / 2 ==> out@[j] == hex_byte(s@[2 * j], s@[2 * j + 1]),
        decreases len - i,
    {
        let hi = match hex_val(s.get_char(i)) {
            Some(v) => v,
            None => {
                return Err(WalletError::new(ErrorKind::InvalidHex, "not a hex digit"));
            },
        };
        let lo = match hex_val(s.get_char(i + 1)) {
            Some(v) => v,
            None => {
                return Err(WalletError::new(ErrorKind::InvalidHex, "not a hex digit"));
            },
        };
        out.push(hi * 16 + lo);
        i = i + 2;
    }
    proof {
        assert(out@ =~= hex_decoded(s@));
    }
    Ok(out)
}

/// The one-character string of the lowercase hex digit for `v`.
fn hex_char_str(v: u8) -> (s: &'static str)
    requires
        v < 16,
    ensures
        s@ =~= seq![hex_digit_char(v as int)],
{
    let r: &'static str = match v {
        0 => "0",
        1 => "1",
        2 => "2",
        3 => "3",
        4 => "4",
        5 => "5",
        6 => "6",
        7 => "7",
        8 => "8",
        9 => "9",
        10 => "a",
        11 => "b",
        12 => "c",
        13 => "d",
        14 => "e",
        _ => "f",
    };
    proof {
        reveal_strlit("0");
        reveal_strlit("1");
        reveal_strlit("2");
        reveal_strlit("3");
        reveal_strlit("4");
        reveal_strlit("5");
        reveal_strlit("6");
        reveal_strlit("7");
        reveal_strlit("8");
        reveal_strlit("9");
        reveal_strlit("a");
        reveal_strlit("b");
        reveal_strlit("c");
        reveal_strlit("d");
        reveal_strlit("e");
        reveal_strlit("f");
    }
    r
}

/// Encode bytes as a lowercase hex string, two digits per byte.
pub fn bytes_to_hex(b: &[u8]) -> (r: String)
    ensures
        r@ == hex_encoded(b@),
{
    let mut out = String::new();
    let mut i: usize = 0;
    while i < b.len()
        invariant
            i <= b@.len(),
            out@.len() == 2 * i,
            forall|j: int| 0 <= j < 2 * i ==> out@[j] == hex_encoded(b@)[j],
        decreases b@.len() - i,
    {
        let byte = b[i];
        out.append(hex_char_str(byte / 16));
        out.append(hex_char_str(byte % 16));
        i = i + 1;
    }
    proof {
        assert(out@ =~= hex_encoded(b@));
    }
    out
}

/// Encoding then decoding bytes gives the bytes back, and the encoding is
/// a well-formed hex string.
pub proof fn lemma_hex_encode_decode(b: Seq<u8>)
    ensures
        is_hex_str(hex_encoded(b)),
        hex_decoded(hex_encoded(b)) =~= b,
{
    assert forall|i: int| 0 <= i < hex_encoded(b).len() implies is_hex_digit(
        #[trigger] hex_encoded(b)[i],
    ) by {
        let v = if i % 2 == 0 { b[i / 2] as int / 16 } else { b[i / 2] as int % 16 };
        assert(0 <= v < 16);
    }
    assert forall|i: int| 0 <= i < b.len() implies hex_decoded(hex_encoded(b))[i] == b[i] by {
        let hi = hex_encoded(b)[2 * i];
        let lo = hex_encoded(b)[2 * i + 1];
        assert(hi == hex_digit_char(b[i] as int / 16));
        assert(lo == hex_digit_char(b[i] as int % 16));
        assert(hex_digit_value(hi) == b[i] as int / 16);
        assert(hex_digit_value(lo) == b[i] as int % 16);
    }
}

/// Hex digits are never a colon; the encoding of bytes therefore contains
/// no separator character.
pub proof fn lemma_hex_encoded_digits(b: Seq<u8>)
    ensures
        forall|i: int|
            0 <= i < hex_encoded(b).len() ==> is_hex_digit(#[trigger] hex_encoded(b)[i])
                && hex_encoded(b)[i] != ':',
{
    lemma_hex_encode_decode(b);
}

/// Hex encoding distributes over concatenation.
pub proof fn lemma_hex_encoded_concat(a: Seq<u8>, b: Seq<u8>)
    ensures
        hex_encoded(a + b) =~= hex_encoded(a) + hex_encoded(b),
{
    assert forall|i: int| 0 <= i < 2 * (a.len() + b.len()) implies hex_encoded(a + b)[i] == (
    hex_encoded(a) + hex_encoded(b))[i] by {
        if i < 2 * a.len() {
            assert((a + b)[i / 2] == a[i / 2]);
        } else {
            assert((a + b)[i / 2] == b[i / 2 - a.len()]);
            assert((i - 2 * a.len()) / 2 == i / 2 - a.len());
            assert((i - 2 * a.len()) % 2 == i % 2);
        }
    }
}

/// True of a hex string written in lowercase, the form the encoder
/// produces.
pub open spec fn is_lower_hex_str(s: Seq<char>) -> bool {
    &&& is_hex_str(s)
    &&& forall|i: int| 0 <= i < s.len() ==> !('A' <= #[trigger] s[i] && s[i] <= 'F')
}

/// The digit table inverts the digit value, for lowercase digits.
proof fn lemma_hex_digit_char_inverse(c: char)
    requires
        is_hex_digit(c),
        !('A' <= c && c <= 'F'),
    ensures
        hex_digit_char(hex_digit_value(c)) == c,
{
}

/// Decoding a lowercase hex string and encoding the bytes again writes
/// the same string.
pub proof fn lemma_hex_decode_encode(s: Seq<char>)
    requires
        is_lower_hex_str(s),
    ensures
        hex_encoded(hex_decoded(s)) =~= s,
{
    assert forall|i: int| 0 <= i < s.len() implies hex_encoded(hex_decoded(s))[i] == s[i] by {
        let k = i / 2;
        let hi = s[2 * k];
        let lo = s[2 * k + 1];
        let b = hex_decoded(s)[k];
        assert(b == hex_byte(hi, lo));
        assert(0 <= hex_digit_value(hi) < 16);
        assert(0 <= hex_digit_value(lo) < 16);
        assert(b as int == hex_digit_value(hi) * 16 + hex_digit_value(lo));
        assert(b as int / 16 == hex_digit_value(hi));
        assert(b as int % 16 == hex_digit_value(lo));
        lemma_hex_digit_char_inverse(hi);
        lemma_hex_digit_char_inverse(lo);
        if i % 2 == 0 {
            assert(i == 2 * k);
        } else {
            assert(i == 2 * k + 1);
        }
    }
}

/// True of an ASCII decimal digit.
pub open spec fn is_dec_digit(c: char) -> bool {
    '0' <= c && c <= '9'
}

/// The number a string of decimal digits stands for.
pub open spec fn dec_value(s: Seq<char>) -> int
    decreases s.len(),
{
    if s.len() == 0 {
        0
    } else {
        dec_value(s.drop_last()) * 10 + (s.last() as u32 - '0' as u32)
    }
}

/// The digits of a `txid:vout` numeral after an optional leading plus
/// sign, mirroring how `u32` is read from a string.
pub open spec fn strip_plus(s: Seq<char>) -> Seq<char> {
    if s.len() > 0 && s[0] == '+' {
        s.skip(1)
    } else {
        s
    }
}

/// True of a string that reads as a `u32`: an optional leading plus sign,
/// then at least one decimal digit, with a value that fits in 32 bits.
pub open spec fn is_u32_numeral(s: Seq<char>) -> bool {
    let d = strip_plus(s);
    &&& d.len() > 0
    &&& forall|i: int| 0 <= i < d.len() ==> is_dec_digit(#[trigger] d[i])
    &&& dec_value(d) <= u32::MAX
}

/// Once a digit prefix is worth a non-negative amount, appending more
/// digits never makes the whole string worth less.
proof fn lemma_dec_value_monotone(s: Seq<char>, n: int)
    requires
        0 <= n <= s.len(),
        dec_value(s.subrange(0, n)) >= 0,
        forall|i: int| n <= i < s.len() ==> is_dec_digit(#[trigger] s[i]),
    ensures
        dec_value(s) >= dec_value(s.subrange(0, n)),
    decreases s.len() - n,
{
    if n == s.len() {
        assert(s.subrange(0, n) =~= s);
    } else {
        let p = s.subrange(0, n + 1);
        assert(p.drop_last() =~= s.subrange(0, n));
        assert(p.last() == s[n]);
        assert(is_dec_digit(s[n]));
        assert(dec_value(p) == dec_value(s.subrange(0, n)) * 10 + (p.last() as u32 - '0' as u32));
        assert(dec_value(p) >= dec_value(s.subrange(0, n)));
        lemma_dec_value_monotone(s, n + 1);
    }
}

/// Read a decimal `u32` from a string: an optional plus sign, then
/// digits. `None` exactly when the string is not such a numeral or its
/// value does not fit.
pub fn parse_u32_decimal(s: &str) -> (r: Option<u32>)
    ensures
        r is Some <==> is_u32_numeral(s@),
        r matches Some(v) ==> v as int == dec_value(strip_plus(s@)),
{
    let len = s.unicode_len();
    let start: usize = if len > 0 && s.get_char(0) == '+' {
        1
    } else {
        0
    };
    proof {
        assert(strip_plus(s@) =~= s@.subrange(start as int, len as int));
    }
    let ghost d = strip_plus(s@);
    if len == start {
        return None;
    }
    let mut acc: u64 = 0;
    let mut i: usize = start;
    while i < len
        invariant
            len == s@.len(),
            start <= i <= len,
            d == strip_plus(s@),
            d == s@.subrange(start as int, len as int),
            acc as int == dec_value(d.subrange(0, i - start)),
            acc <= u32::MAX,
            forall|j: int| 0 <= j < i - start ==> is_dec_digit(#[trigger] d[j]),
        decreases len - i,
    {
        let c = s.get_char(i);
        if !('0' <= c && c <= '9') {
            proof {
                assert(d[i - start] == c);
                assert(!is_dec_digit(d[i - start]));
            }
            return None;
        }
        let digit: u64 = (c as u8 - 48) as u64;
        let next: u64 = acc * 10 + digit;
        proof {
            let p = d.subrange(0, i + 1 - start);
            assert(p.drop_last() =~= d.subrange(0, i - start));
            assert(p.last() == c);
            assert(next as int == dec_value(p));
        }
        if next > 0xffff_ffff {
            proof {
                if is_u32_numeral(s@) {
                    lemma_dec_value_monotone(d, i + 1 - start);
                    assert(dec_value(d) > u32::MAX);
                }
            }
            return None;
        }
        acc = next;
        i = i + 1;
    }
    proof {
        assert(d.subrange(0, len - start) =~= d);
    }
    Some(acc as u32)
}

/// True of decimal text in its canonical form: digits only, and no
/// leading zero unless the number is zero itself.
pub open spec fn is_canonical_decimal(s: Seq<char>) -> bool {
    &&& s.len() > 0
    &&& forall|i: int| 0 <= i < s.len() ==> is_dec_digit(#[trigger] s[i])
    &&& (s.len() > 1 ==> s[0] != '0')
}

/// A canonical digit string that does not start with zero is worth at
/// least one.
proof fn lemma_dec_value_positive(s: Seq<char>)
    requires
        s.len() > 0,
        forall|i: int| 0 <= i < s.len() ==> is_dec_digit(#[trigger] s[i]),
        s[0] != '0',
    ensures
        dec_value(s) >= 1,
    decreases s.len(),
{
    if s.len() == 1 {
        assert(s.last() == s[0]);
        assert(s.drop_last() =~= Seq::<char>::empty());
        assert(dec_value(Seq::<char>::empty()) == 0);
        assert(dec_value(s) == s[0] as u32 - '0' as u32);
    } else {
        let p = s.drop_last();
        assert(p[0] == s[0]);
        assert forall|i: int| 0 <= i < p.len() implies is_dec_digit(#[trigger] p[i]) by {
            assert(p[i] == s[i]);
        }
        lemma_dec_value_positive(p);
        assert(s.last() == s[s.len() - 1]);
        assert(is_dec_digit(s[s.len() - 1]));
        assert(dec_value(s) == dec_value(p) * 10 + (s.last() as u32 - '0' as u32));
        assert(dec_value(p) * 10 >= 10);
    }
}

/// Reading canonical decimal text and writing the number again gives the
/// text back.
pub proof fn lemma_dec_parse_format(s: Seq<char>)
    requires
        is_canonical_decimal(s),
    ensures
        dec_value(s) >= 0,
        dec_chars(dec_value(s)) =~= s,
    decreases s.len(),
{
    if s.len() == 1 {
        let c = s[0];
        assert(s.last() == c);
        assert(s.drop_last() =~= Seq::<char>::empty());
        assert(dec_value(Seq::<char>::empty()) == 0);
        assert(dec_value(s) == c as u32 - '0' as u32);
        assert(dec_value(s) < 10);
        lemma_hex_digit_char_inverse(c);
        assert(hex_digit_char(dec_value(s)) == c);
        assert(dec_chars(dec_value(s)) =~= seq![c]);
        assert(seq![c] =~= s);
    } else {
        let p = s.drop_last();
        let last = s.last();
        assert(p[0] == s[0]);
        assert(forall|i: int| 0 <= i < p.len() ==> is_dec_digit(#[trigger] p[i]));
        lemma_dec_parse_format(p);
        lemma_dec_value_positive(p);
        let v = dec_value(s);
        let d = last as u32 - '0' as u32;
        assert(0 <= d < 10);
        assert(v == dec_value(p) * 10 + d);
        assert(v >= 10) by {
            assert(dec_value(p) * 10 >= 10);
        }
        assert(v / 10 == dec_value(p)) by {
            assert((dec_value(p) * 10 + d) / 10 == dec_value(p));
        }
        assert(v % 10 == d);
        lemma_hex_digit_char_inverse(last);
        assert(hex_digit_char(d) == last);
        assert(dec_chars(v) == dec_chars(dec_value(p)).push(last));
        assert(dec_chars(v) =~= s);
    }
}

/// The decimal digits of a non-negative number, most significant first.
pub open spec fn dec_chars(v: int) -> Seq<char>
    decreases v,
{
    if v < 10 {
        seq![hex_digit_char(v)]
    } else {
        dec_chars(v / 10).push(hex_digit_char(v % 10))
    }
}

/// The digits of a number read back as that number; and they are digits.
pub proof fn lemma_dec_chars_value(v: int)
    requires
        v >= 0,
    ensures
        dec_chars(v).len() > 0,
        forall|i: int| 0 <= i < dec_chars(v).len() ==> is_dec_digit(#[trigger] dec_chars(v)[i]),
        dec_value(dec_chars(v)) == v,
    decreases v,
{
    if v < 10 {
        assert(dec_chars(v) == seq![hex_digit_char(v)]);
        assert(is_dec_digit(hex_digit_char(v)));
        assert(dec_chars(v).drop_last() =~= Seq::<char>::empty());
        assert(dec_value(Seq::<char>::empty()) == 0);
        assert(dec_value(dec_chars(v)) == hex_digit_char(v) as u32 - '0' as u32);
    } else {
        lemma_dec_chars_value(v / 10);
        let s = dec_chars(v);
        assert(s.drop_last() =~= dec_chars(v / 10));
        assert(s.last() == hex_digit_char(v % 10));
        assert(hex_digit_char(v % 10) as u32 - '0' as u32 == v % 10);
        assert(dec_value(s) == (v / 10) * 10 + v % 10);
        assert forall|i: int| 0 <= i < s.len() implies is_dec_digit(#[trigger] s[i]) by {
            if i < s.len() - 1 {
                assert(s[i] == dec_chars(v / 10)[i]);
            }
        }
    }
}

/// Write a `u32` in decimal.
pub fn u32_to_decimal(v: u32) -> (r: String)
    ensures
        r@ == dec_chars(v as int),
    decreases v,
{
    if v < 10 {
        let mut out = String::new();
        out.append(hex_char_str(v as u8));
        proof {
            assert(out@ =~= dec_chars(v as int));
        }
        out
    } else {
        let mut out = u32_to_decimal(v / 10);
        out.append(hex_char_str((v % 10) as u8));
        proof {
            assert(out@ =~= dec_chars(v as int));
        }
        out
    }
}

} // verus!
