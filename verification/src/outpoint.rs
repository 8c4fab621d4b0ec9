//! Parsing and formatting of `txid:vout` outpoint identifiers.
//!
//! An outpoint names one output of one transaction: a 32-byte transaction
//! id plus an output index. In transit it is written as 64 hex characters,
//! a colon, and a decimal index.

use vstd::prelude::*;
use vstd::string::StrSliceExecFns;
use vstd::string::StringExecFns;

use crate::codec::bytes_to_hex;
use crate::codec::dec_chars;
use crate::codec::dec_value;
use crate::codec::hex_decoded;
use crate::codec::hex_encoded;
use crate::codec::hex_to_bytes;
use crate::codec::is_canonical_decimal;
use crate::codec::is_hex_str;
use crate::codec::is_lower_hex_str;
use crate::codec::is_u32_numeral;
use crate::codec::lemma_dec_chars_value;
use crate::codec::lemma_dec_parse_format;
use crate::codec::lemma_hex_decode_encode;
use crate::codec::lemma_hex_encode_decode;
use crate::codec::lemma_hex_encoded_digits;
use crate::codec::parse_u32_decimal;
use crate::codec::strip_plus;
use crate::codec::u32_to_decimal;
use crate::errors::ErrorKind;
use crate::errors::WalletError;

verus! {

/// A reference to one specific output of one specific transaction.
///
/// The `txid` field holds the 32 id bytes exactly as the 64 hex
/// characters spell them, most significant digit first.
#[derive(Debug)]
pub struct Outpoint {
    pub txid: Vec<u8>,
    pub vout: u32,
}

impl Outpoint {
    /// A well-formed outpoint carries exactly 32 id bytes.
    pub open spec fn wf(self) -> bool {
        self.txid@.len() == 32
    }
}

/// True of a string whose txid part is a 32-byte hex id.
pub open spec fn txid_str_ok(s: Seq<char>) -> bool {
    s.len() == 64 && is_hex_str(s)
}

/// True when `i` is the position of the only colon in `s`: the string
/// then splits into exactly two parts.
pub open spec fn outpoint_split_at(s: Seq<char>, i: int) -> bool {
    &&& 0 <= i < s.len()
    &&& s[i] == ':'
    &&& forall|j: int| 0 <= j < s.len() && #[trigger] s[j] == ':' ==> j == i
}

/// True of a well-formed `txid:vout` string: exactly two `:`-separated
/// parts, a 64-hex-character id, and a `u32` index.
pub open spec fn outpoint_str_ok(s: Seq<char>) -> bool {
    exists|i: int|
        #[trigger] outpoint_split_at(s, i) && txid_str_ok(s.subrange(0, i)) && is_u32_numeral(
            s.subrange(i + 1, s.len() as int),
        )
}

/// Parse a `txid:vout` string into an [`Outpoint`].
///
/// The string must have exactly two `:`-separated parts; the first must
/// be a 64-character hex id and the second an unsigned 32-bit integer.
/// Each violation is reported under its own error kind.
pub fn parse_outpoint(s: &str) -> (r: Result<Outpoint, WalletError>)
    ensures
        r is Ok <==> outpoint_str_ok(s@),
        r matches Ok(op) ==> op.wf(),
        r matches Err(e) ==> crate::errors::is_format_kind(e.kind),
        forall|i: int|
            outpoint_split_at(s@, i) ==> {
                let pre = s@.subrange(0, i);
                let post = s@.subrange(i + 1, s@.len() as int);
                &&& (!txid_str_ok(pre) ==> (r matches Err(e) && e.kind is InvalidTxid))
                &&& (txid_str_ok(pre) && !is_u32_numeral(post) ==> (r matches Err(e)
                    && e.kind is InvalidVout))
                &&& (txid_str_ok(pre) && is_u32_numeral(post) ==> (r matches Ok(op)
                    && op.txid@ == hex_decoded(pre) && op.vout as int == dec_value(
                    strip_plus(post),
                )))
            },
        (forall|i: int| !outpoint_split_at(s@, i)) ==> (r matches Err(e)
            && e.kind is OutpointFormat),
{
    let len = s.unicode_len();
    let mut first: Option<usize> = None;
    let mut second: Option<usize> = None;
    let mut i: usize = 0;
    while i < len
        invariant
            len == s@.len(),
            i <= len,
            first is None ==> second is None && (forall|j: int| 0 <= j < i ==> s@[j] != ':'),
            first matches Some(p) ==> p < i && s@[p as int] == ':',
            first matches Some(p) ==> (second is None ==> forall|j: int|
                0 <= j < i && j != p ==> s@[j] != ':'),
            second matches Some(q) ==> (first matches Some(p) && p != q) && q < i && s@[q as int]
                == ':',
        decreases len - i,
    {
        if s.get_char(i) == ':' {
            if first.is_none() {
                first = Some(i);
            } else if second.is_none() {
                second = Some(i);
            }
        }
        i = i + 1;
    }
    let p = match first {
        None => {
            proof {
                assert(forall|i: int| !outpoint_split_at(s@, i));
            }
            return Err(
                WalletError::new(ErrorKind::OutpointFormat, "expected txid:vout"),
            );
        },
        Some(p) => p,
    };
    if let Some(q) = second {
        proof {
            assert forall|i: int| !outpoint_split_at(s@, i) by {
                if outpoint_split_at(s@, i) {
                    assert(s@[p as int] == ':');
                    assert(s@[q as int] == ':');
                    assert(p == i && q == i);
                }
            }
        }
        return Err(WalletError::new(ErrorKind::OutpointFormat, "expected txid:vout"));
    }
    proof {
        assert(outpoint_split_at(s@, p as int));
        assert forall|i: int| outpoint_split_at(s@, i) implies i == p as int by {
            assert(s@[p as int] == ':');
        }
    }
    let pre = s.substring_char(0, p);
    let post = s.substring_char(p + 1, len);
    if pre.unicode_len() != 64 {
        return Err(WalletError::new(ErrorKind::InvalidTxid, "txid must be 64 hex characters"));
    }
    let txid = match hex_to_bytes(pre) {
        Ok(b) => b,
        Err(_) => {
            return Err(
                WalletError::new(ErrorKind::InvalidTxid, "txid must be 64 hex characters"),
            );
        },
    };
    let vout = match parse_u32_decimal(post) {
        Some(v) => v,
        None => {
            return Err(
                WalletError::new(ErrorKind::InvalidVout, "vout must be an unsigned 32-bit integer"),
            );
        },
    };
    Ok(Outpoint { txid, vout })
}

/// The canonical text of an outpoint: lowercase hex id, colon, decimal
/// index.
pub open spec fn outpoint_chars(op: Outpoint) -> Seq<char> {
    hex_encoded(op.txid@) + seq![':'] + dec_chars(op.vout as int)
}

/// Write an outpoint back as a `txid:vout` string.
pub fn format_outpoint(op: &Outpoint) -> (r: String)
    requires
        op.wf(),
    ensures
        r@ == outpoint_chars(*op),
{
    let mut out = bytes_to_hex(op.txid.as_slice());
    out.append(":");
    let vout_str = u32_to_decimal(op.vout);
    out.append(vout_str.as_str());
    proof {
        reveal_strlit(":");
        assert(out@ =~= outpoint_chars(*op));
    }
    out
}

/// Formatting an outpoint always yields a string that parses back to the
/// same id bytes and the same output index: the codec round-trips.
pub proof fn lemma_outpoint_round_trip(op: Outpoint)
    requires
        op.wf(),
    ensures
        outpoint_str_ok(outpoint_chars(op)),
        forall|i: int|
            outpoint_split_at(outpoint_chars(op), i) ==> {
                let s = outpoint_chars(op);
                let pre = s.subrange(0, i);
                let post = s.subrange(i + 1, s.len() as int);
                &&& txid_str_ok(pre)
                &&& is_u32_numeral(post)
                &&& hex_decoded(pre) == op.txid@
                &&& dec_value(strip_plus(post)) == op.vout as int
            },
{
    let s = outpoint_chars(op);
    let hexpart = hex_encoded(op.txid@);
    let decpart = dec_chars(op.vout as int);
    lemma_hex_encode_decode(op.txid@);
    lemma_hex_encoded_digits(op.txid@);
    lemma_dec_chars_value(op.vout as int);
    assert(hexpart.len() == 64);
    assert(s.len() == 65 + decpart.len());
    assert(s[64] == ':');
    assert forall|j: int| 0 <= j < s.len() && #[trigger] s[j] == ':' implies j == 64 by {
        if j < 64 {
            assert(s[j] == hexpart[j]);
        } else if j > 64 {
            assert(s[j] == decpart[j - 65]);
            assert(crate::codec::is_dec_digit(decpart[j - 65]));
        }
    }
    assert(outpoint_split_at(s, 64));
    let pre = s.subrange(0, 64);
    let post = s.subrange(65, s.len() as int);
    assert(pre =~= hexpart);
    assert(post =~= decpart);
    assert(txid_str_ok(pre));
    assert(strip_plus(post) == post) by {
        assert(crate::codec::is_dec_digit(post[0]));
    }
    assert(is_u32_numeral(post));
    assert forall|i: int| outpoint_split_at(s, i) implies i == 64 by {
        assert(s[64] == ':');
    }
}

/// Parsing a canonical `txid:vout` string — lowercase hex id, plain
/// decimal index — and formatting the outpoint again writes the very
/// same string: the codec round-trips in this direction too.
///
/// `i` is the position of the string's colon, and `op` any outpoint that
/// parsing the string yields, as [`parse_outpoint`]'s contract pins it.
pub proof fn lemma_outpoint_parse_format(s: Seq<char>, i: int, op: Outpoint)
    requires
        outpoint_split_at(s, i),
        is_lower_hex_str(s.subrange(0, i)),
        is_canonical_decimal(s.subrange(i + 1, s.len() as int)),
        op.txid@ == hex_decoded(s.subrange(0, i)),
        op.vout as int == dec_value(strip_plus(s.subrange(i + 1, s.len() as int))),
    ensures
        outpoint_chars(op) =~= s,
{
    let pre = s.subrange(0, i);
    let post = s.subrange(i + 1, s.len() as int);
    lemma_hex_decode_encode(pre);
    lemma_dec_parse_format(post);
    assert(strip_plus(post) == post) by {
        assert(crate::codec::is_dec_digit(post[0]));
    }
    assert(hex_encoded(op.txid@) =~= pre);
    assert(dec_chars(op.vout as int) =~= post);
    assert forall|j: int| 0 <= j < s.len() implies outpoint_chars(op)[j] == s[j] by {
        if j < i {
            assert(s[j] == pre[j]);
        } else if j > i {
            assert(s[j] == post[j - i - 1]);
        }
    }
}

} // verus!
