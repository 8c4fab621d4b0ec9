//! BIP341 control-block derivation for single-leaf Taproot trees.
//!
//! A pay-to-taproot output script has exactly 34 bytes: `OP_1`
//! `OP_PUSHBYTES_32` and a 32-byte x-only internal key. The commit
//! transaction of a commit/reveal pair carries such an output; spending it
//! on the script path needs a control block proving that the revealed
//! script is the single leaf of the committed tree. The elliptic-curve
//! work is done by the `bitcoin` crate behind trusted wrappers; everything
//! around it — recognizing the script shape, hex framing, and the
//! structure of the result — is verified.

use vstd::prelude::*;
use vstd::slice::slice_to_vec;

use crate::codec::bytes_to_hex;
use crate::codec::hex_decoded;
use crate::codec::hex_digit_char;
use crate::codec::hex_encoded;
use crate::codec::hex_to_bytes;
use crate::codec::is_hex_str;
use crate::codec::lemma_hex_encoded_concat;

verus! {

/// True of a script with the recognized pay-to-taproot shape: exactly
/// 34 bytes, `OP_1` (0x51), `OP_PUSHBYTES_32` (0x20), then the key.
pub open spec fn is_p2tr_script(s: Seq<u8>) -> bool {
    s.len() == 34 && s[0] == 0x51 && s[1] == 0x20
}

/// The internal-key bytes of a pay-to-taproot script.
pub open spec fn p2tr_internal_key(s: Seq<u8>) -> Seq<u8> {
    s.subrange(2, 34)
}

/// True when 32 bytes are a valid x-only public key, that is, the x
/// coordinate of a secp256k1 curve point.
pub uninterp spec fn xonly_key_ok(key: Seq<u8>) -> bool;

/// The serialized BIP341 control block for a Taproot tree whose single
/// script-path leaf is `leaf_script`, committed to by `internal_key`.
pub uninterp spec fn control_block_bytes(internal_key: Seq<u8>, leaf_script: Seq<u8>) -> Seq<u8>;

/// Relies on `secp256k1::XOnlyPublicKey::from_slice`: it accepts exactly
/// the 32-byte slices that are a valid x coordinate, and validity is a
/// property of the bytes alone.
#[verifier::external_body]
fn xonly_key_check(key: &[u8]) -> (b: bool)
    ensures
        b == xonly_key_ok(key@),
        b ==> key@.len() == 32,
{
    bitcoin::secp256k1::XOnlyPublicKey::from_slice(key).is_ok()
}

/// Relies on `bitcoin::taproot::TaprootBuilder` (one leaf at depth 0,
/// leaf version `TapScript`) and `ControlBlock::serialize`: the result is
/// a function of key and script alone, 33 bytes long — the `TapScript`
/// consensus byte 0xc0 with the output-key parity bit, then the 32
/// internal-key bytes, then the empty Merkle path of a one-leaf tree.
/// For a valid key the derivation always succeeds: one leaf at depth 0
/// always builds, a one-node tree always finalizes, and the control
/// block of the script the tree was built from is always found.
#[verifier::external_body]
fn single_leaf_control_block(key: &[u8], script: &[u8]) -> (r: Option<Vec<u8>>)
    requires
        xonly_key_ok(key@),
    ensures
        r is Some,
        r matches Some(cb) ==> cb@ == control_block_bytes(key@, script@),
        r matches Some(cb) ==> cb@.len() == 33 && cb@.subrange(1, 33) == key@ && (cb@[0] == 0xc0
            || cb@[0] == 0xc1),
{
    let secp = bitcoin::secp256k1::Secp256k1::new();
    let internal_key = match bitcoin::secp256k1::XOnlyPublicKey::from_slice(key) {
        Ok(k) => k,
        Err(_) => return None,
    };
    let script_buf = bitcoin::ScriptBuf::from_bytes(script.to_vec());
    let builder = bitcoin::taproot::TaprootBuilder::new().add_leaf(0, script_buf.clone()).ok()?;
    let info = builder.finalize(&secp, internal_key).ok()?;
    let cb = info.control_block(&(script_buf, bitcoin::taproot::LeafVersion::TapScript))?;
    Some(cb.serialize())
}

/// Extract the internal key from a pay-to-taproot script pubkey.
///
/// Returns the 32 key bytes exactly when the script has the recognized
/// 34-byte shape; any other shape is merely unrecognized, not an error.
pub fn extract_internal_key_from_p2tr(script_pubkey: &[u8]) -> (r: Option<Vec<u8>>)
    ensures
        r is Some <==> is_p2tr_script(script_pubkey@),
        r matches Some(k) ==> k@ == p2tr_internal_key(script_pubkey@) && k@.len() == 32,
{
    if script_pubkey.len() == 34 && script_pubkey[0] == 0x51 && script_pubkey[1] == 0x20 {
        let key = slice_to_vec(&script_pubkey[2..34]);
        Some(key)
    } else {
        None
    }
}

/// What every successful derivation hands back: the lowercase hex text of
/// the 33-byte control block for `key` and `leaf_script` — two digits of
/// the leaf-version/parity byte (`c0` or `c1`), then the 64 hex digits of
/// the internal key itself.
pub open spec fn control_block_hex_ok(h: Seq<char>, key: Seq<u8>, leaf_script: Seq<u8>) -> bool {
    &&& h == hex_encoded(control_block_bytes(key, leaf_script))
    &&& h.len() == 66
    &&& h[0] == 'c'
    &&& (h[1] == '0' || h[1] == '1')
    &&& h.subrange(2, 66) == hex_encoded(key)
}

/// The structure of an encoded control block follows from the trusted
/// facts about its bytes.
proof fn lemma_control_block_hex_structure(cb: Seq<u8>, key: Seq<u8>)
    requires
        cb.len() == 33,
        cb.subrange(1, 33) == key,
        cb[0] == 0xc0 || cb[0] == 0xc1,
    ensures
        hex_encoded(cb).len() == 66,
        hex_encoded(cb)[0] == 'c',
        hex_encoded(cb)[1] == '0' || hex_encoded(cb)[1] == '1',
        hex_encoded(cb).subrange(2, 66) == hex_encoded(key),
{
    let h = hex_encoded(cb);
    assert(h[0] == hex_digit_char(cb[0] as int / 16));
    assert(h[1] == hex_digit_char(cb[0] as int % 16));
    assert(cb =~= seq![cb[0]] + key);
    lemma_hex_encoded_concat(seq![cb[0]], key);
    assert(hex_encoded(seq![cb[0]]).len() == 2);
    assert(h.subrange(2, 66) =~= hex_encoded(key));
}

/// Derive the control block authorizing a script-path spend of a commit
/// output.
///
/// Extracts the internal key from the commit output's script, builds the
/// single-leaf tree whose only leaf is the reveal script, and serializes
/// the control block as hex. Succeeds exactly when the commit script has
/// the recognized pay-to-taproot shape and its key bytes are a valid
/// x-only key; any other input yields `None` — never an error, the
/// result is advisory.
pub fn generate_control_block(commit_tx_output: &[u8], spell_tx_output: &[u8]) -> (r: Option<
    String,
>)
    ensures
        r is Some <==> is_p2tr_script(commit_tx_output@) && xonly_key_ok(
            p2tr_internal_key(commit_tx_output@),
        ),
        r matches Some(h) ==> control_block_hex_ok(
            h@,
            p2tr_internal_key(commit_tx_output@),
            spell_tx_output@,
        ),
{
    let key = match extract_internal_key_from_p2tr(commit_tx_output) {
        Some(k) => k,
        None => {
            return None;
        },
    };
    control_block_from_key_bytes(key.as_slice(), spell_tx_output)
}

/// Derive the control block for a caller-supplied internal key, given as
/// hex.
///
/// The fallback path when the commit script's key cannot be recovered
/// from the script itself: the caller names the key, and the same
/// single-leaf derivation runs. Succeeds exactly when the argument is
/// hex spelling a valid x-only key; malformed hex or an invalid key
/// yields `None`.
pub fn generate_control_block_from_key(public_key_hex: &str, spell_tx_output: &[u8]) -> (r: Option<
    String,
>)
    ensures
        r is Some <==> is_hex_str(public_key_hex@) && xonly_key_ok(hex_decoded(public_key_hex@)),
        r matches Some(h) ==> control_block_hex_ok(
            h@,
            hex_decoded(public_key_hex@),
            spell_tx_output@,
        ),
{
    let key = match hex_to_bytes(public_key_hex) {
        Ok(b) => b,
        Err(_) => {
            return None;
        },
    };
    control_block_from_key_bytes(key.as_slice(), spell_tx_output)
}

/// The shared single-leaf derivation: validate the key bytes, run the
/// trusted curve computation, and frame the result as hex.
fn control_block_from_key_bytes(key: &[u8], leaf_script: &[u8]) -> (r: Option<String>)
    ensures
        r is Some <==> xonly_key_ok(key@),
        r matches Some(h) ==> control_block_hex_ok(h@, key@, leaf_script@),
{
    if !xonly_key_check(key) {
        return None;
    }
    let cb = match single_leaf_control_block(key, leaf_script) {
        Some(cb) => cb,
        None => vstd::pervasive::unreached(),
    };
    let h = bytes_to_hex(cb.as_slice());
    proof {
        lemma_control_block_hex_structure(cb@, key@);
    }
    Some(h)
}

} // verus!
