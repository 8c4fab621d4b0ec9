use bitcoin::secp256k1::Secp256k1;
use bitcoin::secp256k1::XOnlyPublicKey;
use bitcoin::taproot::LeafVersion;
use bitcoin::taproot::TapNodeHash;
use bitcoin::taproot::TapTweakHash;
use bitcoin::ScriptBuf;

use spell_wallet::taproot::extract_internal_key_from_p2tr;
use spell_wallet::taproot::generate_control_block;
use spell_wallet::taproot::generate_control_block_from_key;

// The x coordinate of the secp256k1 generator point: a valid x-only key.
const KEY_HEX: &str = "79be667ef9dcbbac55a06295ce870b07029bfcdb2dce28d959f2815b16f81798";

fn p2tr_script(key: &[u8]) -> Vec<u8> {
    let mut s = vec![0x51u8, 0x20];
    s.extend_from_slice(key);
    s
}

/// Independent BIP341 computation for a single-leaf tree: the leaf hash
/// is the Merkle root, and the control block is the TapScript leaf
/// version with the output-key parity, then the internal key.
fn reference_control_block(key: &[u8], leaf_script: &[u8]) -> String {
    let secp = Secp256k1::new();
    let internal_key = XOnlyPublicKey::from_slice(key).unwrap();
    let script = ScriptBuf::from_bytes(leaf_script.to_vec());
    let root = TapNodeHash::from_script(&script, LeafVersion::TapScript);
    let tweak = TapTweakHash::from_key_and_tweak(internal_key, Some(root)).to_scalar();
    let (_, parity) = internal_key.add_tweak(&secp, &tweak).unwrap();
    let mut cb = vec![0xc0u8 | (i32::from(parity) as u8)];
    cb.extend_from_slice(&internal_key.serialize());
    hex::encode(cb)
}

#[test]
fn extract_key_recognizes_exact_p2tr_shape() {
    let key = hex::decode(KEY_HEX).unwrap();
    let script = p2tr_script(&key);
    assert_eq!(extract_internal_key_from_p2tr(&script), Some(key.clone()));
}

#[test]
fn extract_key_rejects_other_shapes() {
    let key = hex::decode(KEY_HEX).unwrap();
    let good = p2tr_script(&key);

    let mut truncated = good.clone();
    truncated.pop();
    assert_eq!(extract_internal_key_from_p2tr(&truncated), None);

    let mut extended = good.clone();
    extended.push(0x00);
    assert_eq!(extract_internal_key_from_p2tr(&extended), None);

    let mut wrong_first = good.clone();
    wrong_first[0] = 0x52;
    assert_eq!(extract_internal_key_from_p2tr(&wrong_first), None);

    let mut wrong_second = good.clone();
    wrong_second[1] = 0x21;
    assert_eq!(extract_internal_key_from_p2tr(&wrong_second), None);

    assert_eq!(extract_internal_key_from_p2tr(&[]), None);
}

#[test]
fn control_block_matches_independent_bip341_computation() {
    let key = hex::decode(KEY_HEX).unwrap();
    let commit_script = p2tr_script(&key);
    let reveal_script = vec![0x51u8];
    let got = generate_control_block(&commit_script, &reveal_script).unwrap();
    let expected = reference_control_block(&key, &reveal_script);
    assert_eq!(got, expected);
    assert_eq!(got.len(), 66);
    assert!(got.starts_with("c0") || got.starts_with("c1"));
    assert_eq!(&got[2..], KEY_HEX);
}

#[test]
fn control_block_depends_on_the_leaf_script() {
    let key = hex::decode(KEY_HEX).unwrap();
    let commit_script = p2tr_script(&key);
    let a = generate_control_block(&commit_script, &[0x51]).unwrap();
    let b = generate_control_block(&commit_script, &[0x52]).unwrap();
    assert_eq!(a, reference_control_block(&key, &[0x51]));
    assert_eq!(b, reference_control_block(&key, &[0x52]));
}

#[test]
fn control_block_refuses_unrecognized_commit_script() {
    assert_eq!(generate_control_block(&[0x00, 0x14], &[0x51]), None);
    let key = hex::decode(KEY_HEX).unwrap();
    let mut not_p2tr = p2tr_script(&key);
    not_p2tr[0] = 0x00;
    assert_eq!(generate_control_block(&not_p2tr, &[0x51]), None);
}

#[test]
fn control_block_refuses_invalid_internal_key() {
    // 32 bytes of 0xff are not the x coordinate of a curve point.
    let bad_key = vec![0xffu8; 32];
    let commit_script = p2tr_script(&bad_key);
    assert_eq!(generate_control_block(&commit_script, &[0x51]), None);
}

#[test]
fn fallback_key_derivation_matches_script_derivation() {
    let key = hex::decode(KEY_HEX).unwrap();
    let commit_script = p2tr_script(&key);
    let reveal_script = vec![0x51u8, 0x21];
    let from_script = generate_control_block(&commit_script, &reveal_script).unwrap();
    let from_key = generate_control_block_from_key(KEY_HEX, &reveal_script).unwrap();
    assert_eq!(from_script, from_key);
}

#[test]
fn fallback_key_derivation_rejects_bad_keys() {
    assert_eq!(generate_control_block_from_key("zz", &[0x51]), None);
    assert_eq!(generate_control_block_from_key("abcd", &[0x51]), None);
    let bad_key = "ff".repeat(32);
    assert_eq!(generate_control_block_from_key(&bad_key, &[0x51]), None);
}
