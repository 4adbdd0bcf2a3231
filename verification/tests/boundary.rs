//! End-to-end runs of the boundary against the real capability provider.

use signer_boundary::registry::SignerRegistry;

const MNEMONIC: &str = "summer summer summer summer summer summer summer summer summer summer summer summer summer summer summer summer summer summer summer summer summer summer summer summer";
const PATH: &str = "m/1852'/1815'/0'/0/0";
const TX_HEX: &str = "84a4008182582004509185eb98edd8e2420c1ceea914d6a7a3142041039b2f12b4d4f03162d56f04018282581d605867c3b8e27840f556ac268b781578b14c5661fc63ee720dbeab663f1a000f42408258390004845038ee499ee8bc0afe56f688f27b2dd76f230d3698a9afcc1b66e0464447c1f51adaefe1ebfb0dd485a349a70479ced1d198cbdf7fe71a15d35396021a0002917d075820bdaa99eb158414dea0a91d6c727e2268574b23efe6e08ab3b841abe8059a030ca0f5d90103a0";
const SIGNED_TX_HEX: &str = "84a4008182582004509185eb98edd8e2420c1ceea914d6a7a3142041039b2f12b4d4f03162d56f04018282581d605867c3b8e27840f556ac268b781578b14c5661fc63ee720dbeab663f1a000f42408258390004845038ee499ee8bc0afe56f688f27b2dd76f230d3698a9afcc1b66e0464447c1f51adaefe1ebfb0dd485a349a70479ced1d198cbdf7fe71a15d35396021a0002917d075820bdaa99eb158414dea0a91d6c727e2268574b23efe6e08ab3b841abe8059a030ca1008182582089f4b576f05f5aad99bce0bdd51afe48529772f7561bb2ac9d84a4afbda1ecd658404cd1466fcc4579fa9c89656dbbd25ca659cccf2d2783417ef13a1b060bf836fbe8383c10e25c6fa323c1c81a0799e87e6cf3eaa25990113b27953a9836635a01f5d90103a0";
const ROOT_KEY: &str = "xprv1cqa46gk29plgkg98upclnjv5t425fcpl4rgf9mq2txdxuga7jfq5shk7np6l55nj00sl3m4syzna3uwgrwppdm0azgy9d8zahyf32s62klfyhe0ayyxkc7x92nv4s77fa0v25tufk9tnv7x6dgexe9kdz5gpeqgu";
const ROOT_SIGNED_TX_HEX: &str = "84a4008182582004509185eb98edd8e2420c1ceea914d6a7a3142041039b2f12b4d4f03162d56f04018282581d605867c3b8e27840f556ac268b781578b14c5661fc63ee720dbeab663f1a000f42408258390004845038ee499ee8bc0afe56f688f27b2dd76f230d3698a9afcc1b66e0464447c1f51adaefe1ebfb0dd485a349a70479ced1d198cbdf7fe71a15d35396021a0002917d075820bdaa99eb158414dea0a91d6c727e2268574b23efe6e08ab3b841abe8059a030ca10081825820c32dfdb461dd016e8fdd9b6d424a77439eab8f8c644a804b013b6cefa2454f9558402bfcad51fc81ecf7bd2e0fb3dbda51630d9457353e30f8cc04e12737d2753ec712148e34f78d5633ceb99e004534cc22216b265bc308a1f154952eaf72ae2e0df5d90103a0";

fn bytes(s: &str) -> Option<Vec<u8>> {
    Some(s.as_bytes().to_vec())
}

#[test]
fn mnemonic_handle_and_public_key() {
    let mut reg = SignerRegistry::new();
    let h = reg.signer_new_mnemonic(bytes(MNEMONIC), bytes(PATH));
    assert!(h.is_some());
    let key = reg.signer_get_public_key(h).expect("public key owed on a live handle");
    assert_eq!(key.len(), 64);
    assert!(key.iter().all(|b| b.is_ascii_hexdigit()));
    assert_eq!(
        key,
        b"89f4b576f05f5aad99bce0bdd51afe48529772f7561bb2ac9d84a4afbda1ecd6".to_vec()
    );
}

#[test]
fn mnemonic_sign_transaction_exact() {
    let mut reg = SignerRegistry::new();
    let h = reg.signer_new_mnemonic(bytes(MNEMONIC), bytes(PATH));
    let sig = reg.signer_sign_transaction(h, bytes(TX_HEX)).expect("well-formed payload signs");
    assert_eq!(sig, SIGNED_TX_HEX.as_bytes().to_vec());
}

#[test]
fn bech32_sign_transaction_exact() {
    let mut reg = SignerRegistry::new();
    let h = reg.signer_new_bech32(bytes(ROOT_KEY), bytes(PATH));
    assert!(h.is_some());
    let sig = reg.signer_sign_transaction(h, bytes(TX_HEX)).expect("well-formed payload signs");
    assert_eq!(sig, ROOT_SIGNED_TX_HEX.as_bytes().to_vec());
}

#[test]
fn cli_key_constructs() {
    let mut reg = SignerRegistry::new();
    let key = "0000000000000000000000000000000000000000000000000000000000000000";
    let h = reg.signer_new_cli(bytes(key));
    assert!(h.is_some());
    let pk = reg.signer_get_public_key(h).expect("public key owed on a live handle");
    assert_eq!(pk.len(), 64);
}

#[test]
fn absent_inputs_collapse_to_none() {
    let mut reg = SignerRegistry::new();
    assert!(reg.signer_new_mnemonic(bytes(MNEMONIC), None).is_none());
    assert!(reg.signer_new_mnemonic(None, bytes(PATH)).is_none());
    assert!(reg.signer_new_bech32(None, bytes(PATH)).is_none());
    assert!(reg.signer_new_cli(None).is_none());
    assert!(reg.signer_sign_transaction(None, bytes(TX_HEX)).is_none());
    assert!(reg.signer_get_public_key(None).is_none());
}

#[test]
fn direct_key_rejects_non_text_bytes() {
    let mut reg = SignerRegistry::new();
    assert!(reg.signer_new_cli(Some(vec![0xf0u8, 0x28, 0x8c, 0x28])).is_none());
}

#[test]
fn path_without_separator_uses_root_key() {
    let mut reg = SignerRegistry::new();
    let h = reg.signer_new_mnemonic(bytes(MNEMONIC), bytes("m"));
    assert!(h.is_some());
    let key = reg.signer_get_public_key(h).unwrap();
    assert_eq!(key.len(), 64);
    let h2 = reg.signer_new_mnemonic(bytes(MNEMONIC), bytes(""));
    let key2 = reg.signer_get_public_key(h2).unwrap();
    assert_eq!(key, key2);
}

#[test]
fn cli_key_rejects_bad_hex() {
    let mut reg = SignerRegistry::new();
    assert!(reg.signer_new_cli(bytes("zz")).is_none());
}

#[test]
fn repeated_construction_is_deterministic() {
    let mut reg = SignerRegistry::new();
    let h1 = reg.signer_new_mnemonic(bytes(MNEMONIC), bytes(PATH));
    let h2 = reg.signer_new_mnemonic(bytes(MNEMONIC), bytes(PATH));
    let k1 = reg.signer_get_public_key(h1).unwrap();
    let k2 = reg.signer_get_public_key(h2).unwrap();
    assert_eq!(k1, k2);
}

#[test]
fn operations_repeat_in_any_order() {
    let mut reg = SignerRegistry::new();
    let h = reg.signer_new_mnemonic(bytes(MNEMONIC), bytes(PATH));
    let k1 = reg.signer_get_public_key(h).unwrap();
    let s1 = reg.signer_sign_transaction(h, bytes(TX_HEX)).unwrap();
    let k2 = reg.signer_get_public_key(h).unwrap();
    let s2 = reg.signer_sign_transaction(h, bytes(TX_HEX)).unwrap();
    assert_eq!(k1, k2);
    assert_eq!(s1, s2);
}

#[test]
fn sign_failure_leaves_handle_usable() {
    let mut reg = SignerRegistry::new();
    let h = reg.signer_new_mnemonic(bytes(MNEMONIC), bytes(PATH));
    let bad_payload = Some(vec![0xffu8, 0xfe, 0xfd]);
    assert!(reg.signer_sign_transaction(h, bad_payload).is_none());
    assert!(reg.signer_sign_transaction(h, bytes("not a transaction")).is_none());
    assert!(reg.signer_get_public_key(h).is_some());
}

#[test]
fn construct_then_release_round_trip() {
    let mut reg = SignerRegistry::new();
    let h = reg.signer_new_mnemonic(bytes(MNEMONIC), bytes(PATH));
    assert!(h.is_some());
    reg.signer_free(h);
    assert!(reg.signer_get_public_key(h).is_none());
}

#[test]
fn release_twice_is_detected_not_fatal() {
    let mut reg = SignerRegistry::new();
    let h = reg.signer_new_mnemonic(bytes(MNEMONIC), bytes(PATH));
    reg.signer_free(h);
    reg.signer_free(h);
    assert!(reg.signer_sign_transaction(h, bytes(TX_HEX)).is_none());
}

#[test]
fn release_absent_is_noop() {
    let mut reg = SignerRegistry::new();
    reg.signer_free(None);
    signer_boundary::text::signer_free_string(None);
    signer_boundary::text::signer_free_string(Some(b"abc".to_vec()));
}

#[test]
fn released_handle_does_not_disturb_others() {
    let mut reg = SignerRegistry::new();
    let h1 = reg.signer_new_mnemonic(bytes(MNEMONIC), bytes(PATH));
    let h2 = reg.signer_new_bech32(bytes(ROOT_KEY), bytes(PATH));
    reg.signer_free(h1);
    assert!(reg.signer_get_public_key(h1).is_none());
    assert!(reg.signer_get_public_key(h2).is_some());
}
