//! The internal error taxonomy, before it collapses at the boundary.

use signer_boundary::registry::{BoundaryError, SignerRegistry};

const MNEMONIC: &str = "summer summer summer summer summer summer summer summer summer summer summer summer summer summer summer summer summer summer summer summer summer summer summer summer";
const PATH: &str = "m/1852'/1815'/0'/0/0";

fn bytes(s: &str) -> Option<Vec<u8>> {
    Some(s.as_bytes().to_vec())
}

#[test]
fn missing_inputs_reported() {
    let mut reg = SignerRegistry::new();
    assert_eq!(
        reg.try_new_mnemonic(None, bytes(PATH)),
        Err(BoundaryError::MissingInput)
    );
    assert_eq!(
        reg.try_new_mnemonic(bytes(MNEMONIC), None),
        Err(BoundaryError::MissingInput)
    );
    assert_eq!(reg.try_new_bech32(None, None), Err(BoundaryError::MissingInput));
    assert_eq!(reg.try_new_cli(None), Err(BoundaryError::MissingInput));
    assert_eq!(
        reg.try_sign_transaction(None, bytes("00")),
        Err(BoundaryError::MissingInput)
    );
    assert_eq!(reg.try_get_public_key(None), Err(BoundaryError::MissingInput));
}

#[test]
fn invalid_encoding_reported() {
    let mut reg = SignerRegistry::new();
    let not_text = Some(vec![0xffu8, 0xfe]);
    assert_eq!(
        reg.try_new_mnemonic(not_text.clone(), bytes(PATH)),
        Err(BoundaryError::InvalidEncoding)
    );
    assert_eq!(
        reg.try_new_mnemonic(bytes(MNEMONIC), not_text.clone()),
        Err(BoundaryError::InvalidEncoding)
    );
    assert_eq!(reg.try_new_cli(not_text), Err(BoundaryError::InvalidEncoding));
}

#[test]
fn invalid_path_reported() {
    let mut reg = SignerRegistry::new();
    assert_eq!(
        reg.try_new_mnemonic(bytes(MNEMONIC), bytes("m/oops")),
        Err(BoundaryError::InvalidDerivationPath)
    );
    assert_eq!(
        reg.try_new_bech32(bytes("xprv1whatever"), bytes("m/1852'/")),
        Err(BoundaryError::InvalidDerivationPath)
    );
}

#[test]
fn capability_failure_reported() {
    let mut reg = SignerRegistry::new();
    assert_eq!(
        reg.try_new_mnemonic(bytes("definitely not a phrase"), bytes(PATH)),
        Err(BoundaryError::CapabilityFailure)
    );
    assert_eq!(
        reg.try_new_bech32(bytes("not bech32"), bytes(PATH)),
        Err(BoundaryError::CapabilityFailure)
    );
    assert_eq!(reg.try_new_cli(bytes("zz")), Err(BoundaryError::CapabilityFailure));
    let h = reg.try_new_mnemonic(bytes(MNEMONIC), bytes(PATH)).unwrap();
    assert_eq!(
        reg.try_sign_transaction(Some(h), bytes("not a transaction")),
        Err(BoundaryError::CapabilityFailure)
    );
}

#[test]
fn unknown_handle_reported() {
    let mut reg = SignerRegistry::new();
    let h = reg.try_new_mnemonic(bytes(MNEMONIC), bytes(PATH)).unwrap();
    reg.signer_free(Some(h));
    assert_eq!(
        reg.try_sign_transaction(Some(h), bytes("00")),
        Err(BoundaryError::UnknownHandle)
    );
    assert_eq!(reg.try_get_public_key(Some(h)), Err(BoundaryError::UnknownHandle));
}

#[test]
fn failed_construction_leaves_registry_unchanged() {
    let mut reg = SignerRegistry::new();
    let h = reg.signer_new_mnemonic(bytes(MNEMONIC), bytes(PATH));
    assert!(reg.signer_new_mnemonic(bytes("bad phrase"), bytes(PATH)).is_none());
    assert!(reg.signer_new_cli(Some(vec![0xff])).is_none());
    assert!(reg.signer_get_public_key(h).is_some());
}
