//! The capability provider: account derivation, transaction signing and
//! public-key export, reached through trusted wrappers. Everything the
//! provider computes is deterministic in its inputs, so each outcome is
//! named as a function of the construction source (and, for signing, the
//! payload).

use vstd::prelude::*;
use whisky_common::WError;
use whisky_wallet::derivation_indices::DerivationIndices;
use whisky_wallet::{Account, MnemonicWallet, RootKeyWallet, Wallet, WalletType};
use crate::text::hex_bytes;

verus! {

/// The provider's account type. Opaque here: the library never looks inside
/// it; it only asks it to sign and to render its public key.
#[verifier::external_type_specification]
#[verifier::external_body]
pub struct ExAccount(Account);

/// The provider's error type. Carried only to be collapsed into the
/// library's own error kind; no field of it is ever read.
#[verifier::external_type_specification]
#[verifier::external_body]
pub struct ExWError(WError);

/// Validated construction parameters for one signer, one variant per entry
/// point of the boundary.
pub enum SignerSource {
    /// A mnemonic phrase and the indices of a derivation path.
    Phrase { phrase: String, indices: Vec<u32> },
    /// A bech32-encoded extended root key and the indices of a derivation
    /// path.
    ExtendedKey { key: String, indices: Vec<u32> },
    /// A single hex-encoded signing key, used as the account key directly.
    DirectKey { key: String },
}

/// The mathematical image of a `SignerSource`.
pub enum SourceView {
    Phrase { phrase: Seq<char>, indices: Seq<u32> },
    ExtendedKey { key: Seq<char>, indices: Seq<u32> },
    DirectKey { key: Seq<char> },
}

impl View for SignerSource {
    type V = SourceView;

    open spec fn view(&self) -> SourceView {
        match self {
            SignerSource::Phrase { phrase, indices } => (SourceView::Phrase {
                phrase: phrase@,
                indices: indices@,
            }),
            SignerSource::ExtendedKey { key, indices } => (SourceView::ExtendedKey {
                key: key@,
                indices: indices@,
            }),
            SignerSource::DirectKey { key } => (SourceView::DirectKey { key: key@ }),
        }
    }
}

/// Whether the provider can derive an account from a source. Derivation is
/// a pure computation (phrase to entropy, child-key derivation, bech32 or
/// hex decoding), so success is a function of the source alone.
pub uninterp spec fn account_ok(src: SourceView) -> bool;

/// The hex rendering of the public key of the account derived from `src`.
pub uninterp spec fn public_key_hex(src: SourceView) -> Seq<u8>;

/// The outcome of asking the account derived from `src` to sign the payload
/// `tx`: the signed transaction's hex bytes, or nothing when the payload is
/// rejected. Signing is deterministic, so the outcome is a function of the
/// source and the payload alone.
pub uninterp spec fn sign_outcome(src: SourceView, tx: Seq<char>) -> Option<Seq<u8>>;

/// An opaque capsule holding one derived account together with the exact
/// source it was derived from. The fields are private: the only constructor
/// is `provider_derive`, which pairs an account with its own source, so a
/// signer's account always belongs to `self.src()`.
pub struct CSigner {
    account: Account,
    source: SignerSource,
}

impl CSigner {
    /// The source this signer's account was derived from.
    pub closed spec fn src(&self) -> SourceView {
        self.source@
    }
}

/// Relies on `whisky_wallet::Wallet::get_account`: a deterministic, pure
/// derivation of an account from the wallet description (mnemonic phrase to
/// entropy and child-key derivation; bech32 decoding of an extended key; hex
/// decoding of a direct key), returning `Err` exactly when the key material
/// cannot be decoded or validated. It never panics and reads no state
/// outside its arguments.
#[verifier::external_body]
pub(crate) fn provider_derive(source: SignerSource) -> (r: Result<CSigner, WError>)
    ensures
        (r is Ok) == account_ok(source@),
        (r matches Ok(s) ==> s.src() == source@),
{
    let wallet_type = match &source {
        SignerSource::Phrase { phrase, indices } => WalletType::MnemonicWallet(MnemonicWallet {
            mnemonic_phrase: phrase.clone(),
            derivation_indices: DerivationIndices(indices.clone()),
        }),
        SignerSource::ExtendedKey { key, indices } => WalletType::RootKeyWallet(RootKeyWallet {
            root_key: key.clone(),
            derivation_indices: DerivationIndices(indices.clone()),
        }),
        SignerSource::DirectKey { key } => WalletType::Cli(key.clone()),
    };
    Wallet::get_account(&wallet_type).map(|account| CSigner { account, source })
}

/// Relies on `whisky_wallet::Account::sign_transaction`: it parses the
/// payload as a transaction, signs its hash with the account's key
/// (deterministically) and returns the signed transaction as lowercase hex,
/// or `Err` when the decoded bytes do not parse as a transaction. Its hex
/// decoding step aborts on text that is not even-length hexadecimal, so the
/// payload is required to be a well-formed hex payload; on those it never
/// panics.
#[verifier::external_body]
pub(crate) fn provider_sign(signer: &CSigner, tx: &str) -> (r: Result<Vec<u8>, WError>)
    requires
        crate::text::hex_payload(tx@),
    ensures
        (r matches Ok(v) ==> sign_outcome(signer.src(), tx@) == Some(v@) && hex_bytes(v@)),
        (r is Err ==> sign_outcome(signer.src(), tx@) is None),
{
    signer.account.sign_transaction(tx).map(String::into_bytes)
}

/// Relies on `PublicKey::to_hex` of the provider's key type: `hex::encode`
/// of the 32-byte account public key — exactly 64 lowercase hex digit
/// bytes, deterministic in the key. It never panics.
#[verifier::external_body]
pub(crate) fn provider_public_key(signer: &CSigner) -> (r: Vec<u8>)
    ensures
        r@ == public_key_hex(signer.src()),
        hex_bytes(r@),
        r@.len() == 64,
{
    signer.account.public_key.to_hex().into_bytes()
}

/// Law: derivation, public-key export and signing are deterministic — equal
/// construction sources yield the same derivation outcome, byte-identical
/// exported public keys, and the same signing outcome for any payload.
pub proof fn lemma_provider_deterministic(a: SourceView, b: SourceView, tx: Seq<char>)
    requires
        a == b,
    ensures
        account_ok(a) == account_ok(b),
        public_key_hex(a) == public_key_hex(b),
        sign_outcome(a, tx) == sign_outcome(b, tx),
{
}

} // verus!
