//! The boundary itself: opaque handles over a slot registry, three
//! construction entry points, the two operations, and the release
//! operations. Internally every failure is a tagged error; at the outermost
//! boundary it collapses into a uniform absent value.

use vstd::prelude::*;
use crate::path::{parse_derivation_path, path_indices};
use crate::provider::{
    account_ok, provider_derive, provider_public_key, provider_sign, public_key_hex, sign_outcome,
    CSigner, SignerSource, SourceView,
};
use crate::text::{
    check_hex_payload, decode_utf8, hex_payload, lemma_hex_bytes_nul_free, make_transferable,
    utf8_decode,
};

verus! {

/// Why a request produced no value. Never surfaced across the boundary:
/// the boundary collapses every kind into the absent value.
#[derive(Clone, Copy, Debug, PartialEq, Eq, Structural)]
pub enum BoundaryError {
    /// A required input was absent.
    MissingInput,
    /// A supplied byte string did not decode as text.
    InvalidEncoding,
    /// A derivation path did not match the path grammar.
    InvalidDerivationPath,
    /// The handle names no live signer: it was never issued, or was
    /// released. Detecting this (instead of leaving it undefined) is a
    /// deliberate strengthening of the handle contract.
    UnknownHandle,
    /// The provider rejected the key material or the payload.
    CapabilityFailure,
    /// The result could not be represented as a terminator-free string.
    OutputEncodingFailure,
}

/// An opaque, caller-owned reference to one constructed signer. Valid from
/// the moment it is returned until it is passed to `signer_free`.
#[derive(Clone, Copy, Debug, PartialEq, Eq, Structural)]
pub struct Handle {
    id: usize,
}

impl View for Handle {
    type V = int;

    closed spec fn view(&self) -> int {
        self.id as int
    }
}

/// The registry of live signers. A handle is an index into it; a released
/// slot is kept as a tombstone, so a handle is never reissued and a released
/// handle is detected rather than misread.
pub struct SignerRegistry {
    slots: Vec<Option<CSigner>>,
}

impl View for SignerRegistry {
    type V = Seq<Option<SourceView>>;

    closed spec fn view(&self) -> Seq<Option<SourceView>> {
        self.slots@.map_values(
            |slot: Option<CSigner>|
                match slot {
                    Some(signer) => Some(signer.src()),
                    None => None,
                },
        )
    }
}

/// The source a phrase-based request describes, when both inputs are
/// present, both decode as text, and the path matches the grammar.
pub open spec fn phrase_request(phrase: Option<Vec<u8>>, path: Option<Vec<u8>>) -> Option<
    SourceView,
> {
    match (phrase, path) {
        (Some(pb), Some(db)) => match (utf8_decode(pb@), utf8_decode(db@), path_indices(db@)) {
            (Some(p), Some(_), Some(idx)) => Some(
                (SourceView::Phrase { phrase: p, indices: idx }),
            ),
            _ => None,
        },
        _ => None,
    }
}

/// The source an extended-key request describes.
pub open spec fn extended_key_request(key: Option<Vec<u8>>, path: Option<Vec<u8>>) -> Option<
    SourceView,
> {
    match (key, path) {
        (Some(kb), Some(db)) => match (utf8_decode(kb@), utf8_decode(db@), path_indices(db@)) {
            (Some(k), Some(_), Some(idx)) => Some(
                (SourceView::ExtendedKey { key: k, indices: idx }),
            ),
            _ => None,
        },
        _ => None,
    }
}

/// The source a direct-key request describes.
pub open spec fn direct_key_request(key: Option<Vec<u8>>) -> Option<SourceView> {
    match key {
        Some(kb) => match utf8_decode(kb@) {
            Some(k) => Some((SourceView::DirectKey { key: k })),
            None => None,
        },
        None => None,
    }
}

impl SignerRegistry {
    /// A fresh registry holding no signer.
    pub fn new() -> (r: SignerRegistry)
        ensures
            r@ =~= Seq::<Option<SourceView>>::empty(),
    {
        SignerRegistry { slots: Vec::new() }
    }

    /// A handle is live when it names a slot still holding a signer.
    pub open spec fn live(&self, h: Handle) -> bool {
        0 <= h@ < self@.len() && self@[h@] is Some
    }

    /// Hands a validated source to the provider and, on success, installs
    /// the derived signer in a fresh slot.
    fn install(&mut self, source: SignerSource) -> (r: Result<Handle, BoundaryError>)
        ensures
            match r {
                Ok(h) => account_ok(source@) && final(self)@ =~= old(self)@.push(Some(source@)) && h@
                    == old(self)@.len(),
                Err(e) => !account_ok(source@) && e == BoundaryError::CapabilityFailure
                    && final(self)@ =~= old(self)@,
            },
    {
        let ghost src = source@;
        match provider_derive(source) {
            Ok(signer) => {
                let id = self.slots.len();
                self.slots.push(Some(signer));
                proof {
                    assert(self@ =~= old(self)@.push(Some(src)));
                }
                Ok(Handle { id })
            },
            Err(_) => Err(BoundaryError::CapabilityFailure),
        }
    }

    /// Constructs a signer from a mnemonic phrase and a derivation path,
    /// reporting exactly why it could not.
    pub fn try_new_mnemonic(
        &mut self,
        mnemonic_phrase: Option<Vec<u8>>,
        derivation_path: Option<Vec<u8>>,
    ) -> (r: Result<Handle, BoundaryError>)
        ensures
            match r {
                Ok(h) => ({
                    &&& phrase_request(mnemonic_phrase, derivation_path) matches Some(src)
                    &&& account_ok(src)
                    &&& final(self)@ =~= old(self)@.push(Some(src))
                    &&& h@ == old(self)@.len()
                    &&& final(self).live(h)
                }),
                Err(e) => final(self)@ =~= old(self)@ && (match e {
                    BoundaryError::MissingInput => mnemonic_phrase is None || derivation_path
                        is None,
                    BoundaryError::InvalidEncoding => ({
                        &&& mnemonic_phrase matches Some(pb)
                        &&& derivation_path matches Some(db)
                        &&& (utf8_decode(pb@) is None || utf8_decode(db@) is None)
                    }),
                    BoundaryError::InvalidDerivationPath => ({
                        &&& mnemonic_phrase matches Some(pb)
                        &&& derivation_path matches Some(db)
                        &&& utf8_decode(pb@) is Some
                        &&& utf8_decode(db@) is Some
                        &&& path_indices(db@) is None
                    }),
                    BoundaryError::CapabilityFailure => ({
                        &&& phrase_request(mnemonic_phrase, derivation_path) matches Some(src)
                        &&& !account_ok(src)
                    }),
                    _ => false,
                }),
            },
    {
        let phrase_vec = match mnemonic_phrase {
            Some(b) => b,
            None => {
                return Err(BoundaryError::MissingInput);
            },
        };
        let path_vec = match derivation_path {
            Some(b) => b,
            None => {
                return Err(BoundaryError::MissingInput);
            },
        };
        let phrase = match decode_utf8(phrase_vec) {
            Some(s) => s,
            None => {
                return Err(BoundaryError::InvalidEncoding);
            },
        };
        let parsed = parse_derivation_path(path_vec.as_slice());
        if decode_utf8(path_vec).is_none() {
            return Err(BoundaryError::InvalidEncoding);
        }
        let indices = match parsed {
            Some(v) => v,
            None => {
                return Err(BoundaryError::InvalidDerivationPath);
            },
        };
        self.install(SignerSource::Phrase { phrase, indices })
    }

    /// Constructs a signer from a bech32 extended root key and a derivation
    /// path, reporting exactly why it could not.
    pub fn try_new_bech32(
        &mut self,
        root_private_key: Option<Vec<u8>>,
        derivation_path: Option<Vec<u8>>,
    ) -> (r: Result<Handle, BoundaryError>)
        ensures
            match r {
                Ok(h) => ({
                    &&& extended_key_request(root_private_key, derivation_path) matches Some(src)
                    &&& account_ok(src)
                    &&& final(self)@ =~= old(self)@.push(Some(src))
                    &&& h@ == old(self)@.len()
                    &&& final(self).live(h)
                }),
                Err(e) => final(self)@ =~= old(self)@ && (match e {
                    BoundaryError::MissingInput => root_private_key is None || derivation_path
                        is None,
                    BoundaryError::InvalidEncoding => ({
                        &&& root_private_key matches Some(kb)
                        &&& derivation_path matches Some(db)
                        &&& (utf8_decode(kb@) is None || utf8_decode(db@) is None)
                    }),
                    BoundaryError::InvalidDerivationPath => ({
                        &&& root_private_key matches Some(kb)
                        &&& derivation_path matches Some(db)
                        &&& utf8_decode(kb@) is Some
                        &&& utf8_decode(db@) is Some
                        &&& path_indices(db@) is None
                    }),
                    BoundaryError::CapabilityFailure => ({
                        &&& extended_key_request(root_private_key, derivation_path) matches Some(
                            src,
                        )
                        &&& !account_ok(src)
                    }),
                    _ => false,
                }),
            },
    {
        let key_vec = match root_private_key {
            Some(b) => b,
            None => {
                return Err(BoundaryError::MissingInput);
            },
        };
        let path_vec = match derivation_path {
            Some(b) => b,
            None => {
                return Err(BoundaryError::MissingInput);
            },
        };
        let key = match decode_utf8(key_vec) {
            Some(s) => s,
            None => {
                return Err(BoundaryError::InvalidEncoding);
            },
        };
        let parsed = parse_derivation_path(path_vec.as_slice());
        if decode_utf8(path_vec).is_none() {
            return Err(BoundaryError::InvalidEncoding);
        }
        let indices = match parsed {
            Some(v) => v,
            None => {
                return Err(BoundaryError::InvalidDerivationPath);
            },
        };
        self.install(SignerSource::ExtendedKey { key, indices })
    }

    /// Constructs a signer from a single hex-encoded signing key, reporting
    /// exactly why it could not.
    pub fn try_new_cli(&mut self, ed25519_key: Option<Vec<u8>>) -> (r: Result<
        Handle,
        BoundaryError,
    >)
        ensures
            match r {
                Ok(h) => ({
                    &&& direct_key_request(ed25519_key) matches Some(src)
                    &&& account_ok(src)
                    &&& final(self)@ =~= old(self)@.push(Some(src))
                    &&& h@ == old(self)@.len()
                    &&& final(self).live(h)
                }),
                Err(e) => final(self)@ =~= old(self)@ && (match e {
                    BoundaryError::MissingInput => ed25519_key is None,
                    BoundaryError::InvalidEncoding => ({
                        &&& ed25519_key matches Some(kb)
                        &&& utf8_decode(kb@) is None
                    }),
                    BoundaryError::CapabilityFailure => ({
                        &&& direct_key_request(ed25519_key) matches Some(src)
                        &&& !account_ok(src)
                    }),
                    _ => false,
                }),
            },
    {
        let key_vec = match ed25519_key {
            Some(b) => b,
            None => {
                return Err(BoundaryError::MissingInput);
            },
        };
        let key = match decode_utf8(key_vec) {
            Some(s) => s,
            None => {
                return Err(BoundaryError::InvalidEncoding);
            },
        };
        self.install(SignerSource::DirectKey { key })
    }

    /// Signs a payload with a live signer, reporting exactly why it could
    /// not. Read-only: the registry is untouched, so any number of such
    /// calls may be issued in any order.
    pub fn try_sign_transaction(&self, signer: Option<Handle>, tx_hex: Option<Vec<u8>>) -> (r:
        Result<Vec<u8>, BoundaryError>)
        ensures
            match r {
                Ok(v) => ({
                    &&& signer matches Some(h)
                    &&& self.live(h)
                    &&& self@[h@] matches Some(src)
                    &&& tx_hex matches Some(tb)
                    &&& utf8_decode(tb@) matches Some(t)
                    &&& hex_payload(t)
                    &&& sign_outcome(src, t) == Some(v@)
                }),
                Err(e) => match e {
                    BoundaryError::MissingInput => signer is None || tx_hex is None,
                    BoundaryError::UnknownHandle => ({
                        &&& signer matches Some(h)
                        &&& tx_hex is Some
                        &&& !self.live(h)
                    }),
                    BoundaryError::InvalidEncoding => ({
                        &&& signer matches Some(h)
                        &&& self.live(h)
                        &&& tx_hex matches Some(tb)
                        &&& utf8_decode(tb@) is None
                    }),
                    BoundaryError::CapabilityFailure => ({
                        &&& signer matches Some(h)
                        &&& self.live(h)
                        &&& self@[h@] matches Some(src)
                        &&& tx_hex matches Some(tb)
                        &&& utf8_decode(tb@) matches Some(t)
                        &&& !(hex_payload(t) && sign_outcome(src, t) is Some)
                    }),
                    _ => false,
                },
            },
    {
        let h = match signer {
            Some(h) => h,
            None => {
                return Err(BoundaryError::MissingInput);
            },
        };
        let tx_vec = match tx_hex {
            Some(b) => b,
            None => {
                return Err(BoundaryError::MissingInput);
            },
        };
        if h.id >= self.slots.len() {
            return Err(BoundaryError::UnknownHandle);
        }
        let found = match &self.slots[h.id] {
            Some(signer_ref) => signer_ref,
            None => {
                return Err(BoundaryError::UnknownHandle);
            },
        };
        let tx = match decode_utf8(tx_vec) {
            Some(s) => s,
            None => {
                return Err(BoundaryError::InvalidEncoding);
            },
        };
        if !check_hex_payload(tx.as_str()) {
            return Err(BoundaryError::CapabilityFailure);
        }
        let raw = match provider_sign(found, tx.as_str()) {
            Ok(v) => v,
            Err(_) => {
                return Err(BoundaryError::CapabilityFailure);
            },
        };
        proof {
            lemma_hex_bytes_nul_free(raw@);
        }
        match make_transferable(raw) {
            Some(v) => Ok(v),
            None => Err(BoundaryError::OutputEncodingFailure),
        }
    }

    /// Exports the public key of a live signer as hex text, reporting
    /// exactly why it could not. Owed to succeed on every live handle.
    /// Read-only: the registry is untouched.
    pub fn try_get_public_key(&self, signer: Option<Handle>) -> (r: Result<Vec<u8>, BoundaryError>)
        ensures
            match r {
                Ok(v) => ({
                    &&& signer matches Some(h)
                    &&& self.live(h)
                    &&& self@[h@] matches Some(src)
                    &&& v@ == public_key_hex(src)
                    &&& v@.len() == 64
                }),
                Err(e) => match e {
                    BoundaryError::MissingInput => signer is None,
                    BoundaryError::UnknownHandle => ({
                        &&& signer matches Some(h)
                        &&& !self.live(h)
                    }),
                    _ => false,
                },
            },
    {
        let h = match signer {
            Some(h) => h,
            None => {
                return Err(BoundaryError::MissingInput);
            },
        };
        if h.id >= self.slots.len() {
            return Err(BoundaryError::UnknownHandle);
        }
        let found = match &self.slots[h.id] {
            Some(signer_ref) => signer_ref,
            None => {
                return Err(BoundaryError::UnknownHandle);
            },
        };
        let raw = provider_public_key(found);
        proof {
            lemma_hex_bytes_nul_free(raw@);
        }
        match make_transferable(raw) {
            Some(v) => Ok(v),
            None => Err(BoundaryError::OutputEncodingFailure),
        }
    }

    /// Constructs a signer from a mnemonic phrase and a derivation path.
    /// On any failure — absent input, text that does not decode, a
    /// malformed path, or rejected key material — no handle is produced and
    /// the registry is unchanged.
    pub fn signer_new_mnemonic(
        &mut self,
        mnemonic_phrase: Option<Vec<u8>>,
        derivation_path: Option<Vec<u8>>,
    ) -> (r: Option<Handle>)
        ensures
            match r {
                Some(h) => ({
                    &&& phrase_request(mnemonic_phrase, derivation_path) matches Some(src)
                    &&& account_ok(src)
                    &&& final(self)@ =~= old(self)@.push(Some(src))
                    &&& h@ == old(self)@.len()
                    &&& final(self).live(h)
                }),
                None => final(self)@ =~= old(self)@ && !(phrase_request(
                    mnemonic_phrase,
                    derivation_path,
                ) matches Some(src) && account_ok(src)),
            },
    {
        match self.try_new_mnemonic(mnemonic_phrase, derivation_path) {
            Ok(h) => Some(h),
            Err(_) => None,
        }
    }

    /// Constructs a signer from a bech32 extended root key and a derivation
    /// path, collapsing every failure into the absent value.
    pub fn signer_new_bech32(
        &mut self,
        root_private_key: Option<Vec<u8>>,
        derivation_path: Option<Vec<u8>>,
    ) -> (r: Option<Handle>)
        ensures
            match r {
                Some(h) => ({
                    &&& extended_key_request(root_private_key, derivation_path) matches Some(src)
                    &&& account_ok(src)
                    &&& final(self)@ =~= old(self)@.push(Some(src))
                    &&& h@ == old(self)@.len()
                    &&& final(self).live(h)
                }),
                None => final(self)@ =~= old(self)@ && !(extended_key_request(
                    root_private_key,
                    derivation_path,
                ) matches Some(src) && account_ok(src)),
            },
    {
        match self.try_new_bech32(root_private_key, derivation_path) {
            Ok(h) => Some(h),
            Err(_) => None,
        }
    }

    /// Constructs a signer from a single hex-encoded signing key, collapsing
    /// every failure into the absent value.
    pub fn signer_new_cli(&mut self, ed25519_key: Option<Vec<u8>>) -> (r: Option<Handle>)
        ensures
            match r {
                Some(h) => ({
                    &&& direct_key_request(ed25519_key) matches Some(src)
                    &&& account_ok(src)
                    &&& final(self)@ =~= old(self)@.push(Some(src))
                    &&& h@ == old(self)@.len()
                    &&& final(self).live(h)
                }),
                None => final(self)@ =~= old(self)@ && !(direct_key_request(ed25519_key) matches Some(src)
                    && account_ok(src)),
            },
    {
        match self.try_new_cli(ed25519_key) {
            Ok(h) => Some(h),
            Err(_) => None,
        }
    }

    /// Signs a payload with a live signer, collapsing every failure into the
    /// absent value. The returned string is owned by the caller.
    pub fn signer_sign_transaction(
        &self,
        signer: Option<Handle>,
        tx_hex: Option<Vec<u8>>,
    ) -> (r: Option<Vec<u8>>)
        ensures
            match r {
                Some(v) => ({
                    &&& signer matches Some(h)
                    &&& self.live(h)
                    &&& self@[h@] matches Some(src)
                    &&& tx_hex matches Some(tb)
                    &&& utf8_decode(tb@) matches Some(t)
                    &&& hex_payload(t)
                    &&& sign_outcome(src, t) == Some(v@)
                }),
                None => !({
                    &&& signer matches Some(h)
                    &&& self.live(h)
                    &&& self@[h@] matches Some(src)
                    &&& tx_hex matches Some(tb)
                    &&& utf8_decode(tb@) matches Some(t)
                    &&& hex_payload(t)
                    &&& sign_outcome(src, t) is Some
                }),
            },
    {
        match self.try_sign_transaction(signer, tx_hex) {
            Ok(v) => Some(v),
            Err(_) => None,
        }
    }

    /// Exports the public key of a live signer as hex text, collapsing every
    /// failure into the absent value. Succeeds on every live handle; the
    /// returned string is owned by the caller.
    pub fn signer_get_public_key(&self, signer: Option<Handle>) -> (r: Option<Vec<u8>>)
        ensures
            match r {
                Some(v) => ({
                    &&& signer matches Some(h)
                    &&& self.live(h)
                    &&& self@[h@] matches Some(src)
                    &&& v@ == public_key_hex(src)
                    &&& v@.len() == 64
                }),
                None => !(signer matches Some(h) && self.live(h)),
            },
    {
        match self.try_get_public_key(signer) {
            Ok(v) => Some(v),
            Err(_) => None,
        }
    }

    /// Releases a handle. An absent handle is a safe no-op, as is one that
    /// names no live signer; a live handle's signer is dropped and its slot
    /// becomes a tombstone, never reissued, so a later use of the released
    /// handle is detected rather than misread.
    pub fn signer_free(&mut self, signer: Option<Handle>)
        ensures
            (match signer {
                Some(h) => if old(self).live(h) {
                    final(self)@ =~= old(self)@.update(h@, None)
                } else {
                    final(self)@ =~= old(self)@
                },
                None => final(self)@ =~= old(self)@,
            }),
    {
        if let Some(h) = signer {
            if h.id < self.slots.len() {
                self.slots.set(h.id, None);
                proof {
                    if old(self).live(h) {
                        assert(self@ =~= old(self)@.update(h@, None));
                    } else {
                        assert(self@ =~= old(self)@);
                    }
                }
            }
        }
    }
}

/// Law: constructing a signer and at once releasing it leaves the registry
/// as if only a dead slot had ever been appended — no live signer remains,
/// and no other slot is touched.
pub proof fn lemma_construct_then_release(s: Seq<Option<SourceView>>, src: SourceView)
    ensures
        s.push(Some(src)).update(s.len() as int, None) =~= s.push(None),
{
}

} // verus!
