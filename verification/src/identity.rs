//! The identity under which updates are signed: the private key, the public
//! key derived from it, and the zone that owns the key.

use crate::error::KeyError;
use crate::key_validator::{
    derived_public_key, key_material_check, load_and_validate, PublicKeyView, SigningAlgorithm,
};
use crate::name::name_text;
use hickory_proto::dnssec::crypto::RsaSigningKey;
use hickory_proto::dnssec::rdata::KEY;
use hickory_proto::dnssec::{DnsSecError, PublicKeyBuf, SigSigner, SigningKey};
use hickory_proto::rr::Name;
use vstd::prelude::*;

verus! {

/// A public key in the form of a KEY record. Nothing of its inside is visible here.
#[verifier::external_type_specification]
#[verifier::external_body]
pub struct ExPublicKeyBuf(PublicKeyBuf);

/// The signer of the DNS library. Nothing of its inside is visible here.
#[verifier::external_type_specification]
#[verifier::external_body]
pub struct ExSigSigner(SigSigner);

/// What a public key holds: its algorithm and its bytes.
pub uninterp spec fn public_key_contents(public_key: PublicKeyBuf) -> PublicKeyView;

/// A signer as plain values.
pub struct SignerView {
    /// The name under which it signs.
    pub name: Seq<char>,
    /// The private key with which it signs, seen by the public key that the
    /// private key derives.
    pub signing_key: PublicKeyView,
    /// The public key that it publishes in its KEY record.
    pub published_key: PublicKeyView,
}

/// What a signer holds.
pub uninterp spec fn signer_view(signer: SigSigner) -> SignerView;

/// The signer of the zone named `zone` whose private key derives `public_key`
/// and which publishes that same public key.
pub open spec fn zone_signer(zone: Seq<char>, public_key: PublicKeyView) -> SignerView {
    SignerView { name: zone, signing_key: public_key, published_key: public_key }
}

/// Calls `SigningKey::to_public_key` on the RSA key, which writes out the
/// exponent and the modulus of the key with the key's algorithm and has no
/// failing path. The result is the public key that the key derives.
#[verifier::external_body]
fn public_key_of(key: &RsaSigningKey) -> (res: Result<PublicKeyBuf, DnsSecError>)
    ensures
        res is Ok,
        public_key_contents(res.unwrap()) == derived_public_key(*key),
{
    key.to_public_key()
}

/// Calls `SigSigner::sig0` with the KEY record data that `KEY::new_sig0key`
/// makes of the public key, the private key and the signer's name. The
/// signer keeps the three as they were given.
#[verifier::external_body]
fn sig0_signer(public_key: &PublicKeyBuf, key: RsaSigningKey, zone: &Name) -> (signer: SigSigner)
    ensures
        signer_view(signer) == (SignerView {
            name: name_text(*zone),
            signing_key: derived_public_key(key),
            published_key: public_key_contents(*public_key),
        }),
{
    SigSigner::sig0(KEY::new_sig0key(public_key), Box::new(key), zone.clone())
}

/// A signing identity: made once, from key material and the zone, and never changed.
pub struct SigningIdentity {
    signer: SigSigner,
    zone: Name,
}

impl View for SigningIdentity {
    type V = SignerView;

    /// The identity is its signer.
    closed spec fn view(&self) -> SignerView {
        signer_view(self.signer)
    }
}

impl SigningIdentity {
    /// The text of the zone that owns the key.
    pub closed spec fn zone_text(&self) -> Seq<char> {
        name_text(self.zone)
    }

    /// The signer that the identity holds: the one made, when the identity
    /// was put together, of its private key, its public key and its zone.
    pub closed spec fn held_signer(&self) -> SigSigner {
        self.signer
    }

    /// Puts an identity together from the private key and the outcome of
    /// deriving its public key: there is an identity exactly where there is a
    /// public key, and its signer signs under the zone's name with the
    /// private key and publishes the public key.
    pub fn assemble(
        key: RsaSigningKey,
        public_key: Result<PublicKeyBuf, DnsSecError>,
        zone: &Name,
    ) -> (res: Result<SigningIdentity, KeyError>)
        ensures
            match res {
                Ok(identity) => public_key is Ok && identity.zone_text() == name_text(*zone)
                    && identity@ == (SignerView {
                    name: name_text(*zone),
                    signing_key: derived_public_key(key),
                    published_key: public_key_contents(public_key.unwrap()),
                }),
                Err(error) => public_key is Err && error == KeyError::PublicKeyDerivation,
            },
    {
        match public_key {
            Ok(public_key) => Ok(
                SigningIdentity { signer: sig0_signer(&public_key, key, zone), zone: zone.clone() },
            ),
            Err(_) => Err(KeyError::PublicKeyDerivation),
        }
    }

    /// Makes the identity of `zone` from PEM key material.
    ///
    /// Succeeds exactly on the key material that passes
    /// [`key_material_check`]: the identity then signs under the zone's name,
    /// with RSA and SHA-256, with the key that the material holds, and
    /// publishes the public key of that same key. Other key material gives
    /// the fault that the check finds.
    pub fn new(key_material: &[u8], zone: &Name) -> (res: Result<SigningIdentity, KeyError>)
        ensures
            res is Ok <==> key_material_check(key_material@) is Ok,
            match res {
                Ok(identity) => identity.zone_text() == name_text(*zone) && identity@
                    == zone_signer(name_text(*zone), key_material_check(key_material@).unwrap())
                    && identity@.signing_key.algorithm == SigningAlgorithm::RsaSha256,
                Err(error) => key_material_check(key_material@) == Err::<PublicKeyView, KeyError>(
                    error,
                ),
            },
    {
        let key = match load_and_validate(key_material) {
            Ok(key) => key,
            Err(error) => {
                return Err(error);
            },
        };
        let public_key = public_key_of(&key);
        SigningIdentity::assemble(key, public_key, zone)
    }

    /// The zone that owns the key.
    pub fn zone(&self) -> (zone: &Name)
        ensures
            name_text(*zone) == self.zone_text(),
    {
        &self.zone
    }

    /// The signer, for the transport to sign with at send time: the one that
    /// the identity holds, and no other.
    pub fn signer(&self) -> (signer: &SigSigner)
        ensures
            *signer == self.held_signer(),
            signer_view(*signer) == self@,
    {
        &self.signer
    }

    /// Gives the signer that the identity holds up to the transport.
    pub fn into_signer(self) -> (signer: SigSigner)
        ensures
            signer == self.held_signer(),
            signer_view(signer) == self@,
    {
        self.signer
    }
}

} // verus!
