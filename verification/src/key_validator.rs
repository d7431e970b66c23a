//! Loading the private key that signs the updates.

use crate::error::KeyError;
use hickory_proto::dnssec::crypto::RsaSigningKey;
use hickory_proto::dnssec::{Algorithm, DnsSecError};
use rustls_pki_types::pem::Error as PemError;
use rustls_pki_types::pem::PemObject;
use rustls_pki_types::PrivateKeyDer;
use vstd::prelude::*;

verus! {

/// A private key in DER form, as the PEM reader hands it out. Nothing of its
/// inside is visible here.
#[verifier::external_type_specification]
#[verifier::external_body]
pub struct ExPrivateKeyDer<'a>(PrivateKeyDer<'a>);

/// The error of the PEM reader. Nothing of its inside is visible here.
#[verifier::external_type_specification]
#[verifier::external_body]
pub struct ExPemError(PemError);

/// An RSA key pair that signs. Nothing of its inside is visible here.
#[verifier::external_type_specification]
#[verifier::external_body]
pub struct ExRsaSigningKey(RsaSigningKey);

/// The error of the signing code. Nothing of its inside is visible here.
#[verifier::external_type_specification]
#[verifier::external_body]
pub struct ExDnsSecError(DnsSecError);

/// The container formats in which a private key comes.
#[derive(Clone, Copy, Debug, PartialEq, Eq)]
pub enum KeyEncoding {
    Pkcs1,
    Sec1,
    Pkcs8,
}

/// The algorithms under which an RSA key signs.
#[derive(Clone, Copy, Debug, PartialEq, Eq)]
pub enum SigningAlgorithm {
    RsaSha256,
    RsaSha512,
}

/// A private key as plain values: its container format and its DER bytes.
pub struct KeyDer {
    pub encoding: KeyEncoding,
    pub der: Seq<u8>,
}

/// What a private key in DER form holds.
pub uninterp spec fn private_key_contents(key: PrivateKeyDer<'static>) -> KeyDer;

/// The first private key among the PEM sections of `pem`, `None` where the
/// text is malformed or holds no private key.
pub uninterp spec fn pem_private_key(pem: Seq<u8>) -> Option<KeyDer>;

/// A public key as plain values: the algorithm under which its private key
/// signs, and its bytes in the form in which a KEY record carries them.
pub struct PublicKeyView {
    pub algorithm: SigningAlgorithm,
    pub bytes: Seq<u8>,
}

/// What a signing key is to anyone but its holder: the public key that it
/// derives, with the algorithm under which it signs.
pub uninterp spec fn derived_public_key(key: RsaSigningKey) -> PublicKeyView;

/// The RSA key pair that `key` encodes and that signs under `algorithm`, seen
/// by the public key it derives; `None` where `key` is no such key pair.
pub uninterp spec fn rsa_key_pair(key: KeyDer, algorithm: SigningAlgorithm) -> Option<
    PublicKeyView,
>;

/// Calls `PrivateKeyDer::from_pem_slice`, which decodes the first section of
/// the text that holds a private key. The reader looks at nothing but the
/// bytes, so its outcome is a function of them: the contract gives that
/// function a name and claims nothing more of it.
#[verifier::external_body]
fn private_key_from_pem(pem: &[u8]) -> (res: Result<PrivateKeyDer<'static>, PemError>)
    ensures
        match res {
            Ok(key) => pem_private_key(pem@) == Some(private_key_contents(key)),
            Err(_) => pem_private_key(pem@) is None,
        },
{
    PrivateKeyDer::from_pem_slice(pem)
}

/// Calls `RsaSigningKey::from_key_der`, which parses and checks the key pair
/// and keeps the algorithm with it. What comes of it depends on the key's
/// bytes, its container format and the algorithm alone: the contract gives
/// that outcome a name, seen through the public key that the signing key
/// derives, and adds only that the signing key signs under the algorithm it
/// was made for.
#[verifier::external_body]
fn rsa_key_from_der(key: &PrivateKeyDer<'static>, algorithm: SigningAlgorithm) -> (res: Result<
    RsaSigningKey,
    DnsSecError,
>)
    ensures
        match res {
            Ok(signing_key) => rsa_key_pair(private_key_contents(*key), algorithm) == Some(
                derived_public_key(signing_key),
            ) && derived_public_key(signing_key).algorithm == algorithm,
            Err(_) => rsa_key_pair(private_key_contents(*key), algorithm) is None,
        },
{
    let wire_algorithm = match algorithm {
        SigningAlgorithm::RsaSha256 => Algorithm::RSASHA256,
        SigningAlgorithm::RsaSha512 => Algorithm::RSASHA512,
    };
    RsaSigningKey::from_key_der(key, wire_algorithm)
}

/// What the check of key material finds: the key that signs with RSA and
/// SHA-256, seen by its public key, or the fault.
pub open spec fn key_material_check(key_material: Seq<u8>) -> Result<PublicKeyView, KeyError> {
    match pem_private_key(key_material) {
        None => Err(KeyError::PemParse),
        Some(key) => match rsa_key_pair(key, SigningAlgorithm::RsaSha256) {
            Some(public_key) => Ok(public_key),
            None => Err(KeyError::KeyConstruction),
        },
    }
}

/// Reads PEM key material as an RSA key that signs with SHA-256.
///
/// Succeeds exactly on the key material that passes [`key_material_check`],
/// with the key that the material holds, made to sign with SHA-256; otherwise
/// returns the fault that the check finds.
pub fn load_and_validate(key_material: &[u8]) -> (res: Result<RsaSigningKey, KeyError>)
    ensures
        match res {
            Ok(key) => key_material_check(key_material@) == Ok::<PublicKeyView, KeyError>(
                derived_public_key(key),
            ) && derived_public_key(key).algorithm == SigningAlgorithm::RsaSha256,
            Err(error) => key_material_check(key_material@) == Err::<PublicKeyView, KeyError>(
                error,
            ),
        },
{
    let key_der = match private_key_from_pem(key_material) {
        Ok(key_der) => key_der,
        Err(_) => {
            return Err(KeyError::PemParse);
        },
    };
    match rsa_key_from_der(&key_der, SigningAlgorithm::RsaSha256) {
        Ok(key) => Ok(key),
        Err(_) => Err(KeyError::KeyConstruction),
    }
}

} // verus!
