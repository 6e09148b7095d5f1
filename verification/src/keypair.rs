//! Keypairs over secp256k1, as the search hands them out.

use vstd::prelude::*;
use crate::address::Address;
use crate::hash::{keccak, keccak256};

verus! {

/// The address of the account that a public key controls: the last twenty
/// bytes of the Keccak-256 digest of the key.
pub open spec fn account_address(public: Seq<u8>) -> Seq<u8> {
    keccak256(public).subrange(12, 32)
}

/// A secret key and the public key that belongs to it.
///
/// The secret is held as plain bytes and is not wiped when the value is
/// dropped.
#[derive(Debug, PartialEq, Eq)]
pub struct KeyPair {
    secret: [u8; 32],
    public: [u8; 64],
}

/// The bytes of a keypair.
pub struct KeyPairView {
    /// The 32 bytes of the secret key.
    pub secret: Seq<u8>,
    /// The 64 bytes of the public key.
    pub public: Seq<u8>,
}

impl KeyPairView {
    /// The address of the account that the public key controls.
    pub open spec fn address(self) -> Seq<u8> {
        account_address(self.public)
    }
}

impl View for KeyPair {
    type V = KeyPairView;

    closed spec fn view(&self) -> KeyPairView {
        KeyPairView { secret: self.secret@, public: self.public@ }
    }
}

impl Clone for KeyPair {
    fn clone(&self) -> (copy: Self)
        ensures
            copy == *self,
    {
        KeyPair { secret: self.secret, public: self.public }
    }
}

impl KeyPair {
    /// The 32 bytes of the secret key.
    pub fn secret(&self) -> (bytes: &[u8; 32])
        ensures
            bytes@ == self@.secret,
    {
        &self.secret
    }

    /// The 64 bytes of the public key: the two coordinates of its point.
    pub fn public(&self) -> (bytes: &[u8; 64])
        ensures
            bytes@ == self@.public,
    {
        &self.public
    }

    /// The address of the account that the public key controls.
    pub fn address(&self) -> (address: Address)
        ensures
            address@ == self@.address(),
    {
        let digest = keccak(&self.public);
        Address::from_digest(&digest)
    }
}

/// Calls `parity_crypto::publickey::Random`'s `generate`, which draws a
/// fresh secp256k1 keypair from the thread's random number generator, and
/// copies the secret and the public key out of it. Each call may return
/// another keypair, so the contract promises nothing of the result.
#[verifier::external_body]
pub(crate) fn random_keypair() -> KeyPair {
    let pair = parity_crypto::publickey::Generator::generate(&mut parity_crypto::publickey::Random);
    KeyPair { secret: pair.secret().to_fixed_bytes(), public: pair.public().to_fixed_bytes() }
}

} // verus!
