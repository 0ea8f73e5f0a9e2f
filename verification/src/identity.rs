//! The node's identity: an Ed25519 secret key of 32 raw bytes and the peer
//! identifier that libp2p derives from it.
//!
//! Key material is generated, checked and turned into a peer identifier by
//! libp2p itself; the few calls into it are the private functions at the top
//! of this file, whose contracts are taken on trust.

use libp2p::identity::ed25519;
use libp2p::identity::error::DecodingError;
use libp2p::identity::Keypair as Libp2pKeypair;
use vstd::prelude::*;

verus! {

/// Number of bytes in an Ed25519 secret key.
pub const SECRET_KEY_LENGTH: usize = 32;

/// Whether `bytes` has the shape of an Ed25519 secret key. Every string of
/// 32 bytes is one; nothing else is.
pub open spec fn is_secret_scalar(bytes: Seq<u8>) -> bool {
    bytes.len() == SECRET_KEY_LENGTH
}

/// The base-58 text of the peer identifier that libp2p derives from the
/// public half of the Ed25519 key whose secret bytes are `secret`.
pub uninterp spec fn peer_id_text(secret: Seq<u8>) -> Seq<char>;

/// libp2p's error for key bytes that it cannot decode.
#[verifier::external_type_specification]
#[verifier::external_body]
pub struct ExDecodingError(libp2p::identity::error::DecodingError);

/// `ed25519::SecretKey::generate`: fills 32 bytes from the thread's random
/// generator. Of the outcome only the length is known.
#[verifier::external_body]
fn ed25519_generate() -> (secret: Vec<u8>)
    ensures
        is_secret_scalar(secret@),
{
    ed25519::SecretKey::generate().as_ref().to_vec()
}

/// `ed25519::SecretKey::from_bytes`: accepts exactly the inputs of 32 bytes
/// and keeps them as they are; any other length is a decoding error.
#[verifier::external_body]
fn ed25519_from_bytes(bytes: Vec<u8>) -> (decoded: Result<Vec<u8>, DecodingError>)
    ensures
        decoded is Ok <==> is_secret_scalar(bytes@),
        decoded matches Ok(secret) ==> secret@ == bytes@,
{
    match ed25519::SecretKey::from_bytes(bytes) {
        Ok(key) => Ok(key.as_ref().to_vec()),
        Err(error) => Err(error),
    }
}

/// `PublicKey::to_peer_id` on the public key of the Ed25519 pair that belongs
/// to `secret`, written with `PeerId::to_base58`. The result depends on the
/// secret bytes alone; the contract gives it its name and says no more.
#[verifier::external_body]
fn ed25519_peer_id(secret: &Vec<u8>) -> (text: String)
    requires
        is_secret_scalar(secret@),
    ensures
        text@ == peer_id_text(secret@),
{
    let key = ed25519::SecretKey::from_bytes(secret.clone()).unwrap();
    Libp2pKeypair::Ed25519(key.into()).public().to_peer_id().to_base58()
}

/// An Ed25519 secret key: exactly 32 bytes, never fewer or more.
#[derive(PartialEq, Eq)]
pub struct SecretKey {
    bytes: Vec<u8>,
}

impl View for SecretKey {
    type V = Seq<u8>;

    closed spec fn view(&self) -> Seq<u8> {
        self.bytes@
    }
}

impl Clone for SecretKey {
    fn clone(&self) -> (copy: SecretKey)
        ensures
            copy@ == self@,
    {
        proof {
            use_type_invariant(self);
        }
        SecretKey { bytes: self.bytes.clone() }
    }
}

/// Why bytes were refused as a secret key.
#[derive(Debug, Clone, Copy, PartialEq, Eq, Structural)]
pub struct InvalidKeyBytes {
    /// The number of bytes that were offered.
    pub length: usize,
}

impl SecretKey {
    #[verifier::type_invariant]
    spec fn well_formed(&self) -> bool {
        is_secret_scalar(self.bytes@)
    }

    /// A fresh random secret key.
    pub fn generate() -> (key: SecretKey)
        ensures
            is_secret_scalar(key@),
    {
        SecretKey { bytes: ed25519_generate() }
    }

    /// Takes `bytes` as a secret key if they are one, and says how many bytes
    /// there were if they are not.
    pub fn from_bytes(bytes: Vec<u8>) -> (r: Result<SecretKey, InvalidKeyBytes>)
        ensures
            is_secret_scalar(bytes@) ==> r is Ok && r->Ok_0@ == bytes@,
            !is_secret_scalar(bytes@) ==> r is Err && r->Err_0.length == bytes@.len(),
    {
        let length = bytes.len();
        match ed25519_from_bytes(bytes) {
            Ok(secret) => Ok(SecretKey { bytes: secret }),
            Err(_) => Err(InvalidKeyBytes { length }),
        }
    }

    /// The raw bytes of the key, as they are written to a key file.
    pub fn to_bytes(&self) -> (bytes: Vec<u8>)
        ensures
            bytes@ == self@,
            is_secret_scalar(bytes@),
    {
        proof {
            use_type_invariant(self);
        }
        self.bytes.clone()
    }

    /// The peer identifier that belongs to this key, in base 58.
    pub fn peer_id(&self) -> (text: String)
        ensures
            text@ == peer_id_text(self@),
    {
        proof {
            use_type_invariant(self);
        }
        ed25519_peer_id(&self.bytes)
    }
}

/// The node's signing key pair: the secret key and the peer identifier that
/// is derived from it.
#[derive(PartialEq, Eq)]
pub struct Keypair {
    secret: SecretKey,
    peer_id: String,
}

impl Clone for Keypair {
    fn clone(&self) -> (copy: Keypair)
        ensures
            copy.secret_bytes() == self.secret_bytes(),
    {
        proof {
            use_type_invariant(self);
        }
        Keypair { secret: self.secret.clone(), peer_id: self.peer_id.clone() }
    }
}

impl Keypair {
    #[verifier::type_invariant]
    spec fn well_formed(&self) -> bool {
        &&& is_secret_scalar(self.secret@)
        &&& self.peer_id@ == peer_id_text(self.secret@)
    }

    /// The secret bytes of the pair.
    pub closed spec fn secret_bytes(&self) -> Seq<u8> {
        self.secret@
    }

    /// The pair that belongs to `secret`.
    pub fn from_secret(secret: SecretKey) -> (pair: Keypair)
        ensures
            pair.secret_bytes() == secret@,
    {
        proof {
            use_type_invariant(&secret);
        }
        let peer_id = secret.peer_id();
        Keypair { secret, peer_id }
    }

    /// The secret key of the pair.
    pub fn secret(&self) -> (secret: &SecretKey)
        ensures
            secret@ == self.secret_bytes(),
            is_secret_scalar(secret@),
    {
        proof {
            use_type_invariant(self);
        }
        &self.secret
    }

    /// The peer identifier of the pair, in base 58.
    pub fn peer_id(&self) -> (text: &String)
        ensures
            text@ == peer_id_text(self.secret_bytes()),
    {
        proof {
            use_type_invariant(self);
        }
        &self.peer_id
    }
}

} // verus!
