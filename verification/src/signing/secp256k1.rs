//! ECDSA over the secp256k1 curve, on SHA-256 digests.

use crate::digest::{sha256, sha256_spec};
use crate::signing::{SignatureError, SigningAlgorithm};
use vstd::prelude::*;
use vstd::slice::slice_to_vec;

verus! {

/// Number of bytes in a compressed public key.
pub const PUBLIC_KEY_BYTES: usize = 33;

/// The DER signature that ECDSA with deterministic nonces yields for a
/// 32-byte `digest` under a 32-byte `secret`; `None` where the secret is not
/// a valid key or the digest has another length.
pub uninterp spec fn ecdsa_sign_spec(secret: Seq<u8>, digest: Seq<u8>) -> Option<Seq<u8>>;

/// Whether the DER signature `der` is a valid ECDSA signature on the 32-byte
/// `digest` under the encoded public key `public`; `None` where one of the
/// three cannot be read.
pub uninterp spec fn ecdsa_verify_spec(public: Seq<u8>, digest: Seq<u8>, der: Seq<u8>) -> Option<
    bool,
>;

/// The compressed encoding of the public key that `bytes` encode; `None`
/// where they encode no point of the curve.
pub uninterp spec fn ecdsa_public_key_spec(bytes: Seq<u8>) -> Option<Seq<u8>>;

/// Whether `public` is a compressed public key and every SHA-256 digest
/// signed with `secret` yields a signature that is accepted under it.
pub open spec fn ecdsa_key_pair(secret: Seq<u8>, public: Seq<u8>) -> bool {
    &&& public.len() == PUBLIC_KEY_BYTES
    &&& ecdsa_public_key_spec(public) == Some(public)
    &&& forall|message: Seq<u8>|
        match #[trigger] ecdsa_sign_spec(secret, sha256_spec(message)) {
            Some(der) => ecdsa_verify_spec(public, sha256_spec(message), der) == Some(true),
            None => false,
        }
}

/// Generates a key pair with `secp256k1::Secp256k1::generate_keypair` on the
/// thread's random generator, and hands out the 32 secret bytes and the
/// 33-byte compressed public key.
///
/// Trusted: whichever pair is drawn, the public half is 33 bytes long and
/// reads back as itself, and a signature made with the secret half on a
/// SHA-256 digest verifies under the public half.
#[verifier::external_body]
fn ecdsa_keypair() -> (pair: (Vec<u8>, Vec<u8>))
    ensures
        ecdsa_key_pair(pair.0@, pair.1@),
{
    let (secret, public) = ::secp256k1::Secp256k1::new().generate_keypair(&mut rand::thread_rng());
    (secret.secret_bytes().to_vec(), public.serialize().to_vec())
}

/// Signs a digest with `secp256k1::Secp256k1::sign_ecdsa` and encodes the
/// signature as DER.
///
/// Trusted: the result is a function of the secret and the digest alone, and
/// is absent exactly where the outside crate refuses one of them.
#[verifier::external_body]
fn ecdsa_sign(secret: &[u8], digest: &[u8]) -> (der: Option<Vec<u8>>)
    ensures
        match der {
            Some(bytes) => ecdsa_sign_spec(secret@, digest@) == Some(bytes@),
            None => ecdsa_sign_spec(secret@, digest@) is None,
        },
{
    let key = ::secp256k1::SecretKey::from_slice(secret).ok()?;
    let message = ::secp256k1::Message::from_digest(<[u8; 32]>::try_from(digest).ok()?);
    Some(::secp256k1::Secp256k1::new().sign_ecdsa(&message, &key).serialize_der().to_vec())
}

/// Reads a public key with `secp256k1::PublicKey::from_slice` and encodes it
/// again in compressed form.
///
/// Trusted: the result is a function of the bytes alone, and a compressed
/// encoding that comes out is 33 bytes long and reads back as itself.
#[verifier::external_body]
fn ecdsa_read_public_key(bytes: &[u8]) -> (public: Option<Vec<u8>>)
    ensures
        match public {
            Some(compressed) => {
                &&& ecdsa_public_key_spec(bytes@) == Some(compressed@)
                &&& ecdsa_public_key_spec(compressed@) == Some(compressed@)
                &&& compressed@.len() == PUBLIC_KEY_BYTES
            },
            None => ecdsa_public_key_spec(bytes@) is None,
        },
{
    let key = ::secp256k1::PublicKey::from_slice(bytes).ok()?;
    Some(key.serialize().to_vec())
}

/// Checks a DER signature with `secp256k1::Secp256k1::verify_ecdsa`.
///
/// Trusted: the answer is a function of the three byte strings alone, and is
/// absent exactly where the outside crate cannot read one of them.
#[verifier::external_body]
fn ecdsa_verify(public: &[u8], digest: &[u8], der: &[u8]) -> (accepted: Option<bool>)
    ensures
        accepted == ecdsa_verify_spec(public@, digest@, der@),
{
    let key = ::secp256k1::PublicKey::from_slice(public).ok()?;
    let signature = ::secp256k1::ecdsa::Signature::from_der(der).ok()?;
    let message = ::secp256k1::Message::from_digest(<[u8; 32]>::try_from(digest).ok()?);
    Some(::secp256k1::Secp256k1::new().verify_ecdsa(&message, &signature, &key).is_ok())
}

/// A secp256k1 secret key.
pub struct EcdsaPrivateKey {
    bytes: Vec<u8>,
}

impl EcdsaPrivateKey {
    /// The secret bytes.
    pub closed spec fn secret(&self) -> Seq<u8> {
        self.bytes@
    }

    /// Every SHA-256 digest can be signed with the key.
    #[verifier::type_invariant]
    pub closed spec fn usable(&self) -> bool {
        forall|message: Seq<u8>| #[trigger]
            ecdsa_sign_spec(self.bytes@, sha256_spec(message)) is Some
    }
}

/// A secp256k1 public key in its compressed encoding.
pub struct EcdsaPublicKey {
    bytes: Vec<u8>,
}

impl View for EcdsaPublicKey {
    type V = Seq<u8>;

    closed spec fn view(&self) -> Seq<u8> {
        self.bytes@
    }
}

impl EcdsaPublicKey {
    /// The bytes are the compressed encoding of a point of the curve.
    #[verifier::type_invariant]
    pub closed spec fn well_formed(&self) -> bool {
        &&& self.bytes@.len() == PUBLIC_KEY_BYTES
        &&& ecdsa_public_key_spec(self.bytes@) == Some(self.bytes@)
    }

    /// Reads an encoded public key, compressed or not, and keeps it in
    /// compressed form. A compressed encoding is kept as it is.
    pub fn from_bytes(bytes: &[u8]) -> (key: Option<Self>)
        ensures
            match key {
                Some(k) => ecdsa_public_key_spec(bytes@) == Some(k@),
                None => ecdsa_public_key_spec(bytes@) is None,
            },
    {
        match ecdsa_read_public_key(bytes) {
            Some(compressed) => Some(EcdsaPublicKey { bytes: compressed }),
            None => None,
        }
    }
}

/// An ECDSA signature in its DER encoding.
pub struct EcdsaSignature {
    der: Vec<u8>,
}

impl View for EcdsaSignature {
    type V = Seq<u8>;

    closed spec fn view(&self) -> Seq<u8> {
        self.der@
    }
}

impl EcdsaSignature {
    /// Takes any byte string as an encoded signature; whether it can be read
    /// is decided when it is verified.
    pub fn from_bytes(bytes: &[u8]) -> (signature: Self)
        ensures
            signature@ == bytes@,
    {
        EcdsaSignature { der: slice_to_vec(bytes) }
    }
}

/// The classical scheme: ECDSA on the secp256k1 curve.
#[derive(Debug)]
pub struct Secp256k1Algorithm;

impl SigningAlgorithm for Secp256k1Algorithm {
    type PrivateKey = EcdsaPrivateKey;

    type PublicKey = EcdsaPublicKey;

    type Signature = EcdsaSignature;

    open spec fn public_key_encoding(public_key: &EcdsaPublicKey) -> Seq<u8> {
        public_key@
    }

    open spec fn signature_encoding(signature: &EcdsaSignature) -> Seq<u8> {
        signature@
    }

    open spec fn key_pair(private_key: &EcdsaPrivateKey, public_key: &EcdsaPublicKey) -> bool {
        ecdsa_key_pair(private_key.secret(), public_key@)
    }

    open spec fn is_signature(
        private_key: &EcdsaPrivateKey,
        message: Seq<u8>,
        signature: Seq<u8>,
    ) -> bool {
        ecdsa_sign_spec(private_key.secret(), sha256_spec(message)) == Some(signature)
    }

    open spec fn verdict(public_key: Seq<u8>, message: Seq<u8>, signature: Seq<u8>) -> Result<
        bool,
        SignatureError,
    > {
        match ecdsa_verify_spec(public_key, sha256_spec(message), signature) {
            Some(accepted) => Ok(accepted),
            None => Err(SignatureError::InvalidSignatureEncoding),
        }
    }

    proof fn lemma_signature_is_accepted(
        private_key: &EcdsaPrivateKey,
        public_key: &EcdsaPublicKey,
        message: Seq<u8>,
        signature: Seq<u8>,
    ) {
    }

    fn generate_keypair() -> (pair: (EcdsaPrivateKey, EcdsaPublicKey)) {
        let (secret, public) = ecdsa_keypair();
        (EcdsaPrivateKey { bytes: secret }, EcdsaPublicKey { bytes: public })
    }

    fn sign_message(private_key: &EcdsaPrivateKey, message: &str) -> (signature: EcdsaSignature) {
        proof {
            use_type_invariant(private_key);
        }
        let digest = sha256(message.as_bytes());
        match ecdsa_sign(private_key.bytes.as_slice(), digest.as_slice()) {
            Some(der) => EcdsaSignature { der },
            None => unreached(),
        }
    }

    fn verify_message(
        public_key: &EcdsaPublicKey,
        message: &str,
        signature: &EcdsaSignature,
    ) -> (outcome: Result<bool, SignatureError>) {
        let digest = sha256(message.as_bytes());
        match ecdsa_verify(
            public_key.bytes.as_slice(),
            digest.as_slice(),
            signature.der.as_slice(),
        ) {
            Some(accepted) => Ok(accepted),
            None => Err(SignatureError::InvalidSignatureEncoding),
        }
    }

    /// The encoding is 33 bytes long and reads back as the same key.
    fn serialize_public_key(public_key: &EcdsaPublicKey) -> (bytes: Vec<u8>)
        ensures
            bytes@.len() == PUBLIC_KEY_BYTES,
            ecdsa_public_key_spec(bytes@) == Some(bytes@),
    {
        proof {
            use_type_invariant(public_key);
        }
        public_key.bytes.clone()
    }

    fn serialize_signature(signature: &EcdsaSignature) -> (bytes: Vec<u8>) {
        signature.der.clone()
    }
}

/// Reading the encoding of a public key gives a key with the same encoding,
/// and every key with that encoding judges a signature as that key does.
pub proof fn lemma_public_key_round_trip(
    public_key: &EcdsaPublicKey,
    reread: &EcdsaPublicKey,
    message: Seq<u8>,
    signature: Seq<u8>,
)
    requires
        public_key.well_formed(),
        ecdsa_public_key_spec(Secp256k1Algorithm::public_key_encoding(public_key)) == Some(
            reread@,
        ),
    ensures
        reread@ == public_key@,
        Secp256k1Algorithm::verdict(reread@, message, signature) == Secp256k1Algorithm::verdict(
            public_key@,
            message,
            signature,
        ),
{
}

} // verus!
