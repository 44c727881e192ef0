//! The capability that every signature scheme provides.

use vstd::prelude::*;
use vstd::utf8::encode_utf8;

pub mod dilithium;
pub mod secp256k1;

verus! {

/// Why a signature could not be judged.
#[derive(Clone, Copy, Debug, PartialEq, Eq, Structural)]
pub enum SignatureError {
    /// The signature bytes are not an encoding that the scheme can read.
    InvalidSignatureEncoding,
}

/// A digital-signature scheme with its own key and signature types.
///
/// The scheme is stateless: every operation is a function of the scheme, not
/// of a value of the implementing type. Contracts are stated over the byte
/// encodings of public keys and signatures and over the bytes of the message.
pub trait SigningAlgorithm {
    /// The half of a key pair that signs.
    type PrivateKey;

    /// The half of a key pair that verifies.
    type PublicKey;

    /// What signing a message yields.
    type Signature;

    /// The canonical encoding of a public key.
    spec fn public_key_encoding(public_key: &Self::PublicKey) -> Seq<u8>;

    /// The canonical encoding of a signature.
    spec fn signature_encoding(signature: &Self::Signature) -> Seq<u8>;

    /// Whether `public_key` is the public half that belongs to `private_key`.
    spec fn key_pair(private_key: &Self::PrivateKey, public_key: &Self::PublicKey) -> bool;

    /// Whether `signature` encodes what signing `message` with `private_key`
    /// yields.
    spec fn is_signature(
        private_key: &Self::PrivateKey,
        message: Seq<u8>,
        signature: Seq<u8>,
    ) -> bool;

    /// What the scheme says of an encoded signature on `message` under an
    /// encoded public key: accepted, rejected, or unreadable.
    spec fn verdict(public_key: Seq<u8>, message: Seq<u8>, signature: Seq<u8>) -> Result<
        bool,
        SignatureError,
    >;

    /// A signature made with the private half of a key pair is accepted under
    /// the public half, on the message that was signed.
    proof fn lemma_signature_is_accepted(
        private_key: &Self::PrivateKey,
        public_key: &Self::PublicKey,
        message: Seq<u8>,
        signature: Seq<u8>,
    )
        requires
            Self::key_pair(private_key, public_key),
            Self::is_signature(private_key, message, signature),
        ensures
            Self::verdict(Self::public_key_encoding(public_key), message, signature) == Ok::<
                bool,
                SignatureError,
            >(true),
    ;

    /// Draws a fresh key pair from a cryptographically secure source.
    fn generate_keypair() -> (pair: (Self::PrivateKey, Self::PublicKey))
        ensures
            Self::key_pair(&pair.0, &pair.1),
    ;

    /// Signs the UTF-8 bytes of `message`.
    fn sign_message(private_key: &Self::PrivateKey, message: &str) -> (signature: Self::Signature)
        ensures
            Self::is_signature(
                private_key,
                encode_utf8(message@),
                Self::signature_encoding(&signature),
            ),
    ;

    /// Judges `signature` on the UTF-8 bytes of `message` under `public_key`.
    fn verify_message(
        public_key: &Self::PublicKey,
        message: &str,
        signature: &Self::Signature,
    ) -> (outcome: Result<bool, SignatureError>)
        ensures
            outcome == Self::verdict(
                Self::public_key_encoding(public_key),
                encode_utf8(message@),
                Self::signature_encoding(signature),
            ),
    ;

    /// The canonical encoding of `public_key`.
    fn serialize_public_key(public_key: &Self::PublicKey) -> (bytes: Vec<u8>)
        ensures
            bytes@ == Self::public_key_encoding(public_key),
    ;

    /// The canonical encoding of `signature`.
    fn serialize_signature(signature: &Self::Signature) -> (bytes: Vec<u8>)
        ensures
            bytes@ == Self::signature_encoding(signature),
    ;
}

} // verus!
