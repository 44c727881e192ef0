//! Dilithium2, a lattice-based scheme whose signatures carry the message.

use crate::signing::{SignatureError, SigningAlgorithm};
use vstd::prelude::*;
use vstd::slice::slice_to_vec;

verus! {

/// Number of bytes in an encoded secret key.
pub const SECRET_KEY_BYTES: usize = 2560;

/// Number of bytes in an encoded public key.
pub const PUBLIC_KEY_BYTES: usize = 1312;

/// The signed-message container that signing `message` with the secret key
/// `secret` yields.
pub uninterp spec fn dilithium_sign_spec(secret: Seq<u8>, message: Seq<u8>) -> Seq<u8>;

/// The message that opening the container `signed` with the public key
/// `public` recovers; `None` where the container does not open.
pub uninterp spec fn dilithium_open_spec(signed: Seq<u8>, public: Seq<u8>) -> Option<Seq<u8>>;

/// Whether every message signed with `secret` is recovered by opening the
/// container with `public`.
pub open spec fn dilithium_key_pair(secret: Seq<u8>, public: Seq<u8>) -> bool {
    forall|message: Seq<u8>|
        dilithium_open_spec(#[trigger] dilithium_sign_spec(secret, message), public) == Some(
            message,
        )
}

/// Generates a key pair with `pqcrypto_dilithium::dilithium2::keypair` and
/// hands out the encoded secret and public halves.
///
/// Trusted: the halves have the scheme's fixed lengths and, whichever pair is
/// drawn, opening what the secret half signed with the public half recovers
/// the message.
#[verifier::external_body]
fn dilithium_keypair() -> (pair: (Vec<u8>, Vec<u8>))
    ensures
        pair.0@.len() == SECRET_KEY_BYTES,
        pair.1@.len() == PUBLIC_KEY_BYTES,
        dilithium_key_pair(pair.0@, pair.1@),
{
    let (public, secret) = pqcrypto_dilithium::dilithium2::keypair();
    (
        pqcrypto_traits::sign::SecretKey::as_bytes(&secret).to_vec(),
        pqcrypto_traits::sign::PublicKey::as_bytes(&public).to_vec(),
    )
}

/// Signs a message with `pqcrypto_dilithium::dilithium2::sign`.
///
/// Trusted: the key is read exactly when it has the scheme's secret-key
/// length, and the container is then a function of key and message alone.
#[verifier::external_body]
fn dilithium_sign(secret: &[u8], message: &[u8]) -> (signed: Option<Vec<u8>>)
    ensures
        signed is Some <==> secret@.len() == SECRET_KEY_BYTES,
        signed matches Some(bytes) ==> bytes@ == dilithium_sign_spec(secret@, message@),
{
    let key: pqcrypto_dilithium::dilithium2::SecretKey =
        pqcrypto_traits::sign::SecretKey::from_bytes(secret).ok()?;
    let container = pqcrypto_dilithium::dilithium2::sign(message, &key);
    Some(pqcrypto_traits::sign::SignedMessage::as_bytes(&container).to_vec())
}

/// Opens a container with `pqcrypto_dilithium::dilithium2::open`.
///
/// Trusted: what is recovered, or that nothing is, is a function of the
/// container and the key alone.
#[verifier::external_body]
fn dilithium_open(signed: &[u8], public: &[u8]) -> (message: Option<Vec<u8>>)
    ensures
        match message {
            Some(bytes) => dilithium_open_spec(signed@, public@) == Some(bytes@),
            None => dilithium_open_spec(signed@, public@) is None,
        },
{
    let key: pqcrypto_dilithium::dilithium2::PublicKey =
        pqcrypto_traits::sign::PublicKey::from_bytes(public).ok()?;
    let container: pqcrypto_dilithium::dilithium2::SignedMessage =
        pqcrypto_traits::sign::SignedMessage::from_bytes(signed).ok()?;
    pqcrypto_dilithium::dilithium2::open(&container, &key).ok()
}

/// Whether two byte strings are the same.
fn same_bytes(a: &[u8], b: &[u8]) -> (same: bool)
    ensures
        same == (a@ == b@),
{
    if a.len() != b.len() {
        return false;
    }
    let mut i: usize = 0;
    while i < a.len()
        invariant
            a@.len() == b@.len(),
            i <= a@.len(),
            forall|k: int| 0 <= k < i ==> a@[k] == b@[k],
        decreases a@.len() - i,
    {
        if a[i] != b[i] {
            return false;
        }
        i = i + 1;
    }
    assert(a@ =~= b@);
    true
}

/// A Dilithium2 secret key.
pub struct DilithiumPrivateKey {
    bytes: Vec<u8>,
}

impl DilithiumPrivateKey {
    /// The encoded key.
    pub closed spec fn secret(&self) -> Seq<u8> {
        self.bytes@
    }

    /// The key has the scheme's secret-key length.
    #[verifier::type_invariant]
    pub closed spec fn well_formed(&self) -> bool {
        self.bytes@.len() == SECRET_KEY_BYTES
    }
}

/// A Dilithium2 public key.
pub struct DilithiumPublicKey {
    bytes: Vec<u8>,
}

impl View for DilithiumPublicKey {
    type V = Seq<u8>;

    closed spec fn view(&self) -> Seq<u8> {
        self.bytes@
    }
}

impl DilithiumPublicKey {
    /// The key has the scheme's public-key length.
    #[verifier::type_invariant]
    pub closed spec fn well_formed(&self) -> bool {
        self.bytes@.len() == PUBLIC_KEY_BYTES
    }

    /// Reads an encoded public key: any byte string of the scheme's
    /// public-key length, and no other.
    pub fn from_bytes(bytes: &[u8]) -> (key: Option<Self>)
        ensures
            key is Some <==> bytes@.len() == PUBLIC_KEY_BYTES,
            key matches Some(k) ==> k@ == bytes@,
    {
        if bytes.len() == PUBLIC_KEY_BYTES {
            Some(DilithiumPublicKey { bytes: slice_to_vec(bytes) })
        } else {
            None
        }
    }
}

/// A signed-message container: the signature together with the message that
/// it signs.
pub struct DilithiumSignedMessage {
    bytes: Vec<u8>,
}

impl View for DilithiumSignedMessage {
    type V = Seq<u8>;

    closed spec fn view(&self) -> Seq<u8> {
        self.bytes@
    }
}

impl DilithiumSignedMessage {
    /// Takes any byte string as a container; whether it opens is decided
    /// when it is verified.
    pub fn from_bytes(bytes: &[u8]) -> (signed: Self)
        ensures
            signed@ == bytes@,
    {
        DilithiumSignedMessage { bytes: slice_to_vec(bytes) }
    }
}

/// The post-quantum scheme: Dilithium2.
#[derive(Debug)]
pub struct DilithiumAlgorithm;

impl SigningAlgorithm for DilithiumAlgorithm {
    type PrivateKey = DilithiumPrivateKey;

    type PublicKey = DilithiumPublicKey;

    type Signature = DilithiumSignedMessage;

    open spec fn public_key_encoding(public_key: &DilithiumPublicKey) -> Seq<u8> {
        public_key@
    }

    open spec fn signature_encoding(signature: &DilithiumSignedMessage) -> Seq<u8> {
        signature@
    }

    open spec fn key_pair(
        private_key: &DilithiumPrivateKey,
        public_key: &DilithiumPublicKey,
    ) -> bool {
        dilithium_key_pair(private_key.secret(), public_key@)
    }

    open spec fn is_signature(
        private_key: &DilithiumPrivateKey,
        message: Seq<u8>,
        signature: Seq<u8>,
    ) -> bool {
        signature == dilithium_sign_spec(private_key.secret(), message)
    }

    /// A container that does not open is unreadable; one that opens is
    /// accepted exactly when the message it carries is the expected one.
    open spec fn verdict(public_key: Seq<u8>, message: Seq<u8>, signature: Seq<u8>) -> Result<
        bool,
        SignatureError,
    > {
        match dilithium_open_spec(signature, public_key) {
            Some(recovered) => Ok(recovered == message),
            None => Err(SignatureError::InvalidSignatureEncoding),
        }
    }

    proof fn lemma_signature_is_accepted(
        private_key: &DilithiumPrivateKey,
        public_key: &DilithiumPublicKey,
        message: Seq<u8>,
        signature: Seq<u8>,
    ) {
    }

    fn generate_keypair() -> (pair: (DilithiumPrivateKey, DilithiumPublicKey)) {
        let (secret, public) = dilithium_keypair();
        (DilithiumPrivateKey { bytes: secret }, DilithiumPublicKey { bytes: public })
    }

    fn sign_message(
        private_key: &DilithiumPrivateKey,
        message: &str,
    ) -> (signature: DilithiumSignedMessage) {
        proof {
            use_type_invariant(private_key);
        }
        match dilithium_sign(private_key.bytes.as_slice(), message.as_bytes()) {
            Some(bytes) => DilithiumSignedMessage { bytes },
            None => unreached(),
        }
    }

    fn verify_message(
        public_key: &DilithiumPublicKey,
        message: &str,
        signature: &DilithiumSignedMessage,
    ) -> (outcome: Result<bool, SignatureError>) {
        match dilithium_open(signature.bytes.as_slice(), public_key.bytes.as_slice()) {
            Some(recovered) => Ok(same_bytes(recovered.as_slice(), message.as_bytes())),
            None => Err(SignatureError::InvalidSignatureEncoding),
        }
    }

    /// The encoding has the scheme's public-key length.
    fn serialize_public_key(public_key: &DilithiumPublicKey) -> (bytes: Vec<u8>)
        ensures
            bytes@.len() == PUBLIC_KEY_BYTES,
    {
        proof {
            use_type_invariant(public_key);
        }
        public_key.bytes.clone()
    }

    fn serialize_signature(signature: &DilithiumSignedMessage) -> (bytes: Vec<u8>) {
        signature.bytes.clone()
    }
}

/// The encoding of a public key has the length at which it is read again,
/// and every key with that encoding judges a signature as that key does.
pub proof fn lemma_public_key_round_trip(
    public_key: &DilithiumPublicKey,
    reread: &DilithiumPublicKey,
    message: Seq<u8>,
    signature: Seq<u8>,
)
    requires
        public_key.well_formed(),
        reread@ == DilithiumAlgorithm::public_key_encoding(public_key),
    ensures
        public_key@.len() == PUBLIC_KEY_BYTES,
        DilithiumAlgorithm::verdict(reread@, message, signature) == DilithiumAlgorithm::verdict(
            public_key@,
            message,
            signature,
        ),
{
}

} // verus!
