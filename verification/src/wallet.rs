//! A key pair of one scheme and the address derived from it.

use crate::digest::{fingerprint, fingerprint_spec, DIGEST_BYTES};
use crate::signing::{SignatureError, SigningAlgorithm};
use vstd::prelude::*;
use vstd::utf8::encode_utf8;

verus! {

/// The address that belongs to an encoded public key: the lowercase
/// hexadecimal SHA-256 digest of the encoding.
pub open spec fn address_of(public_key: Seq<u8>) -> Seq<char> {
    fingerprint_spec(public_key)
}

/// One key pair of the scheme `A`. The halves are set at construction and
/// never change.
pub struct Wallet<A: SigningAlgorithm> {
    private_key: A::PrivateKey,
    public_key: A::PublicKey,
}

impl<A: SigningAlgorithm> Wallet<A> {
    /// The private half.
    pub closed spec fn private_key(&self) -> A::PrivateKey {
        self.private_key
    }

    /// The public half.
    pub closed spec fn public_key(&self) -> A::PublicKey {
        self.public_key
    }

    /// The canonical encoding of the public half.
    pub open spec fn public_key_encoding(&self) -> Seq<u8> {
        A::public_key_encoding(&self.public_key())
    }

    /// The two halves belong together.
    #[verifier::type_invariant]
    pub open spec fn well_formed(&self) -> bool {
        A::key_pair(&self.private_key(), &self.public_key())
    }

    /// A wallet with a freshly generated key pair.
    pub fn new() -> (wallet: Self)
        ensures
            wallet.well_formed(),
    {
        let (private_key, public_key) = A::generate_keypair();
        Wallet { private_key, public_key }
    }

    /// The address of the wallet, a function of its encoded public key alone.
    pub fn get_address(&self) -> (address: String)
        ensures
            address@ == address_of(self.public_key_encoding()),
            address@.len() == 2 * DIGEST_BYTES,
    {
        let encoding = A::serialize_public_key(&self.public_key);
        fingerprint(encoding.as_slice())
    }

    /// Signs the UTF-8 bytes of `message` with the private half. The wallet
    /// accepts the signature on that message.
    pub fn sign(&self, message: &str) -> (signature: A::Signature)
        ensures
            A::is_signature(
                &self.private_key(),
                encode_utf8(message@),
                A::signature_encoding(&signature),
            ),
            A::verdict(
                self.public_key_encoding(),
                encode_utf8(message@),
                A::signature_encoding(&signature),
            ) == Ok::<bool, SignatureError>(true),
    {
        let signature = A::sign_message(&self.private_key, message);
        proof {
            use_type_invariant(self);
            A::lemma_signature_is_accepted(
                &self.private_key,
                &self.public_key,
                encode_utf8(message@),
                A::signature_encoding(&signature),
            );
        }
        signature
    }

    /// Judges `signature` on the UTF-8 bytes of `message` under the public
    /// half.
    pub fn verify(&self, message: &str, signature: &A::Signature) -> (outcome: Result<
        bool,
        SignatureError,
    >)
        ensures
            outcome == A::verdict(
                self.public_key_encoding(),
                encode_utf8(message@),
                A::signature_encoding(signature),
            ),
    {
        A::verify_message(&self.public_key, message, signature)
    }
}

impl<A: SigningAlgorithm> Default for Wallet<A> {
    fn default() -> (wallet: Self)
        ensures
            wallet.well_formed(),
    {
        Wallet::new()
    }
}

/// Wallets whose public keys have one encoding have one address.
pub proof fn lemma_address_depends_on_public_key_alone<A: SigningAlgorithm>(
    first: Wallet<A>,
    second: Wallet<A>,
)
    requires
        first.public_key_encoding() == second.public_key_encoding(),
    ensures
        address_of(first.public_key_encoding()) == address_of(second.public_key_encoding()),
{
}

/// What a wallet signs, the same wallet accepts.
pub proof fn lemma_wallet_accepts_own_signature<A: SigningAlgorithm>(
    wallet: Wallet<A>,
    message: Seq<u8>,
    signature: Seq<u8>,
)
    requires
        wallet.well_formed(),
        A::is_signature(&wallet.private_key(), message, signature),
    ensures
        A::verdict(wallet.public_key_encoding(), message, signature) == Ok::<bool, SignatureError>(
            true,
        ),
{
    A::lemma_signature_is_accepted(
        &wallet.private_key(),
        &wallet.public_key(),
        message,
        signature,
    );
}

} // verus!
