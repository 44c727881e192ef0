//! A value transfer between two addresses, signed by a wallet.

use crate::digest::{hex_encode, hex_spec};
use crate::signing::dilithium::{
    DilithiumAlgorithm, DilithiumPrivateKey, DilithiumPublicKey,
};
use crate::signing::{SignatureError, SigningAlgorithm};
use crate::text::{decimal, decimal_string, lemma_decimal_injective, quoted, quoted_spec};
use crate::wallet::Wallet;
use vstd::prelude::*;
use vstd::string::StringExecFns;
use vstd::utf8::{encode_utf8, encode_utf8_decode_utf8};

verus! {

/// The text that is signed for a transfer: sender, recipient and the decimal
/// amount, one after the other with nothing between them.
///
/// The text does not say where one field ends and the next begins, so two
/// different transfers can share it; see
/// [`lemma_canonical_message_is_ambiguous`].
pub open spec fn canonical_message(from: Seq<char>, to: Seq<char>, amount: u64) -> Seq<char> {
    from + to + decimal(amount as nat)
}

/// What a transaction holds: the two addresses, the amount, and the encoding
/// of the signature once there is one.
pub struct TransactionView {
    pub from: Seq<char>,
    pub to: Seq<char>,
    pub amount: u64,
    pub signature: Option<Seq<u8>>,
}

impl TransactionView {
    /// The text that is signed for this transfer.
    pub open spec fn message(self) -> Seq<char> {
        canonical_message(self.from, self.to, self.amount)
    }

    /// The bytes that are signed for this transfer.
    pub open spec fn message_bytes(self) -> Seq<u8> {
        encode_utf8(self.message())
    }

    /// What validation against a public key says: an unsigned transfer is
    /// not valid, a signed one is judged by the scheme.
    pub open spec fn verdict<A: SigningAlgorithm>(self, public_key: Seq<u8>) -> Result<
        bool,
        SignatureError,
    > {
        match self.signature {
            Some(signature) => A::verdict(public_key, self.message_bytes(), signature),
            None => Ok(false),
        }
    }

    /// The printable form: the fields by name, strings quoted, the signature
    /// in hexadecimal.
    pub open spec fn printable(self) -> Seq<char> {
        let signature = match self.signature {
            Some(encoding) => "Some(\""@ + hex_spec(encoding) + "\")"@,
            None => "None"@,
        };
        "Transaction { from: "@ + quoted_spec(self.from) + ", to: "@ + quoted_spec(self.to)
            + ", amount: "@ + decimal(self.amount as nat) + ", signature: "@ + signature
            + " }"@
    }
}

/// A transfer of `amount` from one address to another under the scheme `A`.
/// It is created unsigned; validity is never stored, only recomputed.
pub struct Transaction<A: SigningAlgorithm> {
    from: String,
    to: String,
    amount: u64,
    signature: Option<A::Signature>,
}

impl<A: SigningAlgorithm> View for Transaction<A> {
    type V = TransactionView;

    closed spec fn view(&self) -> TransactionView {
        TransactionView {
            from: self.from@,
            to: self.to@,
            amount: self.amount,
            signature: match self.signature {
                Some(signature) => Some(A::signature_encoding(&signature)),
                None => None,
            },
        }
    }
}

impl<A: SigningAlgorithm> Transaction<A> {
    /// An unsigned transfer.
    pub fn new(from: String, to: String, amount: u64) -> (transaction: Self)
        ensures
            transaction@ == (TransactionView { from: from@, to: to@, amount, signature: None }),
    {
        Transaction { from, to, amount, signature: None }
    }

    /// The sender's address.
    pub fn from_address(&self) -> (from: &str)
        ensures
            from@ == self@.from,
    {
        self.from.as_str()
    }

    /// The recipient's address.
    pub fn to_address(&self) -> (to: &str)
        ensures
            to@ == self@.to,
    {
        self.to.as_str()
    }

    /// The amount transferred.
    pub fn amount(&self) -> (amount: u64)
        ensures
            amount == self@.amount,
    {
        self.amount
    }

    /// Whether the transfer carries a signature.
    pub fn is_signed(&self) -> (signed: bool)
        ensures
            signed == self@.signature.is_some(),
    {
        self.signature.is_some()
    }

    /// The encoding of the signature, once there is one.
    pub fn signature_bytes(&self) -> (bytes: Option<Vec<u8>>)
        ensures
            match bytes {
                Some(encoding) => self@.signature == Some(encoding@),
                None => self@.signature is None,
            },
    {
        match &self.signature {
            Some(signature) => Some(A::serialize_signature(signature)),
            None => None,
        }
    }

    /// Replaces the amount and leaves everything else, the signature
    /// included, as it is.
    pub fn set_amount(&mut self, amount: u64)
        ensures
            final(self)@ == (TransactionView { amount, ..old(self)@ }),
    {
        self.amount = amount;
    }

    /// The text that is signed for this transfer.
    pub fn canonical_message(&self) -> (message: String)
        ensures
            message@ == self@.message(),
    {
        let mut message = self.from.clone();
        message.append(self.to.as_str());
        let amount = decimal_string(self.amount as u128);
        message.append(amount.as_str());
        message
    }

    /// Signs the transfer as it stands with the wallet's private key. The
    /// signature replaces any earlier one, and the same wallet accepts it for
    /// as long as the transfer stays unchanged.
    pub fn sign_transaction(&mut self, wallet: &Wallet<A>)
        ensures
            final(self)@.from == old(self)@.from,
            final(self)@.to == old(self)@.to,
            final(self)@.amount == old(self)@.amount,
            final(self)@.signature matches Some(signature) && A::is_signature(
                &wallet.private_key(),
                old(self)@.message_bytes(),
                signature,
            ),
            final(self)@.verdict::<A>(wallet.public_key_encoding()) == Ok::<bool, SignatureError>(
                true,
            ),
    {
        let message = self.canonical_message();
        let signature = wallet.sign(message.as_str());
        self.signature = Some(signature);
    }

    /// Judges the transfer against the wallet's public key: an unsigned
    /// transfer is not valid, a signed one is judged by the scheme, and a
    /// signature that the scheme cannot read is reported as such.
    pub fn validate(&self, wallet: &Wallet<A>) -> (outcome: Result<bool, SignatureError>)
        ensures
            outcome == self@.verdict::<A>(wallet.public_key_encoding()),
    {
        match &self.signature {
            Some(signature) => {
                let message = self.canonical_message();
                wallet.verify(message.as_str(), signature)
            },
            None => Ok(false),
        }
    }

    /// Whether the transfer carries a signature that the scheme accepts, on
    /// the transfer as it stands, under the wallet's public key.
    pub fn is_valid(&self, wallet: &Wallet<A>) -> (valid: bool)
        ensures
            valid == (self@.verdict::<A>(wallet.public_key_encoding()) == Ok::<
                bool,
                SignatureError,
            >(true)),
            self@.signature is None ==> !valid,
    {
        match self.validate(wallet) {
            Ok(accepted) => accepted,
            Err(_) => false,
        }
    }

    /// The printable form of the transfer.
    pub fn printable(&self) -> (text: String)
        ensures
            text@ == self@.printable(),
    {
        let mut text = String::from_str("Transaction { from: ");
        let from = quoted(self.from.as_str());
        text.append(from.as_str());
        text.append(", to: ");
        let to = quoted(self.to.as_str());
        text.append(to.as_str());
        text.append(", amount: ");
        let amount = decimal_string(self.amount as u128);
        text.append(amount.as_str());
        text.append(", signature: ");
        match &self.signature {
            Some(signature) => {
                let encoding = A::serialize_signature(signature);
                let hex = hex_encode(encoding.as_slice());
                text.append("Some(\"");
                text.append(hex.as_str());
                text.append("\")");
            },
            None => {
                text.append("None");
            },
        }
        text.append(" }");
        text
    }
}

/// The canonical message does not separate its fields: a transfer of 23 from
/// `"A1"` to the empty address and a transfer of 23 from `"A"` to `"1"` are
/// signed as the same text.
pub proof fn lemma_canonical_message_is_ambiguous()
    ensures
        canonical_message("A1"@, ""@, 23) == canonical_message("A"@, "1"@, 23),
        "A1"@ != "A"@,
{
    reveal_strlit("A1");
    reveal_strlit("");
    reveal_strlit("A");
    reveal_strlit("1");
    assert("A1"@ + ""@ =~= "A"@ + "1"@);
    assert("A1"@.len() != "A"@.len());
}

/// The canonical message tells amounts apart: two transfers that differ in
/// the amount alone are signed as different bytes.
pub proof fn lemma_amount_shows_in_message(transfer: TransactionView, amount: u64)
    requires
        amount != transfer.amount,
    ensures
        (TransactionView { amount, ..transfer }).message_bytes() != transfer.message_bytes(),
{
    let changed = TransactionView { amount, ..transfer };
    if changed.message_bytes() == transfer.message_bytes() {
        encode_utf8_decode_utf8(transfer.message());
        encode_utf8_decode_utf8(changed.message());
        let start = (transfer.from + transfer.to).len() as int;
        assert(transfer.message().subrange(start, transfer.message().len() as int) =~= decimal(
            transfer.amount as nat,
        ));
        assert(changed.message().subrange(start, changed.message().len() as int) =~= decimal(
            amount as nat,
        ));
        lemma_decimal_injective(transfer.amount as nat, amount as nat);
    }
}

/// A transfer signed under Dilithium2 is rejected, not merely unreadable,
/// once its amount has been changed: the container still opens, and the
/// message it carries is no longer the expected one.
pub proof fn lemma_changed_amount_is_rejected(
    private_key: &DilithiumPrivateKey,
    public_key: &DilithiumPublicKey,
    signed: TransactionView,
    amount: u64,
)
    requires
        DilithiumAlgorithm::key_pair(private_key, public_key),
        signed.signature matches Some(signature) && DilithiumAlgorithm::is_signature(
            private_key,
            signed.message_bytes(),
            signature,
        ),
        amount != signed.amount,
    ensures
        (TransactionView { amount, ..signed }).verdict::<DilithiumAlgorithm>(public_key@) == Ok::<
            bool,
            SignatureError,
        >(false),
{
    lemma_amount_shows_in_message(signed, amount);
}

} // verus!
