use quantum_bitcoin::signing::secp256k1::{EcdsaPublicKey, EcdsaSignature, Secp256k1Algorithm};
use quantum_bitcoin::signing::{SignatureError, SigningAlgorithm};
use sha2::Digest;

#[test]
fn ecdsa_signature_verifies_under_its_own_key() {
    let (private_key, public_key) = Secp256k1Algorithm::generate_keypair();
    for message in ["", "hello", "alicebob100", "zürich→東京", "a\nb\0c"] {
        let signature = Secp256k1Algorithm::sign_message(&private_key, message);
        assert_eq!(
            Secp256k1Algorithm::verify_message(&public_key, message, &signature),
            Ok(true)
        );
    }
}

#[test]
fn ecdsa_signature_fails_under_another_key() {
    let (private_key, _) = Secp256k1Algorithm::generate_keypair();
    let (_, other_public_key) = Secp256k1Algorithm::generate_keypair();
    let signature = Secp256k1Algorithm::sign_message(&private_key, "pay bob 5");
    assert_eq!(
        Secp256k1Algorithm::verify_message(&other_public_key, "pay bob 5", &signature),
        Ok(false)
    );
}

#[test]
fn ecdsa_signature_fails_on_another_message() {
    let (private_key, public_key) = Secp256k1Algorithm::generate_keypair();
    let signature = Secp256k1Algorithm::sign_message(&private_key, "pay bob 5");
    assert_eq!(
        Secp256k1Algorithm::verify_message(&public_key, "pay bob 6", &signature),
        Ok(false)
    );
    assert_eq!(Secp256k1Algorithm::verify_message(&public_key, "", &signature), Ok(false));
}

#[test]
fn ecdsa_signing_is_deterministic() {
    let (private_key, _) = Secp256k1Algorithm::generate_keypair();
    let first = Secp256k1Algorithm::sign_message(&private_key, "same message");
    let second = Secp256k1Algorithm::sign_message(&private_key, "same message");
    let other = Secp256k1Algorithm::sign_message(&private_key, "other message");
    assert_eq!(
        Secp256k1Algorithm::serialize_signature(&first),
        Secp256k1Algorithm::serialize_signature(&second)
    );
    assert_ne!(
        Secp256k1Algorithm::serialize_signature(&first),
        Secp256k1Algorithm::serialize_signature(&other)
    );
}

#[test]
fn ecdsa_keys_differ_between_draws() {
    let (_, first) = Secp256k1Algorithm::generate_keypair();
    let (_, second) = Secp256k1Algorithm::generate_keypair();
    assert_ne!(
        Secp256k1Algorithm::serialize_public_key(&first),
        Secp256k1Algorithm::serialize_public_key(&second)
    );
}

#[test]
fn ecdsa_public_key_is_compressed() {
    let (_, public_key) = Secp256k1Algorithm::generate_keypair();
    let bytes = Secp256k1Algorithm::serialize_public_key(&public_key);
    assert_eq!(bytes.len(), 33);
    assert!(bytes[0] == 2 || bytes[0] == 3);
    assert!(secp256k1::PublicKey::from_slice(&bytes).is_ok());
}

#[test]
fn ecdsa_signature_is_der_that_the_curve_library_accepts() {
    let (private_key, public_key) = Secp256k1Algorithm::generate_keypair();
    let message = "checked from outside";
    let signature = Secp256k1Algorithm::sign_message(&private_key, message);
    let der = Secp256k1Algorithm::serialize_signature(&signature);
    assert_eq!(der[0], 0x30);
    assert!(der.len() <= 72);

    let digest: [u8; 32] = sha2::Sha256::digest(message.as_bytes()).into();
    let parsed_signature = secp256k1::ecdsa::Signature::from_der(&der).unwrap();
    let parsed_key =
        secp256k1::PublicKey::from_slice(&Secp256k1Algorithm::serialize_public_key(&public_key))
            .unwrap();
    let context = secp256k1::Secp256k1::new();
    assert!(context
        .verify_ecdsa(&secp256k1::Message::from_digest(digest), &parsed_signature, &parsed_key)
        .is_ok());
}

#[test]
fn ecdsa_accepts_a_signature_made_outside() {
    let context = secp256k1::Secp256k1::new();
    let secret = secp256k1::SecretKey::from_slice(&[0xcd; 32]).unwrap();
    let public = secp256k1::PublicKey::from_secret_key(&context, &secret);
    let message = "made elsewhere";
    let digest: [u8; 32] = sha2::Sha256::digest(message.as_bytes()).into();
    let der = context
        .sign_ecdsa(&secp256k1::Message::from_digest(digest), &secret)
        .serialize_der()
        .to_vec();

    let public_key = EcdsaPublicKey::from_bytes(&public.serialize()).unwrap();
    let signature = EcdsaSignature::from_bytes(&der);
    assert_eq!(Secp256k1Algorithm::verify_message(&public_key, message, &signature), Ok(true));
    assert_eq!(
        Secp256k1Algorithm::verify_message(&public_key, "made here", &signature),
        Ok(false)
    );
}

#[test]
fn ecdsa_unreadable_signature_is_reported() {
    let (_, public_key) = Secp256k1Algorithm::generate_keypair();
    for bytes in [&[][..], &[0u8; 10][..], &[0x30, 0x02, 0x01][..], &[0xff; 72][..]] {
        let signature = EcdsaSignature::from_bytes(bytes);
        assert_eq!(
            Secp256k1Algorithm::verify_message(&public_key, "anything", &signature),
            Err(SignatureError::InvalidSignatureEncoding)
        );
    }
}

#[test]
fn ecdsa_truncated_signature_is_reported() {
    let (private_key, public_key) = Secp256k1Algorithm::generate_keypair();
    let signature = Secp256k1Algorithm::sign_message(&private_key, "cut short");
    let der = Secp256k1Algorithm::serialize_signature(&signature);
    let cut = EcdsaSignature::from_bytes(&der[..der.len() - 1]);
    assert_eq!(
        Secp256k1Algorithm::verify_message(&public_key, "cut short", &cut),
        Err(SignatureError::InvalidSignatureEncoding)
    );
}

#[test]
fn ecdsa_signature_with_a_flipped_bit_is_not_accepted() {
    let (private_key, public_key) = Secp256k1Algorithm::generate_keypair();
    let signature = Secp256k1Algorithm::sign_message(&private_key, "bit flip");
    let mut der = Secp256k1Algorithm::serialize_signature(&signature);
    let last = der.len() - 1;
    der[last] ^= 1;
    let changed = EcdsaSignature::from_bytes(&der);
    assert_ne!(
        Secp256k1Algorithm::verify_message(&public_key, "bit flip", &changed),
        Ok(true)
    );
}

#[test]
fn ecdsa_signature_bytes_round_trip() {
    let (private_key, public_key) = Secp256k1Algorithm::generate_keypair();
    let signature = Secp256k1Algorithm::sign_message(&private_key, "again");
    let bytes = Secp256k1Algorithm::serialize_signature(&signature);
    let reread = EcdsaSignature::from_bytes(&bytes);
    assert_eq!(Secp256k1Algorithm::serialize_signature(&reread), bytes);
    assert_eq!(Secp256k1Algorithm::verify_message(&public_key, "again", &reread), Ok(true));
}

#[test]
fn ecdsa_public_key_round_trip_verifies_the_same() {
    let (private_key, public_key) = Secp256k1Algorithm::generate_keypair();
    let (other_private_key, _) = Secp256k1Algorithm::generate_keypair();
    let bytes = Secp256k1Algorithm::serialize_public_key(&public_key);
    let reread = EcdsaPublicKey::from_bytes(&bytes).unwrap();
    assert_eq!(Secp256k1Algorithm::serialize_public_key(&reread), bytes);

    let own = Secp256k1Algorithm::sign_message(&private_key, "m");
    let foreign = Secp256k1Algorithm::sign_message(&other_private_key, "m");
    let garbage = EcdsaSignature::from_bytes(&[1, 2, 3]);
    for (message, signature) in [("m", &own), ("n", &own), ("m", &foreign), ("m", &garbage)] {
        assert_eq!(
            Secp256k1Algorithm::verify_message(&reread, message, signature),
            Secp256k1Algorithm::verify_message(&public_key, message, signature)
        );
    }
    assert_eq!(Secp256k1Algorithm::verify_message(&reread, "m", &own), Ok(true));
}

#[test]
fn ecdsa_public_key_is_read_only_from_a_point_of_the_curve() {
    assert!(EcdsaPublicKey::from_bytes(&[]).is_none());
    assert!(EcdsaPublicKey::from_bytes(&[0u8; 33]).is_none());
    assert!(EcdsaPublicKey::from_bytes(&[2u8; 32]).is_none());
    assert!(EcdsaPublicKey::from_bytes(&[0xffu8; 33]).is_none());
}

#[test]
fn ecdsa_uncompressed_public_key_is_kept_compressed() {
    let context = secp256k1::Secp256k1::new();
    let secret = secp256k1::SecretKey::from_slice(&[0x11; 32]).unwrap();
    let public = secp256k1::PublicKey::from_secret_key(&context, &secret);
    let key = EcdsaPublicKey::from_bytes(&public.serialize_uncompressed()).unwrap();
    assert_eq!(Secp256k1Algorithm::serialize_public_key(&key), public.serialize().to_vec());
}
