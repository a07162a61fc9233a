use nodle_submit::decrypt_key::{decrypt, Error};
use nodle_submit::json_key::{AccountData, AccountMeta, EncodedKey};
use nodle_submit::signer::{
    is_dev_endpoint, keypair_from_secret_uri, keypair_of_secret, resolve_signer, signer_secret, SignerSecret, seed_from_keystore, seed_from_plaintext, signer_source,
    SignerError, SignerSource,
};
use sodiumoxide::crypto::secretbox;

fn keystore_key(password: &str) -> [u8; 32] {
    let params = scrypt::Params::new(15, 8, 1, 32).unwrap();
    let mut key = [0u8; 32];
    scrypt::scrypt(password.as_bytes(), &[], &params, &mut key).unwrap();
    key
}

fn seal(plain: &[u8], password: &str) -> Vec<u8> {
    let key = secretbox::Key(keystore_key(password));
    secretbox::seal(plain, &secretbox::Nonce([0u8; 24]), &key)
}

fn account(encoded: &str) -> AccountData {
    AccountData {
        address: "5GrwvaEF5zXb26Fz9rcQpDWS57CtERHpNehXCPcNoHGKutQY".to_string(),
        encoded: encoded.to_string(),
        encoding: EncodedKey {
            content: vec!["pkcs8".to_string(), "sr25519".to_string()],
            type_field: vec!["scrypt".to_string(), "xsalsa20-poly1305".to_string()],
            version: "3".to_string(),
        },
        meta: AccountMeta { name: "test".to_string(), whenCreated: 1_700_000_000_000 },
    }
}

#[test]
fn decrypt_round_trip() {
    let plain = b"a secret of some length".to_vec();
    let sealed = seal(&plain, "correct horse");
    assert_eq!(sealed.len(), plain.len() + 16);
    assert_eq!(decrypt(&sealed, "correct horse").unwrap(), plain);
}

#[test]
fn decrypt_wrong_password_fails_authentication() {
    let sealed = seal(b"another secret", "first password");
    assert!(matches!(decrypt(&sealed, "second password"), Err(Error::DecryptionFailed)));
}

#[test]
fn decrypt_corrupted_ciphertext_fails_authentication() {
    let mut sealed = seal(b"tamper with me", "pw");
    sealed[20] ^= 1;
    assert!(matches!(decrypt(&sealed, "pw"), Err(Error::DecryptionFailed)));
}

#[test]
fn decrypt_short_ciphertext_fails() {
    assert!(matches!(decrypt(&[1, 2, 3], "pw"), Err(Error::DecryptionFailed)));
    assert!(matches!(decrypt(&[], "pw"), Err(Error::DecryptionFailed)));
}

#[test]
fn seed_of_exact_length_is_kept() {
    let plain: Vec<u8> = (0u8..32).collect();
    let seed = seed_from_plaintext(&plain).unwrap();
    assert_eq!(seed.to_vec(), plain);
}

#[test]
fn seed_of_wrong_length_is_refused() {
    let short: Vec<u8> = vec![7u8; 31];
    let long: Vec<u8> = vec![7u8; 33];
    assert_eq!(seed_from_plaintext(&short), Err(SignerError::InvalidSeedLength));
    assert_eq!(seed_from_plaintext(&long), Err(SignerError::InvalidSeedLength));
    assert_eq!(seed_from_plaintext(&Vec::new()), Err(SignerError::InvalidSeedLength));
}

#[test]
fn keystore_blob_that_does_not_open_is_refused() {
    // The keystore holds the ciphertext as the literal bytes of a string; a
    // string that is not a box sealed under the password fails to open.
    let sealed = seal(b"0123456789abcdef0123456789abcdef", "pw");
    let ciphertext_text: String = sealed.iter().map(|&b| (b % 94 + 33) as char).collect();
    assert_eq!(
        seed_from_keystore(&account(&ciphertext_text), "pw"),
        Err(SignerError::Keystore(Error::DecryptionFailed))
    );
}

#[test]
fn keystore_seed_of_32_bytes_is_taken() {
    let exact = seal(&[9u8; 32], "pw");
    let plain = decrypt(&exact, "pw").unwrap();
    assert_eq!(seed_from_plaintext(&plain), Ok([9u8; 32]));
}

#[test]
fn keystore_seed_of_31_bytes_is_refused() {
    let short = seal(&[5u8; 31], "pw");
    let plain = decrypt(&short, "pw").unwrap();
    assert_eq!(plain.len(), 31);
    assert_eq!(seed_from_plaintext(&plain), Err(SignerError::InvalidSeedLength));
}

#[test]
fn keystore_seed_of_33_bytes_is_refused() {
    let long = seal(&[5u8; 33], "pw");
    let plain = decrypt(&long, "pw").unwrap();
    assert_eq!(plain.len(), 33);
    assert_eq!(seed_from_plaintext(&plain), Err(SignerError::InvalidSeedLength));
}

#[test]
fn signer_source_priority() {
    assert_eq!(signer_source(true, true, true), Ok(SignerSource::Keystore));
    assert_eq!(signer_source(true, false, false), Ok(SignerSource::Keystore));
    assert_eq!(signer_source(false, true, true), Ok(SignerSource::SecretUri));
    assert_eq!(signer_source(false, false, true), Ok(SignerSource::Development));
    assert_eq!(signer_source(false, false, false), Err(SignerError::InvalidSecretUri));
}

#[test]
fn development_key_on_development_endpoint() {
    let k = resolve_signer(None, "", None, true).ok().unwrap();
    let alice = keypair_from_secret_uri("//Alice").ok().unwrap();
    assert_eq!(k.public_key().0, alice.public_key().0);
}

#[test]
fn no_signer_off_development_endpoint_is_refused() {
    assert!(matches!(resolve_signer(None, "", None, false), Err(SignerError::InvalidSecretUri)));
}

#[test]
fn secret_uri_takes_precedence_over_development_key() {
    let k = resolve_signer(None, "", Some("//Bob"), true).ok().unwrap();
    let alice = keypair_from_secret_uri("//Alice").ok().unwrap();
    let bob = keypair_from_secret_uri("//Bob").ok().unwrap();
    assert_eq!(k.public_key().0, bob.public_key().0);
    assert_ne!(k.public_key().0, alice.public_key().0);
}

#[test]
fn hex_seed_uri_is_accepted() {
    let uri = format!("0x{}", "11".repeat(32));
    assert!(keypair_from_secret_uri(&uri).is_ok());
    assert!(keypair_from_secret_uri(&format!("{uri}///ignored")).is_ok());
}

#[test]
fn malformed_secret_uri_is_refused() {
    assert!(matches!(keypair_from_secret_uri("0x1234"), Err(SignerError::InvalidSecretUri)));
    assert!(matches!(
        resolve_signer(None, "", Some("not a valid phrase at all"), true),
        Err(SignerError::InvalidSecretUri)
    ));
}

#[test]
fn keystore_that_does_not_open_is_reported() {
    let data = account("plainly not a sealed box of any password at all");
    assert!(matches!(
        resolve_signer(Some(&data), "pw", Some("//Bob"), true),
        Err(SignerError::Keystore(Error::DecryptionFailed))
    ));
}

#[test]
fn development_endpoints_are_local() {
    assert!(is_dev_endpoint("ws://localhost:9280"));
    assert!(is_dev_endpoint("ws://127.0.0.1:9944"));
    assert!(!is_dev_endpoint("wss://eden-rpc.dwellir.com"));
    assert!(!is_dev_endpoint("ws://localhos:1"));
    assert!(!is_dev_endpoint(""));
}

#[test]
fn error_names() {
    assert_eq!(Error::InvalidScryptParams.name(), "InvalidScryptParams");
    assert_eq!(Error::InvalidScryptOutput.name(), "InvalidScryptOutput");
    assert_eq!(Error::DecryptionFailed.name(), "DecryptionFailed");
}

#[test]
fn off_development_endpoint_secret_uri_still_works() {
    assert!(resolve_signer(None, "", Some("//Charlie"), false).is_ok());
}

#[test]
fn signer_secret_priority() {
    assert_eq!(signer_secret(None, "", Some("//Bob"), true), Ok(SignerSecret::Uri("//Bob")));
    assert_eq!(signer_secret(None, "", None, true), Ok(SignerSecret::Uri("//Alice")));
    assert_eq!(signer_secret(None, "", None, false), Err(SignerError::InvalidSecretUri));
    let data = account("not a sealed box");
    assert_eq!(
        signer_secret(Some(&data), "pw", Some("//Bob"), true),
        Err(SignerError::Keystore(Error::DecryptionFailed))
    );
}

#[test]
fn keypair_of_seed_secret_matches_hex_uri() {
    let from_seed = keypair_of_secret(&SignerSecret::Seed([0x11; 32])).ok().unwrap();
    let uri = format!("0x{}", "11".repeat(32));
    let from_uri = keypair_of_secret(&SignerSecret::Uri(&uri)).ok().unwrap();
    assert_eq!(from_seed.public_key().0, from_uri.public_key().0);
    assert!(matches!(keypair_of_secret(&SignerSecret::Uri("0x12")), Err(SignerError::InvalidSecretUri)));
}
