//! Choosing where the signing key comes from, and turning a recovered
//! keystore secret into a seed.
use crate::decrypt_key::{decrypt, keystore_open};
use crate::decrypt_key::Error as DecryptError;
use crate::json_key::AccountData;
use vstd::prelude::*;
use vstd::string::StringSliceAdditionalSpecFns;
use vstd::utf8::encode_utf8;
use subxt_signer::sr25519::Keypair;
use subxt_signer::SecretUri;
use std::str::FromStr;

verus! {

/// Length in bytes of a signing seed.
pub const SEED_LEN: usize = 32;

/// The secret URI of the development key.
pub const DEV_SECRET_URI: &'static str = "//Alice";

#[verifier::external_type_specification]
#[verifier::external_body]
pub struct ExKeypair(subxt_signer::sr25519::Keypair);

/// Relies on `subxt_signer::sr25519::Keypair::from_seed`: it fails only when
/// schnorrkel refuses the seed's length, which a 32-byte seed always has.
#[verifier::external_body]
fn keypair_from_seed(seed: [u8; 32]) -> (res: Option<Keypair>)
    ensures
        res is Some,
{
    Keypair::from_seed(seed).ok()
}

/// Whether a secret URI names a key: it must parse as
/// `phrase-or-hex(/junction)*(///password)?`, and its phrase must be a BIP-39
/// phrase or its hex a 32-byte seed. This depends on the text alone.
pub uninterp spec fn secret_uri_accepted(uri: Seq<u8>) -> bool;

/// Relies on `subxt_signer::SecretUri::from_str` and
/// `subxt_signer::sr25519::Keypair::from_uri`: the key that a secret URI
/// names, derived along its junctions, or nothing when the text does not
/// parse or its phrase or hex seed cannot be read.
#[verifier::external_body]
fn keypair_from_uri_text(uri: &str) -> (res: Option<Keypair>)
    ensures
        res is Some <==> secret_uri_accepted(uri.spec_bytes()),
{
    match SecretUri::from_str(uri) {
        Ok(parsed) => Keypair::from_uri(&parsed).ok(),
        Err(_) => None,
    }
}

/// Why no signing key could be had.
#[derive(Debug, PartialEq, Eq, Structural)]
pub enum SignerError {
    /// No signer was requested and the endpoint is not a development one.
    InvalidSecretUri,
    /// The recovered secret is not exactly one seed long.
    InvalidSeedLength,
    /// The keystore could not be decrypted.
    Keystore(DecryptError),
}

/// Where the signing key comes from.
#[derive(Clone, Copy, Debug, PartialEq, Eq, Structural)]
pub enum SignerSource {
    /// A password-encrypted keystore file.
    Keystore,
    /// A secret URI: a phrase or hex seed, derivation junctions and a password.
    SecretUri,
    /// The well-known development key.
    Development,
}

/// Whether `pat` occurs in `s` as a contiguous run of bytes.
pub open spec fn contains_bytes(s: Seq<u8>, pat: Seq<u8>) -> bool {
    exists|i: int| 0 <= i && i + pat.len() <= s.len() && #[trigger] s.subrange(i, i + pat.len()) == pat
}

/// Whether `pat` occurs in `s`.
fn find_bytes(s: &[u8], pat: &[u8]) -> (res: bool)
    ensures
        res == contains_bytes(s@, pat@),
{
    if pat.len() > s.len() {
        return false;
    }
    let mut i: usize = 0;
    while i <= s.len() - pat.len()
        invariant
            pat@.len() <= s@.len(),
            i <= s@.len() - pat@.len() + 1,
            forall|j: int| 0 <= j < i ==> #[trigger] s@.subrange(j, j + pat@.len()) != pat@,
        decreases s@.len() - i,
    {
        let mut k: usize = 0;
        let mut same = true;
        while k < pat.len()
            invariant
                i + pat@.len() <= s@.len(),
                s@.len() <= usize::MAX,
                k <= pat@.len(),
                same == (forall|m: int| 0 <= m < k ==> s@[i + m] == pat@[m]),
            decreases pat@.len() - k,
        {
            if s[i + k] != pat[k] {
                same = false;
            }
            k = k + 1;
        }
        if same {
            assert(s@.subrange(i as int, i + pat@.len()) =~= pat@);
            return true;
        }
        assert(s@.subrange(i as int, i + pat@.len()) != pat@) by {
            let m = choose|m: int| 0 <= m < pat@.len() && s@[i + m] != pat@[m];
            assert(s@.subrange(i as int, i + pat@.len())[m] == s@[i + m]);
        }
        i = i + 1;
    }
    assert forall|j: int| 0 <= j && j + pat@.len() <= s@.len() implies #[trigger] s@.subrange(j, j + pat@.len()) != pat@ by {
        assert(j < i);
    }
    false
}

/// Whether an RPC endpoint is a development node on this machine: its URL
/// names `localhost` or `127.0.0.1`.
pub fn is_dev_endpoint(url: &str) -> (res: bool)
    ensures
        res == (contains_bytes(url.spec_bytes(), "localhost".spec_bytes()) || contains_bytes(
            url.spec_bytes(),
            "127.0.0.1".spec_bytes(),
        )),
{
    find_bytes(url.as_bytes(), "localhost".as_bytes()) || find_bytes(url.as_bytes(), "127.0.0.1".as_bytes())
}

/// Picks the signer: a keystore when one is given, else a secret URI when one
/// is given, else the development key when the endpoint is a development one.
pub fn signer_source(keystore_given: bool, uri_given: bool, dev_endpoint: bool) -> (res: Result<
    SignerSource,
    SignerError,
>)
    ensures
        keystore_given ==> res == Ok::<SignerSource, SignerError>(SignerSource::Keystore),
        !keystore_given && uri_given ==> res == Ok::<SignerSource, SignerError>(SignerSource::SecretUri),
        !keystore_given && !uri_given && dev_endpoint ==> res == Ok::<SignerSource, SignerError>(
            SignerSource::Development,
        ),
        !keystore_given && !uri_given && !dev_endpoint ==> res == Err::<SignerSource, SignerError>(
            SignerError::InvalidSecretUri,
        ),
{
    if keystore_given {
        Ok(SignerSource::Keystore)
    } else if uri_given {
        Ok(SignerSource::SecretUri)
    } else if dev_endpoint {
        Ok(SignerSource::Development)
    } else {
        Err(SignerError::InvalidSecretUri)
    }
}

/// Takes a recovered secret as a seed: it must be exactly 32 bytes, and is
/// never truncated or padded.
pub fn seed_from_plaintext(plain: &Vec<u8>) -> (res: Result<[u8; 32], SignerError>)
    ensures
        res is Ok <==> plain@.len() == SEED_LEN,
        res matches Ok(seed) ==> seed@ == plain@,
        res matches Err(e) ==> e == SignerError::InvalidSeedLength,
{
    if plain.len() != SEED_LEN {
        return Err(SignerError::InvalidSeedLength);
    }
    let mut seed = [0u8; 32];
    let mut i: usize = 0;
    while i < SEED_LEN
        invariant
            plain@.len() == SEED_LEN,
            i <= SEED_LEN,
            forall|j: int| 0 <= j < i ==> seed@[j] == plain@[j],
        decreases SEED_LEN - i,
    {
        seed[i] = plain[i];
        i = i + 1;
    }
    assert(seed@ =~= plain@);
    Ok(seed)
}

/// Recovers the signing seed of a keystore file with its password.
pub fn seed_from_keystore(data: &AccountData, password: &str) -> (res: Result<[u8; 32], SignerError>)
    ensures
        ({
            let opened = keystore_open(encode_utf8(data.encoded@), password.spec_bytes());
            match opened {
                None => res == Err::<[u8; 32], SignerError>(SignerError::Keystore(DecryptError::DecryptionFailed)),
                Some(m) => if m.len() == SEED_LEN {
                    res matches Ok(seed) && seed@ == m
                } else {
                    res == Err::<[u8; 32], SignerError>(SignerError::InvalidSeedLength)
                },
            }
        }),
{
    match decrypt(data.encoded.as_str().as_bytes(), password) {
        Ok(plain) => seed_from_plaintext(&plain),
        Err(e) => Err(SignerError::Keystore(e)),
    }
}

/// The keypair that a secret URI names.
pub fn keypair_from_secret_uri(uri: &str) -> (res: Result<Keypair, SignerError>)
    ensures
        res is Ok <==> secret_uri_accepted(uri.spec_bytes()),
        res matches Err(e) ==> e == SignerError::InvalidSecretUri,
{
    match keypair_from_uri_text(uri) {
        Some(k) => Ok(k),
        None => Err(SignerError::InvalidSecretUri),
    }
}

/// The secret that a signing key is made from.
#[derive(Debug, PartialEq, Eq)]
pub enum SignerSecret<'a> {
    /// A 32-byte seed, as recovered from a keystore.
    Seed([u8; 32]),
    /// A secret URI.
    Uri(&'a str),
}

/// Chooses the secret to sign with: the seed that the keystore holds when a
/// keystore is given, else the given secret URI, else the development key's
/// URI when the endpoint is a development one.
pub fn signer_secret<'a>(
    keystore: Option<&AccountData>,
    password: &str,
    uri: Option<&'a str>,
    dev_endpoint: bool,
) -> (res: Result<SignerSecret<'a>, SignerError>)
    ensures
        keystore matches Some(data) ==> match keystore_open(
            encode_utf8(data.encoded@),
            password.spec_bytes(),
        ) {
            None => res == Err::<SignerSecret, SignerError>(
                SignerError::Keystore(DecryptError::DecryptionFailed),
            ),
            Some(m) => if m.len() == SEED_LEN {
                res matches Ok(SignerSecret::Seed(seed)) && seed@ == m
            } else {
                res == Err::<SignerSecret, SignerError>(SignerError::InvalidSeedLength)
            },
        },
        keystore is None && uri is Some ==> res == Ok::<SignerSecret, SignerError>(
            SignerSecret::Uri(uri.unwrap()),
        ),
        keystore is None && uri is None && dev_endpoint ==> res == Ok::<SignerSecret, SignerError>(
            SignerSecret::Uri(DEV_SECRET_URI),
        ),
        keystore is None && uri is None && !dev_endpoint ==> res == Err::<SignerSecret, SignerError>(
            SignerError::InvalidSecretUri,
        ),
{
    match signer_source(keystore.is_some(), uri.is_some(), dev_endpoint) {
        Ok(SignerSource::Keystore) => match keystore {
            Some(data) => match seed_from_keystore(data, password) {
                Ok(seed) => Ok(SignerSecret::Seed(seed)),
                Err(e) => Err(e),
            },
            None => Err(SignerError::InvalidSecretUri),
        },
        Ok(SignerSource::SecretUri) => match uri {
            Some(u) => Ok(SignerSecret::Uri(u)),
            None => Err(SignerError::InvalidSecretUri),
        },
        Ok(SignerSource::Development) => Ok(SignerSecret::Uri(DEV_SECRET_URI)),
        Err(e) => Err(e),
    }
}

/// The keypair that a secret stands for: a seed always gives one, a secret
/// URI gives one exactly when it is accepted.
pub fn keypair_of_secret(secret: &SignerSecret) -> (res: Result<Keypair, SignerError>)
    ensures
        secret is Seed ==> res is Ok,
        secret matches SignerSecret::Uri(u) ==> (res is Ok <==> secret_uri_accepted(u.spec_bytes())),
        res matches Err(e) ==> e == SignerError::InvalidSecretUri,
{
    match secret {
        SignerSecret::Seed(seed) => match keypair_from_seed(*seed) {
            Some(k) => Ok(k),
            None => Err(SignerError::InvalidSecretUri),
        },
        SignerSecret::Uri(u) => keypair_from_secret_uri(u),
    }
}

/// Produces the signing keypair from what the caller supplied: the keypair
/// of the secret that `signer_secret` chooses.
pub fn resolve_signer(
    keystore: Option<&AccountData>,
    password: &str,
    uri: Option<&str>,
    dev_endpoint: bool,
) -> (res: Result<Keypair, SignerError>)
    ensures
        keystore matches Some(data) ==> match keystore_open(
            encode_utf8(data.encoded@),
            password.spec_bytes(),
        ) {
            None => res matches Err(e) && e == SignerError::Keystore(DecryptError::DecryptionFailed),
            Some(m) => if m.len() == SEED_LEN {
                res is Ok
            } else {
                res matches Err(e) && e == SignerError::InvalidSeedLength
            },
        },
        keystore is None ==> (res matches Err(e) ==> e == SignerError::InvalidSecretUri),
        keystore is None && uri is None && !dev_endpoint ==> res is Err,
        keystore is None && uri is Some ==> (res is Ok <==> secret_uri_accepted(uri.unwrap().spec_bytes())),
        keystore is None && uri is None && dev_endpoint ==> (res is Ok <==> secret_uri_accepted(
            DEV_SECRET_URI.spec_bytes(),
        )),
{
    match signer_secret(keystore, password, uri, dev_endpoint) {
        Ok(secret) => keypair_of_secret(&secret),
        Err(e) => Err(e),
    }
}

} // verus!
