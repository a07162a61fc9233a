//! Recovery of a secret from a password-encrypted keystore blob: an scrypt key
//! derivation with fixed parameters and an empty salt, followed by an
//! XSalsa20-Poly1305 secretbox opened under an all-zero nonce.
use vstd::arithmetic::power2::{lemma2_to64, pow2};

mod kdf;

use kdf::{scrypt_derive, scrypt_params_new};
use sodiumoxide::crypto::secretbox;
use vstd::prelude::*;
use vstd::string::StringSliceAdditionalSpecFns;

verus! {

/// log2 of the scrypt work factor of the keystore format.
pub const SCRYPT_LOG_N: u8 = 15;

/// scrypt block size of the keystore format.
pub const SCRYPT_R: u32 = 8;

/// scrypt parallelism of the keystore format.
pub const SCRYPT_P: u32 = 1;

/// Length in bytes of the derived symmetric key.
pub const KEY_LEN: usize = 32;

/// Length in bytes of a secretbox nonce.
pub const NONCE_LEN: usize = 24;

/// Length in bytes of the authentication tag that precedes the plaintext.
pub const TAG_LEN: usize = 16;

/// Why a keystore blob could not be decrypted.
#[derive(Debug, PartialEq, Eq, Structural)]
pub enum Error {
    /// The key-derivation parameters are out of the algorithm's range.
    InvalidScryptParams,
    /// The key derivation produced no output.
    InvalidScryptOutput,
    /// The authentication tag did not match: wrong password or corrupted blob.
    DecryptionFailed,
}

impl Error {
    /// The name of the error, as it is shown to a user.
    pub fn name(&self) -> (res: &'static str)
        ensures
            *self == Error::InvalidScryptParams ==> res@ == "InvalidScryptParams"@,
            *self == Error::InvalidScryptOutput ==> res@ == "InvalidScryptOutput"@,
            *self == Error::DecryptionFailed ==> res@ == "DecryptionFailed"@,
    {
        match self {
            Error::InvalidScryptParams => "InvalidScryptParams",
            Error::InvalidScryptOutput => "InvalidScryptOutput",
            Error::DecryptionFailed => "DecryptionFailed",
        }
    }
}

/// The parameter checks of `scrypt::Params::new`; `2^log_n` fitting in a
/// `usize` is the same as `log_n` being below the width of `usize`.
pub open spec fn scrypt_params_accepted(log_n: u8, r: u32, p: u32, len: usize) -> bool {
    &&& r > 0
    &&& p > 0
    &&& pow2(log_n as nat) <= usize::MAX
    &&& 10 <= len <= 64
    &&& r * 128 * pow2(log_n as nat) <= usize::MAX
    &&& r * 128 * p <= usize::MAX
    &&& (log_n as int) < r * 16
    &&& r * p < 0x4000_0000
}

/// The bytes that scrypt derives from a password and salt under the given
/// cost parameters, for an output of `len` bytes.
pub uninterp spec fn scrypt_key_of(
    password: Seq<u8>,
    salt: Seq<u8>,
    log_n: u8,
    r: u32,
    p: u32,
    len: nat,
) -> Seq<u8>;

/// What XSalsa20-Poly1305 `open` yields for a combined-mode ciphertext under a
/// nonce and key: the plaintext when the tag verifies, `None` otherwise.
pub uninterp spec fn secretbox_open_of(ciphertext: Seq<u8>, nonce: Seq<u8>, key: Seq<u8>) -> Option<Seq<u8>>;

/// The all-zero nonce of the keystore format.
pub open spec fn zero_nonce() -> Seq<u8> {
    Seq::new(NONCE_LEN as nat, |i: int| 0u8)
}

/// The symmetric key that the keystore format derives from a password.
pub open spec fn keystore_key(password: Seq<u8>) -> Seq<u8> {
    scrypt_key_of(password, Seq::empty(), SCRYPT_LOG_N, SCRYPT_R, SCRYPT_P, KEY_LEN as nat)
}

/// What decrypting `ciphertext` under `password` yields in the keystore format.
pub open spec fn keystore_open(ciphertext: Seq<u8>, password: Seq<u8>) -> Option<Seq<u8>> {
    secretbox_open_of(ciphertext, zero_nonce(), keystore_key(password))
}

/// Relies on `sodiumoxide::crypto::secretbox::open`: it rejects a ciphertext
/// shorter than the tag, and otherwise returns the plaintext, one tag shorter
/// than the ciphertext, exactly when the tag verifies.
#[verifier::external_body]
fn secretbox_open(ciphertext: &[u8], nonce: &[u8; 24], key: &[u8; 32]) -> (res: Result<Vec<u8>, ()>)
    ensures
        ciphertext@.len() < TAG_LEN ==> res is Err,
        res is Ok <==> secretbox_open_of(ciphertext@, nonce@, key@) is Some,
        res matches Ok(m) ==> secretbox_open_of(ciphertext@, nonce@, key@) == Some(m@)
            && m@.len() + TAG_LEN == ciphertext@.len(),
{
    secretbox::open(ciphertext, &secretbox::Nonce(*nonce), &secretbox::Key(*key))
}

/// Decrypts a keystore ciphertext with the password it was sealed under.
///
/// The key is scrypt(password, empty salt, N = 2^15, r = 8, p = 1, 32 bytes)
/// and the secretbox nonce is all zeros. With these fixed parameters neither
/// key-derivation error can occur; the only failure is a tag mismatch.
pub fn decrypt(encrypted_data: &[u8], password: &str) -> (res: Result<Vec<u8>, Error>)
    ensures
        res is Ok <==> keystore_open(encrypted_data@, password.spec_bytes()) is Some,
        res matches Ok(m) ==> keystore_open(encrypted_data@, password.spec_bytes()) == Some(m@),
        res matches Ok(m) ==> m@.len() + TAG_LEN == encrypted_data@.len(),
        res matches Err(e) ==> e == Error::DecryptionFailed,
        encrypted_data@.len() < TAG_LEN ==> res == Err::<Vec<u8>, Error>(Error::DecryptionFailed),
{
    let salt: [u8; 0] = [];
    let nonce = [0u8; 24];
    proof {
        lemma2_to64();
    }
    let params = match scrypt_params_new(SCRYPT_LOG_N, SCRYPT_R, SCRYPT_P, KEY_LEN) {
        Ok(p) => p,
        Err(_) => {
            return Err(Error::InvalidScryptParams);
        },
    };
    let mut key = [0u8; 32];
    match scrypt_derive(password.as_bytes(), &salt, &params, &mut key) {
        Ok(()) => {},
        Err(_) => {
            return Err(Error::InvalidScryptOutput);
        },
    }
    assert(nonce@ =~= zero_nonce());
    assert(salt@ =~= Seq::<u8>::empty());
    match secretbox_open(encrypted_data, &nonce, &key) {
        Ok(m) => Ok(m),
        Err(()) => Err(Error::DecryptionFailed),
    }
}

} // verus!
