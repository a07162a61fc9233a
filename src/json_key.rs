//! The contents of a keystore file: an account address, the encrypted secret
//! and a description of how it was encoded.
use vstd::prelude::*;

verus! {

/// How the secret of a keystore file was encoded.
#[derive(Clone, Debug)]
pub struct EncodedKey {
    pub content: Vec<String>,
    pub type_field: Vec<String>,
    pub version: String,
}

/// The descriptive part of a keystore file.
#[derive(Clone, Debug)]
#[allow(non_snake_case)]
pub struct AccountMeta {
    pub name: String,
    pub whenCreated: u64,
}

/// A keystore file. The bytes of `encoded`, as they stand, are the
/// ciphertext that the keystore password opens.
#[derive(Clone, Debug)]
pub struct AccountData {
    pub address: String,
    pub encoded: String,
    pub encoding: EncodedKey,
    pub meta: AccountMeta,
}

} // verus!
