//! scrypt cost parameters that cannot be built but from the values they
//! stand for.
use super::{scrypt_key_of, scrypt_params_accepted};
use vstd::prelude::*;

verus! {

#[verifier::external_type_specification]
#[verifier::external_body]
pub struct ExScryptParams(scrypt::Params);

#[verifier::external_type_specification]
#[verifier::external_body]
pub struct ExInvalidParams(scrypt::errors::InvalidParams);

#[verifier::external_type_specification]
#[verifier::external_body]
pub struct ExInvalidOutputLen(scrypt::errors::InvalidOutputLen);

/// scrypt cost parameters together with the values they were built from.
/// The fields are private to this module, and `scrypt_params_new` is the
/// only place that builds one, from the same values it hands to scrypt.
pub struct KdfParams {
    log_n: u8,
    r: u32,
    p: u32,
    inner: scrypt::Params,
}

impl KdfParams {
    /// log2 of the work factor.
    pub closed spec fn spec_log_n(&self) -> u8 {
        self.log_n
    }

    /// The block size.
    pub closed spec fn spec_r(&self) -> u32 {
        self.r
    }

    /// The parallelism.
    pub closed spec fn spec_p(&self) -> u32 {
        self.p
    }
}

/// Relies on `scrypt::Params::new`: it accepts exactly the parameters that
/// pass its range and overflow checks. The accepted parameters are kept
/// beside the values they were built from.
#[verifier::external_body]
pub fn scrypt_params_new(log_n: u8, r: u32, p: u32, len: usize) -> (res: Result<
    KdfParams,
    scrypt::errors::InvalidParams,
>)
    ensures
        res is Ok <==> scrypt_params_accepted(log_n, r, p, len),
        res matches Ok(k) ==> k.spec_log_n() == log_n && k.spec_r() == r && k.spec_p() == p,
{
    match scrypt::Params::new(log_n, r, p, len) {
        Ok(inner) => Ok(KdfParams { log_n, r, p, inner }),
        Err(e) => Err(e),
    }
}

/// Relies on `scrypt::scrypt`: it fails only on an empty output buffer, and
/// otherwise fills the buffer with the key derived from password and salt
/// under the parameters that `params` was built from.
#[verifier::external_body]
pub fn scrypt_derive(password: &[u8], salt: &[u8], params: &KdfParams, out: &mut [u8; 32]) -> (res:
    Result<(), scrypt::errors::InvalidOutputLen>)
    ensures
        res is Ok,
        final(out)@ == scrypt_key_of(
            password@,
            salt@,
            params.spec_log_n(),
            params.spec_r(),
            params.spec_p(),
            32,
        ),
{
    scrypt::scrypt(password, salt, &params.inner, out)
}

} // verus!
