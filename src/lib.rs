//! Building, signing inputs and sequencing of transaction envelopes for a
//! Nodle parachain node: the chain-specific signed-extension parameters, the
//! encrypted keystore recovery, and the nonce-ordered batch submission plan.
use vstd::prelude::*;

pub mod decrypt_key;
pub mod json_key;
pub mod nodle;
pub mod payload;
pub mod pipeline;
pub mod signer;
