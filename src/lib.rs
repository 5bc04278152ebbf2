//! A one-time pad (Vernam cipher): a plaintext is combined byte by byte with
//! a random key of the same length, and the ciphertext combined with that key
//! gives the plaintext back.
use vstd::prelude::*;

pub mod naming;
pub mod opts;
pub mod otp;
pub mod pad;
pub mod status;

verus! {

} // verus!
