//! A fast, non-cryptographic 128-bit hash built on the AES round function.
//!
//! The message is absorbed into 24 parallel 128-bit lanes, which are then
//! folded together, mixed with the message length and whitened.
//! [`hash`] is the lane-parallel path; [`hash_ref`] is a plain round-robin
//! absorption that computes the same digest, which `laws` proves.
use vstd::prelude::*;

pub mod aes;
pub mod hash;
pub mod laws;
pub mod message;
pub mod model;
pub mod params;
pub mod reference;

pub use crate::hash::hash;
pub use crate::reference::hash_ref;

verus! {

} // verus!
