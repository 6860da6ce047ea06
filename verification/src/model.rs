//! The records that the benchmark passes between its steps: the issuer's
//! keys, the device binding, and everything `prepare` sets up.
use std::collections::HashMap;
use vstd::prelude::*;

use crate::codec::{ascii_text, encode_spec, encode_standard};

verus! {

/// An issuer's key pair, both halves in the credential engine's text form.
pub struct Keypair {
    pub public_key: String,
    pub secret_key: String,
}

/// The device-binding public key as the issuer embeds it in a credential:
/// the two affine coordinates, each as standard base64 of its big-endian bytes.
pub struct DeviceBinding {
    pub x_value: String,
    pub y_value: String,
}

/// Everything a benchmark run needs before it issues, presents and verifies.
pub struct Preparation {
    pub issuer: Keypair,
    pub proving_keys: HashMap<String, String>,
    pub verifying_keys: HashMap<String, String>,
    pub message: Vec<u8>,
    pub message_signature: Vec<u8>,
    pub db_public_key: Vec<u8>,
    pub device_binding: DeviceBinding,
}

impl DeviceBinding {
    /// The device binding of the public key whose affine coordinates have the
    /// big-endian bytes `x` and `y`: each is written as standard base64 with
    /// padding.
    pub fn from_coordinates(x: &[u8], y: &[u8]) -> (db: DeviceBinding)
        requires
            x@.len() <= usize::MAX / 2,
            y@.len() <= usize::MAX / 2,
        ensures
            db.x_value@ == ascii_text(encode_spec(false, true, x@)),
            db.y_value@ == ascii_text(encode_spec(false, true, y@)),
    {
        DeviceBinding { x_value: encode_standard(x), y_value: encode_standard(y) }
    }
}

} // verus!
