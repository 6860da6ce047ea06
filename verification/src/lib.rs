//! Verified core of the signatures benchmark library: the data that the
//! benchmark hands to the zero-knowledge credential engine, and the encodings
//! that it measures.
use vstd::prelude::*;

pub mod codec;
pub mod compact;
pub mod frame;
pub mod model;
pub mod requests;

pub use model::{DeviceBinding, Keypair, Preparation};

verus! {

/// The greeting that the mobile apps show to check that the bindings load.
pub open spec fn greeting() -> Seq<char> {
    "Hello, World"@
}

/// Returns the greeting used as a smoke test of the bindings.
pub fn hello() -> (s: String)
    ensures
        s@ == greeting(),
{
    "Hello, World".to_owned()
}

/// Exported symbol that the mobile linkers expect; it does nothing.
pub fn pasta_to() {
}

/// Stack-probe symbol that some mobile targets expect to find; it does nothing.
pub fn __rust_probestack() {
}

/// Second spelling of the stack-probe symbol; it does nothing.
pub fn ___rust_probestack() {
}

} // verus!
