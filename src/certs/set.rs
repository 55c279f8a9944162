//! Installing three certificates in the firmware.

use vstd::prelude::*;

verus! {

/// The files that hold the certificates to install.
#[derive(Clone, Debug)]
pub struct Args {
    /// The AMD Root Key (ARK).
    pub ark: String,
    /// The AMD Signing Key (ASK).
    pub ask: String,
    /// The Versioned Chip Endorsement Key (VCEK).
    pub vcek: String,
}

} // verus!
