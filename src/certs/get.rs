//! Writing out the certificates that the firmware holds.

use vstd::prelude::*;

verus! {

/// The files that receive the certificates.
#[derive(Clone, Debug)]
pub struct Args {
    /// The file to write the AMD Root Key (ARK) to.
    pub ark: String,
    /// The file to write the AMD Signing Key (ASK) to.
    pub ask: String,
    /// The file to write the Versioned Chip Endorsement Key (VCEK) to.
    pub vcek: String,
}

} // verus!
