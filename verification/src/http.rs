//! What the embedding client tells the shell about itself.

use vstd::prelude::*;

verus! {

/// The product name and optional version of the client that launched the
/// shell (an editor extension, the terminal UI, ...).
pub struct OriginClientInfo {
    pub product: String,
    pub version: Option<String>,
}

} // verus!
