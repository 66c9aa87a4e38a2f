use vstd::prelude::*;

verus! {

/// Why a session could not be built.
#[derive(Clone, Copy, Debug, PartialEq, Eq, Structural, Hash)]
pub enum SessionError {
    /// The cartridge image is empty, truncated or not recognised by the core.
    InvalidCartridge,
}

} // verus!
