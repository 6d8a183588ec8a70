//! The host platform, chosen once at startup by whoever embeds the library.

use vstd::prelude::*;

verus! {

/// The operating system that the application runs on, as far as the library's
/// decisions depend on it.
#[derive(Clone, Copy, Debug, PartialEq, Eq, Structural)]
pub enum Platform {
    Windows,
    MacOs,
    Linux,
    /// Any other system: no drive letters, no known file manager.
    Other,
}

impl Platform {
    /// Whether a rename across volumes is known to fail on this platform, so
    /// that every failed rename falls back to copying.
    pub open spec fn rename_needs_fallback(self) -> bool {
        self == Platform::Windows
    }

    /// Decides `rename_needs_fallback`.
    #[verifier::when_used_as_spec(rename_needs_fallback)]
    pub fn always_falls_back(self) -> (r: bool)
        ensures
            r == self.rename_needs_fallback(),
    {
        match self {
            Platform::Windows => true,
            _ => false,
        }
    }
}

} // verus!
