//! The state that one resolver keeps between resolutions.

use vstd::prelude::*;

verus! {

/// The resolver of one activation. It remembers the last tool path that was
/// taken from the well-known installation directory. A path found on the
/// shell's search path is never remembered, and no resolution trusts what is
/// remembered: every call searches again.
#[derive(Clone, Debug, PartialEq, Eq)]
pub struct AztecExtension {
    pub cached_binary_path: Option<String>,
}

impl AztecExtension {
    /// The remembered path, as a sequence of characters.
    pub open spec fn cache(&self) -> Option<Seq<char>> {
        self.cached_binary_path.deep_view()
    }

    /// A resolver that remembers nothing yet.
    pub fn new() -> (resolver: AztecExtension)
        ensures
            resolver.cache() is None,
    {
        AztecExtension { cached_binary_path: None }
    }
}

} // verus!
