use vstd::prelude::*;

verus! {

/// The configuration the shell was built in. Development-only features
/// (logging attachment, the devtools panel) exist in `Debug` alone.
#[derive(PartialEq, Eq, Structural, Clone, Copy, Debug)]
pub enum BuildProfile {
    Debug,
    Release,
}

impl BuildProfile {
    pub open spec fn spec_is_debug(self) -> bool {
        self is Debug
    }

    /// Whether development-only features are enabled.
    #[verifier::when_used_as_spec(spec_is_debug)]
    pub fn is_debug(self) -> (r: bool)
        ensures
            r == self.spec_is_debug(),
    {
        match self {
            BuildProfile::Debug => true,
            BuildProfile::Release => false,
        }
    }
}

} // verus!
