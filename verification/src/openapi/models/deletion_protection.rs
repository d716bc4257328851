use vstd::prelude::*;

verus! {

/// Whether deletion protection is enabled or disabled for an index.
#[derive(Clone, Copy, Debug, PartialEq, Eq, Hash, PartialOrd, Ord, Structural)]
pub enum DeletionProtection {
    /// Deletion protection disabled.
    Disabled,
    /// Deletion protection enabled.
    Enabled,
}

impl Default for DeletionProtection {
    fn default() -> (r: DeletionProtection)
        ensures
            r == DeletionProtection::Disabled,
    {
        DeletionProtection::Disabled
    }
}

} // verus!
