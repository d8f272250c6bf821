//! Conflicts between automatic support and manual overrides.

use vstd::prelude::*;

verus! {

/// Type of conflict between auto-support and manual overrides.
#[derive(Debug, Clone, Copy, PartialEq, Eq, Structural)]
pub enum ConflictType {
    /// Blocker removed support under a critical (steep) overhang.
    BlockerRemovesCritical,
    /// Enforcer exactly duplicates auto-generated support (no effect).
    EnforcerDuplicatesAuto,
    /// Enforcer and blocker regions overlap.
    OverlapConflict,
}

} // verus!
