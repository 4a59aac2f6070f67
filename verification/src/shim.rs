//! The engine's hook on the import path.
//!
//! The engine wraps the injected block importer in a thin pass-through
//! decorator. Before delegating an import, the decorator runs the directive
//! through [`prepare_for_import`], the place reserved for stripping
//! production-time-only header digest entries that should not reach final
//! storage.

use vstd::prelude::*;
use crate::types::ImportDirective;

verus! {

/// The reserved stripping hook, intentionally deferred: no digest kind has
/// been chosen for removal yet, so the directive passes through unchanged.
/// The contract pins the pass-through, so completing the hook later will be
/// a visible, deliberate change of contract.
pub fn prepare_for_import(directive: ImportDirective) -> (prepared: ImportDirective)
    ensures
        prepared == directive,
{
    directive
}

} // verus!
