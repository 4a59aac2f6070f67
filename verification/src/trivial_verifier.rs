//! The verifier for the instant seal engine; instantly finalizes.
//!
//! Gate of the import queue for externally delivered blocks in this mode: it
//! performs no validation at all, so it must never be reused anywhere block
//! authenticity matters.

use vstd::prelude::*;
use crate::types::{
    Header, Justification, Extrinsic, BlockOrigin, ForkChoiceStrategy, ImportDirective, CacheEntry,
};

verus! {

/// The accept-everything verifier: every candidate block passes, stamped as
/// already finalized.
pub struct InstantSealVerifier;

impl InstantSealVerifier {
    /// Accepts any candidate block unconditionally: always returns `Ok`,
    /// never an error, with a directive that preserves the given origin,
    /// header, justification and body, forces `finalized = true` under the
    /// `LongestChain` fork choice, and carries no post digests, no auxiliary
    /// data and no cache entries.
    pub fn verify(
        &mut self,
        origin: BlockOrigin,
        header: Header,
        justification: Option<Justification>,
        body: Option<Vec<Extrinsic>>,
    ) -> (result: Result<(ImportDirective, Option<Vec<CacheEntry>>), String>)
        ensures
            result matches Ok((directive, cache)) && {
                &&& directive.origin == origin
                &&& directive.header == header
                &&& directive.justification == justification
                &&& directive.body == body
                &&& directive.finalized
                &&& directive.fork_choice is LongestChain
                &&& !directive.allow_missing_state
                &&& directive.post_digests@.len() == 0
                &&& directive.auxiliary@.len() == 0
                &&& cache is None
            },
    {
        let import_directive = ImportDirective {
            origin,
            header,
            justification,
            post_digests: Vec::new(),
            body,
            finalized: true,
            auxiliary: Vec::new(),
            fork_choice: ForkChoiceStrategy::LongestChain,
            allow_missing_state: false,
        };

        Ok((import_directive, None))
    }
}

} // verus!
