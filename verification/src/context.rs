//! Figures about the store of conversation context.

use vstd::prelude::*;

verus! {

/// Statistics about the context store.
#[derive(Debug, Clone)]
pub struct ContextStats {
    pub total_entries: usize,
    pub embedding_dimension: usize,
}

} // verus!
