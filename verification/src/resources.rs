//! Decoded packed-resource state.
//!
//! The packed-resource format's own encoding is an external collaborator:
//! it is consumed through a `load(bytes) -> state` contract whose outcome
//! the caller hands in.  What this crate models of the state is exactly
//! what the custom loader reads from it: the set of module names it can
//! serve.  The state must outlive the loader that references it; the
//! lifecycle owns it for that reason.

use vstd::prelude::*;

verus! {

/// Decoded packed-resource metadata: the module names the custom
/// resource-backed loader can serve.
#[derive(Debug)]
pub struct PythonResourcesState {
    /// Names of the modules present in the packed-resource set.
    pub module_names: Vec<Vec<u8>>,
}

impl PythonResourcesState {
    /// The set of module names, as sequences.
    pub open spec fn names(&self) -> Seq<Seq<u8>> {
        crate::bytes::byte_views(self.module_names@)
    }

    /// An empty resource set.
    pub fn new() -> (r: PythonResourcesState)
        ensures
            r.names() =~= Seq::<Seq<u8>>::empty(),
    {
        PythonResourcesState { module_names: Vec::new() }
    }
}

} // verus!
