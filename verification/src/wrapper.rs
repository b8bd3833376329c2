//! A value-level model of the emitted cast API for the owned-value
//! modality: the wrapper holds exactly its container, so the paired
//! casts move the container in and back out unchanged. The reference
//! and pointer modalities reinterpret a pointee in place; their round
//! trips rest on the layout identity of the emitted definition and are
//! outside this model.

use vstd::prelude::*;

verus! {

/// The runtime shape of every emitted wrapper: exactly one field, the
/// container itself. The stateful marker has no runtime representation
/// and does not appear at this level.
pub struct Injected<Deps> {
    pub deps: Deps,
}

impl<Deps> Injected<Deps> {
    /// Forward cast, owned value: move the container into the wrapper's
    /// container slot.
    pub fn inj(deps: Deps) -> (r: Injected<Deps>)
        ensures
            r.deps == deps,
    {
        Injected { deps }
    }

    /// Backward cast, owned value: return the wrapper's container slot.
    pub fn prj(self) -> (r: Deps)
        ensures
            r == self.deps,
    {
        self.deps
    }

    /// Backward cast, borrowed reference: view the wrapper's container
    /// slot. Its forward partner reinterprets a container reference in
    /// place and has no safe value-level counterpart in this model.
    pub fn prj_ref(&self) -> (r: &Deps)
        ensures
            r == self.deps,
    {
        &self.deps
    }
}

/// Round trip of the owned-value modality: projecting an injected
/// container returns that container, and injecting a projected wrapper
/// rebuilds that wrapper.
pub proof fn lemma_owned_round_trip<Deps>(w: Injected<Deps>, deps: Deps)
    ensures
        (Injected { deps }).deps == deps,
        (Injected { deps: w.deps }) == w,
{
}

} // verus!
