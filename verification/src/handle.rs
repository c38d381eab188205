//! Pool handles, as the widget tree and the scene graph use them: an index
//! into a pool together with a generation counter that detects stale handles.
//! The components here never dereference a handle; they only store handles,
//! compare them, and hand them back to the host.

use vstd::prelude::*;

verus! {

/// A handle into one of the host's pools (widget tree, scene graph).
#[derive(Clone, Copy, Debug, PartialEq, Eq, Structural)]
pub struct NodeHandle {
    pub index: u32,
    pub generation: u32,
}

impl NodeHandle {
    /// The reserved "points at nothing" handle.
    pub open spec fn none_spec() -> NodeHandle {
        NodeHandle { index: 0, generation: 0 }
    }

    pub fn none() -> (r: NodeHandle)
        ensures
            r == NodeHandle::none_spec(),
    {
        NodeHandle { index: 0, generation: 0 }
    }

    pub fn new(index: u32, generation: u32) -> (r: NodeHandle)
        ensures
            r == (NodeHandle { index, generation }),
    {
        NodeHandle { index, generation }
    }
}

} // verus!
