//! Walking an entity along a spline of nodes.
use vstd::prelude::*;

verus! {

/// What a spline walker does at a point of its spline.
#[derive(Debug, Clone, Copy, PartialEq, Eq, Structural)]
pub enum SplineStep {
    /// The walker is between the node `from` and the next node.
    Interpolate { from: usize, to: usize },
    /// The walker reached the end of a cyclic spline and starts over.
    Restart,
    /// The walker reached the end of its spline and stands on its last node.
    Finish { last: usize },
}

/// The step for a walker that has passed `node_index` of the `node_count` nodes of its spline.
pub open spec fn spline_step_for(node_index: usize, node_count: usize, cyclic: bool) -> SplineStep {
    if node_index >= node_count - 1 {
        if cyclic {
            SplineStep::Restart
        } else {
            SplineStep::Finish { last: (node_count - 1) as usize }
        }
    } else {
        SplineStep::Interpolate { from: node_index, to: (node_index + 1) as usize }
    }
}

/// Decides how a spline walker moves: only when it is exactly at the end of the spline does it
/// restart (cyclic splines) or finish on the last node; else it moves between the node it
/// passed and the next one. A spline has at least one node.
pub fn spline_step(node_index: usize, node_count: usize, cyclic: bool) -> (step: SplineStep)
    requires
        node_count >= 1,
    ensures
        step == spline_step_for(node_index, node_count, cyclic),
        step matches SplineStep::Interpolate { from, to } ==> to < node_count && to == from + 1,
{
    if node_index >= node_count - 1 {
        if cyclic {
            SplineStep::Restart
        } else {
            SplineStep::Finish { last: node_count - 1 }
        }
    } else {
        SplineStep::Interpolate { from: node_index, to: node_index + 1 }
    }
}

/// The system that moves the entities that walk along splines.
pub struct SplineWalkerSystem {}

impl SplineWalkerSystem {
    pub fn new() -> (s: Self) {
        SplineWalkerSystem {  }
    }
}

/// A walker that has not reached the last node moves between the node it passed and the next
/// one, whether the spline is cyclic or not; only at the last node does it restart (cyclic
/// splines) or finish standing on the last node.
pub proof fn lemma_spline_walks_node_to_node(node_index: usize, node_count: usize, cyclic: bool)
    requires
        node_count >= 1,
    ensures
        node_index + 1 < node_count ==> spline_step_for(node_index, node_count, cyclic)
            == (SplineStep::Interpolate { from: node_index, to: (node_index + 1) as usize }),
        node_index + 1 < node_count ==> spline_step_for(node_index, node_count, true)
            == spline_step_for(node_index, node_count, false),
        spline_step_for(node_index, node_count, cyclic) is Restart <==> cyclic && node_index + 1
            >= node_count,
        !cyclic && node_index + 1 >= node_count ==> spline_step_for(node_index, node_count, cyclic)
            == (SplineStep::Finish { last: (node_count - 1) as usize }),
{
}

} // verus!
