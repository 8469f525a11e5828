//! Mode enums of the scene-editor interaction layer: which axis or plane a
//! gizmo currently manipulates, and which interaction mode the editor is in.
//! The gizmos themselves are scene-graph geometry owned by the engine host;
//! only their mode bookkeeping lives here.

use vstd::prelude::*;

verus! {

/// Axis or plane a move gizmo currently drags, if any.
#[derive(Clone, Copy, PartialEq, Eq, Structural, Debug)]
pub enum MoveGizmoMode {
    Inactive,
    X,
    Y,
    Z,
    XY,
    YZ,
    ZX,
}

/// Axis a scale gizmo currently drags, or uniform scaling, if any.
#[derive(Clone, Copy, PartialEq, Eq, Structural, Debug)]
pub enum ScaleGizmoMode {
    Inactive,
    X,
    Y,
    Z,
    Uniform,
}

/// Rotation axis a rotation gizmo currently drags.
#[derive(Clone, Copy, PartialEq, Eq, Structural, Debug)]
pub enum RotateGizmoMode {
    Pitch,
    Yaw,
    Roll,
}

/// The editor's interaction modes, in the order they sit in its mode array.
#[derive(Clone, Copy, PartialEq, Eq, Structural, PartialOrd, Hash, Debug)]
pub enum InteractionModeKind {
    Select,
    Move,
    Scale,
    Rotate,
}

impl InteractionModeKind {
    /// The mode's slot in the editor's mode array.
    pub open spec fn index_spec(self) -> usize {
        match self {
            InteractionModeKind::Select => 0usize,
            InteractionModeKind::Move => 1usize,
            InteractionModeKind::Scale => 2usize,
            InteractionModeKind::Rotate => 3usize,
        }
    }

    /// The mode's slot in the editor's mode array.
    pub fn index(&self) -> (r: usize)
        ensures
            r == self.index_spec(),
    {
        match *self {
            InteractionModeKind::Select => 0,
            InteractionModeKind::Move => 1,
            InteractionModeKind::Scale => 2,
            InteractionModeKind::Rotate => 3,
        }
    }
}

} // verus!
