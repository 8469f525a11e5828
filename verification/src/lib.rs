//! Editor-core building blocks with machine-checked contracts: an
//! asynchronous GPU pixel-readback state machine, undo/redo widget commands,
//! and the gizmo mode enums of the interaction layer.

pub mod curve_key;
pub mod interaction;
pub mod pixel_buffer;
pub mod widget;
