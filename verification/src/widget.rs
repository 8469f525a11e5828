//! Undo/redo commands over editor widgets. A command holds everything needed
//! to apply a change and to take it back; the scene-graph host performs the
//! actual writes. Each call here decides what the host must do and returns it
//! as a plain value, so the command's bookkeeping is checked for every input.

use vstd::prelude::*;
use vstd::string::StringExecFns;

verus! {

/// A plain handle to a widget node: pool index and generation marker.
#[derive(Clone, Copy, PartialEq, Eq, Structural, Hash, Debug)]
pub struct WidgetHandle {
    pub index: u32,
    pub generation: u32,
}

/// Moves a widget to a new desired local position. Executing and reverting
/// both swap the stored positions and hand back the one the host must apply,
/// so the command is its own inverse. The position payload is opaque to the
/// command.
pub struct MoveWidgetCommand<P> {
    pub node: WidgetHandle,
    pub old_position: P,
    pub new_position: P,
}

impl<P: Copy> MoveWidgetCommand<P> {
    pub fn new(node: WidgetHandle, old_position: P, new_position: P) -> (r: Self)
        ensures
            r.node == node,
            r.old_position == old_position,
            r.new_position == new_position,
    {
        MoveWidgetCommand { node, old_position, new_position }
    }

    /// Exchange the stored positions and hand back the one to apply.
    fn swap(&mut self) -> (r: P)
        ensures
            r == old(self).new_position,
            final(self).new_position == old(self).old_position,
            final(self).old_position == old(self).new_position,
            final(self).node == old(self).node,
    {
        let position = self.new_position;
        self.new_position = self.old_position;
        self.old_position = position;
        position
    }

    /// The command's display name.
    pub fn name(&self) -> (r: String)
        ensures
            r@ == "Move Widget"@,
    {
        "Move Widget".to_owned()
    }

    /// The host must set the returned position on the widget `self.node`.
    pub fn execute(&mut self) -> (r: P)
        ensures
            r == old(self).new_position,
            final(self).new_position == old(self).old_position,
            final(self).old_position == old(self).new_position,
            final(self).node == old(self).node,
    {
        self.swap()
    }

    /// The host must set the returned position on the widget `self.node`.
    pub fn revert(&mut self) -> (r: P)
        ensures
            r == old(self).new_position,
            final(self).new_position == old(self).old_position,
            final(self).old_position == old(self).new_position,
            final(self).node == old(self).node,
    {
        self.swap()
    }
}

/// Reverts an inheritable property of a widget to the value inherited from
/// its parent, remembering the value it replaced so the change can be undone.
/// The property value itself is opaque to the command.
pub struct RevertWidgetPropertyCommand<V> {
    pub path: String,
    pub handle: WidgetHandle,
    pub value: Option<V>,
}

impl<V> RevertWidgetPropertyCommand<V> {
    /// A fresh command for the property at `path` on the widget `handle`,
    /// with no replaced value stored yet.
    pub fn new(path: String, handle: WidgetHandle) -> (r: Self)
        ensures
            r.path == path,
            r.handle == handle,
            r.value is None,
    {
        RevertWidgetPropertyCommand { path, handle, value: Option::None }
    }

    /// The command's display name.
    pub fn name(&self) -> (r: String)
        ensures
            r@ == "Revert "@ + self.path@ + " Property"@,
    {
        let mut s = "Revert ".to_owned();
        s.append(self.path.as_str());
        s.append(" Property");
        s
    }

    /// The host reverts the inheritable property at `self.path` on the widget
    /// `self.handle` and hands in the value that write replaced (or nothing,
    /// if the property was not modified); the command keeps it for `revert`.
    pub fn execute(&mut self, replaced: Option<V>)
        ensures
            final(self).value == replaced,
            final(self).path == old(self).path,
            final(self).handle == old(self).handle,
    {
        self.value = replaced;
    }

    /// If `execute` stored a replaced value, hand it back for the host to
    /// write at `self.path` again; the command forgets it either way.
    pub fn revert(&mut self) -> (r: Option<V>)
        ensures
            r == old(self).value,
            final(self).value is None,
            final(self).path == old(self).path,
            final(self).handle == old(self).handle,
    {
        self.value.take()
    }
}

} // verus!
