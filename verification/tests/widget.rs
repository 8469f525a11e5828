use editor_core::widget::MoveWidgetCommand;
use editor_core::widget::RevertWidgetPropertyCommand;
use editor_core::widget::WidgetHandle;

fn handle() -> WidgetHandle {
    WidgetHandle { index: 5, generation: 2 }
}

#[test]
fn move_widget_command_executes_and_reverts() {
    let mut cmd = MoveWidgetCommand::new(handle(), (10i32, 20i32), (30i32, 40i32));
    assert_eq!(cmd.node, handle());
    // Executing applies the new position and remembers the old one.
    assert_eq!(cmd.execute(), (30, 40));
    assert_eq!(cmd.old_position, (30, 40));
    assert_eq!(cmd.new_position, (10, 20));
    // Reverting applies the original position back.
    assert_eq!(cmd.revert(), (10, 20));
    assert_eq!(cmd.old_position, (10, 20));
    assert_eq!(cmd.new_position, (30, 40));
    // The command is its own inverse: executing again redoes the move.
    assert_eq!(cmd.execute(), (30, 40));
}

#[test]
fn move_widget_command_name() {
    let cmd = MoveWidgetCommand::new(handle(), 1u8, 2u8);
    assert_eq!(cmd.name(), "Move Widget");
}

#[test]
fn revert_property_command_lifecycle() {
    let mut cmd: RevertWidgetPropertyCommand<i64> =
        RevertWidgetPropertyCommand::new(String::from("width"), handle());
    assert_eq!(cmd.path, "width");
    assert_eq!(cmd.handle, handle());
    assert_eq!(cmd.value, None);
    // The host reverted the property and hands in the value it replaced.
    cmd.execute(Some(640));
    assert_eq!(cmd.value, Some(640));
    // Undo: the stored value goes back to the host and is forgotten.
    assert_eq!(cmd.revert(), Some(640));
    assert_eq!(cmd.value, None);
    assert_eq!(cmd.revert(), None);
}

#[test]
fn revert_property_command_keeps_nothing_for_unmodified_property() {
    let mut cmd: RevertWidgetPropertyCommand<u32> =
        RevertWidgetPropertyCommand::new(String::from("visible"), handle());
    cmd.execute(None);
    assert_eq!(cmd.value, None);
    assert_eq!(cmd.revert(), None);
}

#[test]
fn revert_property_command_name() {
    let cmd: RevertWidgetPropertyCommand<u32> =
        RevertWidgetPropertyCommand::new(String::from("opacity"), handle());
    assert_eq!(cmd.name(), "Revert opacity Property");
}
