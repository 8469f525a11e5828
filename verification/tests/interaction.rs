use editor_core::interaction::InteractionModeKind;
use editor_core::interaction::MoveGizmoMode;
use editor_core::interaction::RotateGizmoMode;
use editor_core::interaction::ScaleGizmoMode;

#[test]
fn interaction_mode_kind_indexes_the_mode_array() {
    assert_eq!(InteractionModeKind::Select.index(), 0);
    assert_eq!(InteractionModeKind::Move.index(), 1);
    assert_eq!(InteractionModeKind::Scale.index(), 2);
    assert_eq!(InteractionModeKind::Rotate.index(), 3);
}

#[test]
fn gizmo_modes_compare_by_variant() {
    assert_eq!(MoveGizmoMode::XY, MoveGizmoMode::XY);
    assert_ne!(MoveGizmoMode::Inactive, MoveGizmoMode::X);
    assert_eq!(ScaleGizmoMode::Uniform, ScaleGizmoMode::Uniform);
    assert_ne!(ScaleGizmoMode::Inactive, ScaleGizmoMode::Uniform);
    assert_ne!(RotateGizmoMode::Pitch, RotateGizmoMode::Yaw);
}
