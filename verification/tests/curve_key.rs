use editor_core::curve_key::CurveKeyView;
use editor_core::curve_key::CurveKeyViewContainer;

type Key = CurveKeyView<(i32, i32), u8>;

fn key(id: u128, position: (i32, i32)) -> Key {
    CurveKeyView { position, kind: 0, id }
}

fn container() -> CurveKeyViewContainer<(i32, i32), u8, u16> {
    CurveKeyViewContainer::new(
        77,
        500,
        vec![key(1, (0, 0)), key(2, (10, 5)), key(3, (20, -5))],
    )
}

#[test]
fn container_reports_its_curve_id_and_brush() {
    let c = container();
    assert_eq!(c.id(), 77);
    assert_eq!(c.brush, 500);
}

#[test]
fn add_appends_at_the_end() {
    let mut c = container();
    c.add(key(9, (30, 1)));
    assert_eq!(c.keys().len(), 4);
    assert_eq!(c.keys()[3].id, 9);
}

#[test]
fn remove_takes_out_the_key_and_keeps_order() {
    let mut c = container();
    let removed = c.remove(2).unwrap();
    assert_eq!(removed.id, 2);
    assert_eq!(removed.position, (10, 5));
    let ids: Vec<u128> = c.keys().iter().map(|k| k.id).collect();
    assert_eq!(ids, vec![1, 3]);
    assert!(c.remove(2).is_none());
}

#[test]
fn remove_of_duplicate_id_takes_the_first() {
    let mut c = container();
    c.add(key(2, (99, 99)));
    let removed = c.remove(2).unwrap();
    assert_eq!(removed.position, (10, 5));
    let ids: Vec<u128> = c.keys().iter().map(|k| k.id).collect();
    assert_eq!(ids, vec![1, 3, 2]);
}

#[test]
fn key_position_finds_the_first_occurrence() {
    let mut c = container();
    c.add(key(1, (40, 0)));
    assert_eq!(c.key_position(1), Some(0));
    assert_eq!(c.key_position(3), Some(2));
    assert_eq!(c.key_position(8), None);
}

#[test]
fn key_ref_finds_by_id() {
    let c = container();
    assert_eq!(c.key_ref(3).unwrap().position, (20, -5));
    assert!(c.key_ref(8).is_none());
}

#[test]
fn key_index_ref_is_bounds_checked() {
    let c = container();
    assert_eq!(c.key_index_ref(0).unwrap().id, 1);
    assert_eq!(c.key_index_ref(2).unwrap().id, 3);
    assert!(c.key_index_ref(3).is_none());
}
