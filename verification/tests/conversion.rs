use godot_core::classes::{Node, Node2D, Object};
use godot_core::meta::GodotFfi;
use godot_core::obj::{Gd, GodotClass, RawGd};
use godot_core::object_arg::{AsObjectArg, NullArg, ObjectArg};

#[test]
fn from_non_null_compatible_handle_exposes_handle_pointer() {
    let raw: RawGd<Node> = RawGd::from_parts(0x1000, vec![2, 1]);
    let arg: ObjectArg<Node> = ObjectArg::from_raw_gd(&raw);
    assert!(!arg.is_null());
    assert_eq!(arg.sys(), 0x1000);
    assert_eq!(raw.obj_sys(), 0x1000);
}

#[test]
fn from_null_handle_is_null_view_regardless_of_class() {
    let raw: RawGd<Node2D> = RawGd::null();
    let arg: ObjectArg<Node> = ObjectArg::from_raw_gd(&raw);
    assert!(arg.is_null());
    assert_eq!(arg.sys(), 0);
}

#[test]
fn null_view_is_null_and_exposes_null_pointer() {
    let arg: ObjectArg<Object> = ObjectArg::null();
    assert!(arg.is_null());
    assert_eq!(arg.sys(), 0);
}

#[test]
fn null_marker_converts_to_null_for_any_expected_class() {
    let as_object: ObjectArg<Object> = NullArg.as_object_arg();
    let as_node: ObjectArg<Node> = NullArg.as_object_arg();
    let as_node2d: ObjectArg<Node2D> = NullArg.as_object_arg();
    assert!(as_object.is_null());
    assert!(as_node.is_null());
    assert!(as_node2d.is_null());
    assert_eq!(as_object.sys(), 0);
    assert_eq!(as_node.sys(), 0);
    assert_eq!(as_node2d.sys(), 0);
}

#[test]
fn absent_option_converts_to_null_view() {
    let opt: Option<Gd<Node>> = None;
    let arg: ObjectArg<Node> = opt.as_object_arg();
    assert!(arg.is_null());
    assert_eq!(arg.sys(), 0);
}

#[test]
fn present_option_converts_like_contained_handle() {
    let raw: RawGd<Node> = RawGd::from_parts(0x2200, vec![2, 1]);
    let gd: Gd<Node> = Gd::from_raw(raw);
    let direct: ObjectArg<Node> = gd.as_object_arg();
    let opt: Option<Gd<Node>> = Some(gd);
    let via_option: ObjectArg<Node> = opt.as_object_arg();
    assert_eq!(via_option.sys(), direct.sys());
    assert_eq!(via_option.is_null(), direct.is_null());
    assert_eq!(via_option.sys(), 0x2200);
}

#[test]
fn borrowed_handle_converts_like_owned() {
    let raw: RawGd<Node2D> = RawGd::from_parts(0x3300, vec![3, 2, 1]);
    let gd: Gd<Node2D> = Gd::from_raw(raw);
    let borrowed: &Gd<Node2D> = &gd;
    let via_borrow: ObjectArg<Node> = borrowed.as_object_arg();
    let direct: ObjectArg<Node> = gd.as_object_arg();
    assert_eq!(via_borrow.sys(), direct.sys());
    assert_eq!(via_borrow.sys(), 0x3300);
}

#[test]
fn optional_borrowed_handle_converts_too() {
    let raw: RawGd<Node> = RawGd::from_parts(0x4400, vec![2, 1]);
    let gd: Gd<Node> = Gd::from_raw(raw);
    let opt: Option<&Gd<Node>> = Some(&gd);
    let arg: ObjectArg<Object> = opt.as_object_arg();
    assert!(!arg.is_null());
    assert_eq!(arg.sys(), 0x4400);
    let absent: Option<&Gd<Node>> = None;
    let null_arg: ObjectArg<Object> = absent.as_object_arg();
    assert!(null_arg.is_null());
}

#[test]
fn clone_preserves_pointer_and_nullness() {
    let raw: RawGd<Node> = RawGd::from_parts(0x5500, vec![2, 1]);
    let arg: ObjectArg<Node> = ObjectArg::from_raw_gd(&raw);
    let copy = arg.clone();
    assert_eq!(copy.sys(), arg.sys());
    assert_eq!(copy.is_null(), arg.is_null());
    // the source is untouched by the copy
    assert_eq!(arg.sys(), 0x5500);
    assert!(!arg.is_null());

    let null_arg: ObjectArg<Node> = ObjectArg::null();
    let null_copy = null_arg.clone();
    assert!(null_copy.is_null());
    assert_eq!(null_copy.sys(), null_arg.sys());
}

#[test]
fn derived_handle_converts_for_base_expectation() {
    // a live object of subclass Node2D, passed where Object is expected
    let raw: RawGd<Node2D> = RawGd::from_parts(0xABC0, vec![3, 2, 1]);
    let gd: Gd<Node2D> = Gd::from_raw(raw);
    let arg: ObjectArg<Object> = gd.as_object_arg();
    assert!(!arg.is_null());
    assert_eq!(arg.sys(), 0xABC0);
}

#[test]
fn none_option_of_base_handle_converts_without_fatal() {
    let opt: Option<Gd<Object>> = None;
    let arg: ObjectArg<Object> = opt.as_object_arg();
    assert!(arg.is_null());
}

#[test]
fn handle_reports_nullness_and_instance_relation() {
    let raw: RawGd<Node2D> = RawGd::from_parts(0x6600, vec![3, 2, 1]);
    assert!(!raw.is_null());
    let gd: Gd<Node2D> = Gd::from_raw(RawGd::from_parts(0x6600, vec![3, 2, 1]));
    assert!(!gd.is_null());
    assert!(raw.is_instance_of(3));
    assert!(raw.is_instance_of(2));
    assert!(raw.is_instance_of(1));
    assert!(!raw.is_instance_of(99));
    let null_raw: RawGd<Node2D> = RawGd::null();
    assert!(null_raw.is_null());
    assert!(!null_raw.is_instance_of(3));
}

#[test]
fn class_metadata_matches_registry() {
    assert_eq!(Object::class_id(), 1);
    assert_eq!(Node::class_id(), 2);
    assert_eq!(Node2D::class_id(), 3);
    let name = Node2D::class_name();
    assert_eq!(name.id, 3);
    assert_eq!(name.name, "Node2D");
}
