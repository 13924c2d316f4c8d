use stardust_fields::args::{creation_arg_index, creation_arity, CreateArg};
use stardust_fields::field::FieldKind;

#[test]
fn box_creation_layout() {
    assert_eq!(creation_arity(FieldKind::Box), 5);
    assert_eq!(creation_arg_index(FieldKind::Box, CreateArg::Name), Some(0));
    assert_eq!(creation_arg_index(FieldKind::Box, CreateArg::Parent), Some(1));
    assert_eq!(creation_arg_index(FieldKind::Box, CreateArg::Position), Some(2));
    assert_eq!(creation_arg_index(FieldKind::Box, CreateArg::Rotation), Some(3));
    assert_eq!(creation_arg_index(FieldKind::Box, CreateArg::Size), Some(4));
    assert_eq!(creation_arg_index(FieldKind::Box, CreateArg::Length), None);
    assert_eq!(creation_arg_index(FieldKind::Box, CreateArg::Radius), None);
}

#[test]
fn cylinder_creation_layout() {
    assert_eq!(creation_arity(FieldKind::Cylinder), 6);
    assert_eq!(creation_arg_index(FieldKind::Cylinder, CreateArg::Rotation), Some(3));
    assert_eq!(creation_arg_index(FieldKind::Cylinder, CreateArg::Length), Some(4));
    assert_eq!(creation_arg_index(FieldKind::Cylinder, CreateArg::Radius), Some(5));
    assert_eq!(creation_arg_index(FieldKind::Cylinder, CreateArg::Size), None);
}

#[test]
fn sphere_creation_layout() {
    assert_eq!(creation_arity(FieldKind::Sphere), 4);
    assert_eq!(creation_arg_index(FieldKind::Sphere, CreateArg::Position), Some(2));
    assert_eq!(creation_arg_index(FieldKind::Sphere, CreateArg::Rotation), None);
    assert_eq!(creation_arg_index(FieldKind::Sphere, CreateArg::Radius), Some(3));
    assert_eq!(creation_arg_index(FieldKind::Sphere, CreateArg::Size), None);
}
