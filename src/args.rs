use vstd::prelude::*;

use crate::field::FieldKind;

verus! {

/// The roles of the positional arguments of a field-creation call.
#[derive(Debug, Clone, Copy, PartialEq, Eq, Structural)]
pub enum CreateArg {
    Name,
    Parent,
    Position,
    Rotation,
    Size,
    Length,
    Radius,
}

/// Where each argument stands in the creation call of each kind:
/// `createBoxField(name, parent, position, rotation, size)`,
/// `createCylinderField(name, parent, position, rotation, length, radius)`,
/// `createSphereField(name, parent, position, radius)`.
pub open spec fn arg_index_spec(kind: FieldKind, arg: CreateArg) -> Option<usize> {
    match arg {
        CreateArg::Name => Some(0),
        CreateArg::Parent => Some(1),
        CreateArg::Position => Some(2),
        CreateArg::Rotation => if kind == FieldKind::Sphere {
            None
        } else {
            Some(3)
        },
        CreateArg::Size => if kind == FieldKind::Box {
            Some(4)
        } else {
            None
        },
        CreateArg::Length => if kind == FieldKind::Cylinder {
            Some(4)
        } else {
            None
        },
        CreateArg::Radius => match kind {
            FieldKind::Box => None,
            FieldKind::Cylinder => Some(5),
            FieldKind::Sphere => Some(3),
        },
    }
}

pub open spec fn arity_spec(kind: FieldKind) -> usize {
    match kind {
        FieldKind::Box => 5,
        FieldKind::Cylinder => 6,
        FieldKind::Sphere => 4,
    }
}

/// The position of `arg` in the creation call of `kind`, or `None` when that
/// kind takes no such argument.
pub fn creation_arg_index(kind: FieldKind, arg: CreateArg) -> (r: Option<usize>)
    ensures
        r == arg_index_spec(kind, arg),
{
    match arg {
        CreateArg::Name => Some(0),
        CreateArg::Parent => Some(1),
        CreateArg::Position => Some(2),
        CreateArg::Rotation => match kind {
            FieldKind::Sphere => None,
            _ => Some(3),
        },
        CreateArg::Size => match kind {
            FieldKind::Box => Some(4),
            _ => None,
        },
        CreateArg::Length => match kind {
            FieldKind::Cylinder => Some(4),
            _ => None,
        },
        CreateArg::Radius => match kind {
            FieldKind::Box => None,
            FieldKind::Cylinder => Some(5),
            FieldKind::Sphere => Some(3),
        },
    }
}

/// The number of arguments of the creation call of `kind`.
pub fn creation_arity(kind: FieldKind) -> (r: usize)
    ensures
        r == arity_spec(kind),
{
    match kind {
        FieldKind::Box => 5,
        FieldKind::Cylinder => 6,
        FieldKind::Sphere => 4,
    }
}

} // verus!
