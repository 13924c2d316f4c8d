use vstd::prelude::*;

use crate::error::FieldError;

verus! {

/// Handle of a spatial frame in the spatial hierarchy. The field only
/// observes the frame; its lifetime belongs to the hierarchy.
pub type SpatialId = u64;

/// A single-precision parameter, held as its IEEE-754 bit pattern. This layer
/// stores and hands back parameters and never does arithmetic on them, so any
/// pattern is accepted (zero and negative values included).
pub type Param = u32;

/// The extent of a box along each local axis.
#[derive(Debug, Clone, Copy, PartialEq, Eq, Structural)]
pub struct Extent {
    pub x: Param,
    pub y: Param,
    pub z: Param,
}

/// The closed set of field kinds.
#[derive(Debug, Clone, Copy, PartialEq, Eq, Structural)]
pub enum FieldKind {
    Box,
    Cylinder,
    Sphere,
}

#[derive(Debug, Clone, Copy, PartialEq, Eq, Structural)]
pub struct BoxField {
    space: SpatialId,
    size: Extent,
}

/// A cylinder with a `length` and a `radius`. Its distance formula is driven
/// by `length` alone (see `distance_extent`); `radius` is stored and mutable
/// but feeds no distance computation.
#[derive(Debug, Clone, Copy, PartialEq, Eq, Structural)]
pub struct CylinderField {
    space: SpatialId,
    length: Param,
    radius: Param,
}

#[derive(Debug, Clone, Copy, PartialEq, Eq, Structural)]
pub struct SphereField {
    space: SpatialId,
    radius: Param,
}

#[derive(Debug, Clone, Copy, PartialEq, Eq, Structural)]
pub enum Field {
    Box(BoxField),
    Cylinder(CylinderField),
    Sphere(SphereField),
}

/// The two slots of a scenegraph node that fields care about: its optional
/// spatial frame and its set-once field.
#[derive(Debug, Clone, Copy, PartialEq, Eq, Structural)]
pub struct FieldNode {
    spatial: Option<SpatialId>,
    field: Option<Field>,
}

impl BoxField {
    pub closed spec fn space_spec(&self) -> SpatialId {
        self.space
    }

    pub closed spec fn size_spec(&self) -> Extent {
        self.size
    }

    pub fn spatial_ref(&self) -> (r: SpatialId)
        ensures
            r == self.space_spec(),
    {
        self.space
    }

    pub fn size(&self) -> (r: Extent)
        ensures
            r == self.size_spec(),
    {
        self.size
    }

    /// Attaches a box field to `node`. Fails, leaving `node` as it was, when
    /// the node has no spatial frame or already carries a field.
    pub fn add_to(node: &mut FieldNode, size: Extent) -> (r: Result<(), FieldError>)
        ensures
            r == attach_outcome(*old(node)),
            r is Ok ==> final(node).spatial_spec() == old(node).spatial_spec() && is_box_with(
                final(node).field_spec(),
                old(node).spatial_spec().unwrap(),
                size,
            ),
            r is Err ==> *final(node) == *old(node),
    {
        let space = node.check_attach()?;
        node.field = Some(Field::Box(BoxField { space, size }));
        Ok(())
    }

    pub fn set_size(&mut self, size: Extent)
        ensures
            final(self).size_spec() == size,
            final(self).space_spec() == old(self).space_spec(),
    {
        self.size = size;
    }

    /// The remote `setSize` entry point: resizes the node's field when it is a
    /// box, and leaves a field of another kind untouched.
    pub fn set_size_flex(node: &mut FieldNode, size: Extent)
        requires
            old(node).field_spec() is Some,
        ensures
            final(node).spatial_spec() == old(node).spatial_spec(),
            match old(node).field_spec() {
                Some(Field::Box(b)) => is_box_with(final(node).field_spec(), b.space_spec(), size),
                _ => *final(node) == *old(node),
            },
    {
        if let Some(Field::Box(b)) = &mut node.field {
            b.set_size(size);
        }
    }
}

impl CylinderField {
    pub closed spec fn space_spec(&self) -> SpatialId {
        self.space
    }

    pub closed spec fn length_spec(&self) -> Param {
        self.length
    }

    pub closed spec fn radius_spec(&self) -> Param {
        self.radius
    }

    pub fn spatial_ref(&self) -> (r: SpatialId)
        ensures
            r == self.space_spec(),
    {
        self.space
    }

    pub fn length(&self) -> (r: Param)
        ensures
            r == self.length_spec(),
    {
        self.length
    }

    pub fn radius(&self) -> (r: Param)
        ensures
            r == self.radius_spec(),
    {
        self.radius
    }

    /// The parameter that the cylinder's distance formula consumes, both as
    /// the radial offset and as the source of the half-height. This is the
    /// `length`, not the `radius`: a known oddity of this field kind, kept so
    /// that distances stay what callers have always observed.
    pub fn distance_extent(&self) -> (r: Param)
        ensures
            r == self.length_spec(),
    {
        self.length
    }

    /// Attaches a cylinder field to `node`. Fails, leaving `node` as it was,
    /// when the node has no spatial frame or already carries a field.
    pub fn add_to(node: &mut FieldNode, length: Param, radius: Param) -> (r: Result<
        (),
        FieldError,
    >)
        ensures
            r == attach_outcome(*old(node)),
            r is Ok ==> final(node).spatial_spec() == old(node).spatial_spec() && is_cylinder_with(
                final(node).field_spec(),
                old(node).spatial_spec().unwrap(),
                length,
                radius,
            ),
            r is Err ==> *final(node) == *old(node),
    {
        let space = node.check_attach()?;
        node.field = Some(Field::Cylinder(CylinderField { space, length, radius }));
        Ok(())
    }

    pub fn set_size(&mut self, length: Param, radius: Param)
        ensures
            final(self).length_spec() == length,
            final(self).radius_spec() == radius,
            final(self).space_spec() == old(self).space_spec(),
    {
        self.length = length;
        self.radius = radius;
    }

    /// The remote `setSize` entry point: resizes the node's field when it is a
    /// cylinder, and leaves a field of another kind untouched.
    pub fn set_size_flex(node: &mut FieldNode, length: Param, radius: Param)
        requires
            old(node).field_spec() is Some,
        ensures
            final(node).spatial_spec() == old(node).spatial_spec(),
            match old(node).field_spec() {
                Some(Field::Cylinder(c)) => is_cylinder_with(
                    final(node).field_spec(),
                    c.space_spec(),
                    length,
                    radius,
                ),
                _ => *final(node) == *old(node),
            },
    {
        if let Some(Field::Cylinder(c)) = &mut node.field {
            c.set_size(length, radius);
        }
    }
}

impl SphereField {
    pub closed spec fn space_spec(&self) -> SpatialId {
        self.space
    }

    pub closed spec fn radius_spec(&self) -> Param {
        self.radius
    }

    pub fn spatial_ref(&self) -> (r: SpatialId)
        ensures
            r == self.space_spec(),
    {
        self.space
    }

    pub fn radius(&self) -> (r: Param)
        ensures
            r == self.radius_spec(),
    {
        self.radius
    }

    /// Attaches a sphere field to `node`. Fails, leaving `node` as it was,
    /// when the node has no spatial frame or already carries a field.
    pub fn add_to(node: &mut FieldNode, radius: Param) -> (r: Result<(), FieldError>)
        ensures
            r == attach_outcome(*old(node)),
            r is Ok ==> final(node).spatial_spec() == old(node).spatial_spec() && is_sphere_with(
                final(node).field_spec(),
                old(node).spatial_spec().unwrap(),
                radius,
            ),
            r is Err ==> *final(node) == *old(node),
    {
        let space = node.check_attach()?;
        node.field = Some(Field::Sphere(SphereField { space, radius }));
        Ok(())
    }

    pub fn set_radius(&mut self, radius: Param)
        ensures
            final(self).radius_spec() == radius,
            final(self).space_spec() == old(self).space_spec(),
    {
        self.radius = radius;
    }

    /// The remote `setRadius` entry point: changes the node's field when it is
    /// a sphere, and leaves a field of another kind untouched.
    pub fn set_radius_flex(node: &mut FieldNode, radius: Param)
        requires
            old(node).field_spec() is Some,
        ensures
            final(node).spatial_spec() == old(node).spatial_spec(),
            match old(node).field_spec() {
                Some(Field::Sphere(s)) => is_sphere_with(final(node).field_spec(), s.space_spec(), radius),
                _ => *final(node) == *old(node),
            },
    {
        if let Some(Field::Sphere(s)) = &mut node.field {
            s.set_radius(radius);
        }
    }
}

impl Field {
    pub open spec fn kind_spec(&self) -> FieldKind {
        match self {
            Field::Box(_) => FieldKind::Box,
            Field::Cylinder(_) => FieldKind::Cylinder,
            Field::Sphere(_) => FieldKind::Sphere,
        }
    }

    pub open spec fn space_spec(&self) -> SpatialId {
        match self {
            Field::Box(b) => b.space_spec(),
            Field::Cylinder(c) => c.space_spec(),
            Field::Sphere(s) => s.space_spec(),
        }
    }

    pub fn kind(&self) -> (r: FieldKind)
        ensures
            r == self.kind_spec(),
    {
        match self {
            Field::Box(_) => FieldKind::Box,
            Field::Cylinder(_) => FieldKind::Cylinder,
            Field::Sphere(_) => FieldKind::Sphere,
        }
    }

    /// The frame in which the field's own distance formula is defined.
    pub fn spatial_ref(&self) -> (r: SpatialId)
        ensures
            r == self.space_spec(),
    {
        match self {
            Field::Box(b) => b.spatial_ref(),
            Field::Cylinder(c) => c.spatial_ref(),
            Field::Sphere(s) => s.spatial_ref(),
        }
    }
}

/// `f` is a box on frame `space` with extent `size`.
pub open spec fn is_box_with(f: Option<Field>, space: SpatialId, size: Extent) -> bool {
    match f {
        Some(Field::Box(b)) => b.space_spec() == space && b.size_spec() == size,
        _ => false,
    }
}

/// `f` is a cylinder on frame `space` with the given length and radius.
pub open spec fn is_cylinder_with(
    f: Option<Field>,
    space: SpatialId,
    length: Param,
    radius: Param,
) -> bool {
    match f {
        Some(Field::Cylinder(c)) => c.space_spec() == space && c.length_spec() == length
            && c.radius_spec() == radius,
        _ => false,
    }
}

/// `f` is a sphere on frame `space` with the given radius.
pub open spec fn is_sphere_with(f: Option<Field>, space: SpatialId, radius: Param) -> bool {
    match f {
        Some(Field::Sphere(s)) => s.space_spec() == space && s.radius_spec() == radius,
        _ => false,
    }
}

/// What an attach attempt on `node` yields: the spatial frame is checked
/// first, then the field slot.
pub open spec fn attach_outcome(node: FieldNode) -> Result<(), FieldError> {
    if node.spatial_spec() is None {
        Err(FieldError::NodeWithoutSpatial)
    } else if node.field_spec() is Some {
        Err(FieldError::FieldAlreadyAttached)
    } else {
        Ok(())
    }
}

/// A node carries at most one field: on a node with a frame and no field a
/// first attach succeeds, and once a field is installed every further attach
/// fails with `FieldAlreadyAttached`, which leaves the node, and so the first
/// field, as it was.
pub proof fn lemma_second_attach_fails(before: FieldNode, after: FieldNode)
    requires
        before.spatial_spec() is Some,
        before.field_spec() is None,
        after.spatial_spec() == before.spatial_spec(),
        after.field_spec() is Some,
    ensures
        attach_outcome(before) == Ok::<(), FieldError>(()),
        attach_outcome(after) == Err::<(), FieldError>(FieldError::FieldAlreadyAttached),
{
}

/// Attaching a field to a node without a spatial frame fails with
/// `NodeWithoutSpatial`, whatever the field slot holds.
pub proof fn lemma_attach_needs_spatial(node: FieldNode)
    requires
        node.spatial_spec() is None,
    ensures
        attach_outcome(node) == Err::<(), FieldError>(FieldError::NodeWithoutSpatial),
{
}

impl FieldNode {
    pub closed spec fn spatial_spec(&self) -> Option<SpatialId> {
        self.spatial
    }

    pub closed spec fn field_spec(&self) -> Option<Field> {
        self.field
    }

    /// A node with the given spatial frame (if any) and no field yet.
    pub fn new(spatial: Option<SpatialId>) -> (r: FieldNode)
        ensures
            r.spatial_spec() == spatial,
            r.field_spec() is None,
    {
        FieldNode { spatial, field: None }
    }

    pub fn spatial(&self) -> (r: Option<SpatialId>)
        ensures
            r == self.spatial_spec(),
    {
        self.spatial
    }

    pub fn field(&self) -> (r: &Option<Field>)
        ensures
            *r == self.field_spec(),
    {
        &self.field
    }

    /// The checks that precede every attach; on success, the frame that the
    /// new field will observe.
    fn check_attach(&self) -> (r: Result<SpatialId, FieldError>)
        ensures
            attach_outcome(*self) is Ok <==> r is Ok,
            r is Ok ==> self.spatial_spec() == Some(r->Ok_0),
            r is Err ==> attach_outcome(*self) == Err::<(), FieldError>(r->Err_0),
    {
        attach_precondition(self.spatial, self.field.is_some())
    }
}

/// The precondition of attaching a field to a node whose spatial frame is
/// `spatial` and whose field slot is filled when `has_field`: the node needs a
/// frame, checked first, and an empty slot. On success, the frame that the
/// new field will observe.
pub fn attach_precondition(spatial: Option<SpatialId>, has_field: bool) -> (r: Result<
    SpatialId,
    FieldError,
>)
    ensures
        spatial is None ==> r == Err::<SpatialId, FieldError>(FieldError::NodeWithoutSpatial),
        spatial is Some && has_field ==> r == Err::<SpatialId, FieldError>(
            FieldError::FieldAlreadyAttached,
        ),
        spatial is Some && !has_field ==> r == Ok::<SpatialId, FieldError>(spatial.unwrap()),
{
    match spatial {
        None => Err(FieldError::NodeWithoutSpatial),
        Some(space) => {
            if has_field {
                Err(FieldError::FieldAlreadyAttached)
            } else {
                Ok(space)
            }
        },
    }
}

} // verus!
