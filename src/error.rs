use vstd::prelude::*;

verus! {

/// The single terminal failure of a field operation.
#[derive(Debug, Clone, Copy, PartialEq, Eq, Structural)]
pub enum FieldError {
    /// The reference-frame id names no node.
    ReferenceNotFound,
    /// The reference-frame id names a node that has no spatial frame.
    ReferenceWithoutSpatial,
    /// The query point could not be decoded.
    PointInvalid,
    /// A box extent could not be decoded.
    SizeInvalid,
    /// The position of a new field node could not be decoded.
    PositionNotFound,
    /// The rotation of a new field node could not be decoded.
    RotationNotFound,
    /// A field was to be attached to a node without a spatial frame.
    NodeWithoutSpatial,
    /// A field was to be attached to a node that already carries one.
    FieldAlreadyAttached,
}

pub open spec fn message_of(e: FieldError) -> Seq<char> {
    match e {
        FieldError::ReferenceNotFound => "Reference space node does not exist"@,
        FieldError::ReferenceWithoutSpatial => "Reference space node does not have a spatial"@,
        FieldError::PointInvalid => "Point is invalid"@,
        FieldError::SizeInvalid => "Size is invalid"@,
        FieldError::PositionNotFound => "Position not found"@,
        FieldError::RotationNotFound => "Rotation not found"@,
        FieldError::NodeWithoutSpatial => "Internal: Node does not have a spatial attached!"@,
        FieldError::FieldAlreadyAttached => "Internal: Node already has a field attached!"@,
    }
}

impl FieldError {
    /// The text surfaced to the remote caller.
    pub fn message(&self) -> (r: String)
        ensures
            r@ == message_of(*self),
    {
        match self {
            FieldError::ReferenceNotFound => "Reference space node does not exist".to_owned(),
            FieldError::ReferenceWithoutSpatial => "Reference space node does not have a spatial".to_owned(),
            FieldError::PointInvalid => "Point is invalid".to_owned(),
            FieldError::SizeInvalid => "Size is invalid".to_owned(),
            FieldError::PositionNotFound => "Position not found".to_owned(),
            FieldError::RotationNotFound => "Rotation not found".to_owned(),
            FieldError::NodeWithoutSpatial => "Internal: Node does not have a spatial attached!".to_owned(),
            FieldError::FieldAlreadyAttached => "Internal: Node already has a field attached!".to_owned(),
        }
    }
}

/// Resolves a reference-frame lookup: the id must name a node, and that node
/// must carry a spatial frame, whose handle is returned.
pub fn resolve_reference(found: Option<Option<u64>>) -> (r: Result<u64, FieldError>)
    ensures
        found is None <==> r == Err::<u64, FieldError>(FieldError::ReferenceNotFound),
        found == Some(Option::<u64>::None) <==> r == Err::<u64, FieldError>(
            FieldError::ReferenceWithoutSpatial,
        ),
        forall|s: u64| found == Some(Some(s)) <==> r == Ok::<u64, FieldError>(s),
{
    match found {
        None => Err(FieldError::ReferenceNotFound),
        Some(None) => Err(FieldError::ReferenceWithoutSpatial),
        Some(Some(s)) => Ok(s),
    }
}

} // verus!
