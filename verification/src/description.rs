//! The description of a record type as handed to the synthesizer: its name
//! and the shape of its declaration.

use vstd::prelude::*;

verus! {

/// Immutable description of one named field: its identifier and the name of
/// its declared type. Constructed once when the record type's description is
/// read; never mutated.
#[derive(Debug)]
pub struct FieldDescriptor {
    pub name: String,
    pub ty: String,
}

/// The shape of a type declaration. Only `NamedFields` is supported by the
/// synthesizer; the other shapes exist so that a caller can hand any
/// declaration over and receive a deterministic error for the unsupported
/// ones.
pub enum RecordShape {
    /// A record with exclusively named fields, in declaration order.
    /// An empty list is legal: a zero-field record builds trivially.
    NamedFields(Vec<FieldDescriptor>),
    /// A tuple-style type: positional fields, declared type names only.
    PositionalFields(Vec<String>),
    /// An enumeration, given by its variant names.
    Enumeration(Vec<String>),
    /// A union, given by its field descriptors.
    Union(Vec<FieldDescriptor>),
}

/// Names one of the four shapes, so that a failed synthesis can say which
/// unsupported shape it was handed.
#[derive(Clone, Copy, Debug, PartialEq, Eq, Structural)]
pub enum ShapeKind {
    NamedFields,
    PositionalFields,
    Enumeration,
    Union,
}

impl RecordShape {
    /// Which of the four shapes this declaration has.
    pub open spec fn kind(self) -> ShapeKind {
        match self {
            RecordShape::NamedFields(_) => ShapeKind::NamedFields,
            RecordShape::PositionalFields(_) => ShapeKind::PositionalFields,
            RecordShape::Enumeration(_) => ShapeKind::Enumeration,
            RecordShape::Union(_) => ShapeKind::Union,
        }
    }

    /// The named fields of a `NamedFields` shape, in declaration order;
    /// empty for every other shape.
    pub open spec fn named_fields(self) -> Seq<FieldDescriptor> {
        match self {
            RecordShape::NamedFields(fields) => fields@,
            _ => Seq::empty(),
        }
    }
}

/// Field identifiers are unique within their owning record.
pub open spec fn unique_names(fields: Seq<FieldDescriptor>) -> bool {
    forall|i: int, j: int|
        0 <= i < j < fields.len() ==> fields[i].name@ != fields[j].name@
}

/// The name of a record type together with its declared shape. Owned by one
/// synthesis run and discarded afterwards.
pub struct RecordDescription {
    pub name: String,
    pub shape: RecordShape,
}

impl RecordDescription {
    /// The description's invariant: when the shape is a named-field record,
    /// its field names are unique.
    pub open spec fn wf(self) -> bool {
        unique_names(self.shape.named_fields())
    }
}

} // verus!
