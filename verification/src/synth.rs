//! The builder synthesizer: turns a record-type description into the schema
//! that a generic builder instance is keyed by.

use vstd::prelude::*;

use crate::description::{FieldDescriptor, RecordDescription, RecordShape, ShapeKind, unique_names};

verus! {

/// Synthesis fails only when the described type is not a named-field record;
/// the error names the offending shape.
#[derive(Clone, Copy, Debug, PartialEq, Eq, Structural)]
pub enum SynthesisError {
    UnsupportedShape(ShapeKind),
}

/// The synthesized builder declaration: one slot per field of the record, in
/// declaration order. The factory, the setters and the finalizer are the
/// operations of `crate::instance::Builder`, which is keyed by this schema.
#[derive(Debug)]
pub struct BuilderSchema {
    pub record_name: String,
    pub fields: Vec<FieldDescriptor>,
}

/// The first position in `fields` whose descriptor is named `name`;
/// `fields.len()` when no field has that name.
pub open spec fn field_position(fields: Seq<FieldDescriptor>, name: Seq<char>) -> int
    decreases fields.len(),
{
    if fields.len() == 0 {
        0
    } else if fields[0].name@ == name {
        0
    } else {
        1 + field_position(fields.skip(1), name)
    }
}

/// Whether some field in `fields` is named `name`.
pub open spec fn has_field(fields: Seq<FieldDescriptor>, name: Seq<char>) -> bool {
    exists|i: int| 0 <= i < fields.len() && fields[i].name@ == name
}

/// `field_position` finds exactly the first field of the given name: it is in
/// range and earlier fields have other names when the name occurs at all, and
/// it is `fields.len()` otherwise.
pub proof fn lemma_field_position(fields: Seq<FieldDescriptor>, name: Seq<char>)
    ensures
        has_field(fields, name) ==> {
            &&& 0 <= field_position(fields, name) < fields.len()
            &&& fields[field_position(fields, name)].name@ == name
            &&& forall|j: int| 0 <= j < field_position(fields, name) ==> fields[j].name@ != name
        },
        !has_field(fields, name) ==> field_position(fields, name) == fields.len(),
    decreases fields.len(),
{
    if fields.len() == 0 {
    } else if fields[0].name@ == name {
    } else {
        let rest = fields.skip(1);
        lemma_field_position(rest, name);
        assert(forall|i: int| 1 <= i < fields.len() ==> fields[i] == #[trigger] rest[i - 1]);
        if has_field(fields, name) {
            let i = choose|i: int| 0 <= i < fields.len() && fields[i].name@ == name;
            assert(rest[i - 1].name@ == name);
            assert(has_field(rest, name));
            let p = field_position(rest, name);
            assert(fields[1 + p] == rest[p]);
            assert forall|j: int| 0 <= j < 1 + p implies fields[j].name@ != name by {
                if j >= 1 {
                    assert(fields[j] == rest[j - 1]);
                }
            }
        } else {
            if has_field(rest, name) {
                let i = choose|i: int| 0 <= i < rest.len() && rest[i].name@ == name;
                assert(fields[i + 1] == rest[i]);
                assert(has_field(fields, name));
            }
            assert(!has_field(rest, name));
        }
    }
}

impl BuilderSchema {
    /// The schema's invariant, inherited from the record description it was
    /// synthesized from: field names are unique.
    pub open spec fn wf(self) -> bool {
        unique_names(self.fields@)
    }

    /// How many slots a builder instance keyed by this schema has.
    pub fn slot_count(&self) -> (n: usize)
        ensures
            n == self.fields@.len(),
    {
        self.fields.len()
    }

    /// Looks a field up by name: the first (with a well-formed schema, the
    /// only) position whose descriptor carries `name`, or `None` when the
    /// record has no field of that name.
    pub fn field_index(&self, name: &String) -> (r: Option<usize>)
        ensures
            match r {
                Some(i) => has_field(self.fields@, name@) && i == field_position(
                    self.fields@,
                    name@,
                ),
                None => !has_field(self.fields@, name@),
            },
    {
        proof {
            lemma_field_position(self.fields@, name@);
        }
        let n = self.fields.len();
        for i in 0..n
            invariant
                n == self.fields@.len(),
                forall|j: int| 0 <= j < i ==> self.fields@[j].name@ != name@,
        {
            if self.fields[i].name == *name {
                proof {
                    crate::synth::lemma_field_position_found(self.fields@, name@, i as int);
                }
                return Some(i);
            }
        }
        None
    }
}

/// When position `i` holds the given name and no earlier position does,
/// `field_position` is exactly `i`.
pub proof fn lemma_field_position_found(fields: Seq<FieldDescriptor>, name: Seq<char>, i: int)
    requires
        0 <= i < fields.len(),
        fields[i].name@ == name,
        forall|j: int| 0 <= j < i ==> fields[j].name@ != name,
    ensures
        has_field(fields, name),
        field_position(fields, name) == i,
    decreases i,
{
    if i == 0 {
    } else {
        assert(forall|j: int|
            1 <= j < fields.len() ==> fields[j] == #[trigger] fields.skip(1)[j - 1]);
        lemma_field_position_found(fields.skip(1), name, i - 1);
    }
}

/// The synthesizer. A named-field record — zero fields included — yields the
/// builder schema: the record's name and one slot per field, in declaration
/// order. Every other shape fails with `UnsupportedShape` naming that shape,
/// and no artifact is produced.
pub fn synthesize(description: RecordDescription) -> (r: Result<BuilderSchema, SynthesisError>)
    ensures
        match r {
            Ok(schema) => {
                &&& description.shape is NamedFields
                &&& schema.record_name == description.name
                &&& schema.fields@ == description.shape.named_fields()
                &&& description.wf() ==> schema.wf()
            },
            Err(e) => {
                &&& !(description.shape is NamedFields)
                &&& e == SynthesisError::UnsupportedShape(description.shape.kind())
            },
        },
{
    match description.shape {
        RecordShape::NamedFields(fields) => Ok(
            BuilderSchema { record_name: description.name, fields },
        ),
        RecordShape::PositionalFields(_) => Err(
            SynthesisError::UnsupportedShape(ShapeKind::PositionalFields),
        ),
        RecordShape::Enumeration(_) => Err(
            SynthesisError::UnsupportedShape(ShapeKind::Enumeration),
        ),
        RecordShape::Union(_) => Err(SynthesisError::UnsupportedShape(ShapeKind::Union)),
    }
}

} // verus!
