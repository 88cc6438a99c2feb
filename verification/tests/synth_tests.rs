use builder::description::{FieldDescriptor, RecordDescription, RecordShape, ShapeKind};
use builder::instance::{BuildError, Builder};
use builder::synth::{synthesize, BuilderSchema, SynthesisError};

fn fd(name: &str, ty: &str) -> FieldDescriptor {
    FieldDescriptor { name: name.to_string(), ty: ty.to_string() }
}

fn point_description() -> RecordDescription {
    RecordDescription {
        name: "point".to_string(),
        shape: RecordShape::NamedFields(vec![fd("x", "u64"), fd("y", "u64"), fd("z", "u64")]),
    }
}

fn point_schema() -> BuilderSchema {
    synthesize(point_description()).unwrap()
}

#[test]
fn synthesize_keeps_all_fields_in_order() {
    let schema = point_schema();
    assert_eq!(schema.record_name, "point");
    assert_eq!(schema.slot_count(), 3);
    assert_eq!(schema.fields[0].name, "x");
    assert_eq!(schema.fields[1].name, "y");
    assert_eq!(schema.fields[2].name, "z");
    assert_eq!(schema.fields[0].ty, "u64");
}

#[test]
fn synthesize_accepts_zero_field_record() {
    let description = RecordDescription {
        name: "unit_like".to_string(),
        shape: RecordShape::NamedFields(vec![]),
    };
    let schema = synthesize(description).unwrap();
    assert_eq!(schema.slot_count(), 0);
}

#[test]
fn zero_field_builder_builds_immediately() {
    let description = RecordDescription {
        name: "unit_like".to_string(),
        shape: RecordShape::NamedFields(vec![]),
    };
    let schema = synthesize(description).unwrap();
    let b: Builder<u64> = schema.builder();
    let values = b.build().unwrap();
    assert_eq!(values.len(), 0);
}

#[test]
fn synthesize_rejects_positional_fields() {
    let description = RecordDescription {
        name: "pair".to_string(),
        shape: RecordShape::PositionalFields(vec!["u64".to_string(), "bool".to_string()]),
    };
    let err = synthesize(description).unwrap_err();
    assert_eq!(err, SynthesisError::UnsupportedShape(ShapeKind::PositionalFields));
}

#[test]
fn synthesize_rejects_enumeration() {
    let description = RecordDescription {
        name: "color".to_string(),
        shape: RecordShape::Enumeration(vec!["red".to_string(), "green".to_string()]),
    };
    let err = synthesize(description).unwrap_err();
    assert_eq!(err, SynthesisError::UnsupportedShape(ShapeKind::Enumeration));
}

#[test]
fn synthesize_rejects_union() {
    let description = RecordDescription {
        name: "either".to_string(),
        shape: RecordShape::Union(vec![fd("left", "u64"), fd("right", "bool")]),
    };
    let err = synthesize(description).unwrap_err();
    assert_eq!(err, SynthesisError::UnsupportedShape(ShapeKind::Union));
}

#[test]
fn fresh_builder_fails_naming_first_field() {
    let b: Builder<u64> = point_schema().builder();
    let BuildError::FieldNotSet(name) = b.build().unwrap_err();
    assert_eq!(name, "x");
}

#[test]
fn setter_order_has_no_effect() {
    let declaration_order: Builder<u64> = point_schema().builder();
    let values = [10u64, 20u64, 30u64];
    let expected = declaration_order
        .set(0, values[0])
        .set(1, values[1])
        .set(2, values[2])
        .build()
        .unwrap();
    let permutations: [[usize; 3]; 6] =
        [[0, 1, 2], [0, 2, 1], [1, 0, 2], [1, 2, 0], [2, 0, 1], [2, 1, 0]];
    for order in permutations.iter() {
        let mut b: Builder<u64> = point_schema().builder();
        for &i in order.iter() {
            b = b.set(i, values[i]);
        }
        assert_eq!(b.build().unwrap(), expected);
    }
}

#[test]
fn last_write_wins() {
    let b: Builder<u64> = point_schema().builder();
    let values = b.set(1, 5).set(0, 1).set(1, 9).set(2, 3).build().unwrap();
    assert_eq!(values, vec![1, 9, 3]);
}

#[test]
fn missing_field_is_named_and_retry_succeeds() {
    let b: Builder<u64> = point_schema().builder();
    let b = b.set(0, 1).set(2, 3);
    let BuildError::FieldNotSet(name) = b.build().unwrap_err();
    assert_eq!(name, "y");
    let b = b.set(1, 2);
    assert_eq!(b.build().unwrap(), vec![1, 2, 3]);
}

#[test]
fn failed_build_leaves_builder_usable() {
    let b: Builder<u64> = point_schema().builder();
    let b = b.set(1, 2);
    assert!(b.build().is_err());
    assert!(b.build().is_err());
    let b = b.set(0, 1).set(2, 3);
    assert_eq!(b.build().unwrap(), vec![1, 2, 3]);
    assert_eq!(b.build().unwrap(), vec![1, 2, 3]);
}

#[test]
fn field_index_finds_each_field() {
    let schema = point_schema();
    assert_eq!(schema.field_index(&"x".to_string()), Some(0));
    assert_eq!(schema.field_index(&"y".to_string()), Some(1));
    assert_eq!(schema.field_index(&"z".to_string()), Some(2));
    assert_eq!(schema.field_index(&"w".to_string()), None);
}

#[test]
fn set_by_name_fills_the_named_slot() {
    let b: Builder<u64> = point_schema().builder();
    let b = b
        .set_by_name(&"z".to_string(), 3)
        .set_by_name(&"x".to_string(), 1)
        .set_by_name(&"y".to_string(), 2);
    assert_eq!(b.build().unwrap(), vec![1, 2, 3]);
}

#[test]
fn set_by_name_ignores_unknown_names() {
    let b: Builder<u64> = point_schema().builder();
    let b = b.set_by_name(&"w".to_string(), 9);
    let BuildError::FieldNotSet(name) = b.build().unwrap_err();
    assert_eq!(name, "x");
}
