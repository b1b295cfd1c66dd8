use bincode_derive::emission::DecodeMode;
use bincode_derive::shape::{Adapter, Fields, NamedField, ShapeDescription, Variant};
use bincode_derive::tag::{AllowedVariants, TagAssignment};
use bincode_derive::wire::{encode, DecodeError, Entry, Value};

fn decode(
    shape: &ShapeDescription,
    target: &str,
    wire: &Vec<Entry>,
) -> Result<(Value, usize), DecodeError> {
    let owning = bincode_derive::wire::decode(shape, target, wire, DecodeMode::Owning);
    let borrowing = bincode_derive::wire::decode(shape, target, wire, DecodeMode::Borrowing);
    assert_eq!(owning, borrowing);
    owning
}

fn named(name: &str, adapter: Adapter) -> NamedField {
    NamedField { name: name.to_string(), adapter }
}

fn variant(name: &str, fields: Fields, fixed_tag: Option<u32>) -> Variant {
    Variant { name: name.to_string(), fields, fixed_tag }
}

fn units(tags: &[Option<u32>]) -> ShapeDescription {
    ShapeDescription::Union(
        tags.iter()
            .enumerate()
            .map(|(index, tag)| variant(&format!("V{}", index), Fields::Unit, *tag))
            .collect(),
    )
}

fn plain_record() -> ShapeDescription {
    ShapeDescription::Record(Fields::Struct(vec![
        named("a", Adapter::Plain),
        named("b", Adapter::Plain),
        named("c", Adapter::Plain),
    ]))
}

fn mixed_union() -> ShapeDescription {
    ShapeDescription::Union(vec![
        variant("A", Fields::Unit, None),
        variant("B", Fields::Tuple(vec![Adapter::Plain, Adapter::Interop]), Some(5)),
        variant("C", Fields::Struct(vec![named("x", Adapter::Interop)]), None),
        variant("D", Fields::Unit, Some(2)),
        variant("E", Fields::Tuple(vec![Adapter::Plain]), None),
    ])
}

#[test]
fn record_is_its_fields_in_order() {
    let wire = encode(&plain_record(), &Value::Record(vec![10, 20, 30])).unwrap();
    assert_eq!(
        wire,
        vec![
            Entry::Field(Adapter::Plain, 10),
            Entry::Field(Adapter::Plain, 20),
            Entry::Field(Adapter::Plain, 30),
        ]
    );
}

#[test]
fn record_round_trip() {
    let shape = plain_record();
    let value = Value::Record(vec![10, 20, 30]);
    let wire = encode(&shape, &value).unwrap();
    assert_eq!(decode(&shape, "Foo", &wire), Ok((value, 3)));
}

#[test]
fn record_round_trip_with_more_on_the_wire() {
    let shape = plain_record();
    let value = Value::Record(vec![1, 2, 3]);
    let mut wire = encode(&shape, &value).unwrap();
    wire.push(Entry::Tag(9));
    wire.push(Entry::Field(Adapter::Plain, 4));
    assert_eq!(decode(&shape, "Foo", &wire), Ok((value, 3)));
}

#[test]
fn record_without_fields_round_trip() {
    let shape = ShapeDescription::Record(Fields::Unit);
    let value = Value::Record(Vec::new());
    let wire = encode(&shape, &value).unwrap();
    assert!(wire.is_empty());
    assert_eq!(decode(&shape, "Foo", &wire), Ok((value, 0)));
}

#[test]
fn union_is_its_tag_and_then_its_fields() {
    let wire = encode(&mixed_union(), &Value::Variant(1, vec![7, 8])).unwrap();
    assert_eq!(
        wire,
        vec![Entry::Tag(5), Entry::Field(Adapter::Plain, 7), Entry::Field(Adapter::Interop, 8)]
    );
}

#[test]
fn union_round_trip_of_every_variant() {
    let shape = mixed_union();
    let values = vec![
        (Value::Variant(0, vec![]), 0u32, 1usize),
        (Value::Variant(1, vec![7, 8]), 5, 3),
        (Value::Variant(2, vec![9]), 6, 2),
        (Value::Variant(3, vec![]), 2, 1),
        (Value::Variant(4, vec![11]), 3, 2),
    ];
    for (value, tag, entries) in values {
        let wire = encode(&shape, &value).unwrap();
        assert_eq!(wire[0], Entry::Tag(tag));
        assert_eq!(wire.len(), entries);
        assert_eq!(decode(&shape, "Foo", &wire), Ok((value, entries)));
    }
}

#[test]
fn adapted_fields_round_trip_as_plain_fields_do() {
    let plain = ShapeDescription::Record(Fields::Tuple(vec![Adapter::Plain, Adapter::Plain]));
    let adapted = ShapeDescription::Record(Fields::Tuple(vec![Adapter::Interop, Adapter::Plain]));
    let value = Value::Record(vec![4, 5]);
    let through_plain = decode(&plain, "Foo", &encode(&plain, &value).unwrap());
    let through_adapted = decode(&adapted, "Foo", &encode(&adapted, &value).unwrap());
    assert_eq!(through_plain, Ok((value.clone(), 2)));
    assert_eq!(through_adapted, through_plain);
}

#[test]
fn a_field_is_read_through_the_adapter_that_wrote_it() {
    let plain = ShapeDescription::Record(Fields::Tuple(vec![Adapter::Plain, Adapter::Plain]));
    let adapted = ShapeDescription::Record(Fields::Tuple(vec![Adapter::Plain, Adapter::Interop]));
    let wire = encode(&adapted, &Value::Record(vec![4, 5])).unwrap();
    assert_eq!(decode(&plain, "Foo", &wire), Err(DecodeError::Codec { at: 1 }));
}

#[test]
fn empty_union_cannot_be_encoded() {
    let shape = ShapeDescription::Union(Vec::new());
    assert_eq!(encode(&shape, &Value::Variant(0, Vec::new())), None);
    assert_eq!(encode(&shape, &Value::Record(Vec::new())), None);
}

#[test]
fn empty_union_never_decodes() {
    let shape = ShapeDescription::Union(Vec::new());
    let failure = Err(DecodeError::EmptyEnum { target: "Never".to_string() });
    assert_eq!(decode(&shape, "Never", &Vec::new()), failure);
    assert_eq!(decode(&shape, "Never", &vec![Entry::Tag(0)]), failure);
    assert_eq!(decode(&shape, "Never", &vec![Entry::Field(Adapter::Plain, 0)]), failure);
}

#[test]
fn unexpected_tag_without_fixed_tags() {
    let shape = units(&[None, None, None]);
    assert_eq!(
        decode(&shape, "Three", &vec![Entry::Tag(7)]),
        Err(DecodeError::UnexpectedVariant {
            found: 7,
            target: "Three".to_string(),
            allowed: AllowedVariants::Range { min: 0, max: 2 },
        })
    );
}

#[test]
fn unexpected_tag_with_fixed_tags() {
    let shape = units(&[Some(0), Some(5), None]);
    assert_eq!(
        decode(&shape, "Three", &vec![Entry::Tag(9)]),
        Err(DecodeError::UnexpectedVariant {
            found: 9,
            target: "Three".to_string(),
            allowed: AllowedVariants::Allowed(vec![
                TagAssignment::Literal(0),
                TagAssignment::Literal(5),
                TagAssignment::Computed { base: 5, offset: 1 },
            ]),
        })
    );
}

#[test]
fn of_two_variants_with_one_tag_the_first_is_decoded() {
    let shape = units(&[None, None, Some(1)]);
    let wire = encode(&shape, &Value::Variant(2, Vec::new())).unwrap();
    assert_eq!(wire, vec![Entry::Tag(1)]);
    assert_eq!(decode(&shape, "Foo", &wire), Ok((Value::Variant(1, Vec::new()), 1)));
}

#[test]
fn a_value_of_another_type_cannot_be_encoded() {
    assert_eq!(encode(&plain_record(), &Value::Record(vec![1, 2])), None);
    assert_eq!(encode(&plain_record(), &Value::Variant(0, vec![1, 2, 3])), None);
    assert_eq!(encode(&mixed_union(), &Value::Variant(5, Vec::new())), None);
    assert_eq!(encode(&mixed_union(), &Value::Variant(1, vec![7])), None);
    assert_eq!(encode(&mixed_union(), &Value::Record(Vec::new())), None);
}

#[test]
fn a_tag_past_32_bits_cannot_be_encoded() {
    let shape = units(&[Some(u32::MAX), None]);
    assert_eq!(encode(&shape, &Value::Variant(0, Vec::new())), Some(vec![Entry::Tag(u32::MAX)]));
    assert_eq!(encode(&shape, &Value::Variant(1, Vec::new())), None);
}

#[test]
fn decoding_stops_at_the_first_field_that_fails() {
    let shape = plain_record();
    let wire = vec![Entry::Field(Adapter::Plain, 1), Entry::Tag(3), Entry::Tag(4)];
    assert_eq!(decode(&shape, "Foo", &wire), Err(DecodeError::Codec { at: 1 }));
    let short = vec![Entry::Field(Adapter::Plain, 1), Entry::Field(Adapter::Plain, 2)];
    assert_eq!(decode(&shape, "Foo", &short), Err(DecodeError::Codec { at: 2 }));
}

#[test]
fn owning_and_borrowing_decoders_agree() {
    let shape = mixed_union();
    let wires = vec![
        Vec::new(),
        vec![Entry::Tag(0)],
        vec![Entry::Tag(5), Entry::Field(Adapter::Plain, 1), Entry::Field(Adapter::Interop, 2)],
        vec![Entry::Tag(5), Entry::Field(Adapter::Interop, 1), Entry::Field(Adapter::Interop, 2)],
        vec![Entry::Tag(6), Entry::Field(Adapter::Interop, 3)],
        vec![Entry::Tag(4)],
        vec![Entry::Field(Adapter::Plain, 0)],
    ];
    for wire in wires {
        assert_eq!(
            bincode_derive::wire::decode(&shape, "Foo", &wire, DecodeMode::Owning),
            bincode_derive::wire::decode(&shape, "Foo", &wire, DecodeMode::Borrowing)
        );
    }
}

#[test]
fn a_union_needs_its_tag() {
    let shape = mixed_union();
    assert_eq!(decode(&shape, "Foo", &Vec::new()), Err(DecodeError::Codec { at: 0 }));
    assert_eq!(
        decode(&shape, "Foo", &vec![Entry::Field(Adapter::Plain, 5)]),
        Err(DecodeError::Codec { at: 0 })
    );
    assert_eq!(decode(&shape, "Foo", &vec![Entry::Tag(5)]), Err(DecodeError::Codec { at: 1 }));
}
