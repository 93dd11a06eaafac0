use gba_register_generator::builder::{FieldBuilder, RegisterBuilder, VariantBuilder};
use gba_register_generator::layout::{compute_mask, generate_register, FieldKind};
use gba_register_generator::schema::{Access, Field, Format, Register, Repr, SchemaError, Variant};
use gba_register_generator::test_register::test_register_schema;

fn int_field(name: &str, start: u32, size: u32) -> Field {
    FieldBuilder::default()
        .name(name.to_string())
        .doc(String::new())
        .access(Access::ReadWrite)
        .start(start)
        .size(size)
        .format(Format::Integer { repr: Repr::U32, flags: None })
        .build()
        .unwrap()
}

fn variant(title: &str, value: Option<u32>) -> Variant {
    VariantBuilder::default()
        .title(title.to_string())
        .doc(String::new())
        .value(value)
        .build()
        .unwrap()
}

fn enum_field(start: u32, size: u32, variants: Vec<Variant>) -> Field {
    FieldBuilder::default()
        .name("e".to_string())
        .doc(String::new())
        .access(Access::ReadWrite)
        .start(start)
        .size(size)
        .format(Format::Enumeration { title: "E".to_string(), variants })
        .build()
        .unwrap()
}

fn register(repr: Repr, fields: Vec<Field>) -> Register {
    RegisterBuilder::default()
        .title("R".to_string())
        .doc(String::new())
        .repr(repr)
        .fields(fields)
        .build()
        .unwrap()
}

#[test]
fn mask_of_enum_field_in_sample() {
    assert_eq!(compute_mask(3, 3), 56);
    assert_eq!(compute_mask(0, 3), 7);
    assert_eq!(compute_mask(6, 1), 64);
}

#[test]
fn mask_of_full_width_field() {
    assert_eq!(compute_mask(0, 32), 0xffff_ffff);
    assert_eq!(compute_mask(31, 1), 0x8000_0000);
    assert_eq!(compute_mask(4, 28), 0xffff_fff0);
}

#[test]
fn mask_has_size_contiguous_bits() {
    for start in 0..32u32 {
        for size in 1..=(32 - start) {
            let m = compute_mask(start, size);
            assert_eq!(m.count_ones(), size);
            assert_eq!(m.trailing_zeros(), start);
            assert_eq!((m >> start).count_ones(), size);
        }
    }
}

#[test]
fn empty_field_list_is_rejected() {
    let r = register(Repr::U16, vec![]);
    assert_eq!(generate_register(&r).unwrap_err(), SchemaError::EmptyFieldList);
}

#[test]
fn overlapping_fields_are_rejected() {
    let r = register(Repr::U16, vec![int_field("a", 0, 4), int_field("b", 3, 2)]);
    assert_eq!(generate_register(&r).unwrap_err(), SchemaError::OverlappingFields);
}

#[test]
fn adjacent_fields_are_accepted() {
    let r = register(Repr::U16, vec![int_field("a", 0, 4), int_field("b", 4, 12)]);
    let l = generate_register(&r).unwrap();
    assert_eq!(l.fields.len(), 2);
    assert_eq!(l.fields[0].mask, 0x000f);
    assert_eq!(l.fields[1].mask, 0xfff0);
    assert_eq!(l.width, 16);
}

#[test]
fn field_past_register_width_is_rejected() {
    let r = register(Repr::U8, vec![int_field("a", 4, 5)]);
    assert_eq!(generate_register(&r).unwrap_err(), SchemaError::FieldOutOfRange);
    let r = register(Repr::U8, vec![int_field("a", 4, 4)]);
    assert!(generate_register(&r).is_ok());
}

#[test]
fn empty_field_is_rejected() {
    let r = register(Repr::U32, vec![int_field("a", 4, 0)]);
    assert_eq!(generate_register(&r).unwrap_err(), SchemaError::FieldOutOfRange);
}

#[test]
fn placement_is_checked_before_overlap() {
    let r = register(
        Repr::U16,
        vec![int_field("a", 0, 4), int_field("b", 3, 2), int_field("c", 10, 7)],
    );
    assert_eq!(generate_register(&r).unwrap_err(), SchemaError::FieldOutOfRange);
}

#[test]
fn empty_enumeration_is_rejected() {
    let r = register(Repr::U16, vec![enum_field(0, 2, vec![])]);
    assert_eq!(generate_register(&r).unwrap_err(), SchemaError::EmptyEnumeration);
}

#[test]
fn discriminant_too_wide_is_rejected() {
    let r = register(Repr::U16, vec![enum_field(0, 2, vec![variant("A", Some(4))])]);
    assert_eq!(generate_register(&r).unwrap_err(), SchemaError::FieldOutOfRange);
    let r = register(Repr::U16, vec![enum_field(0, 2, vec![variant("A", Some(3))])]);
    assert!(generate_register(&r).is_ok());
}

#[test]
fn implicit_discriminants_follow_the_previous_one() {
    let vs = vec![variant("A", None), variant("B", Some(7)), variant("C", None)];
    let r = register(Repr::U16, vec![enum_field(0, 4, vs.clone())]);
    let l = generate_register(&r).unwrap();
    match &l.fields[0].kind {
        FieldKind::Enumeration { discriminants, .. } => assert_eq!(discriminants, &vec![0, 7, 8]),
        _ => panic!("not an enumeration"),
    }
    let r = register(Repr::U16, vec![enum_field(0, 3, vs)]);
    assert_eq!(generate_register(&r).unwrap_err(), SchemaError::FieldOutOfRange);
}

#[test]
fn builders_require_their_parts() {
    let v = VariantBuilder::default().title("A".to_string()).build();
    assert_eq!(v.unwrap_err(), SchemaError::MissingRequiredField);
    let f = FieldBuilder::default()
        .name("a".to_string())
        .doc(String::new())
        .access(Access::ReadOnly)
        .start(0)
        .format(Format::Boolean { quick_set_true: None, quick_set_false: None })
        .build();
    assert_eq!(f.unwrap_err(), SchemaError::MissingRequiredField);
    let r = RegisterBuilder::default()
        .title("R".to_string())
        .doc(String::new())
        .fields(vec![])
        .build();
    assert_eq!(r.unwrap_err(), SchemaError::MissingRequiredField);
}

#[test]
fn reset_value_defaults_to_zero() {
    let r = register(Repr::U16, vec![int_field("a", 0, 4)]);
    assert_eq!(r.reset_value, 0);
    let r = RegisterBuilder::default()
        .title("R".to_string())
        .doc(String::new())
        .repr(Repr::U16)
        .reset_value(0x80)
        .fields(vec![int_field("a", 0, 4)])
        .build()
        .unwrap();
    assert_eq!(r.reset_value, 0x80);
    let l = generate_register(&r).unwrap();
    assert_eq!(l.default_write().bits(), 0x80);
}

#[test]
fn sample_schema_is_accepted() {
    let r = test_register_schema().unwrap();
    assert_eq!(r.title, "TestRegister");
    let l = generate_register(&r).unwrap();
    assert_eq!(l.fields.len(), 3);
    assert_eq!(l.fields[0].mask, 7);
    assert_eq!(l.fields[1].mask, 56);
    assert_eq!(l.fields[2].mask, 64);
    assert!(l.has_read_view());
    assert!(l.has_write_view());
    assert!(l.has_modify());
}

#[test]
fn repeated_discriminant_is_rejected() {
    let r = register(
        Repr::U16,
        vec![enum_field(0, 2, vec![variant("A", Some(3)), variant("B", Some(3))])],
    );
    assert_eq!(generate_register(&r).unwrap_err(), SchemaError::DuplicateDiscriminant);
    let r = register(
        Repr::U16,
        vec![enum_field(0, 3, vec![variant("A", Some(1)), variant("B", Some(0)), variant("C", None)])],
    );
    assert_eq!(generate_register(&r).unwrap_err(), SchemaError::DuplicateDiscriminant);
}

#[test]
fn reset_value_wider_than_register_is_rejected() {
    let r = RegisterBuilder::default()
        .title("R".to_string())
        .doc(String::new())
        .repr(Repr::U8)
        .reset_value(0x100)
        .fields(vec![int_field("a", 0, 4)])
        .build()
        .unwrap();
    assert_eq!(generate_register(&r).unwrap_err(), SchemaError::ResetValueOutOfRange);
    let r = RegisterBuilder::default()
        .title("R".to_string())
        .doc(String::new())
        .repr(Repr::U8)
        .reset_value(0xff)
        .fields(vec![int_field("a", 0, 4)])
        .build()
        .unwrap();
    assert!(generate_register(&r).is_ok());
}
