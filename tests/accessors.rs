use gba_register_generator::builder::{FieldBuilder, RegisterBuilder, VariantBuilder};
use gba_register_generator::cell::{ReadOnly, ReadWrite, RegisterCell, WriteOnly};
use gba_register_generator::codec::Value;
use gba_register_generator::layout::{generate_register, RegisterLayout};
use gba_register_generator::schema::{Access, DecodeError, Field, Format, Repr};
use gba_register_generator::test_register::test_register_schema;
use gba_register_generator::view::{ReadView, WriteView};

fn sample() -> RegisterLayout {
    generate_register(&test_register_schema().unwrap()).unwrap()
}

fn field(name: &str, access: Access, start: u32, size: u32, format: Format) -> Field {
    FieldBuilder::default()
        .name(name.to_string())
        .doc(String::new())
        .access(access)
        .start(start)
        .size(size)
        .format(format)
        .build()
        .unwrap()
}

fn layout(fields: Vec<Field>) -> RegisterLayout {
    let r = RegisterBuilder::default()
        .title("R".to_string())
        .doc(String::new())
        .repr(Repr::U16)
        .fields(fields)
        .build()
        .unwrap();
    generate_register(&r).unwrap()
}

#[test]
fn sample_write_then_read() {
    let l = sample();
    let mut w = l.default_write();
    l.set(&mut w, 0, Value::Integer(5));
    l.set(&mut w, 1, Value::Variant(1));
    l.set(&mut w, 2, Value::Boolean(true));
    assert_eq!(w.bits(), 0x7d);
    let mut cell = RegisterCell::new(Repr::U16, 0);
    cell.write(&l, &w);
    let r = cell.read(&l);
    assert_eq!(r.bits(), 0x7d);
    assert_eq!(l.get(&r, 0), Ok(Value::Integer(5)));
    assert_eq!(l.get(&r, 1), Ok(Value::Variant(1)));
    assert_eq!(l.get(&r, 2), Ok(Value::Boolean(true)));
}

#[test]
fn setters_chain() {
    let l = sample();
    let mut w = l.default_write();
    l.set(l.set(&mut w, 0, Value::Integer(3)), 2, Value::Boolean(true));
    assert_eq!(w.bits(), 0x43);
}

#[test]
fn integer_is_cut_to_its_field() {
    let l = sample();
    let mut w = WriteView::from_bits(0);
    l.set(&mut w, 0, Value::Integer(0xff));
    assert_eq!(w.bits(), 7);
}

#[test]
fn integer_is_read_as_its_declared_type() {
    let l = layout(vec![field(
        "wide",
        Access::ReadWrite,
        0,
        12,
        Format::Integer { repr: Repr::U8, flags: None },
    )]);
    let r = ReadView::from_bits(0x0abc);
    assert_eq!(l.get(&r, 0), Ok(Value::Integer(0xbc)));
}

#[test]
fn unknown_discriminant_is_an_error() {
    let l = sample();
    for raw in 0..8u32 {
        let r = ReadView::from_bits(raw << 3);
        let expected = match raw {
            0 => Ok(Value::Variant(0)),
            7 => Ok(Value::Variant(1)),
            _ => Err(DecodeError::UnknownDiscriminant),
        };
        assert_eq!(l.get(&r, 1), expected);
    }
}

#[test]
fn flag_set_rejects_undefined_bits() {
    let l = layout(vec![field(
        "layers",
        Access::ReadWrite,
        8,
        5,
        Format::Integer { repr: Repr::U16, flags: Some(0b10101) },
    )]);
    assert_eq!(l.get(&ReadView::from_bits(0b10001 << 8), 0), Ok(Value::Integer(0b10001)));
    assert_eq!(l.get(&ReadView::from_bits(0b00010 << 8), 0), Err(DecodeError::InvalidFlagBits));
}

#[test]
fn boolean_reads_any_nonzero_as_true() {
    let l = layout(vec![field(
        "b",
        Access::ReadWrite,
        2,
        2,
        Format::Boolean { quick_set_true: Some("on".to_string()), quick_set_false: None },
    )]);
    assert_eq!(l.get(&ReadView::from_bits(0b1000), 0), Ok(Value::Boolean(true)));
    assert_eq!(l.get(&ReadView::from_bits(0b0100), 0), Ok(Value::Boolean(true)));
    assert_eq!(l.get(&ReadView::from_bits(0b10011), 0), Ok(Value::Boolean(false)));
}

#[test]
fn round_trip_every_value() {
    let l = sample();
    for bits in [0u32, 0xffff, 0x1234, 0x7fff_ffff] {
        for x in 0..8u32 {
            let mut w = WriteView::from_bits(bits);
            l.set(&mut w, 0, Value::Integer(x));
            let r = ReadView::from_bits(w.bits());
            assert_eq!(l.get(&r, 0), Ok(Value::Integer(x)));
            assert_eq!(w.bits() & !7, bits & !7);
        }
        for k in 0..2usize {
            let mut w = WriteView::from_bits(bits);
            l.set(&mut w, 1, Value::Variant(k));
            assert_eq!(l.get(&ReadView::from_bits(w.bits()), 1), Ok(Value::Variant(k)));
            assert_eq!(w.bits() & !56, bits & !56);
        }
        for b in [false, true] {
            let mut w = WriteView::from_bits(bits);
            l.set(&mut w, 2, Value::Boolean(b));
            assert_eq!(l.get(&ReadView::from_bits(w.bits()), 2), Ok(Value::Boolean(b)));
            assert_eq!(w.bits() & !64, bits & !64);
        }
    }
}

#[test]
fn sample_masks_share_no_bit() {
    let l = sample();
    for i in 0..3 {
        for j in 0..3 {
            if i != j {
                assert_eq!(l.fields[i].mask & l.fields[j].mask, 0);
            }
        }
    }
}

#[test]
fn quick_setters_match_generic_setters() {
    let l = sample();
    for bits in 0..0x100u32 {
        let mut quick = WriteView::from_bits(bits);
        let mut generic = WriteView::from_bits(bits);
        l.quick_set_variant(&mut quick, 1, 1);
        l.set(&mut generic, 1, Value::Variant(1));
        assert_eq!(quick.bits(), generic.bits());

        let mut quick = WriteView::from_bits(bits);
        let mut generic = WriteView::from_bits(bits);
        l.quick_set_true(&mut quick, 2);
        l.set(&mut generic, 2, Value::Boolean(true));
        assert_eq!(quick.bits(), generic.bits());

        let mut quick = WriteView::from_bits(bits);
        let mut generic = WriteView::from_bits(bits);
        l.quick_set_false(&mut quick, 2);
        l.set(&mut generic, 2, Value::Boolean(false));
        assert_eq!(quick.bits(), generic.bits());
    }
}

#[test]
fn quick_set_true_on_wide_boolean_reads_as_true() {
    let l = layout(vec![
        field(
            "b",
            Access::ReadWrite,
            2,
            3,
            Format::Boolean { quick_set_true: Some("on".to_string()), quick_set_false: None },
        ),
        field("n", Access::ReadWrite, 5, 3, Format::Integer { repr: Repr::U8, flags: None }),
    ]);
    let mut quick = WriteView::from_bits(0b101_000_11);
    l.quick_set_true(&mut quick, 0);
    assert_eq!(quick.bits(), 0b101_111_11);
    let r = ReadView::from_bits(quick.bits());
    assert_eq!(l.get(&r, 0), Ok(Value::Boolean(true)));
    assert_eq!(l.get(&r, 1), Ok(Value::Integer(0b101)));
}

#[test]
fn quick_test_matches_generic_read() {
    let l = sample();
    for bits in 0..0x80u32 {
        let r = ReadView::from_bits(bits);
        for k in 0..2usize {
            assert_eq!(l.quick_get_variant(&r, 1, k), l.get(&r, 1) == Ok(Value::Variant(k)));
        }
    }
}

#[test]
fn update_keeps_fields_it_does_not_set() {
    let l = sample();
    let mut cell = RegisterCell::new(Repr::U16, 0x7d);
    let stored = cell.update(&l, |mut w: WriteView| {
        l.set(&mut w, 0, Value::Integer(2));
        w
    });
    assert_eq!(stored.bits(), 0x7a);
    assert_eq!(cell.read(&l).bits(), 0x7a);
}

#[test]
fn modify_sees_bits_before_update() {
    let l = sample();
    let mut cell = RegisterCell::new(Repr::U16, 0x45);
    let stored = cell.modify(&l, |r: ReadView, mut w: WriteView| {
        if let Ok(Value::Integer(x)) = l.get(&r, 0) {
            l.set(&mut w, 0, Value::Integer(x + 1));
        }
        w
    });
    assert_eq!(stored.bits(), 0x46);
    assert_eq!(cell.read(&l).bits(), 0x46);
}

#[test]
fn views_follow_access_modes() {
    let ro = layout(vec![field("a", Access::ReadOnly, 0, 4, Format::Integer {
        repr: Repr::U8,
        flags: None,
    })]);
    assert!(ro.has_read_view());
    assert!(!ro.has_write_view());
    assert!(!ro.has_modify());
    let wo = layout(vec![field("a", Access::WriteOnly, 0, 4, Format::Integer {
        repr: Repr::U8,
        flags: None,
    })]);
    assert!(!wo.has_read_view());
    assert!(wo.has_write_view());
    assert!(!wo.has_modify());
    let both = layout(vec![
        field("a", Access::WriteOnly, 0, 4, Format::Integer { repr: Repr::U8, flags: None }),
        field("b", Access::ReadOnly, 4, 4, Format::Integer { repr: Repr::U8, flags: None }),
    ]);
    assert!(both.has_read_view());
    assert!(both.has_write_view());
    assert!(both.has_modify());
}

#[test]
fn enumeration_variants_decode_by_discriminant() {
    let vs = vec![
        VariantBuilder::default().title("A".to_string()).doc(String::new()).build().unwrap(),
        VariantBuilder::default()
            .title("B".to_string())
            .doc(String::new())
            .value(Some(5))
            .build()
            .unwrap(),
        VariantBuilder::default().title("C".to_string()).doc(String::new()).build().unwrap(),
    ];
    let l = layout(vec![field(
        "e",
        Access::ReadWrite,
        4,
        3,
        Format::Enumeration { title: "E".to_string(), variants: vs },
    )]);
    assert_eq!(l.get(&ReadView::from_bits(0 << 4), 0), Ok(Value::Variant(0)));
    assert_eq!(l.get(&ReadView::from_bits(5 << 4), 0), Ok(Value::Variant(1)));
    assert_eq!(l.get(&ReadView::from_bits(6 << 4), 0), Ok(Value::Variant(2)));
    assert_eq!(l.get(&ReadView::from_bits(1 << 4), 0), Err(DecodeError::UnknownDiscriminant));
}

#[test]
fn plain_registers_store_values() {
    let mut rw = ReadWrite::new(0u16);
    rw.write(0x1234);
    assert_eq!(rw.read(), 0x1234);
    let ro = ReadOnly::new(7u8);
    assert_eq!(ro.read(), 7);
    let mut wo = WriteOnly::new(0u32);
    wo.write(9);
}

#[test]
fn update_cuts_result_to_register_width() {
    let r = RegisterBuilder::default()
        .title("Byte".to_string())
        .doc(String::new())
        .repr(Repr::U8)
        .fields(vec![field("n", Access::ReadWrite, 0, 8, Format::Integer { repr: Repr::U8, flags: None })])
        .build()
        .unwrap();
    let l = generate_register(&r).unwrap();
    let mut cell = RegisterCell::new(Repr::U8, 0x12);
    assert_eq!(cell.read(&l).bits(), 0x12);
    let stored = cell.update(&l, |_w: WriteView| WriteView::from_bits(0x1ab));
    assert_eq!(stored.bits(), 0xab);
    assert_eq!(cell.read(&l).bits(), 0xab);
    cell.write(&l, &WriteView::from_bits(0x34));
    assert_eq!(cell.read(&l).bits(), 0x34);
}

#[test]
fn word_register_keeps_all_bits() {
    let r = RegisterBuilder::default()
        .title("Word".to_string())
        .doc(String::new())
        .repr(Repr::U32)
        .fields(vec![field("n", Access::ReadWrite, 0, 32, Format::Integer { repr: Repr::U32, flags: None })])
        .build()
        .unwrap();
    let l = generate_register(&r).unwrap();
    let mut cell = RegisterCell::new(Repr::U32, 0);
    let mut w = l.default_write();
    l.set(&mut w, 0, Value::Integer(0xdead_beef));
    cell.write(&l, &w);
    assert_eq!(l.get(&cell.read(&l), 0), Ok(Value::Integer(0xdead_beef)));
}

#[test]
fn apply_update_starts_from_given_bits() {
    let l = sample();
    let r = l.apply_update(0x7d, |mut w: WriteView| {
        l.set(&mut w, 0, Value::Integer(2));
        w
    });
    assert_eq!(r.bits(), 0x7a);
    let same = l.apply_update(0x45, |w: WriteView| w);
    assert_eq!(same.bits(), 0x45);
    let cut = l.apply_update(0, |_w: WriteView| WriteView::from_bits(0x1_0045));
    assert_eq!(cut.bits(), 0x45);
}

#[test]
fn apply_modify_sees_given_bits() {
    let l = sample();
    let r = l.apply_modify(0x7d, |r: ReadView, mut w: WriteView| {
        assert_eq!(r.bits(), 0x7d);
        assert_eq!(w.bits(), 0x7d);
        l.set(&mut w, 2, Value::Boolean(false));
        w
    });
    assert_eq!(r.bits(), 0x3d);
}

#[test]
fn identity_update_keeps_register_bits() {
    let l = sample();
    let mut cell = RegisterCell::new(Repr::U16, 0xbeef);
    let stored = cell.update(&l, |w: WriteView| w);
    assert_eq!(stored.bits(), 0xbeef);
    assert_eq!(cell.read(&l).bits(), 0xbeef);
}
