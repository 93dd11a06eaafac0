use gba_register_generator::interrupts::MasterEnable;
use gba_register_generator::schema::DecodeError;
use gba_register_generator::test_register::{
    TestEnum, TestRegister, TestRegisterRead, TestRegisterWrite,
};

#[test]
fn write_int_enum_bool_then_read_back() {
    let mut reg = TestRegister::new(0);
    let mut w = TestRegisterWrite::default();
    w.set_int_field(5).set_enum_field(TestEnum::TestTwo).set_bool_is_enabled(true);
    reg.write(&w);
    let r = reg.read();
    assert_eq!(r.bits(), 0b111_1101);
    assert_eq!(r.int_field(), 5);
    assert_eq!(r.enum_field(), Ok(TestEnum::TestTwo));
    assert!(r.bool_is_enabled());
    assert!(r.test_two());
    assert!(!r.test_one());
}

#[test]
fn bits_with_enum_field_zero_read_as_test_one() {
    let r = TestRegisterRead::from_bits(0x45);
    assert_eq!(r.int_field(), 5);
    assert_eq!(r.enum_field(), Ok(TestEnum::TestOne));
    assert!(r.bool_is_enabled());
    assert!(r.test_one());
}

#[test]
fn test_enum_discriminants() {
    assert_eq!(TestEnum::TestOne.bits(), 0);
    assert_eq!(TestEnum::TestTwo.bits(), 7);
}

#[test]
fn enum_field_rejects_unknown_bits() {
    for raw in 1..7u16 {
        let r = TestRegisterRead::from_bits(raw << 3);
        assert_eq!(r.enum_field(), Err(DecodeError::UnknownDiscriminant));
        assert!(!r.test_one());
        assert!(!r.test_two());
    }
}

#[test]
fn quick_setters_match_setters() {
    for bits in 0..0x100u16 {
        let mut a = TestRegisterWrite::from_bits(bits);
        let mut b = TestRegisterWrite::from_bits(bits);
        a.set_test_one();
        b.set_enum_field(TestEnum::TestOne);
        assert_eq!(a.bits(), b.bits());
        a.set_test_two();
        b.set_enum_field(TestEnum::TestTwo);
        assert_eq!(a.bits(), b.bits());
        a.set_bool_enabled();
        b.set_bool_is_enabled(true);
        assert_eq!(a.bits(), b.bits());
        a.set_bool_disabled();
        b.set_bool_is_enabled(false);
        assert_eq!(a.bits(), b.bits());
    }
}

#[test]
fn quick_tests_match_enum_field() {
    for bits in 0..0x80u16 {
        let r = TestRegisterRead::from_bits(bits);
        assert_eq!(r.test_one(), r.enum_field() == Ok(TestEnum::TestOne));
        assert_eq!(r.test_two(), r.enum_field() == Ok(TestEnum::TestTwo));
    }
}

#[test]
fn set_int_field_keeps_other_bits() {
    let mut w = TestRegisterWrite::from_bits(0xfff8);
    w.set_int_field(0xff);
    assert_eq!(w.bits(), 0xffff);
    w.set_int_field(2);
    assert_eq!(w.bits(), 0xfffa);
}

#[test]
fn register_update_and_modify() {
    let mut reg = TestRegister::new(0x7d);
    let stored = reg.update(|mut w: TestRegisterWrite| {
        w.set_bool_is_enabled(false);
        w
    });
    assert_eq!(stored.bits(), 0x3d);
    assert_eq!(reg.read().bits(), 0x3d);
    let stored = reg.modify(|r: TestRegisterRead, mut w: TestRegisterWrite| {
        if r.test_two() {
            w.set_test_one();
        }
        w
    });
    assert_eq!(stored.bits(), 0x05);
    assert_eq!(reg.read().int_field(), 5);
    assert_eq!(reg.read().enum_field(), Ok(TestEnum::TestOne));
}

#[test]
fn master_enable_values_differ() {
    assert_ne!(MasterEnable::InterruptsDisabled, MasterEnable::InterruptsEnabled);
}

#[test]
fn apply_steps_start_from_given_bits() {
    let w = TestRegister::apply_update(0x7d, |mut w: TestRegisterWrite| {
        w.set_int_field(1);
        w
    });
    assert_eq!(w.bits(), 0x79);
    let w = TestRegister::apply_modify(0x45, |r: TestRegisterRead, mut w: TestRegisterWrite| {
        w.set_int_field(r.int_field() + 1);
        w
    });
    assert_eq!(w.bits(), 0x46);
    let reg = TestRegister::new(0x1234);
    assert_eq!(reg.read().bits(), 0x1234);
}
