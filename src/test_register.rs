//! The accessors of a sample sixteen-bit register, written out for its
//! description: an integer field in bits 0 to 2, an enumeration field in
//! bits 3 to 5, and a boolean field in bit 6.
use vstd::prelude::*;
use vcell::VolatileCell;
use crate::builder::{FieldBuilder, RegisterBuilder, VariantBuilder};
use crate::cell::{new_u16, store_u16, stored_u16};
use crate::schema::{Access, DecodeError, Format, Register, Repr, SchemaError};

verus! {

/// The values of the enumeration field.
#[derive(Debug, Clone, Copy, PartialEq, Eq, Structural)]
pub enum TestEnum {
    TestOne,
    TestTwo,
}

impl TestEnum {
    pub open spec fn spec_bits(self) -> u16 {
        match self {
            TestEnum::TestOne => 0,
            TestEnum::TestTwo => 7,
        }
    }

    /// The discriminant of the value.
    #[verifier::when_used_as_spec(spec_bits)]
    pub fn bits(self) -> (r: u16)
        ensures
            r == self.spec_bits(),
    {
        match self {
            TestEnum::TestOne => 0,
            TestEnum::TestTwo => 7,
        }
    }
}

const INT_MASK: u16 = 7;

const ENUM_MASK: u16 = 56;

const BOOL_MASK: u16 = 64;

/// What the integer field reads as in `bits`.
pub open spec fn int_field_of(bits: u16) -> u8 {
    ((bits & 7) >> 0u16) as u8
}

/// What the enumeration field reads as in `bits`.
pub open spec fn enum_field_of(bits: u16) -> Result<TestEnum, DecodeError> {
    let b = (bits & 56) >> 3u16;
    if b == 0 {
        Ok(TestEnum::TestOne)
    } else if b == 7 {
        Ok(TestEnum::TestTwo)
    } else {
        Err(DecodeError::UnknownDiscriminant)
    }
}

/// What the boolean field reads as in `bits`.
pub open spec fn bool_field_of(bits: u16) -> bool {
    (bits & 64) >> 6u16 != 0
}

/// `bits` with the integer field set to `v`.
pub open spec fn with_int_field(bits: u16, v: u8) -> u16 {
    (bits & !7u16) | (((v as u16) << 0u16) & 7)
}

/// `bits` with the enumeration field set to `v`.
pub open spec fn with_enum_field(bits: u16, v: TestEnum) -> u16 {
    (bits & !56u16) | ((v.spec_bits() << 3u16) & 56)
}

/// `bits` with the boolean field set to `v`.
pub open spec fn with_bool_field(bits: u16, v: bool) -> u16 {
    (bits & !64u16) | (((if v {
        1u16
    } else {
        0u16
    }) << 6u16) & 64)
}

/// The register.
pub struct TestRegister {
    value: VolatileCell<u16>,
}

/// A snapshot of the register's bits.
pub struct TestRegisterRead {
    value: u16,
}

/// Bits to be stored in the register.
pub struct TestRegisterWrite {
    value: u16,
}

impl View for TestRegisterRead {
    type V = u16;

    closed spec fn view(&self) -> u16 {
        self.value
    }
}

impl View for TestRegisterWrite {
    type V = u16;

    closed spec fn view(&self) -> u16 {
        self.value
    }
}

impl TestRegisterRead {
    pub fn from_bits(value: u16) -> (r: TestRegisterRead)
        ensures
            r@ == value,
    {
        TestRegisterRead { value }
    }

    /// The raw bits of the snapshot.
    pub fn bits(&self) -> (r: u16)
        ensures
            r == self@,
    {
        self.value
    }

    /// A field that represents an integer.
    pub fn int_field(&self) -> (r: u8)
        ensures
            r == int_field_of(self@),
    {
        ((self.value & INT_MASK) >> 0u16) as u8
    }

    /// A field that is an enum.
    pub fn enum_field(&self) -> (r: Result<TestEnum, DecodeError>)
        ensures
            r == enum_field_of(self@),
    {
        let b = (self.value & ENUM_MASK) >> 3u16;
        if b == TestEnum::TestOne.bits() {
            Ok(TestEnum::TestOne)
        } else if b == TestEnum::TestTwo.bits() {
            Ok(TestEnum::TestTwo)
        } else {
            Err(DecodeError::UnknownDiscriminant)
        }
    }

    /// A basic field that is a flag.
    pub fn bool_is_enabled(&self) -> (r: bool)
        ensures
            r == bool_field_of(self@),
    {
        ((self.value & BOOL_MASK) >> 6u16) != 0
    }

    /// Whether the enumeration field holds `TestOne`.
    pub fn test_one(&self) -> (r: bool)
        ensures
            r == ((self@ & 56) >> 3u16 == TestEnum::TestOne.spec_bits()),
            r == (enum_field_of(self@) == Ok::<TestEnum, DecodeError>(TestEnum::TestOne)),
    {
        TestEnum::TestOne.bits() == ((self.value & ENUM_MASK) >> 3u16)
    }

    /// Whether the enumeration field holds `TestTwo`.
    pub fn test_two(&self) -> (r: bool)
        ensures
            r == ((self@ & 56) >> 3u16 == TestEnum::TestTwo.spec_bits()),
            r == (enum_field_of(self@) == Ok::<TestEnum, DecodeError>(TestEnum::TestTwo)),
    {
        TestEnum::TestTwo.bits() == ((self.value & ENUM_MASK) >> 3u16)
    }
}

impl Default for TestRegisterWrite {
    /// Starts from the reset value, zero.
    fn default() -> (r: TestRegisterWrite)
        ensures
            r@ == 0,
    {
        TestRegisterWrite { value: 0 }
    }
}

impl TestRegisterWrite {
    pub fn from_bits(value: u16) -> (r: TestRegisterWrite)
        ensures
            r@ == value,
    {
        TestRegisterWrite { value }
    }

    /// The raw bits built so far.
    pub fn bits(&self) -> (r: u16)
        ensures
            r == self@,
    {
        self.value
    }

    /// A field that represents an integer. Values of more than three bits
    /// are cut to their low three bits.
    pub fn set_int_field(&mut self, tt: u8) -> (r: &mut TestRegisterWrite)
        ensures
            r@ == with_int_field(old(self)@, tt),
            tt < 8 ==> int_field_of(r@) == tt,
            enum_field_of(r@) == enum_field_of(old(self)@),
            bool_field_of(r@) == bool_field_of(old(self)@),
            *final(self) == *final(r),
    {
        let old_value = self.value;
        self.value = self.value & !INT_MASK;
        self.value = self.value | (((tt as u16) << 0u16) & INT_MASK);
        proof {
            let v = self.value;
            let t = tt as u16;
            assert(v == (old_value & !7u16) | ((t << 0u16) & 7) ==> {
                &&& (t < 8 ==> ((v & 7) >> 0u16) == t)
                &&& (v & 56) >> 3u16 == (old_value & 56) >> 3u16
                &&& (v & 64) >> 6u16 == (old_value & 64) >> 6u16
            }) by (bit_vector);
        }
        self
    }

    /// A field that is an enum.
    pub fn set_enum_field(&mut self, tt: TestEnum) -> (r: &mut TestRegisterWrite)
        ensures
            r@ == with_enum_field(old(self)@, tt),
            enum_field_of(r@) == Ok::<TestEnum, DecodeError>(tt),
            int_field_of(r@) == int_field_of(old(self)@),
            bool_field_of(r@) == bool_field_of(old(self)@),
            *final(self) == *final(r),
    {
        let old_value = self.value;
        let d = tt.bits();
        self.value = self.value & !ENUM_MASK;
        self.value = self.value | ((d << 3u16) & ENUM_MASK);
        proof {
            let v = self.value;
            assert(v == (old_value & !56u16) | ((d << 3u16) & 56) && (d == 0 || d == 7) ==> {
                &&& (v & 56) >> 3u16 == d
                &&& (v & 7) == (old_value & 7)
                &&& (v & 64) >> 6u16 == (old_value & 64) >> 6u16
            }) by (bit_vector);
        }
        self
    }

    /// A basic field that is a flag.
    pub fn set_bool_is_enabled(&mut self, tt: bool) -> (r: &mut TestRegisterWrite)
        ensures
            r@ == with_bool_field(old(self)@, tt),
            bool_field_of(r@) == tt,
            int_field_of(r@) == int_field_of(old(self)@),
            enum_field_of(r@) == enum_field_of(old(self)@),
            *final(self) == *final(r),
    {
        let old_value = self.value;
        let b: u16 = if tt {
            1
        } else {
            0
        };
        self.value = self.value & !BOOL_MASK;
        self.value = self.value | ((b << 6u16) & BOOL_MASK);
        proof {
            let v = self.value;
            assert(v == (old_value & !64u16) | ((b << 6u16) & 64) && (b == 0 || b == 1) ==> {
                &&& (v & 64) >> 6u16 == b
                &&& (v & 7) == (old_value & 7)
                &&& (v & 56) >> 3u16 == (old_value & 56) >> 3u16
            }) by (bit_vector);
        }
        self
    }

    /// Sets the enumeration field to `TestOne`, as `set_enum_field` does.
    pub fn set_test_one(&mut self) -> (r: &mut TestRegisterWrite)
        ensures
            r@ == with_enum_field(old(self)@, TestEnum::TestOne),
            *final(self) == *final(r),
    {
        self.value = self.value & !ENUM_MASK;
        self.value = self.value | ((TestEnum::TestOne.bits() << 3u16) & ENUM_MASK);
        self
    }

    /// Sets the enumeration field to `TestTwo`, as `set_enum_field` does.
    pub fn set_test_two(&mut self) -> (r: &mut TestRegisterWrite)
        ensures
            r@ == with_enum_field(old(self)@, TestEnum::TestTwo),
            *final(self) == *final(r),
    {
        self.value = self.value & !ENUM_MASK;
        self.value = self.value | ((TestEnum::TestTwo.bits() << 3u16) & ENUM_MASK);
        self
    }

    /// Sets the boolean field, as `set_bool_is_enabled(true)` does.
    pub fn set_bool_enabled(&mut self) -> (r: &mut TestRegisterWrite)
        ensures
            r@ == old(self)@ | 64,
            r@ == with_bool_field(old(self)@, true),
            *final(self) == *final(r),
    {
        let old_value = self.value;
        self.value = self.value | BOOL_MASK;
        assert(old_value | 64u16 == (old_value & !64u16) | ((1u16 << 6u16) & 64)) by (bit_vector);
        self
    }

    /// Clears the boolean field, as `set_bool_is_enabled(false)` does.
    pub fn set_bool_disabled(&mut self) -> (r: &mut TestRegisterWrite)
        ensures
            r@ == old(self)@ & !64u16,
            r@ == with_bool_field(old(self)@, false),
            *final(self) == *final(r),
    {
        let old_value = self.value;
        self.value = self.value & !BOOL_MASK;
        assert(old_value & !64u16 == (old_value & !64u16) | ((0u16 << 6u16) & 64)) by (bit_vector);
        self
    }
}

impl TestRegister {
    /// The bits last stored in the register.
    pub closed spec fn stored(&self) -> u16 {
        stored_u16(self.value)
    }

    /// A register held in memory, starting at `bits`.
    pub fn new(bits: u16) -> (r: TestRegister)
        ensures
            r.stored() == bits,
    {
        TestRegister { value: new_u16(bits) }
    }

    /// Takes a snapshot of the register's bits.
    pub fn read(&self) -> TestRegisterRead {
        TestRegisterRead { value: self.value.get() }
    }

    /// Writes a new value to the register.
    pub fn write(&mut self, write: &TestRegisterWrite) -> (r: &mut TestRegister)
        ensures
            r.stored() == write@,
            *final(self) == *final(r),
    {
        store_u16(&mut self.value, write.value);
        self
    }

    /// The update step of the register whose bits are `current`: hands `f`
    /// a write view of `current`.
    pub fn apply_update<F: FnOnce(TestRegisterWrite) -> TestRegisterWrite>(current: u16, f: F) -> (r:
        TestRegisterWrite)
        requires
            forall|w: TestRegisterWrite| w@ == current ==> f.requires((w,)),
        ensures
            exists|w: TestRegisterWrite| w@ == current && f.ensures((w,), r),
    {
        let w = TestRegisterWrite { value: current };
        assert(w@ == current);
        f(w)
    }

    /// The modification step of the register whose bits are `current`:
    /// hands `f` a read view and a write view of `current`.
    pub fn apply_modify<F: FnOnce(TestRegisterRead, TestRegisterWrite) -> TestRegisterWrite>(
        current: u16,
        f: F,
    ) -> (r: TestRegisterWrite)
        requires
            forall|rv: TestRegisterRead, wv: TestRegisterWrite|
                rv@ == current && wv@ == current ==> f.requires((rv, wv)),
        ensures
            exists|rv: TestRegisterRead, wv: TestRegisterWrite|
                rv@ == current && wv@ == current && f.ensures((rv, wv), r),
    {
        let rv = TestRegisterRead { value: current };
        let wv = TestRegisterWrite { value: current };
        assert(rv@ == current && wv@ == current);
        f(rv, wv)
    }

    /// Updates only certain fields of the register, keeping other fields
    /// unchanged: the loaded bits go through `apply_update`. Returns what was
    /// stored.
    pub fn update<F: FnOnce(TestRegisterWrite) -> TestRegisterWrite>(&mut self, f: F) -> (r:
        TestRegisterWrite)
        requires
            forall|w: TestRegisterWrite| f.requires((w,)),
        ensures
            exists|w: TestRegisterWrite| f.ensures((w,), r),
            final(self).stored() == r@,
    {
        let t = self.value.get();
        let next = TestRegister::apply_update(t, f);
        store_u16(&mut self.value, next.value);
        next
    }

    /// Combines a read and an update: the loaded bits go through
    /// `apply_modify`. Returns what was stored.
    pub fn modify<F: FnOnce(TestRegisterRead, TestRegisterWrite) -> TestRegisterWrite>(
        &mut self,
        f: F,
    ) -> (r: TestRegisterWrite)
        requires
            forall|rv: TestRegisterRead, wv: TestRegisterWrite| rv@ == wv@ ==> f.requires((rv, wv)),
        ensures
            exists|rv: TestRegisterRead, wv: TestRegisterWrite| rv@ == wv@ && f.ensures((rv, wv), r),
            final(self).stored() == r@,
    {
        let t = self.value.get();
        let next = TestRegister::apply_modify(t, f);
        store_u16(&mut self.value, next.value);
        next
    }
}

} // verus!

verus! {

/// The description that the accessors above were written for.
pub fn test_register_schema() -> (r: Result<Register, SchemaError>)
    ensures
        match r {
            Ok(reg) => {
                &&& reg.repr == Repr::U16
                &&& reg.reset_value == 0
                &&& reg.fields@.len() == 3
                &&& reg.fields@[0].start == 0 && reg.fields@[0].size == 3
                &&& reg.fields@[0].access == Access::ReadWrite
                &&& reg.fields@[0].format == Format::Integer { repr: Repr::U8, flags: None }
                &&& reg.fields@[1].start == 3 && reg.fields@[1].size == 3
                &&& reg.fields@[1].access == Access::ReadWrite
                &&& reg.fields@[1].format is Enumeration
                &&& reg.fields@[1].format->variants@.len() == 2
                &&& reg.fields@[1].format->variants@[0].value is None
                &&& reg.fields@[1].format->variants@[1].value == Some(7u32)
                &&& reg.fields@[2].start == 6 && reg.fields@[2].size == 1
                &&& reg.fields@[2].access == Access::ReadWrite
                &&& reg.fields@[2].format is Boolean
            },
            Err(_) => false,
        },
{
    let one = VariantBuilder::default().title("TestOne".to_string()).doc(
        "Foo Is a really cool bar.".to_string(),
    ).quick_get(Some("test_one".to_string())).quick_set(Some("set_test_one".to_string())).build();
    let two = VariantBuilder::default().title("TestTwo".to_string()).doc("BORING".to_string()).quick_get(
        Some("test_two".to_string()),
    ).quick_set(Some("set_test_two".to_string())).value(Some(7)).build();
    let (one, two) = match (one, two) {
        (Ok(a), Ok(b)) => (a, b),
        _ => {
            return Err(SchemaError::MissingRequiredField);
        },
    };
    let int_field = FieldBuilder::default().name("int_field".to_string()).doc(
        "A field that represents an integer.".to_string(),
    ).start(0).size(3).format(Format::Integer { repr: Repr::U8, flags: None }).access(
        Access::ReadWrite,
    ).build();
    let enum_field = FieldBuilder::default().name("enum_field".to_string()).doc(
        "A field that is an enum".to_string(),
    ).start(3).size(3).access(Access::ReadWrite).format(
        Format::Enumeration { title: "TestEnum".to_string(), variants: vec![one, two] },
    ).build();
    let bool_field = FieldBuilder::default().name("bool_is_enabled".to_string()).doc(
        "A basic field that is a flag".to_string(),
    ).start(6).size(1).access(Access::ReadWrite).format(
        Format::Boolean {
            quick_set_true: Some("set_bool_enabled".to_string()),
            quick_set_false: Some("set_bool_disabled".to_string()),
        },
    ).build();
    let fields = match (int_field, enum_field, bool_field) {
        (Ok(a), Ok(b), Ok(c)) => vec![a, b, c],
        _ => {
            return Err(SchemaError::MissingRequiredField);
        },
    };
    RegisterBuilder::default().title("TestRegister".to_string()).doc(
        "A register for testing".to_string(),
    ).repr(Repr::U16).fields(fields).build()
}

} // verus!
