//! The description of a register: its fields, their placement, access mode
//! and value format.
use vstd::prelude::*;

verus! {

/// Which directions of access the hardware allows for a field.
#[derive(Debug, Clone, Copy, PartialEq, Eq, Structural)]
pub enum Access {
    ReadOnly,
    WriteOnly,
    ReadWrite,
}

impl Access {
    /// The field may be read.
    pub open spec fn readable(self) -> bool {
        !(self is WriteOnly)
    }

    /// The field may be written.
    pub open spec fn writable(self) -> bool {
        !(self is ReadOnly)
    }

    pub fn is_readable(&self) -> (r: bool)
        ensures
            r == self.readable(),
    {
        !matches!(self, Access::WriteOnly)
    }

    pub fn is_writable(&self) -> (r: bool)
        ensures
            r == self.writable(),
    {
        !matches!(self, Access::ReadOnly)
    }
}

/// The unsigned integer type that holds a register's bits, or that an
/// integer field is read as.
#[derive(Debug, Clone, Copy, PartialEq, Eq, Structural)]
pub enum Repr {
    U8,
    U16,
    U32,
}

impl Repr {
    pub open spec fn spec_width(self) -> u32 {
        match self {
            Repr::U8 => 8,
            Repr::U16 => 16,
            Repr::U32 => 32,
        }
    }

    /// The largest value of the type, which is also the mask of its bits.
    pub open spec fn spec_max(self) -> u32 {
        match self {
            Repr::U8 => 0xff,
            Repr::U16 => 0xffff,
            Repr::U32 => 0xffff_ffff,
        }
    }

    /// The number of bits of the type.
    #[verifier::when_used_as_spec(spec_width)]
    pub fn width(self) -> (r: u32)
        ensures
            r == self.spec_width(),
    {
        match self {
            Repr::U8 => 8,
            Repr::U16 => 16,
            Repr::U32 => 32,
        }
    }

    /// The largest value of the type.
    #[verifier::when_used_as_spec(spec_max)]
    pub fn max(self) -> (r: u32)
        ensures
            r == self.spec_max(),
    {
        match self {
            Repr::U8 => 0xff,
            Repr::U16 => 0xffff,
            Repr::U32 => 0xffff_ffff,
        }
    }
}

/// One named member of an enumeration field.
#[derive(Debug, Clone)]
pub struct Variant {
    pub title: String,
    pub doc: String,
    /// The discriminant, where it is given; otherwise it is one more than the
    /// previous variant's, and zero for the first.
    pub value: Option<u32>,
    /// Name of a test for this variant that bypasses decoding.
    pub quick_get: Option<String>,
    /// Name of a setter of this variant that bypasses encoding.
    pub quick_set: Option<String>,
}

/// How the bits of a field are read and written.
#[derive(Debug, Clone)]
pub enum Format {
    /// The bits as an unsigned integer of type `repr`. Where `flags` is given,
    /// the value is a set of flags and only the bits of `flags` may be set in
    /// it.
    Integer { repr: Repr, flags: Option<u32> },
    /// Any nonzero value reads as `true`.
    Boolean { quick_set_true: Option<String>, quick_set_false: Option<String> },
    /// A closed set of named values.
    Enumeration { title: String, variants: Vec<Variant> },
}

/// One named bit range of a register.
#[derive(Debug, Clone)]
pub struct Field {
    pub name: String,
    pub doc: String,
    pub access: Access,
    /// The lowest bit of the field.
    pub start: u32,
    /// The number of bits of the field.
    pub size: u32,
    pub format: Format,
}

/// A hardware register: a fixed-width word of bits split into fields.
#[derive(Debug, Clone)]
pub struct Register {
    pub title: String,
    pub doc: String,
    pub repr: Repr,
    /// The bits a write starts from.
    pub reset_value: u32,
    pub fields: Vec<Field>,
}

/// A register description that cannot be turned into accessors.
#[derive(Debug, Clone, Copy, PartialEq, Eq, Structural)]
pub enum SchemaError {
    /// A builder was asked to build before every required part was given.
    MissingRequiredField,
    /// The register has no field.
    EmptyFieldList,
    /// An enumeration field has no variant.
    EmptyEnumeration,
    /// A field is empty or does not fit in the register, or a discriminant
    /// does not fit in its field.
    FieldOutOfRange,
    /// Two fields share a bit.
    OverlappingFields,
    /// Two variants of an enumeration field have the same discriminant.
    DuplicateDiscriminant,
    /// The reset value has bits beyond the register's width.
    ResetValueOutOfRange,
}

/// Raw bits that do not stand for any value of a field.
#[derive(Debug, Clone, Copy, PartialEq, Eq, Structural)]
pub enum DecodeError {
    /// No variant of an enumeration has this discriminant.
    UnknownDiscriminant,
    /// A flag set has a bit set that is not one of its flags.
    InvalidFlagBits,
}

} // verus!
