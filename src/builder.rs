//! Builders of register descriptions: each part is given by a setter, and
//! `build` fails while a required part is missing.
use vstd::prelude::*;
use crate::schema::{Access, Field, Format, Register, Repr, SchemaError, Variant};

verus! {

/// Builds a [`Variant`]; the title and doc are required.
pub struct VariantBuilder {
    pub title: Option<String>,
    pub doc: Option<String>,
    pub value: Option<u32>,
    pub quick_get: Option<String>,
    pub quick_set: Option<String>,
}

impl Default for VariantBuilder {
    fn default() -> (r: VariantBuilder)
        ensures
            r.title is None,
            r.doc is None,
            r.value is None,
            r.quick_get is None,
            r.quick_set is None,
    {
        VariantBuilder { title: None, doc: None, value: None, quick_get: None, quick_set: None }
    }
}

impl VariantBuilder {
    pub fn title(self, title: String) -> (r: VariantBuilder)
        ensures
            r == (VariantBuilder { title: Some(title), ..self }),
    {
        VariantBuilder { title: Some(title), ..self }
    }

    pub fn doc(self, doc: String) -> (r: VariantBuilder)
        ensures
            r == (VariantBuilder { doc: Some(doc), ..self }),
    {
        VariantBuilder { doc: Some(doc), ..self }
    }

    pub fn value(self, value: Option<u32>) -> (r: VariantBuilder)
        ensures
            r == (VariantBuilder { value, ..self }),
    {
        VariantBuilder { value, ..self }
    }

    pub fn quick_get(self, quick_get: Option<String>) -> (r: VariantBuilder)
        ensures
            r == (VariantBuilder { quick_get, ..self }),
    {
        VariantBuilder { quick_get, ..self }
    }

    pub fn quick_set(self, quick_set: Option<String>) -> (r: VariantBuilder)
        ensures
            r == (VariantBuilder { quick_set, ..self }),
    {
        VariantBuilder { quick_set, ..self }
    }

    pub fn build(self) -> (r: Result<Variant, SchemaError>)
        ensures
            match r {
                Ok(v) => self.title == Some(v.title) && self.doc == Some(v.doc) && v.value
                    == self.value && v.quick_get == self.quick_get && v.quick_set
                    == self.quick_set,
                Err(e) => e == SchemaError::MissingRequiredField && (self.title is None
                    || self.doc is None),
            },
    {
        match (self.title, self.doc) {
            (Some(title), Some(doc)) => Ok(
                Variant {
                    title,
                    doc,
                    value: self.value,
                    quick_get: self.quick_get,
                    quick_set: self.quick_set,
                },
            ),
            _ => Err(SchemaError::MissingRequiredField),
        }
    }
}

/// Builds a [`Field`]; every part is required.
pub struct FieldBuilder {
    pub name: Option<String>,
    pub doc: Option<String>,
    pub access: Option<Access>,
    pub start: Option<u32>,
    pub size: Option<u32>,
    pub format: Option<Format>,
}

impl Default for FieldBuilder {
    fn default() -> (r: FieldBuilder)
        ensures
            r.name is None,
            r.doc is None,
            r.access is None,
            r.start is None,
            r.size is None,
            r.format is None,
    {
        FieldBuilder { name: None, doc: None, access: None, start: None, size: None, format: None }
    }
}

impl FieldBuilder {
    pub fn name(self, name: String) -> (r: FieldBuilder)
        ensures
            r == (FieldBuilder { name: Some(name), ..self }),
    {
        FieldBuilder { name: Some(name), ..self }
    }

    pub fn doc(self, doc: String) -> (r: FieldBuilder)
        ensures
            r == (FieldBuilder { doc: Some(doc), ..self }),
    {
        FieldBuilder { doc: Some(doc), ..self }
    }

    pub fn access(self, access: Access) -> (r: FieldBuilder)
        ensures
            r == (FieldBuilder { access: Some(access), ..self }),
    {
        FieldBuilder { access: Some(access), ..self }
    }

    pub fn start(self, start: u32) -> (r: FieldBuilder)
        ensures
            r == (FieldBuilder { start: Some(start), ..self }),
    {
        FieldBuilder { start: Some(start), ..self }
    }

    pub fn size(self, size: u32) -> (r: FieldBuilder)
        ensures
            r == (FieldBuilder { size: Some(size), ..self }),
    {
        FieldBuilder { size: Some(size), ..self }
    }

    pub fn format(self, format: Format) -> (r: FieldBuilder)
        ensures
            r == (FieldBuilder { format: Some(format), ..self }),
    {
        FieldBuilder { format: Some(format), ..self }
    }

    pub fn build(self) -> (r: Result<Field, SchemaError>)
        ensures
            match r {
                Ok(f) => self.name == Some(f.name) && self.doc == Some(f.doc) && self.access
                    == Some(f.access) && self.start == Some(f.start) && self.size == Some(f.size)
                    && self.format == Some(f.format),
                Err(e) => e == SchemaError::MissingRequiredField && (self.name is None
                    || self.doc is None || self.access is None || self.start is None
                    || self.size is None || self.format is None),
            },
    {
        match (self.name, self.doc, self.access, self.start, self.size, self.format) {
            (Some(name), Some(doc), Some(access), Some(start), Some(size), Some(format)) => Ok(
                Field { name, doc, access, start, size, format },
            ),
            _ => Err(SchemaError::MissingRequiredField),
        }
    }
}

/// Builds a [`Register`]; the reset value is zero unless given, and every
/// other part is required.
pub struct RegisterBuilder {
    pub title: Option<String>,
    pub doc: Option<String>,
    pub repr: Option<Repr>,
    pub reset_value: Option<u32>,
    pub fields: Option<Vec<Field>>,
}

impl Default for RegisterBuilder {
    fn default() -> (r: RegisterBuilder)
        ensures
            r.title is None,
            r.doc is None,
            r.repr is None,
            r.reset_value is None,
            r.fields is None,
    {
        RegisterBuilder { title: None, doc: None, repr: None, reset_value: None, fields: None }
    }
}

impl RegisterBuilder {
    pub fn title(self, title: String) -> (r: RegisterBuilder)
        ensures
            r == (RegisterBuilder { title: Some(title), ..self }),
    {
        RegisterBuilder { title: Some(title), ..self }
    }

    pub fn doc(self, doc: String) -> (r: RegisterBuilder)
        ensures
            r == (RegisterBuilder { doc: Some(doc), ..self }),
    {
        RegisterBuilder { doc: Some(doc), ..self }
    }

    pub fn repr(self, repr: Repr) -> (r: RegisterBuilder)
        ensures
            r == (RegisterBuilder { repr: Some(repr), ..self }),
    {
        RegisterBuilder { repr: Some(repr), ..self }
    }

    pub fn reset_value(self, reset_value: u32) -> (r: RegisterBuilder)
        ensures
            r == (RegisterBuilder { reset_value: Some(reset_value), ..self }),
    {
        RegisterBuilder { reset_value: Some(reset_value), ..self }
    }

    pub fn fields(self, fields: Vec<Field>) -> (r: RegisterBuilder)
        ensures
            r == (RegisterBuilder { fields: Some(fields), ..self }),
    {
        RegisterBuilder { fields: Some(fields), ..self }
    }

    pub fn build(self) -> (r: Result<Register, SchemaError>)
        ensures
            match r {
                Ok(reg) => self.title == Some(reg.title) && self.doc == Some(reg.doc) && self.repr
                    == Some(reg.repr) && self.fields == Some(reg.fields) && reg.reset_value == (
                match self.reset_value {
                    Some(v) => v,
                    None => 0,
                }),
                Err(e) => e == SchemaError::MissingRequiredField && (self.title is None
                    || self.doc is None || self.repr is None || self.fields is None),
            },
    {
        let reset_value = match self.reset_value {
            Some(v) => v,
            None => 0,
        };
        match (self.title, self.doc, self.repr, self.fields) {
            (Some(title), Some(doc), Some(repr), Some(fields)) => Ok(
                Register { title, doc, repr, reset_value, fields },
            ),
            _ => Err(SchemaError::MissingRequiredField),
        }
    }
}

} // verus!
