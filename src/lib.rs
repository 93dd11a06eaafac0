//! Memory-mapped hardware registers described as data.
//!
//! A [`schema::Register`] describes the bit layout, access mode and value
//! format of every field of a register. [`layout::generate_register`] checks
//! such a description once and yields a [`layout::RegisterLayout`], through
//! which read views and write views of raw register bits are decoded and
//! encoded, field by field.
pub mod schema;
pub mod builder;
pub mod layout;
pub mod codec;
pub mod view;
pub mod cell;
pub mod test_register;
pub mod interrupts;
