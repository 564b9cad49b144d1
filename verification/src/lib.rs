//! A tri-state optional value: a field of a record can be missing from the
//! input altogether, present with an explicit null, or present with a value.
//!
//! The [`field::Field`] type carries that distinction together with a full
//! combinator surface. The [`codec`] module states the conversion contract a
//! serialization layer uses to read and write such a field. The [`generator`]
//! module transforms a record definition so that every field of this type is
//! annotated with the two directives the serialization layer needs: omit the
//! key when the field is missing, and fall back to missing when the input
//! omits the key.

pub mod codec;
pub mod errors;
pub mod field;
pub mod generator;

