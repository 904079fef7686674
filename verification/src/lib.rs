//! Descriptions for enumerations: two small capabilities that hand out static
//! text for a value, and the generator that builds an implementation of either
//! from an enumeration whose variants carry `description` annotations.
//!
//! The generator goes from a [`model::Declaration`] to an [`model::Output`].
//! What the parser says of an argument list is a [`reading::Reading`]; given
//! the readings, the output is fixed by the spec functions in [`branch`] and
//! [`expand`], and the relations between them are proved in [`laws`].

pub mod branch;
pub mod capability;
pub mod expand;
pub mod laws;
pub mod model;
pub mod reading;
pub mod render;
pub mod syntax;

pub use capability::Description;
pub use capability::OptionalDescription;
pub use expand::derive_description;
pub use expand::derive_optional_description;
