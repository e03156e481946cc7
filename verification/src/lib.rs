//! Decoding of a JSON schema document (services, entities and their typed
//! elements) into a typed model, and rendering of SELECT requests as SQL text.

pub mod entities;
pub mod error;
pub mod json;
pub mod parse;
pub mod query;

pub use entities::{
    Definition, Definitions, Element, ElementKind, Entity, PrimitiveKind, PrimitiveKindString,
    Service,
};
pub use error::DeserializationError;
pub use json::{get_required_object, Json, JsonEntry, JsonNumber};
pub use query::{CQN, SELECT};
