//! Typed model of the native query language of a columnar analytics engine,
//! together with the codec that maps every query and response shape to and
//! from its JSON wire form.

pub mod client;
pub mod codec;
pub mod error;
pub mod json;
pub mod query;
pub mod string_map;
pub mod text;
