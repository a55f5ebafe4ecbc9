//! A typed client binding for the Library of Congress catalog API.
//!
//! The crate builds correctly encoded request URLs from structured
//! parameter objects and models the loosely schematized JSON responses
//! with shape-tolerant value types. Every function here carries a
//! contract that pins its result down; the HTTP transport itself lives
//! outside the library and is handed fully built URLs.

pub mod attribute_models;
pub mod endpoints;
pub mod envelopes;
pub mod errors;
pub mod format_models;
pub mod json;
pub mod param_models;
pub mod resource_models;
pub mod response_models;
pub mod simple_builders;
pub mod text;

pub use format_models::Format;
pub use format_models::MediaType;
pub use response_models::ItemOrArray;
pub use response_models::StringOrArray;
