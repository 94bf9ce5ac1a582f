//! Client-side core of a course-query web API client.
//!
//! The library models the data that flows between a caller and the upstream
//! course-query service: the typed course records, the filter options that a
//! search sends out, the field-by-field decoding of the service's irregular
//! wire values, the merging of duplicate search rows, and the client
//! configuration. Everything here is verified; the HTTP transport and the
//! JSON tokenizer live outside and hand this library plain values.

pub mod client;
pub mod decode;
pub mod encode;
pub mod merge;
pub mod model;
pub mod numbers;
pub mod strings;
pub mod wire;

pub use model::Language;
pub use model::QueryError;
