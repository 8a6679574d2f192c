//! Extractors for multipart forms in `axum` that document themselves to
//! `aide`.
//!
//! [`MultipartRequestWrapper`] wraps a payload that `axum_typed_multipart`
//! parsed from a request and documents it as the request body of an
//! operation. [`FieldWrapper`] wraps a single field and describes itself by
//! the schema of its contents. Both add nothing of their own to what
//! `axum_typed_multipart` extracts: a value that was parsed stays as it is,
//! and so does a rejection.
//!
//! The contracts are stated over the outside values as they are; what is
//! taken on trust about `aide`, `schemars` and `serde_json` stands in
//! [`outside`].

pub mod field;
pub mod multipart;
pub mod outside;
pub mod request_body;

pub use field::FieldWrapper;
pub use multipart::MultipartRequestWrapper;
pub use request_body::BodyDescription;
