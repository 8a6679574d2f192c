//! The extractor for a single multipart field.

use axum_typed_multipart::TypedMultipartError;
use schemars::Schema;
use std::borrow::Cow;
use vstd::prelude::*;

verus! {

/// One multipart field with contents of type `T`, as `axum_typed_multipart`
/// read it, which describes itself by the schema of its contents.
#[derive(Debug)]
#[verifier::reject_recursive_types(T)]
pub struct FieldWrapper<T>(pub axum_typed_multipart::FieldData<T>);

impl<T> core::ops::Deref for FieldWrapper<T> {
    type Target = axum_typed_multipart::FieldData<T>;

    fn deref(&self) -> (inner: &axum_typed_multipart::FieldData<T>)
        ensures
            *inner == self.0,
    {
        &self.0
    }
}

impl<T> FieldWrapper<T> {
    /// Wraps what the field parser made of a field: a field that was read
    /// stays the field it is, and a rejection stays the rejection it is.
    pub fn from_extracted(
        extracted: Result<axum_typed_multipart::FieldData<T>, TypedMultipartError>,
    ) -> (wrapped: Result<FieldWrapper<T>, TypedMultipartError>)
        ensures
            wrapped == match extracted {
                Ok(field) => Ok(FieldWrapper(field)),
                Err(rejection) => Err(rejection),
            },
    {
        match extracted {
            Ok(field) => Ok(FieldWrapper(field)),
            Err(rejection) => Err(rejection),
        }
    }

    /// The name under which the wrapper's schema is known: the name of the
    /// schema of its contents, with nothing added.
    pub fn schema_name(contents_name: Cow<'static, str>) -> (name: Cow<'static, str>)
        ensures
            name == contents_name,
    {
        contents_name
    }

    /// The wrapper's schema: the schema of its contents, with nothing added.
    pub fn json_schema(contents_schema: Schema) -> (schema: Schema)
        ensures
            schema == contents_schema,
    {
        contents_schema
    }
}

} // verus!
