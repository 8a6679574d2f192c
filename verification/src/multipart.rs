//! The extractor for a whole multipart request.

use crate::outside::{
    into_request_body, operation_with_body, request_body_of, resolved_schema, schema_get,
    schema_property, value_text,
};
use crate::request_body::{optional_text, BodyDescription, BodyDescriptionView};
use aide::generate::GenContext;
use aide::openapi::Operation;
use aide::operation::set_body;
use axum_typed_multipart::TypedMultipartError;
use schemars::Schema;
use vstd::prelude::*;

verus! {

/// The description that a schema gives of itself: the text of its
/// `description` property where that is a string, and nothing where the
/// property is missing or holds anything else.
pub open spec fn description_of(schema: Schema) -> Option<Seq<char>> {
    match schema_property(schema, "description"@) {
        Some(value) => value_text(value),
        None => None,
    }
}

/// Reads the description that a schema gives of itself.
pub fn schema_description(schema: &Schema) -> (description: Option<String>)
    ensures
        optional_text(description) == description_of(*schema),
{
    match schema_get(schema, "description") {
        Some(value) => match value.as_str() {
            Some(text) => Some(text.to_string()),
            None => None,
        },
        None => None,
    }
}

/// The body that documents a multipart payload with the given schema: the
/// multipart body of that schema, described by what the schema says of itself
/// once the context has resolved it.
pub open spec fn documented_body(ctx: GenContext, schema: Schema) -> BodyDescriptionView {
    BodyDescription::multipart_spec(schema, description_of(resolved_schema(ctx, schema)))
}

/// The operation as it is once a multipart payload with the given schema has
/// been documented on it: the same operation with the documented body as its
/// request body.
pub open spec fn documented(ctx: GenContext, operation: Operation, schema: Schema) -> Operation {
    operation_with_body(operation, request_body_of(documented_body(ctx, schema)))
}

/// The documented body is always a required `multipart/form-data` body that
/// carries the payload's own schema, unresolved.
pub proof fn documented_body_is_required_multipart(ctx: GenContext, schema: Schema)
    ensures
        documented_body(ctx, schema).media_type == "multipart/form-data"@,
        documented_body(ctx, schema).required,
        documented_body(ctx, schema).schema == schema,
{
}

/// The documented body is described by the `description` property of the
/// resolved schema where that property is a string, and has no description in
/// every other case.
pub proof fn documented_body_description(ctx: GenContext, schema: Schema)
    ensures
        match schema_property(resolved_schema(ctx, schema), "description"@) {
            Some(value) => documented_body(ctx, schema).description == value_text(value),
            None => documented_body(ctx, schema).description is None,
        },
{
}

/// A multipart payload of type `T`, as `axum_typed_multipart` parsed it from
/// a request, which can also document itself as the body of an operation.
#[derive(Debug)]
#[verifier::reject_recursive_types(T)]
pub struct MultipartRequestWrapper<T>(pub axum_typed_multipart::TypedMultipart<T>);

impl<T> core::ops::Deref for MultipartRequestWrapper<T> {
    type Target = axum_typed_multipart::TypedMultipart<T>;

    fn deref(&self) -> (inner: &axum_typed_multipart::TypedMultipart<T>)
        ensures
            *inner == self.0,
    {
        &self.0
    }
}

impl<T> MultipartRequestWrapper<T> {
    /// Wraps what the parser made of a request: a payload stays the payload
    /// it is, and a rejection stays the rejection it is.
    pub fn from_extracted(
        extracted: Result<axum_typed_multipart::TypedMultipart<T>, TypedMultipartError>,
    ) -> (wrapped: Result<MultipartRequestWrapper<T>, TypedMultipartError>)
        ensures
            wrapped == match extracted {
                Ok(payload) => Ok(MultipartRequestWrapper(payload)),
                Err(rejection) => Err(rejection),
            },
    {
        match extracted {
            Ok(payload) => Ok(MultipartRequestWrapper(payload)),
            Err(rejection) => Err(rejection),
        }
    }

    /// Documents the payload as the request body of an operation.
    ///
    /// `schema` is what the context's generator hands out for `T`, most often
    /// a reference. The operation gets a required body of media type
    /// `multipart/form-data` that carries this schema as it is, described by
    /// what the schema says of itself once the context has resolved it.
    /// Nothing else of the operation changes, and the context is only read.
    ///
    /// A body that the operation had before is replaced, so a second call
    /// with the same schema leaves the operation as the first left it. `aide`
    /// tells the context's error handler of the body that was replaced.
    pub fn operation_input(ctx: &mut GenContext, operation: &mut Operation, schema: Schema)
        ensures
            *final(ctx) == *old(ctx),
            *final(operation) == documented(*old(ctx), *old(operation), schema),
            documented(*final(ctx), *final(operation), schema) == *final(operation),
    {
        let description = schema_description(ctx.resolve_schema(&schema));
        let body = BodyDescription::multipart(schema, description);
        set_body(ctx, operation, into_request_body(body));
    }
}

} // verus!
