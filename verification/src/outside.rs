//! The outside types that pass through this library, and what is taken on
//! trust about the outside functions that the library calls on them.
//!
//! Nothing in this file is proved. Each contract restates what the source of
//! the named function shows.

use crate::request_body::{BodyDescription, BodyDescriptionView};
use aide::generate::GenContext;
use aide::openapi::{MediaType, Operation, RequestBody, SchemaObject};
use indexmap::IndexMap;
use schemars::Schema;
use serde_json::Value;
use vstd::prelude::*;

verus! {

/// `aide::generate::GenContext`: the settings and the schema generator that
/// documentation is generated with. Opaque here.
#[verifier::external_type_specification]
#[verifier::external_body]
pub struct ExGenContext(aide::generate::GenContext);

/// `aide::openapi::Operation`: one documented operation of an API. Opaque here.
#[verifier::external_type_specification]
#[verifier::external_body]
pub struct ExOperation(aide::openapi::Operation);

/// `aide::openapi::RequestBody`: the description of a request body. Opaque here.
#[verifier::external_type_specification]
#[verifier::external_body]
pub struct ExRequestBody(aide::openapi::RequestBody);

/// `schemars::Schema`: a JSON schema, or a reference to one. Opaque here.
#[verifier::external_type_specification]
#[verifier::external_body]
pub struct ExSchema(schemars::Schema);

/// `serde_json::Value`: a JSON value. Opaque here.
#[verifier::external_type_specification]
#[verifier::external_body]
pub struct ExValue(serde_json::Value);

/// `axum_typed_multipart::TypedMultipart`: a payload that was parsed from a
/// multipart request. Opaque here.
#[verifier::external_type_specification]
#[verifier::external_body]
#[verifier::reject_recursive_types(T)]
pub struct ExTypedMultipart<T>(axum_typed_multipart::TypedMultipart<T>);

/// `axum_typed_multipart::FieldData`: the contents of one multipart field
/// together with its metadata. Opaque here.
#[verifier::external_type_specification]
#[verifier::external_body]
#[verifier::reject_recursive_types(T)]
pub struct ExFieldData<T>(axum_typed_multipart::FieldData<T>);

/// `axum_typed_multipart::TypedMultipartError`: why a multipart request or
/// one of its fields was rejected. Opaque here.
#[verifier::external_type_specification]
#[verifier::external_body]
pub struct ExTypedMultipartError(axum_typed_multipart::TypedMultipartError);

/// The schema that `GenContext::resolve_schema` hands back for a schema: the
/// definition that a reference names in the context's generator, or the
/// schema itself where it is no reference or names nothing known.
pub uninterp spec fn resolved_schema(ctx: GenContext, schema: Schema) -> Schema;

/// The value that `Schema::get` finds under a key: the property of that name
/// where the schema is an object that has it, and nothing otherwise.
pub uninterp spec fn schema_property(schema: Schema, key: Seq<char>) -> Option<Value>;

/// The text that `Value::as_str` finds in a JSON value: the string's
/// characters where the value is a string, and nothing otherwise.
pub uninterp spec fn value_text(value: Value) -> Option<Seq<char>>;

/// `GenContext::resolve_schema` returns the resolved form of the schema. It
/// reads the context and the schema and changes neither.
pub assume_specification<'s>[ GenContext::resolve_schema ](
    ctx: &'s GenContext,
    schema_or_ref: &'s Schema,
) -> (resolved: &'s Schema)
    ensures
        *resolved == resolved_schema(*ctx, *schema_or_ref),
;

/// `Value::as_str` returns the string slice of a JSON string, and `None` for
/// every other kind of value.
pub assume_specification<'a>[ Value::as_str ](value: &'a Value) -> (text: Option<&'a str>)
    ensures
        match text {
            Some(s) => value_text(*value) == Some(s@),
            None => value_text(*value) is None,
        },
;

/// `Schema::get` looks a key up in a schema: it returns the property of that
/// name of an object schema, and `None` where the schema is a boolean or has
/// no such property.
#[verifier::external_body]
pub(crate) fn schema_get<'a>(schema: &'a Schema, key: &str) -> (value: Option<&'a Value>)
    ensures
        match value {
            Some(v) => schema_property(*schema, key@) == Some(*v),
            None => schema_property(*schema, key@) is None,
        },
{
    schema.get(key)
}

/// The `aide::openapi::RequestBody` that stands for a body description: its
/// description and its required flag are those of the description, its
/// content has the one entry that maps the media type to the schema, with no
/// example, encoding or external documentation, and it has no extensions.
pub uninterp spec fn request_body_of(body: BodyDescriptionView) -> RequestBody;

/// The operation that `aide::operation::set_body` leaves behind: the given
/// operation with the given body as its request body, written inline, and
/// with every other field as it was.
pub uninterp spec fn operation_with_body(operation: Operation, body: RequestBody) -> Operation;

/// Writes a body description down as an `aide::openapi::RequestBody`, by a
/// struct literal: each field goes to its place, and every other place of the
/// outside value is left empty.
#[verifier::external_body]
pub(crate) fn into_request_body(body: BodyDescription) -> (request_body: RequestBody)
    ensures
        request_body == request_body_of(body@),
{
    let schema = SchemaObject { json_schema: body.schema, example: None, external_docs: None };
    let media = MediaType { schema: Some(schema), ..Default::default() };
    RequestBody {
        description: body.description,
        content: IndexMap::from_iter([(body.media_type, media)]),
        required: body.required,
        extensions: IndexMap::default(),
    }
}

/// `aide::operation::set_body` assigns the body to the operation's request
/// body and touches no other field, so assigning the same body once more
/// changes nothing. Where the operation had a body already it reports a
/// duplicate to the error handler that the application registered in the
/// context, if there is one; the context itself is only read.
pub assume_specification[ aide::operation::set_body ](
    ctx: &mut GenContext,
    operation: &mut Operation,
    body: RequestBody,
)
    ensures
        *final(ctx) == *old(ctx),
        *final(operation) == operation_with_body(*old(operation), body),
        operation_with_body(*final(operation), body) == *final(operation),
;

} // verus!
