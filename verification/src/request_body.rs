//! The request body that a multipart payload is documented with.

use schemars::Schema;
use vstd::prelude::*;

verus! {

/// The characters of an optional string.
pub open spec fn optional_text(text: Option<String>) -> Option<Seq<char>> {
    match text {
        Some(s) => Some(s@),
        None => None,
    }
}

/// The media type under which a multipart form is documented.
pub open spec fn multipart_form_data() -> Seq<char> {
    "multipart/form-data"@
}

/// A request body that offers one schema under one media type.
#[derive(Debug)]
pub struct BodyDescription {
    /// The human-readable description, if there is one.
    pub description: Option<String>,
    /// The media type that the schema is offered under.
    pub media_type: String,
    /// The schema of the payload, as the generator handed it out.
    pub schema: Schema,
    /// Whether a request must carry the body.
    pub required: bool,
}

/// What a [`BodyDescription`] holds, as mathematical values.
pub struct BodyDescriptionView {
    pub description: Option<Seq<char>>,
    pub media_type: Seq<char>,
    pub schema: Schema,
    pub required: bool,
}

impl View for BodyDescription {
    type V = BodyDescriptionView;

    open spec fn view(&self) -> BodyDescriptionView {
        BodyDescriptionView {
            description: optional_text(self.description),
            media_type: self.media_type@,
            schema: self.schema,
            required: self.required,
        }
    }
}

impl BodyDescription {
    /// The body of a multipart form with the given schema: required, and
    /// offered as `multipart/form-data`.
    pub open spec fn multipart_spec(schema: Schema, description: Option<Seq<char>>) -> BodyDescriptionView {
        BodyDescriptionView {
            description,
            media_type: multipart_form_data(),
            schema,
            required: true,
        }
    }

    /// Describes the body of a multipart form whose payload has the given
    /// schema.
    pub fn multipart(schema: Schema, description: Option<String>) -> (body: BodyDescription)
        ensures
            body@ == Self::multipart_spec(schema, optional_text(description)),
    {
        BodyDescription {
            description,
            media_type: "multipart/form-data".to_string(),
            schema,
            required: true,
        }
    }
}

} // verus!
