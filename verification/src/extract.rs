use vstd::prelude::*;

use crate::problem::{ProblemDetails, ProblemView, BAD_REQUEST};

verus! {

/// A request body that was read as JSON and then passed its validation.
pub struct ValidatedJson<J>(pub J);

/// The title of the answer to a body that is not JSON of the expected shape.
pub const INVALID_JSON_TITLE: &'static str = "Invalid json.";

/// The detail of the answer to a body that is not JSON of the expected shape.
pub const INVALID_JSON_DETAIL: &'static str = "Cannot deserialize json.";

/// The title of the answer to a body that failed its validation.
pub const VALIDATION_TITLE: &'static str = "One ore more validation errors occurred.";

/// The answer to a body that could not be read as JSON of the expected shape.
pub open spec fn invalid_json_response() -> ProblemView {
    ProblemView { status: BAD_REQUEST, title: Some(INVALID_JSON_TITLE@), detail: Some(INVALID_JSON_DETAIL@) }
}

/// The answer to a body that failed its validation, with the text of what failed.
pub open spec fn validation_response(text: Seq<char>) -> ProblemView {
    ProblemView { status: BAD_REQUEST, title: Some(VALIDATION_TITLE@), detail: Some(text) }
}

/// The problem document that refuses a body that is not JSON of the expected shape.
pub fn invalid_json_problem() -> (p: ProblemDetails)
    ensures
        p@ == invalid_json_response(),
{
    ProblemDetails::new(BAD_REQUEST).with_title(INVALID_JSON_TITLE).with_detail(INVALID_JSON_DETAIL)
}

impl<J> ValidatedJson<J> {
    /// Accepts a body that was read as JSON once its validation has run:
    /// `validation` is what the validation returned, a failure by its text.
    /// The body is accepted unchanged where it passed, and refused with the
    /// text of the failure where it did not.
    pub fn from_validation(data: J, validation: Result<(), String>) -> (r: Result<Self, ProblemDetails>)
        ensures
            validation is Ok ==> r == Ok::<Self, ProblemDetails>(ValidatedJson(data)),
            validation matches Err(text) ==> (r matches Err(p) && p@ == validation_response(text@)),
            validation matches Err(text) ==> (r matches Err(p) && p.status == 400 && p@.detail == Some(text@)),
    {
        match validation {
            Ok(()) => Ok(ValidatedJson(data)),
            Err(text) => Err(ProblemDetails::new(BAD_REQUEST).with_title(VALIDATION_TITLE).with_detail(text.as_str())),
        }
    }
}

/// A body that is not JSON of the expected shape is refused with 400 and the
/// fixed title and detail.
pub proof fn lemma_invalid_json_response()
    ensures
        invalid_json_response() == (ProblemView {
            status: 400,
            title: Some("Invalid json."@),
            detail: Some("Cannot deserialize json."@),
        }),
{
}

/// A body that failed its validation is refused with 400, the validation
/// title, and the whole text of the failure, every line of it, unchanged as
/// the detail.
pub proof fn lemma_refusal_carries_whole_text(text: Seq<char>)
    ensures
        validation_response(text).status == 400,
        validation_response(text).title == Some(VALIDATION_TITLE@),
        validation_response(text).detail == Some(text),
        validation_response(text).detail->0.len() == text.len(),
{
}

} // verus!
