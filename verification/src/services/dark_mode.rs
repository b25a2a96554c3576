//! The appearance service: whether the system is in dark mode, as JSON.

use crate::json::{flag, flag_text};
use crate::response::{ContentType, Response, ResponseView, Status};
use vstd::prelude::*;

verus! {

/// The answer for an appearance: the truth value as JSON, with its length
/// announced.
pub open spec fn answer(active: bool) -> ResponseView {
    ResponseView::measured(Status::Success, ContentType::Json, flag_text(active))
}

/// Answers with the appearance that the system reported.
pub fn handle(active: bool) -> (response: Response)
    ensures
        response@ == answer(active),
{
    Response::measured(Status::Success, ContentType::Json, flag(active))
}

} // verus!
