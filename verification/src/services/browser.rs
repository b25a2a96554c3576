//! The browser service: which address to open, and what to answer once the
//! system was asked to open it.

use crate::form::{field, field_value, form_pairs, parse_pairs};
use crate::response::{Response, ResponseView, Status};
use vstd::prelude::*;

verus! {

/// The address that a request asks to open: the field `url` of its form.
pub fn target(body: &[u8]) -> (url: Option<String>)
    ensures
        match url {
            Some(u) => field_value(form_pairs(body@), "url"@) == Some(u@),
            None => field_value(form_pairs(body@), "url"@).is_none(),
        },
{
    let pairs = parse_pairs(body);
    field(&pairs, "url")
}

/// The answer to a request, given whether the browser was launched: an
/// empty JSON object either way, as a success or as a bad request.
pub open spec fn answer(launched: bool) -> ResponseView {
    ResponseView::json(
        if launched {
            Status::Success
        } else {
            Status::BadRequest
        },
        "{}"@,
    )
}

/// Answers a request once the system was asked to open the address.
pub fn handle(launched: bool) -> (response: Response)
    ensures
        response@ == answer(launched),
{
    if launched {
        Response::json(Status::Success, "{}".to_owned())
    } else {
        Response::json(Status::BadRequest, "{}".to_owned())
    }
}

} // verus!
