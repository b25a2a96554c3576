//! The manifest service: what is answered once the manifest was fetched, or
//! was not.

use crate::config::{Config, ConfigView};
use crate::framework::InstallerFramework;
use crate::response::{ContentType, Response, ResponseView, Status};
use vstd::prelude::*;

verus! {

/// What a download of the manifest came to.
#[derive(Debug)]
pub enum Fetched {
    /// The manifest was not reached; the text says why.
    Unreachable(String),
    /// Something was downloaded that is no manifest.
    Malformed,
    /// The manifest, parsed.
    Loaded(Config),
}

/// The mathematical value of a download.
pub enum FetchedView {
    Unreachable(Seq<char>),
    Malformed,
    Loaded(ConfigView),
}

impl View for Fetched {
    type V = FetchedView;

    open spec fn view(&self) -> FetchedView {
        match self {
            Fetched::Unreachable(reason) => FetchedView::Unreachable(reason@),
            Fetched::Malformed => FetchedView::Malformed,
            Fetched::Loaded(config) => FetchedView::Loaded(config@),
        }
    }
}

/// What is said of a download that is no manifest.
pub const BAD_CONTENT: &'static str = "Bad HTTP response";

/// The answer to a download. A manifest is answered as JSON, with its
/// length announced. Both failures are answered as unavailable, in plain
/// text: a connectivity failure with its own text and the length of it, a
/// content failure with a fixed text.
pub open spec fn answer(fetched: FetchedView) -> ResponseView {
    match fetched {
        FetchedView::Loaded(config) => ResponseView::measured(
            Status::Success,
            ContentType::Json,
            config.json,
        ),
        FetchedView::Malformed => ResponseView {
            content_type: Some(ContentType::PlainText),
            body: BAD_CONTENT@,
            ..ResponseView::bare(Status::ServiceUnavailable)
        },
        FetchedView::Unreachable(reason) => ResponseView::measured(
            Status::ServiceUnavailable,
            ContentType::PlainText,
            reason,
        ),
    }
}

/// Takes a download in. A manifest replaces the one of the framework as a
/// whole; a failure leaves the framework as it is.
pub fn handle(framework: &mut InstallerFramework, fetched: Fetched) -> (response: Response)
    ensures
        response@ == answer(fetched@),
        match fetched {
            Fetched::Loaded(config) => final(framework)@ == old(framework)@.configured(config@),
            _ => *final(framework) == *old(framework),
        },
{
    match fetched {
        Fetched::Loaded(config) => {
            let json = config.to_json_str();
            framework.set_config(config);
            Response::measured(Status::Success, ContentType::Json, json)
        },
        Fetched::Malformed => Response::new(Status::ServiceUnavailable).with_content_type(
            ContentType::PlainText,
        ).with_body(BAD_CONTENT.to_owned()),
        Fetched::Unreachable(reason) => Response::measured(
            Status::ServiceUnavailable,
            ContentType::PlainText,
            reason,
        ),
    }
}

/// Every failed download is answered as unavailable, and only a failed
/// one.
pub proof fn lemma_unavailable_iff_failed(fetched: FetchedView)
    ensures
        answer(fetched).status == Status::ServiceUnavailable <==> !(fetched is Loaded),
        fetched is Loaded ==> answer(fetched).status == Status::Success,
{
}

} // verus!
