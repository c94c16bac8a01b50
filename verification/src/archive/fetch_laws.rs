//! What holds of every fetch, whatever the events that drive it.

use vstd::prelude::*;
use crate::archive::error::FetchErrorView;
use crate::archive::fetch_url::{
    fail, html_content_type, size_in_bytes, spec_check_url, spec_fetch_step, successful_status,
    url_parse, FetchActionView, FetchEventView, FetchState, RequestView, ResponseHeadView,
    MAX_RESPONSE_SIZE_BYTES, REQUEST_TIMEOUT_SECS, USER_AGENT,
};

verus! {

/// A request is sent only at the start of a fetch, to the URL that was asked
/// for, and only where that URL passes the check: it parses, its scheme is
/// `http` or `https`, and its host is no address of a blocked range. It is
/// made under the library's name and given up after the library's timeout.
pub proof fn law_request_is_sent_only_for_accepted_url(
    state: FetchState,
    event: FetchEventView,
    request: RequestView,
)
    requires
        spec_fetch_step(state, event).1 == FetchActionView::Send(request),
    ensures
        state == FetchState::Start,
        event == FetchEventView::Begin(request.url),
        spec_check_url(url_parse(request.url)) is Ok,
        request.user_agent == USER_AGENT@,
        request.timeout_secs == REQUEST_TIMEOUT_SECS,
{
}

/// One request a fetch. No step leads back to the start, where alone a
/// request is sent.
pub proof fn law_one_request_per_fetch(state: FetchState, event: FetchEventView)
    ensures
        spec_fetch_step(state, event).0 != FetchState::Start,
        spec_fetch_step(state, event).1 is Send ==> state == FetchState::Start,
{
}

/// A successful response that advertises a length above the maximum ends
/// the fetch at once, whatever its content type: its body is never asked
/// for.
pub proof fn law_advertised_size_is_enforced_before_download(head: ResponseHeadView)
    requires
        successful_status(head.status),
        head.content_length is Some,
        head.content_length->0 > MAX_RESPONSE_SIZE_BYTES,
    ensures
        spec_fetch_step(FetchState::AwaitingResponse, FetchEventView::Response(head)) == fail(
            FetchErrorView::ResponseTooLarge,
        ),
{
}

/// A body that is larger than the maximum is refused once it was read,
/// whatever the headers had said of its length.
pub proof fn law_true_size_is_enforced_after_download(text: Seq<char>)
    requires
        size_in_bytes(text) > MAX_RESPONSE_SIZE_BYTES,
    ensures
        spec_fetch_step(FetchState::AwaitingBody, FetchEventView::Body(text)) == fail(
            FetchErrorView::ResponseTooLarge,
        ),
{
}

/// A body is read only after a response with a successful status, with no
/// advertised length above the maximum, and with a content type that begins
/// with `text/html`.
pub proof fn law_body_is_read_only_of_accepted_response(state: FetchState, event: FetchEventView)
    requires
        spec_fetch_step(state, event).1 == FetchActionView::ReadBody,
    ensures
        state == FetchState::AwaitingResponse,
        event is Response,
        successful_status(event->Response_0.status),
        event->Response_0.content_length matches Some(advertised) ==> advertised
            <= MAX_RESPONSE_SIZE_BYTES,
        event->Response_0.content_type is Some,
        html_content_type(event->Response_0.content_type->0),
{
}

/// A page is returned only as the body that was read, and only where that
/// body is no larger than the maximum.
pub proof fn law_returned_page_is_within_maximum(
    state: FetchState,
    event: FetchEventView,
    page: Seq<char>,
)
    requires
        spec_fetch_step(state, event).1 == FetchActionView::Return(Ok(page)),
    ensures
        state == FetchState::AwaitingBody,
        event == FetchEventView::Body(page),
        size_in_bytes(page) <= MAX_RESPONSE_SIZE_BYTES,
{
}

/// A fetch that was refused or has failed stays ended: no event makes it
/// send a request or read a body again.
pub proof fn law_finished_fetch_stays_finished(event: FetchEventView)
    ensures
        spec_fetch_step(FetchState::Finished, event).0 == FetchState::Finished,
        spec_fetch_step(FetchState::Finished, event).1 is Return,
        spec_fetch_step(FetchState::Finished, event).1->Return_0 is Err,
{
}

} // verus!
