//! The rules of fetching a page: which URLs are requested at all, which
//! responses are read, and which bodies are kept.
//!
//! The request itself is made elsewhere. What is decided here is what to do
//! next, given what has come back so far: a fetch is a small machine that is
//! stepped with each event and answers with the next action.

use vstd::prelude::*;
use vstd::utf8::encode_utf8;
use crate::archive::address::{Ipv4Address, Ipv6Address};
use crate::archive::error::{FetchError, FetchErrorView};
use crate::archive::safe_dns_resolver::{
    ipv4_safe, ipv6_safe, is_ipv4_safe, is_ipv6_safe,
};
use crate::archive::text::{has_prefix, same_text, starts_with};
use crate::archive::views::{option_view, result_view};

verus! {

/// The largest response that is archived, in bytes.
pub const MAX_RESPONSE_SIZE_BYTES: u64 = 5_000_000;

/// The time after which a request is given up, in seconds.
pub const REQUEST_TIMEOUT_SECS: u64 = 60;

/// The name under which requests are made.
pub const USER_AGENT: &'static str = "ties";

/// The host of a URL.
#[derive(Clone, Debug, PartialEq, Eq)]
pub enum UrlHost {
    /// The URL names no host.
    Absent,
    /// A domain name, to be resolved.
    Domain(String),
    /// An IPv4 address, written out in the URL.
    Ipv4(Ipv4Address),
    /// An IPv6 address, written out in the URL.
    Ipv6(Ipv6Address),
}

/// A `UrlHost` with its text as a sequence of characters.
pub enum UrlHostView {
    Absent,
    Domain(Seq<char>),
    Ipv4(Ipv4Address),
    Ipv6(Ipv6Address),
}

impl View for UrlHost {
    type V = UrlHostView;

    open spec fn view(&self) -> UrlHostView {
        match self {
            UrlHost::Absent => UrlHostView::Absent,
            UrlHost::Domain(name) => UrlHostView::Domain(name@),
            UrlHost::Ipv4(ip) => UrlHostView::Ipv4(*ip),
            UrlHost::Ipv6(ip) => UrlHostView::Ipv6(*ip),
        }
    }
}

/// What the rules of a fetch read of a URL: its scheme, in lower case and
/// without the colon, and its host.
#[derive(Clone, Debug, PartialEq, Eq)]
pub struct ParsedUrl {
    pub scheme: String,
    pub host: UrlHost,
}

/// A `ParsedUrl` with its texts as sequences of characters.
pub struct ParsedUrlView {
    pub scheme: Seq<char>,
    pub host: UrlHostView,
}

impl View for ParsedUrl {
    type V = ParsedUrlView;

    open spec fn view(&self) -> ParsedUrlView {
        ParsedUrlView { scheme: self.scheme@, host: self.host@ }
    }
}

/// What `text` is as a URL: its scheme and host, or nothing where it is no
/// absolute URL.
pub uninterp spec fn url_parse(text: Seq<char>) -> Option<ParsedUrlView>;

/// `url::Url::parse`, with `Url::scheme` and `Url::host` read off the URL
/// that it gives. The outcome depends on the text alone; what it is, the
/// `url` crate decides, and `url_parse` is the name for it.
#[verifier::external_body]
fn parse_url(text: &str) -> (parsed: Option<ParsedUrl>)
    ensures
        option_view(parsed) == url_parse(text@),
{
    let url = url::Url::parse(text).ok()?;
    let host = match url.host() {
        None => UrlHost::Absent,
        Some(url::Host::Domain(name)) => UrlHost::Domain(name.to_string()),
        Some(url::Host::Ipv4(ip)) => UrlHost::Ipv4(Ipv4Address { bits: ip.into() }),
        Some(url::Host::Ipv6(ip)) => UrlHost::Ipv6(Ipv6Address { bits: ip.into() }),
    };
    Some(ParsedUrl { scheme: url.scheme().to_string(), host })
}

/// Whether pages are fetched over the scheme.
pub open spec fn supported_scheme(scheme: Seq<char>) -> bool {
    scheme == "http"@ || scheme == "https"@
}

/// The verdict on a URL, parsed or not. Text that is no URL is refused, then
/// a scheme other than `http` and `https`, then a URL without a host, then a
/// host that is written out as an address of a blocked range. A domain name
/// passes here: the resolver judges the addresses that it resolves to.
pub open spec fn spec_check_url(parsed: Option<ParsedUrlView>) -> Result<
    ParsedUrlView,
    FetchErrorView,
> {
    match parsed {
        None => Err(FetchErrorView::InvalidUrl),
        Some(url) => if !supported_scheme(url.scheme) {
            Err(FetchErrorView::UnsupportedScheme(url.scheme))
        } else {
            match url.host {
                UrlHostView::Absent => Err(FetchErrorView::InvalidUrl),
                UrlHostView::Domain(_) => Ok(url),
                UrlHostView::Ipv4(ip) => if ipv4_safe(ip) {
                    Ok(url)
                } else {
                    Err(FetchErrorView::BlockedDestination)
                },
                UrlHostView::Ipv6(ip) => if ipv6_safe(ip) {
                    Ok(url)
                } else {
                    Err(FetchErrorView::BlockedDestination)
                },
            }
        },
    }
}

/// Judges a URL that was parsed, or that could not be.
pub fn check_parsed_url(parsed: Option<ParsedUrl>) -> (verdict: Result<ParsedUrl, FetchError>)
    ensures
        result_view(verdict) == spec_check_url(option_view(parsed)),
        verdict matches Ok(url) ==> parsed == Some(url),
{
    let url = match parsed {
        None => {
            return Err(FetchError::InvalidUrl);
        },
        Some(url) => url,
    };
    if !same_text(url.scheme.as_str(), "http") && !same_text(url.scheme.as_str(), "https") {
        return Err(FetchError::UnsupportedScheme(url.scheme));
    }
    let safe = match &url.host {
        UrlHost::Absent => {
            return Err(FetchError::InvalidUrl);
        },
        UrlHost::Domain(_) => true,
        UrlHost::Ipv4(ip) => is_ipv4_safe(*ip),
        UrlHost::Ipv6(ip) => is_ipv6_safe(*ip),
    };
    if safe {
        Ok(url)
    } else {
        Err(FetchError::BlockedDestination)
    }
}

/// Whether the text is a URL.
pub fn check_url_parses(text: &str) -> (parses: bool)
    ensures
        parses == url_parse(text@) is Some,
{
    parse_url(text).is_some()
}

/// Judges the text of a URL before anything is requested.
pub fn check_url(unvalidated_url: &str) -> (verdict: Result<ParsedUrl, FetchError>)
    ensures
        result_view(verdict) == spec_check_url(url_parse(unvalidated_url@)),
{
    check_parsed_url(parse_url(unvalidated_url))
}

/// What the rules read of a response before its body is downloaded.
#[derive(Clone, Debug, PartialEq, Eq)]
pub struct ResponseHead {
    /// The HTTP status code.
    pub status: u16,
    /// The length that the `Content-Length` header advertises, if it is there.
    pub content_length: Option<u64>,
    /// The value of the `content-type` header, if it is there.
    pub content_type: Option<String>,
}

/// A `ResponseHead` with its text as a sequence of characters.
pub struct ResponseHeadView {
    pub status: u16,
    pub content_length: Option<u64>,
    pub content_type: Option<Seq<char>>,
}

impl View for ResponseHead {
    type V = ResponseHeadView;

    open spec fn view(&self) -> ResponseHeadView {
        ResponseHeadView {
            status: self.status,
            content_length: self.content_length,
            content_type: option_view(self.content_type),
        }
    }
}

/// Whether a status code reports success.
pub open spec fn successful_status(status: u16) -> bool {
    200 <= status <= 299
}

/// Whether a content type is that of an HTML page.
pub open spec fn html_content_type(content_type: Seq<char>) -> bool {
    has_prefix(content_type, "text/html"@)
}

/// The size of a text in bytes, as it is encoded.
pub open spec fn size_in_bytes(text: Seq<char>) -> nat {
    encode_utf8(text).len()
}

/// The verdict on a response before its body is read. A status that is no
/// success is refused first, then an advertised length above the maximum,
/// then a missing content type, then one that is not HTML.
pub open spec fn spec_check_response_head(head: ResponseHeadView) -> Result<(), FetchErrorView> {
    if !successful_status(head.status) {
        Err(FetchErrorView::UpstreamStatus(head.status))
    } else if head.content_length is Some && head.content_length->0 > MAX_RESPONSE_SIZE_BYTES {
        Err(FetchErrorView::ResponseTooLarge)
    } else {
        match head.content_type {
            None => Err(FetchErrorView::MissingContentType),
            Some(content_type) => if html_content_type(content_type) {
                Ok(())
            } else {
                Err(FetchErrorView::UnsupportedContentType(content_type))
            },
        }
    }
}

/// The verdict on a body that was read: it is kept unless it is larger than
/// the maximum, whatever the headers said of its length.
pub open spec fn spec_check_body(text: Seq<char>) -> Result<Seq<char>, FetchErrorView> {
    if size_in_bytes(text) > MAX_RESPONSE_SIZE_BYTES {
        Err(FetchErrorView::ResponseTooLarge)
    } else {
        Ok(text)
    }
}

/// Judges a response by its status and headers, before the body is read.
pub fn check_response_head(head: &ResponseHead) -> (verdict: Result<(), FetchError>)
    ensures
        result_view(verdict) == spec_check_response_head(head@),
{
    if head.status < 200 || head.status > 299 {
        return Err(FetchError::UpstreamStatus(head.status));
    }
    if let Some(advertised) = head.content_length {
        if advertised > MAX_RESPONSE_SIZE_BYTES {
            return Err(FetchError::ResponseTooLarge);
        }
    }
    match &head.content_type {
        None => Err(FetchError::MissingContentType),
        Some(content_type) => {
            if starts_with(content_type.as_str(), "text/html") {
                Ok(())
            } else {
                Err(FetchError::UnsupportedContentType(content_type.clone()))
            }
        },
    }
}

/// Judges a body that was read, by its true size.
pub fn check_body(text: String) -> (verdict: Result<String, FetchError>)
    ensures
        result_view(verdict) == spec_check_body(text@),
{
    let size: usize = text.as_str().as_bytes().len();
    if size as u64 > MAX_RESPONSE_SIZE_BYTES {
        Err(FetchError::ResponseTooLarge)
    } else {
        Ok(text)
    }
}

/// One GET request, as the driver of a fetch is to make it.
#[derive(Clone, Debug, PartialEq, Eq)]
pub struct Request {
    /// Where the request goes.
    pub url: String,
    /// The name under which it is made.
    pub user_agent: String,
    /// After how many seconds it is given up, the reading of the body
    /// included.
    pub timeout_secs: u64,
}

/// A `Request` with its texts as sequences of characters.
pub struct RequestView {
    pub url: Seq<char>,
    pub user_agent: Seq<char>,
    pub timeout_secs: u64,
}

impl View for Request {
    type V = RequestView;

    open spec fn view(&self) -> RequestView {
        RequestView {
            url: self.url@,
            user_agent: self.user_agent@,
            timeout_secs: self.timeout_secs,
        }
    }
}

/// The request for a page: under the library's name, and bounded in time.
pub open spec fn spec_request(url: Seq<char>) -> RequestView {
    RequestView { url, user_agent: USER_AGENT@, timeout_secs: REQUEST_TIMEOUT_SECS }
}

/// How far a fetch has come.
#[derive(Clone, Copy, Debug, PartialEq, Eq, Structural)]
pub enum FetchState {
    /// Nothing was requested yet.
    Start,
    /// The request was sent; no response has come.
    AwaitingResponse,
    /// The response was accepted by its headers; its body is being read.
    AwaitingBody,
    /// The fetch has ended, with a page or with an error.
    Finished,
}

/// What happened to a fetch, as its driver reports it.
#[derive(Clone, Debug, PartialEq, Eq)]
pub enum FetchEvent {
    /// A page is asked for, by the text of its URL.
    Begin(String),
    /// The response has come, so far without its body.
    Response(ResponseHead),
    /// The body was read.
    Body(String),
    /// Name resolution refused the destination.
    Blocked,
    /// The request failed; the text says how.
    Failed(String),
}

/// A `FetchEvent` with its texts as sequences of characters.
pub enum FetchEventView {
    Begin(Seq<char>),
    Response(ResponseHeadView),
    Body(Seq<char>),
    Blocked,
    Failed(Seq<char>),
}

impl View for FetchEvent {
    type V = FetchEventView;

    open spec fn view(&self) -> FetchEventView {
        match self {
            FetchEvent::Begin(url) => FetchEventView::Begin(url@),
            FetchEvent::Response(head) => FetchEventView::Response(head@),
            FetchEvent::Body(text) => FetchEventView::Body(text@),
            FetchEvent::Blocked => FetchEventView::Blocked,
            FetchEvent::Failed(description) => FetchEventView::Failed(description@),
        }
    }
}

/// What the driver of a fetch is to do next.
#[derive(Debug, PartialEq, Eq)]
pub enum FetchAction {
    /// Send this one GET request.
    Send(Request),
    /// Read the body of the response.
    ReadBody,
    /// Stop, with the page's text or with the reason why there is none.
    Return(Result<String, FetchError>),
}

/// A `FetchAction` with its texts as sequences of characters.
pub enum FetchActionView {
    Send(RequestView),
    ReadBody,
    Return(Result<Seq<char>, FetchErrorView>),
}

impl View for FetchAction {
    type V = FetchActionView;

    open spec fn view(&self) -> FetchActionView {
        match self {
            FetchAction::Send(request) => FetchActionView::Send(request@),
            FetchAction::ReadBody => FetchActionView::ReadBody,
            FetchAction::Return(outcome) => FetchActionView::Return(result_view(*outcome)),
        }
    }
}

/// The end of a fetch with an error.
pub open spec fn fail(error: FetchErrorView) -> (FetchState, FetchActionView) {
    (FetchState::Finished, FetchActionView::Return(Err(error)))
}

/// The description of the failure that an event out of turn ends a fetch
/// with.
pub open spec fn out_of_turn() -> Seq<char> {
    "event does not fit the state of the fetch"@
}

/// One step of a fetch, where the URL of a `Begin` event was parsed to
/// `parsed`: the state after the event, and what to do next.
///
/// A request is sent only for a URL that passes `spec_check_url`, a body is
/// read only after a response that passes `spec_check_response_head`, and a
/// page is returned only where its body passes `spec_check_body`. Every
/// refusal, every failure that the driver reports and every event out of
/// turn ends the fetch.
pub open spec fn spec_fetch_step_parsed(
    state: FetchState,
    event: FetchEventView,
    parsed: Option<ParsedUrlView>,
) -> (FetchState, FetchActionView) {
    match (state, event) {
        (FetchState::Start, FetchEventView::Begin(url)) => match spec_check_url(parsed) {
            Ok(_) => (FetchState::AwaitingResponse, FetchActionView::Send(spec_request(url))),
            Err(refusal) => fail(refusal),
        },
        (FetchState::AwaitingResponse, FetchEventView::Response(head)) => {
            match spec_check_response_head(head) {
                Ok(_) => (FetchState::AwaitingBody, FetchActionView::ReadBody),
                Err(refusal) => fail(refusal),
            }
        },
        (FetchState::AwaitingResponse, FetchEventView::Blocked) => fail(
            FetchErrorView::BlockedDestination,
        ),
        (FetchState::AwaitingResponse, FetchEventView::Failed(description)) => fail(
            FetchErrorView::RequestFailed(description),
        ),
        (FetchState::AwaitingBody, FetchEventView::Body(text)) => (
            FetchState::Finished,
            FetchActionView::Return(spec_check_body(text)),
        ),
        (FetchState::AwaitingBody, FetchEventView::Failed(description)) => fail(
            FetchErrorView::RequestFailed(description),
        ),
        _ => fail(FetchErrorView::RequestFailed(out_of_turn())),
    }
}

/// The URL that an event brings to be parsed, and nothing for an event that
/// brings none.
pub open spec fn url_of_event(event: FetchEventView) -> Option<ParsedUrlView> {
    match event {
        FetchEventView::Begin(url) => url_parse(url),
        _ => None,
    }
}

/// One step of a fetch: the state after the event, and what to do next.
pub open spec fn spec_fetch_step(state: FetchState, event: FetchEventView) -> (
    FetchState,
    FetchActionView,
) {
    spec_fetch_step_parsed(state, event, url_of_event(event))
}

/// Steps a fetch with an event, the URL of a `Begin` event having been
/// parsed to `parsed`.
pub fn fetch_step_parsed(state: FetchState, event: FetchEvent, parsed: Option<ParsedUrl>) -> (next:
    (FetchState, FetchAction))
    ensures
        next.0 == spec_fetch_step_parsed(state, event@, option_view(parsed)).0,
        next.1@ == spec_fetch_step_parsed(state, event@, option_view(parsed)).1,
{
    match (state, event) {
        (FetchState::Start, FetchEvent::Begin(url)) => match check_parsed_url(parsed) {
            Ok(_) => (
                FetchState::AwaitingResponse,
                FetchAction::Send(
                    Request {
                        url,
                        user_agent: String::from_str(USER_AGENT),
                        timeout_secs: REQUEST_TIMEOUT_SECS,
                    },
                ),
            ),
            Err(refusal) => (FetchState::Finished, FetchAction::Return(Err(refusal))),
        },
        (FetchState::AwaitingResponse, FetchEvent::Response(head)) => {
            match check_response_head(&head) {
                Ok(_) => (FetchState::AwaitingBody, FetchAction::ReadBody),
                Err(refusal) => (FetchState::Finished, FetchAction::Return(Err(refusal))),
            }
        },
        (FetchState::AwaitingResponse, FetchEvent::Blocked) => (
            FetchState::Finished,
            FetchAction::Return(Err(FetchError::BlockedDestination)),
        ),
        (FetchState::AwaitingResponse, FetchEvent::Failed(description)) => (
            FetchState::Finished,
            FetchAction::Return(Err(FetchError::RequestFailed(description))),
        ),
        (FetchState::AwaitingBody, FetchEvent::Body(text)) => (
            FetchState::Finished,
            FetchAction::Return(check_body(text)),
        ),
        (FetchState::AwaitingBody, FetchEvent::Failed(description)) => (
            FetchState::Finished,
            FetchAction::Return(Err(FetchError::RequestFailed(description))),
        ),
        _ => (
            FetchState::Finished,
            FetchAction::Return(
                Err(
                    FetchError::RequestFailed(
                        String::from_str("event does not fit the state of the fetch"),
                    ),
                ),
            ),
        ),
    }
}

/// Steps a fetch with an event.
pub fn fetch_step(state: FetchState, event: FetchEvent) -> (next: (FetchState, FetchAction))
    ensures
        next.0 == spec_fetch_step(state, event@).0,
        next.1@ == spec_fetch_step(state, event@).1,
{
    let parsed = match &event {
        FetchEvent::Begin(url) => parse_url(url.as_str()),
        _ => None,
    };
    fetch_step_parsed(state, event, parsed)
}

} // verus!
