//! Why the archival of a page failed, and how that is told to a reader.

use vstd::prelude::*;
use crate::archive::text::{decimal, decimal_string};

verus! {

/// What is said of a destination that was refused.
pub const BLOCKED_DESTINATION: &'static str =
    "URL resolves to a blocked IP address (private network, loopback, or reserved range)";

/// Why no article could be extracted from a page.
#[derive(Clone, Copy, Debug, PartialEq, Eq, Structural)]
pub enum ExtractionFailure {
    /// The page has more elements than the extractor was allowed to look at:
    /// the number found, then the limit.
    TooManyElements(usize, usize),
    /// No region of the page was found to be its main content.
    NoContent,
    /// The page has no body.
    NoBody,
    /// The base address handed to the extractor is no absolute URL.
    InvalidUrl,
}

/// Why a page could not be fetched or turned into an article.
#[derive(Clone, Debug, PartialEq, Eq)]
pub enum FetchError {
    /// The text is no URL.
    InvalidUrl,
    /// The URL's scheme, which is neither `http` nor `https`.
    UnsupportedScheme(String),
    /// Every address of the destination lies in a blocked range.
    BlockedDestination,
    /// The status of a response that is no success.
    UpstreamStatus(u16),
    /// The response names no content type.
    MissingContentType,
    /// The content type of a response that is no HTML page.
    UnsupportedContentType(String),
    /// The response is larger than the supported maximum.
    ResponseTooLarge,
    /// The page was fetched, but no article was found in it.
    ExtractionFailed(ExtractionFailure),
    /// The request itself failed, as the HTTP client describes it.
    RequestFailed(String),
}

/// A `FetchError` with its texts as sequences of characters.
pub enum FetchErrorView {
    InvalidUrl,
    UnsupportedScheme(Seq<char>),
    BlockedDestination,
    UpstreamStatus(u16),
    MissingContentType,
    UnsupportedContentType(Seq<char>),
    ResponseTooLarge,
    ExtractionFailed(ExtractionFailure),
    RequestFailed(Seq<char>),
}

impl View for FetchError {
    type V = FetchErrorView;

    open spec fn view(&self) -> FetchErrorView {
        match self {
            FetchError::InvalidUrl => FetchErrorView::InvalidUrl,
            FetchError::UnsupportedScheme(scheme) => FetchErrorView::UnsupportedScheme(scheme@),
            FetchError::BlockedDestination => FetchErrorView::BlockedDestination,
            FetchError::UpstreamStatus(code) => FetchErrorView::UpstreamStatus(*code),
            FetchError::MissingContentType => FetchErrorView::MissingContentType,
            FetchError::UnsupportedContentType(content_type) => {
                FetchErrorView::UnsupportedContentType(content_type@)
            },
            FetchError::ResponseTooLarge => FetchErrorView::ResponseTooLarge,
            FetchError::ExtractionFailed(reason) => FetchErrorView::ExtractionFailed(*reason),
            FetchError::RequestFailed(description) => FetchErrorView::RequestFailed(description@),
        }
    }
}

impl ExtractionFailure {
    /// The failure in words.
    pub open spec fn spec_description(self) -> Seq<char> {
        match self {
            ExtractionFailure::TooManyElements(found, limit) => {
                "Aborting parsing document; "@ + decimal(found as nat) + " elements found (max: "@
                    + decimal(limit as nat) + ")"@
            },
            ExtractionFailure::NoContent => {
                "Failed to extract article content from the document"@
            },
            ExtractionFailure::NoBody => "No body found in document"@,
            ExtractionFailure::InvalidUrl => "Invalid base URL"@,
        }
    }

    /// The failure in words.
    pub fn description(&self) -> (text: String)
        ensures
            text@ == self.spec_description(),
    {
        match self {
            ExtractionFailure::TooManyElements(found, limit) => {
                let mut text = String::from_str("Aborting parsing document; ");
                text.append(decimal_string(*found as u64).as_str());
                text.append(" elements found (max: ");
                text.append(decimal_string(*limit as u64).as_str());
                text.append(")");
                text
            },
            ExtractionFailure::NoContent => {
                String::from_str("Failed to extract article content from the document")
            },
            ExtractionFailure::NoBody => String::from_str("No body found in document"),
            ExtractionFailure::InvalidUrl => String::from_str("Invalid base URL"),
        }
    }
}

impl FetchErrorView {
    /// The error in words, as it is stored with a failed archive.
    pub open spec fn description(self) -> Seq<char> {
        match self {
            FetchErrorView::InvalidUrl => "URL could not be parsed"@,
            FetchErrorView::UnsupportedScheme(scheme) => {
                "URL scheme '"@ + scheme + "' not supported (only http or https are supported)"@
            },
            FetchErrorView::BlockedDestination => BLOCKED_DESTINATION@,
            FetchErrorView::UpstreamStatus(code) => {
                "Server responded with HTTP status "@ + decimal(code as nat)
            },
            FetchErrorView::MissingContentType => "Missing content-type header"@,
            FetchErrorView::UnsupportedContentType(content_type) => {
                "Content type '"@ + content_type + "' not supported"@
            },
            FetchErrorView::ResponseTooLarge => {
                "Response was larger than the supported maximum of 5000000 bytes."@
            },
            FetchErrorView::ExtractionFailed(reason) => reason.spec_description(),
            FetchErrorView::RequestFailed(description) => description,
        }
    }
}

impl FetchError {
    /// The error in words, as it is stored with a failed archive.
    pub fn description(&self) -> (text: String)
        ensures
            text@ == self@.description(),
    {
        match self {
            FetchError::InvalidUrl => String::from_str("URL could not be parsed"),
            FetchError::UnsupportedScheme(scheme) => {
                let mut text = String::from_str("URL scheme '");
                text.append(scheme.as_str());
                text.append("' not supported (only http or https are supported)");
                text
            },
            FetchError::BlockedDestination => String::from_str(BLOCKED_DESTINATION),
            FetchError::UpstreamStatus(code) => {
                let mut text = String::from_str("Server responded with HTTP status ");
                text.append(decimal_string(*code as u64).as_str());
                text
            },
            FetchError::MissingContentType => String::from_str("Missing content-type header"),
            FetchError::UnsupportedContentType(content_type) => {
                let mut text = String::from_str("Content type '");
                text.append(content_type.as_str());
                text.append("' not supported");
                text
            },
            FetchError::ResponseTooLarge => {
                String::from_str("Response was larger than the supported maximum of 5000000 bytes.")
            },
            FetchError::ExtractionFailed(reason) => reason.description(),
            FetchError::RequestFailed(description) => description.clone(),
        }
    }
}

} // verus!
