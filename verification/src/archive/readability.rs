//! From the HTML of a page to the article that is stored: the main content
//! is extracted, then cleaned of everything that is unsafe to show, with its
//! relative links made absolute.

use vstd::prelude::*;
use crate::archive::error::{ExtractionFailure, FetchError, FetchErrorView};
use crate::archive::fetch_url::{check_url_parses, url_parse};
use crate::archive::views::result_view;

verus! {

/// The readable part of a page: its title, and its main content as HTML.
#[derive(Clone, Debug, PartialEq, Eq)]
pub struct Article {
    pub title: String,
    pub content: String,
}

/// An `Article` with its texts as sequences of characters.
pub struct ArticleView {
    pub title: Seq<char>,
    pub content: Seq<char>,
}

impl View for Article {
    type V = ArticleView;

    open spec fn view(&self) -> ArticleView {
        ArticleView { title: self.title@, content: self.content@ }
    }
}

impl View for ExtractionFailure {
    type V = ExtractionFailure;

    open spec fn view(&self) -> ExtractionFailure {
        *self
    }
}

/// What readability extraction makes of a page: the title and the main
/// content that it finds, not yet sanitized, or why it finds none.
pub uninterp spec fn extracted_article(html: Seq<char>) -> Result<ArticleView, ExtractionFailure>;

/// What sanitizing makes of a fragment of HTML whose relative URLs are read
/// against the URL `base_url`.
pub uninterp spec fn sanitized_html(html: Seq<char>, base_url: Seq<char>) -> Seq<char>;

/// `legible::parse`, without a base URL and with the crate's default
/// options. The outcome depends on the page alone; `extracted_article` is
/// the name for it. Of the article the title and the content are kept; an
/// error is handed on variant by variant. The crate keeps the nodes of a
/// page in an arena that is indexed by `u32`, and panics on a page that
/// would need more of them: no statement here excludes such a page.
#[verifier::external_body]
fn extract_article(html: &str) -> (extracted: Result<Article, ExtractionFailure>)
    ensures
        result_view(extracted) == extracted_article(html@),
{
    match legible::parse(html, None, None) {
        Ok(article) => Ok(Article { title: article.title, content: article.content }),
        Err(legible::Error::TooManyElements(found, limit)) => {
            Err(ExtractionFailure::TooManyElements(found, limit))
        },
        Err(legible::Error::NoContent) => Err(ExtractionFailure::NoContent),
        Err(legible::Error::NoBody) => Err(ExtractionFailure::NoBody),
        Err(legible::Error::InvalidUrl(_)) => Err(ExtractionFailure::InvalidUrl),
    }
}

/// `ammonia::Builder::clean` on a builder with the crate's defaults and
/// `UrlRelative::RewriteWithBase` of the URL that `url::Url::parse` makes of
/// `base_url`. The outcome depends on the two texts alone; `sanitized_html`
/// is the name for it.
#[verifier::external_body]
fn sanitize_html(html: &str, base_url: &str) -> (clean: String)
    requires
        url_parse(base_url@) is Some,
    ensures
        clean@ == sanitized_html(html@, base_url@),
{
    let mut builder = ammonia::Builder::default();
    if let Ok(base) = url::Url::parse(base_url) {
        builder.url_relative(ammonia::UrlRelative::RewriteWithBase(base));
    }
    builder.clean(html).to_string()
}

/// The article that is stored for what extraction gave: the same title, and
/// the content sanitized against the page's URL. A failed extraction is
/// handed on as the reason why there is no article.
pub open spec fn spec_sanitize_extracted(
    extracted: Result<ArticleView, ExtractionFailure>,
    base_url: Seq<char>,
) -> Result<ArticleView, FetchErrorView> {
    match extracted {
        Err(reason) => Err(FetchErrorView::ExtractionFailed(reason)),
        Ok(article) => Ok(
            ArticleView {
                title: article.title,
                content: sanitized_html(article.content, base_url),
            },
        ),
    }
}

/// The article that is stored for a page fetched from `base_url`. A base
/// that is no URL is refused before anything is extracted.
pub open spec fn spec_make_readable(base_url: Seq<char>, html: Seq<char>) -> Result<
    ArticleView,
    FetchErrorView,
> {
    if url_parse(base_url) is None {
        Err(FetchErrorView::InvalidUrl)
    } else {
        spec_sanitize_extracted(extracted_article(html), base_url)
    }
}

/// Sanitizes the content of an extracted article against the URL of its
/// page, and hands a failed extraction on.
pub fn sanitize_extracted(
    extracted: Result<Article, ExtractionFailure>,
    base_url: &str,
) -> (article: Result<Article, FetchError>)
    requires
        url_parse(base_url@) is Some,
    ensures
        result_view(article) == spec_sanitize_extracted(result_view(extracted), base_url@),
{
    match extracted {
        Err(reason) => Err(FetchError::ExtractionFailed(reason)),
        Ok(found) => {
            let clean = sanitize_html(found.content.as_str(), base_url);
            Ok(Article { title: found.title, content: clean })
        },
    }
}

/// Extracts the article of a page and sanitizes it for storage.
pub fn make_readable(base_url: &str, html: &str) -> (article: Result<Article, FetchError>)
    ensures
        result_view(article) == spec_make_readable(base_url@, html@),
{
    if !check_url_parses(base_url) {
        return Err(FetchError::InvalidUrl);
    }
    sanitize_extracted(extract_article(html), base_url)
}

/// What an attempt to fetch a page and make it readable comes to: the
/// failure of the fetch where it failed, and else what extraction and
/// sanitizing make of the page.
pub open spec fn spec_extract_fetched(
    url: Seq<char>,
    fetched: Result<Seq<char>, FetchErrorView>,
) -> Result<ArticleView, FetchErrorView> {
    match fetched {
        Err(error) => Err(error),
        Ok(html) => spec_make_readable(url, html),
    }
}

/// Makes the article of a page that was fetched from `url`, and hands the
/// failure of a fetch on.
pub fn extract_fetched(url: &str, fetched: Result<String, FetchError>) -> (article: Result<
    Article,
    FetchError,
>)
    ensures
        result_view(article) == spec_extract_fetched(url@, result_view(fetched)),
{
    match fetched {
        Err(error) => Err(error),
        Ok(html) => make_readable(url, html.as_str()),
    }
}

/// Sanitizing adds no failure of its own: where the base is a URL, there is
/// an article exactly where extraction found one, with the title that was
/// found, and a failed extraction is the only error.
pub proof fn law_sanitizing_adds_no_failure(base_url: Seq<char>, html: Seq<char>)
    requires
        url_parse(base_url) is Some,
    ensures
        spec_make_readable(base_url, html) is Ok <==> extracted_article(html) is Ok,
        extracted_article(html) matches Ok(found) ==> spec_make_readable(base_url, html) == Ok::<
            ArticleView,
            FetchErrorView,
        >(ArticleView { title: found.title, content: sanitized_html(found.content, base_url) }),
        extracted_article(html) matches Err(reason) ==> spec_make_readable(base_url, html) == Err::<
            ArticleView,
            FetchErrorView,
        >(FetchErrorView::ExtractionFailed(reason)),
{
}

} // verus!
