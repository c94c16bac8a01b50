//! The record of one archival attempt.
//!
//! An attempt ends in one of two ways, and its record is whole either way:
//! a success holds the extracted HTML and no description of an error, a
//! failure holds the description and no HTML.

use vstd::prelude::*;
use crate::archive::error::{FetchError, FetchErrorView};
use crate::archive::readability::{Article, ArticleView};
use crate::archive::views::option_view;

verus! {

/// How an archival attempt ended.
#[derive(Clone, Copy, Debug, PartialEq, Eq, Structural)]
pub enum Status {
    Success,
    Error,
}

/// Whether the three fields make a whole record: HTML and no description
/// for a success, a description and no HTML for an error.
pub open spec fn is_whole_record(
    status: Status,
    error_description: Option<Seq<char>>,
    extracted_html: Option<Seq<char>>,
) -> bool {
    match status {
        Status::Success => error_description is None && extracted_html is Some,
        Status::Error => error_description is Some && extracted_html is None,
    }
}

/// What an archival attempt hands to storage for a bookmark.
#[derive(Clone, Debug, PartialEq, Eq)]
pub struct NewArchive {
    pub bookmark_id: u128,
    pub status: Status,
    pub error_description: Option<String>,
    pub extracted_html: Option<String>,
}

/// A `NewArchive` with its texts as sequences of characters.
pub struct NewArchiveView {
    pub bookmark_id: u128,
    pub status: Status,
    pub error_description: Option<Seq<char>>,
    pub extracted_html: Option<Seq<char>>,
}

impl View for NewArchive {
    type V = NewArchiveView;

    open spec fn view(&self) -> NewArchiveView {
        NewArchiveView {
            bookmark_id: self.bookmark_id,
            status: self.status,
            error_description: option_view(self.error_description),
            extracted_html: option_view(self.extracted_html),
        }
    }
}

impl NewArchiveView {
    /// The record is that of a success or that of an error, never a mixture.
    pub open spec fn wf(self) -> bool {
        is_whole_record(self.status, self.error_description, self.extracted_html)
    }

    /// The record of an attempt for the bookmark: of its success where there
    /// is an article, with the article's content, and of its failure where
    /// there is none, with the error in words.
    pub open spec fn of_attempt(
        bookmark_id: u128,
        article: Result<ArticleView, FetchErrorView>,
    ) -> NewArchiveView {
        match article {
            Ok(found) => NewArchiveView {
                bookmark_id,
                status: Status::Success,
                error_description: None,
                extracted_html: Some(found.content),
            },
            Err(error) => NewArchiveView {
                bookmark_id,
                status: Status::Error,
                error_description: Some(error.description()),
                extracted_html: None,
            },
        }
    }
}

impl NewArchive {
    /// The record of an attempt to archive the bookmark.
    pub fn new(bookmark_id: u128, article: Result<Article, FetchError>) -> (record: NewArchive)
        ensures
            record@ == NewArchiveView::of_attempt(
                bookmark_id,
                crate::archive::views::result_view(article),
            ),
            record@.wf(),
    {
        match article {
            Ok(found) => NewArchive {
                bookmark_id,
                status: Status::Success,
                error_description: None,
                extracted_html: Some(found.content),
            },
            Err(error) => NewArchive {
                bookmark_id,
                status: Status::Error,
                error_description: Some(error.description()),
                extracted_html: None,
            },
        }
    }
}

/// A stored archive: what an attempt handed to storage, with the identifier
/// and the time of creation that storage gave it.
#[derive(Clone, Debug, PartialEq, Eq)]
pub struct Archive {
    pub id: u128,
    pub bookmark_id: u128,
    /// Nanoseconds since the Unix epoch.
    pub created_at: i128,
    pub status: Status,
    pub error_description: Option<String>,
    pub extracted_html: Option<String>,
}

/// An `Archive` with its texts as sequences of characters.
pub struct ArchiveView {
    pub id: u128,
    pub bookmark_id: u128,
    pub created_at: i128,
    pub status: Status,
    pub error_description: Option<Seq<char>>,
    pub extracted_html: Option<Seq<char>>,
}

impl View for Archive {
    type V = ArchiveView;

    open spec fn view(&self) -> ArchiveView {
        ArchiveView {
            id: self.id,
            bookmark_id: self.bookmark_id,
            created_at: self.created_at,
            status: self.status,
            error_description: option_view(self.error_description),
            extracted_html: option_view(self.extracted_html),
        }
    }
}

impl ArchiveView {
    /// The record is that of a success or that of an error, never a mixture.
    pub open spec fn wf(self) -> bool {
        is_whole_record(self.status, self.error_description, self.extracted_html)
    }

    /// What was handed to storage.
    pub open spec fn content(self) -> NewArchiveView {
        NewArchiveView {
            bookmark_id: self.bookmark_id,
            status: self.status,
            error_description: self.error_description,
            extracted_html: self.extracted_html,
        }
    }
}

impl Archive {
    /// The stored form of a record, under the identifier and the time of
    /// creation that storage gave it.
    pub fn stored(id: u128, created_at: i128, record: NewArchive) -> (archive: Archive)
        ensures
            archive@.id == id,
            archive@.created_at == created_at,
            archive@.content() == record@,
            archive@.wf() == record@.wf(),
    {
        Archive {
            id,
            bookmark_id: record.bookmark_id,
            created_at,
            status: record.status,
            error_description: record.error_description,
            extracted_html: record.extracted_html,
        }
    }

    /// Whether the record is whole: that of a success or that of an error,
    /// never a mixture.
    pub fn is_whole(&self) -> (whole: bool)
        ensures
            whole == self@.wf(),
    {
        match self.status {
            Status::Success => self.error_description.is_none() && self.extracted_html.is_some(),
            Status::Error => self.error_description.is_some() && self.extracted_html.is_none(),
        }
    }
}

/// Whatever the attempt came to, its record is whole, belongs to the
/// bookmark, and tells a success from a failure as the attempt does.
pub proof fn law_record_is_whole(bookmark_id: u128, article: Result<ArticleView, FetchErrorView>)
    ensures
        NewArchiveView::of_attempt(bookmark_id, article).wf(),
        NewArchiveView::of_attempt(bookmark_id, article).bookmark_id == bookmark_id,
        NewArchiveView::of_attempt(bookmark_id, article).status == Status::Success
            <==> article is Ok,
{
}

} // verus!
