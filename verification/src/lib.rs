//! Normalized book metadata retrieved from third-party catalog services.
//!
//! Every provider client answers a lookup with the same data shape, [`Book`],
//! or with one kind out of the same closed error set, [`ClientError`], no
//! matter how many calls the provider needed or how its failures are spelled.
//! The decision logic of each provider lives here as plain functions over the
//! decoded call outcomes; the transport layer performs the calls and hands
//! their outcomes in.

use vstd::prelude::*;

pub mod googlebooks;
pub mod openlibrary;
pub mod outcome;
pub mod params;

verus! {

/// Rating data retrieved from third-party services.
///
/// The average score is kept in hundredths of a rating unit, so a source
/// average of 4.5 is stored as 450.
#[derive(Debug, PartialEq, Clone, Copy)]
pub struct Rating {
    /// Average score in hundredths of a rating unit.
    pub average_rating: u32,
    /// Number of ratings given.
    pub ratings_count: u32,
}

/// Book data retrieved from third-party services supported by the crate.
///
/// Data retrieved by clients, in some cases by multiple API calls, is
/// aggregated and returned as this type.
///
/// `page_count` is 0 if not provided by the third-party service.
/// `description` is empty if not provided by the third-party service.
/// `rating` is absent when the service reports no usable rating data.
#[derive(Debug, PartialEq)]
pub struct Book {
    /// Number of pages, 0 if not provided by the third-party service.
    pub page_count: u32,
    /// Book description, empty if not provided by the third-party service.
    pub description: String,
    /// Link to view the book at the third-party service.
    pub provider_link: String,
    pub rating: Option<Rating>,
}

/// An error that occurs while looking a book up at a third-party service.
///
/// The variants form a closed taxonomy shared by every provider client, so a
/// caller can tell "retry later" from "nothing exists" from "the integration
/// is broken" without reading provider-specific status codes.
#[derive(Debug, PartialEq)]
pub enum ClientError {
    /// The underlying HTTP call could not complete (connection, timeout), or a
    /// successful response carried a body that could not be decoded; holds the
    /// reported error's text.
    InternalClient(String),
    /// The service answered with a status that signals throttling
    /// (429, or 403 where the service overloads that code for quota).
    RateLimitExceeded,
    /// The service completed the call but no matching record exists.
    NotFound,
    /// Any other response with a status outside the success range; holds the
    /// status code and the raw response body.
    Http(u16, String),
}

/// Mathematical image of a [`Rating`].
#[verifier::ext_equal]
pub struct RatingView {
    pub average_rating: u32,
    pub ratings_count: u32,
}

impl View for Rating {
    type V = RatingView;

    open spec fn view(&self) -> RatingView {
        RatingView { average_rating: self.average_rating, ratings_count: self.ratings_count }
    }
}

/// Image of an optional [`Rating`].
pub open spec fn opt_rating_view(r: Option<Rating>) -> Option<RatingView> {
    match r {
        Option::Some(rating) => Option::Some(rating@),
        Option::None => Option::None,
    }
}

/// Image of an optional owned string.
pub open spec fn opt_string_view(s: Option<String>) -> Option<Seq<char>> {
    match s {
        Option::Some(text) => Option::Some(text@),
        Option::None => Option::None,
    }
}

/// Mathematical image of a [`Book`].
#[verifier::ext_equal]
pub struct BookView {
    pub page_count: u32,
    pub description: Seq<char>,
    pub provider_link: Seq<char>,
    pub rating: Option<RatingView>,
}

impl View for Book {
    type V = BookView;

    open spec fn view(&self) -> BookView {
        BookView {
            page_count: self.page_count,
            description: self.description@,
            provider_link: self.provider_link@,
            rating: opt_rating_view(self.rating),
        }
    }
}

/// Mathematical image of a [`ClientError`].
#[verifier::ext_equal]
pub enum ClientErrorView {
    InternalClient(Seq<char>),
    RateLimitExceeded,
    NotFound,
    Http(u16, Seq<char>),
}

impl View for ClientError {
    type V = ClientErrorView;

    open spec fn view(&self) -> ClientErrorView {
        match self {
            ClientError::InternalClient(text) => ClientErrorView::InternalClient(text@),
            ClientError::RateLimitExceeded => ClientErrorView::RateLimitExceeded,
            ClientError::NotFound => ClientErrorView::NotFound,
            ClientError::Http(status, body) => ClientErrorView::Http(*status, body@),
        }
    }
}

/// Image of a lookup result, for stating contracts over whole outcomes.
pub open spec fn lookup_result_view(r: Result<Book, ClientError>) -> Result<
    BookView,
    ClientErrorView,
> {
    match r {
        Result::Ok(book) => Result::Ok(book@),
        Result::Err(err) => Result::Err(err@),
    }
}

/// Which rating a provider reports as genuinely present.
///
/// A rating exists only when the source reports both an average and a count,
/// and the two are not both zero; a zero-filled pair is "no data", not a real
/// zero-valued rating.
pub open spec fn rating_from_source(average: Option<u32>, count: Option<u32>) -> Option<
    RatingView,
> {
    match (average, count) {
        (Option::Some(a), Option::Some(c)) => if a == 0 && c == 0 {
            Option::None
        } else {
            Option::Some(RatingView { average_rating: a, ratings_count: c })
        },
        _ => Option::None,
    }
}

/// Law: a rating is absent exactly where the source reports no average or no
/// count, or reports both as zero; where present it carries the source's
/// average and count unchanged.
pub proof fn lemma_rating_presence(average: Option<u32>, count: Option<u32>)
    ensures
        (rating_from_source(average, count) is None) <==> (average is None || count is None || (
        average == Option::Some(0u32) && count == Option::Some(0u32))),
        rating_from_source(average, count) matches Option::Some(r) ==> average == Option::Some(
            r.average_rating,
        ) && count == Option::Some(r.ratings_count),
{
}

impl Rating {
    /// Returns a new rating.
    ///
    /// Meant only to be created for ratings that are valid and exist, that is
    /// where the source reports rating data at all; [`build_rating`] applies
    /// that policy.
    pub fn new(average_rating: u32, ratings_count: u32) -> (r: Self)
        ensures
            r@ == (RatingView { average_rating, ratings_count }),
    {
        Self { average_rating, ratings_count }
    }
}

/// Builds the optional rating of a [`Book`] from what the source reported,
/// applying the shared presence policy: a rating exists only when average and
/// count are both present and not both zero.
pub fn build_rating(average: Option<u32>, count: Option<u32>) -> (r: Option<Rating>)
    ensures
        opt_rating_view(r) == rating_from_source(average, count),
{
    match (average, count) {
        (Option::Some(a), Option::Some(c)) => {
            if a == 0 && c == 0 {
                Option::None
            } else {
                Option::Some(Rating::new(a, c))
            }
        },
        _ => Option::None,
    }
}

impl Book {
    /// Returns a Book with defaults for optional data.
    ///
    /// - rating is optional, and by default is `None`
    pub fn new(page_count: u32, description: &str, provider_link: &str) -> (b: Self)
        ensures
            b@ == (BookView {
                page_count,
                description: description@,
                provider_link: provider_link@,
                rating: Option::<RatingView>::None,
            }),
    {
        Self {
            page_count,
            description: String::from_str(description),
            provider_link: String::from_str(provider_link),
            rating: Option::None,
        }
    }

    /// Returns a Book with required data and ratings.
    pub fn new_with_rating(
        page_count: u32,
        description: &str,
        provider_link: &str,
        rating: Rating,
    ) -> (b: Self)
        ensures
            b@ == (BookView {
                page_count,
                description: description@,
                provider_link: provider_link@,
                rating: Option::Some(rating@),
            }),
    {
        let mut book = Book::new(page_count, description, provider_link);
        book.rating = Option::Some(rating);
        book
    }
}

} // verus!
