//! Decision logic of the single-call provider (Google Books style).
//!
//! One search request against a volumes endpoint answers a lookup. The logic
//! here builds the search query, classifies the call's outcome into the
//! shared error taxonomy, and shapes the first returned volume into a
//! [`Book`](crate::Book). The HTTP call itself and the JSON decoding of the
//! body are the transport layer's work; they reach this module only as a
//! [`CallOutcome`] over the plain payload shape below.

use vstd::prelude::*;

use crate::outcome::{CallOutcome, CallOutcomeView};
use crate::{
    build_rating, lookup_result_view, rating_from_source, Book, BookView, ClientError,
    ClientErrorView,
};

verus! {

/// The fields of one volume that a lookup consumes, each absent where the
/// source payload omitted it.
#[derive(Debug)]
pub struct VolumeInfo {
    pub description: Option<String>,
    pub page_count: Option<u32>,
    /// Average rating in hundredths of a rating unit; `None` where the source
    /// reports none.
    pub average_rating: Option<u32>,
    pub ratings_count: Option<u32>,
}

/// One item of the result list of a volumes search.
#[derive(Debug)]
pub struct VolumeItem {
    pub info: VolumeInfo,
}

/// The decoded payload of a volumes search: the result list, absent where the
/// response carried none.
#[derive(Debug)]
pub struct Volume {
    pub items: Option<Vec<VolumeItem>>,
}

/// Mathematical image of a [`VolumeInfo`].
#[verifier::ext_equal]
pub struct VolumeInfoView {
    pub description: Option<Seq<char>>,
    pub page_count: Option<u32>,
    pub average_rating: Option<u32>,
    pub ratings_count: Option<u32>,
}

impl View for VolumeInfo {
    type V = VolumeInfoView;

    open spec fn view(&self) -> VolumeInfoView {
        VolumeInfoView {
            description: match self.description {
                Option::Some(d) => Option::Some(d@),
                Option::None => Option::None,
            },
            page_count: self.page_count,
            average_rating: self.average_rating,
            ratings_count: self.ratings_count,
        }
    }
}

impl View for VolumeItem {
    type V = VolumeInfoView;

    open spec fn view(&self) -> VolumeInfoView {
        self.info@
    }
}

/// Mathematical image of a [`Volume`].
#[verifier::ext_equal]
pub struct VolumeView {
    pub items: Option<Seq<VolumeInfoView>>,
}

impl View for Volume {
    type V = VolumeView;

    open spec fn view(&self) -> VolumeView {
        VolumeView {
            items: match self.items {
                Option::Some(list) => Option::Some(list@.map_values(|it: VolumeItem| it@)),
                Option::None => Option::None,
            },
        }
    }
}

/// The query string of an identifier lookup: the ISBN as a scoped term.
pub open spec fn spec_isbn_query(isbn: Seq<char>) -> Seq<char> {
    "isbn:"@ + isbn
}

/// Builds the search query of an identifier lookup.
pub fn isbn_query(isbn: &str) -> (q: String)
    ensures
        q@ == spec_isbn_query(isbn@),
{
    let q = String::from_str("isbn:");
    q.concat(isbn)
}

/// The query string of a free-text lookup: author and title as scoped terms,
/// joined by the endpoint's logical-AND syntax.
pub open spec fn spec_author_title_query(author: Seq<char>, title: Seq<char>) -> Seq<char> {
    "inauthor:"@ + author + " intitle:"@ + title
}

/// Builds the search query of a free-text lookup by author and title.
pub fn author_title_query(author: &str, title: &str) -> (q: String)
    ensures
        q@ == spec_author_title_query(author@, title@),
{
    let q = String::from_str("inauthor:");
    let q = q.concat(author);
    let q = q.concat(" intitle:");
    q.concat(title)
}

/// How this provider maps a completed non-success response onto the taxonomy:
/// 429 and 403 signal throttling; every other status keeps its code and body.
pub open spec fn spec_failure_error(status: u16, body: Seq<char>) -> ClientErrorView {
    if status == 429 || status == 403 {
        ClientErrorView::RateLimitExceeded
    } else {
        ClientErrorView::Http(status, body)
    }
}

/// The book shaped from one volume: absent page count becomes 0, absent
/// description becomes the empty string, and the rating follows the shared
/// presence policy.
pub open spec fn spec_book_of(info: VolumeInfoView, link: Seq<char>) -> BookView {
    BookView {
        page_count: match info.page_count {
            Option::Some(count) => count,
            Option::None => 0,
        },
        description: match info.description {
            Option::Some(d) => d,
            Option::None => Seq::empty(),
        },
        provider_link: link,
        rating: rating_from_source(info.average_rating, info.ratings_count),
    }
}

/// The whole single-call lookup as a function of the call's outcome:
/// - a transport failure or an undecodable success body keeps its text;
/// - a non-success status maps per [`spec_failure_error`];
/// - a success whose result list is absent or empty finds nothing;
/// - otherwise the first volume of the list becomes the book.
pub open spec fn spec_lookup(o: CallOutcomeView<VolumeView>, link: Seq<char>) -> Result<
    BookView,
    ClientErrorView,
> {
    match o {
        CallOutcomeView::Transport(text) => Result::Err(ClientErrorView::InternalClient(text)),
        CallOutcomeView::Failure(status, body) => Result::Err(spec_failure_error(status, body)),
        CallOutcomeView::Malformed(text) => Result::Err(ClientErrorView::InternalClient(text)),
        CallOutcomeView::Success(volume) => match volume.items {
            Option::None => Result::Err(ClientErrorView::NotFound),
            Option::Some(items) => if items.len() == 0 {
                Result::Err(ClientErrorView::NotFound)
            } else {
                Result::Ok(spec_book_of(items[0], link))
            },
        },
    }
}

/// Shapes one volume into a [`Book`], with the given provider link.
pub fn book_of(info: &VolumeInfo, provider_link: &str) -> (b: Book)
    ensures
        b@ == spec_book_of(info@, provider_link@),
{
    let page_count: u32 = match &info.page_count {
        Option::Some(count) => *count,
        Option::None => 0,
    };
    let rating = build_rating(info.average_rating, info.ratings_count);
    let description: String = match &info.description {
        Option::Some(d) => d.clone(),
        Option::None => String::new(),
    };
    let mut book = Book::new(page_count, description.as_str(), provider_link);
    book.rating = rating;
    book
}

/// Evaluates a single-call lookup from the outcome of its one request.
///
/// Every caller-visible decision of the provider stands in the contract: the
/// result equals [`spec_lookup`] of the outcome, whatever the outcome is.
pub fn evaluate_lookup(outcome: CallOutcome<Volume>, provider_link: &str) -> (r: Result<
    Book,
    ClientError,
>)
    ensures
        lookup_result_view(r) == spec_lookup(outcome@, provider_link@),
{
    match outcome {
        CallOutcome::Transport(text) => Result::Err(ClientError::InternalClient(text)),
        CallOutcome::Failure(status, body) => {
            if status == 429 || status == 403 {
                Result::Err(ClientError::RateLimitExceeded)
            } else {
                Result::Err(ClientError::Http(status, body))
            }
        },
        CallOutcome::Malformed(text) => Result::Err(ClientError::InternalClient(text)),
        CallOutcome::Success(volume) => {
            match volume.items {
                Option::None => Result::Err(ClientError::NotFound),
                Option::Some(items) => {
                    if items.len() == 0 {
                        Result::Err(ClientError::NotFound)
                    } else {
                        Result::Ok(book_of(&items[0].info, provider_link))
                    }
                },
            }
        },
    }
}

/// Law: a completed response with status 429 or 403 yields
/// `RateLimitExceeded`, whatever the body holds.
pub proof fn lemma_rate_limit(status: u16, body: Seq<char>, link: Seq<char>)
    requires
        status == 429 || status == 403,
    ensures
        spec_lookup(CallOutcomeView::Failure(status, body), link) == Result::<
            BookView,
            ClientErrorView,
        >::Err(ClientErrorView::RateLimitExceeded),
{
}

/// Law: a completed non-success response with any other status yields `Http`
/// carrying exactly that status and body.
pub proof fn lemma_http_error_preserved(status: u16, body: Seq<char>, link: Seq<char>)
    requires
        status != 429,
        status != 403,
    ensures
        spec_lookup(CallOutcomeView::Failure(status, body), link) == Result::<
            BookView,
            ClientErrorView,
        >::Err(ClientErrorView::Http(status, body)),
{
}

/// Law: a successful response whose result list is absent or empty yields
/// `NotFound`.
pub proof fn lemma_empty_results_not_found(volume: VolumeView, link: Seq<char>)
    requires
        match volume.items {
            Option::Some(items) => items.len() == 0,
            Option::None => true,
        },
    ensures
        spec_lookup(CallOutcomeView::Success(volume), link) == Result::<
            BookView,
            ClientErrorView,
        >::Err(ClientErrorView::NotFound),
{
}

/// Law: a successful lookup defaults what the payload omitted — an absent
/// page count becomes 0 and an absent description becomes the empty string —
/// always places the provider link, and takes the rating from the shared
/// presence policy; absence is never an error.
pub proof fn lemma_absent_fields_defaulted(info: VolumeInfoView, link: Seq<char>)
    ensures
        info.page_count is None ==> spec_book_of(info, link).page_count == 0,
        info.description is None ==> spec_book_of(info, link).description
            == Seq::<char>::empty(),
        spec_book_of(info, link).provider_link == link,
        spec_book_of(info, link).rating == rating_from_source(
            info.average_rating,
            info.ratings_count,
        ),
{
}

/// Law: a lookup is a function of the call's outcome and the provider link
/// alone, so repeating it over an unchanged backing dataset decides equally.
pub proof fn lemma_lookup_idempotent(
    first: CallOutcomeView<VolumeView>,
    second: CallOutcomeView<VolumeView>,
    first_link: Seq<char>,
    second_link: Seq<char>,
)
    requires
        first == second,
        first_link == second_link,
    ensures
        spec_lookup(first, first_link) == spec_lookup(second, second_link),
{
}

} // verus!
