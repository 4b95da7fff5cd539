//! Decision logic of the multi-call provider (Open Library style).
//!
//! This provider splits one book across three records: the edition record
//! (reached by ISBN), the work record shared by its editions (holding the
//! description), and a ratings record keyed off the work. A lookup is a short
//! session: the caller performs one HTTP call at a time and feeds each
//! outcome into the [`Lookup`] state machine, which decides what to fetch
//! next and how to merge what arrived. Only the edition call is required;
//! the work and ratings calls are enrichment, and their failure degrades the
//! result instead of failing it.

use vstd::prelude::*;

use crate::outcome::{CallOutcome, CallOutcomeView};
use crate::{
    lookup_result_view, opt_rating_view, opt_string_view, rating_from_source, Book, BookView,
    ClientError, ClientErrorView, Rating, RatingView,
};

verus! {

/// The fields of an edition record that a lookup consumes, each absent where
/// the source payload omitted it.
#[derive(Debug)]
pub struct EditionRecord {
    pub page_count: Option<u32>,
    /// Reference to the parent work record, where the edition names one.
    pub work_key: Option<String>,
}

/// The fields of a work record that a lookup consumes.
#[derive(Debug)]
pub struct WorkRecord {
    pub description: Option<String>,
}

/// The fields of a ratings record that a lookup consumes.
#[derive(Debug)]
pub struct RatingsRecord {
    /// Average rating in hundredths of a rating unit; `None` where the source
    /// reports none.
    pub average_rating: Option<u32>,
    pub ratings_count: Option<u32>,
}

/// Mathematical image of an [`EditionRecord`].
#[verifier::ext_equal]
pub struct EditionRecordView {
    pub page_count: Option<u32>,
    pub work_key: Option<Seq<char>>,
}

impl View for EditionRecord {
    type V = EditionRecordView;

    open spec fn view(&self) -> EditionRecordView {
        EditionRecordView {
            page_count: self.page_count,
            work_key: opt_string_view(self.work_key),
        }
    }
}

/// Mathematical image of a [`WorkRecord`].
#[verifier::ext_equal]
pub struct WorkRecordView {
    pub description: Option<Seq<char>>,
}

impl View for WorkRecord {
    type V = WorkRecordView;

    open spec fn view(&self) -> WorkRecordView {
        WorkRecordView { description: opt_string_view(self.description) }
    }
}

/// Mathematical image of a [`RatingsRecord`].
#[verifier::ext_equal]
pub struct RatingsRecordView {
    pub average_rating: Option<u32>,
    pub ratings_count: Option<u32>,
}

impl View for RatingsRecord {
    type V = RatingsRecordView;

    open spec fn view(&self) -> RatingsRecordView {
        RatingsRecordView {
            average_rating: self.average_rating,
            ratings_count: self.ratings_count,
        }
    }
}

/// The page of results of a free-text search: the keys of the found works,
/// absent where the response carried none.
///
/// A free-text lookup has no edition record; the first found work stands in
/// for the edition reference, and the page count defaults.
#[derive(Debug)]
pub struct SearchPage {
    pub keys: Option<Vec<String>>,
}

/// Mathematical image of a [`SearchPage`].
#[verifier::ext_equal]
pub struct SearchPageView {
    pub keys: Option<Seq<Seq<char>>>,
}

impl View for SearchPage {
    type V = SearchPageView;

    open spec fn view(&self) -> SearchPageView {
        SearchPageView {
            keys: match self.keys {
                Option::Some(list) => Option::Some(list@.map_values(|key: String| key@)),
                Option::None => Option::None,
            },
        }
    }
}

/// Where a lookup session stands.
#[derive(Debug)]
pub enum Phase {
    /// Waiting for the outcome of the edition (primary) call.
    Primary,
    /// The edition arrived and names a work; waiting for the work call.
    Work { edition: EditionRecord, work_key: String },
    /// The work step settled; waiting for the ratings call.
    Ratings { edition: EditionRecord, description: Option<String> },
    /// The lookup is decided.
    Done { result: Result<Book, ClientError> },
}

/// Mathematical image of a [`Phase`].
#[verifier::ext_equal]
pub enum PhaseView {
    Primary,
    Work { edition: EditionRecordView, work_key: Seq<char> },
    Ratings { edition: EditionRecordView, description: Option<Seq<char>> },
    Done { result: Result<BookView, ClientErrorView> },
}

impl View for Phase {
    type V = PhaseView;

    open spec fn view(&self) -> PhaseView {
        match self {
            Phase::Primary => PhaseView::Primary,
            Phase::Work { edition, work_key } => PhaseView::Work {
                edition: edition@,
                work_key: work_key@,
            },
            Phase::Ratings { edition, description } => PhaseView::Ratings {
                edition: edition@,
                description: opt_string_view(*description),
            },
            Phase::Done { result } => PhaseView::Done { result: lookup_result_view(*result) },
        }
    }
}

/// What the caller is to do next with a lookup session.
#[derive(Debug)]
pub enum StepAction {
    /// Fetch the work record named by this key and feed the outcome to
    /// [`Lookup::on_work`].
    FetchWork(String),
    /// Fetch the ratings record of the work named by this key and feed the
    /// outcome to [`Lookup::on_ratings`].
    FetchRatings(String),
    /// Nothing is left to fetch: take the result with
    /// [`Lookup::into_result`].
    Finished,
}

/// Mathematical image of a [`StepAction`].
#[verifier::ext_equal]
pub enum StepActionView {
    FetchWork(Seq<char>),
    FetchRatings(Seq<char>),
    Finished,
}

impl View for StepAction {
    type V = StepActionView;

    open spec fn view(&self) -> StepActionView {
        match self {
            StepAction::FetchWork(key) => StepActionView::FetchWork(key@),
            StepAction::FetchRatings(key) => StepActionView::FetchRatings(key@),
            StepAction::Finished => StepActionView::Finished,
        }
    }
}

/// One lookup session against the multi-call provider.
#[derive(Debug)]
pub struct Lookup {
    /// Link to the edition record at the provider, placed into the book.
    pub provider_link: String,
    pub phase: Phase,
}

/// Mathematical image of a [`Lookup`].
#[verifier::ext_equal]
pub struct LookupView {
    pub provider_link: Seq<char>,
    pub phase: PhaseView,
}

impl View for Lookup {
    type V = LookupView;

    open spec fn view(&self) -> LookupView {
        LookupView { provider_link: self.provider_link@, phase: self.phase@ }
    }
}

/// How this provider maps a completed non-success primary response onto the
/// taxonomy: 429 and 403 signal throttling, 404 means the edition does not
/// exist, and every other status keeps its code and body.
pub open spec fn spec_primary_failure_error(status: u16, body: Seq<char>) -> ClientErrorView {
    if status == 429 || status == 403 {
        ClientErrorView::RateLimitExceeded
    } else if status == 404 {
        ClientErrorView::NotFound
    } else {
        ClientErrorView::Http(status, body)
    }
}

/// The merged book: page count from the edition record, description from the
/// work record, rating as given, link to the edition record; absent fields
/// take their defaults.
pub open spec fn spec_merge(
    edition: EditionRecordView,
    description: Option<Seq<char>>,
    rating: Option<RatingView>,
    link: Seq<char>,
) -> BookView {
    BookView {
        page_count: match edition.page_count {
            Option::Some(count) => count,
            Option::None => 0,
        },
        description: match description {
            Option::Some(d) => d,
            Option::None => Seq::empty(),
        },
        provider_link: link,
        rating,
    }
}

/// The transition out of the primary phase: a failing outcome of any kind
/// decides the lookup at once with the mapped taxonomy kind; a successful
/// outcome proceeds to the work call where the edition names a work, and
/// otherwise decides the lookup with a book built from the edition alone.
pub open spec fn spec_on_primary(
    link: Seq<char>,
    o: CallOutcomeView<EditionRecordView>,
) -> (PhaseView, StepActionView) {
    match o {
        CallOutcomeView::Transport(text) => (
            PhaseView::Done {
                result: Result::Err(ClientErrorView::InternalClient(text)),
            },
            StepActionView::Finished,
        ),
        CallOutcomeView::Failure(status, body) => (
            PhaseView::Done { result: Result::Err(spec_primary_failure_error(status, body)) },
            StepActionView::Finished,
        ),
        CallOutcomeView::Malformed(text) => (
            PhaseView::Done {
                result: Result::Err(ClientErrorView::InternalClient(text)),
            },
            StepActionView::Finished,
        ),
        CallOutcomeView::Success(edition) => match edition.work_key {
            Option::Some(key) => (
                PhaseView::Work { edition, work_key: key },
                StepActionView::FetchWork(key),
            ),
            Option::None => (
                PhaseView::Done {
                    result: Result::Ok(
                        spec_merge(edition, Option::None, Option::None, link),
                    ),
                },
                StepActionView::Finished,
            ),
        },
    }
}

/// The transition out of the primary phase of a free-text lookup: failures
/// map exactly as [`spec_on_primary`]'s do; a successful search whose result
/// list is absent or empty finds nothing; otherwise the first found work
/// stands in for the edition reference — the page count left absent, the
/// provider link extended to the work's address — and the work call follows.
pub open spec fn spec_on_search(base: Seq<char>, o: CallOutcomeView<SearchPageView>) -> (
    Seq<char>,
    PhaseView,
    StepActionView,
) {
    match o {
        CallOutcomeView::Transport(text) => (
            base,
            PhaseView::Done { result: Result::Err(ClientErrorView::InternalClient(text)) },
            StepActionView::Finished,
        ),
        CallOutcomeView::Failure(status, body) => (
            base,
            PhaseView::Done { result: Result::Err(spec_primary_failure_error(status, body)) },
            StepActionView::Finished,
        ),
        CallOutcomeView::Malformed(text) => (
            base,
            PhaseView::Done { result: Result::Err(ClientErrorView::InternalClient(text)) },
            StepActionView::Finished,
        ),
        CallOutcomeView::Success(page) => match page.keys {
            Option::None => (
                base,
                PhaseView::Done { result: Result::Err(ClientErrorView::NotFound) },
                StepActionView::Finished,
            ),
            Option::Some(keys) => if keys.len() == 0 {
                (
                    base,
                    PhaseView::Done { result: Result::Err(ClientErrorView::NotFound) },
                    StepActionView::Finished,
                )
            } else {
                (
                    base + keys[0],
                    PhaseView::Work {
                        edition: EditionRecordView {
                            page_count: Option::None,
                            work_key: Option::Some(keys[0]),
                        },
                        work_key: keys[0],
                    },
                    StepActionView::FetchWork(keys[0]),
                )
            },
        },
    }
}

/// The transition out of the work phase: the description is taken from a
/// successful work record and dropped on any failure, and the ratings record
/// of the work is fetched next either way.
pub open spec fn spec_on_work(
    edition: EditionRecordView,
    work_key: Seq<char>,
    o: CallOutcomeView<WorkRecordView>,
) -> (PhaseView, StepActionView) {
    let description = match o {
        CallOutcomeView::Success(work) => work.description,
        _ => Option::None,
    };
    (PhaseView::Ratings { edition, description }, StepActionView::FetchRatings(work_key))
}

/// The transition out of the ratings phase: a successful ratings record runs
/// through the shared rating presence policy, any failure leaves the rating
/// absent, and the lookup is decided with the merged book either way.
pub open spec fn spec_on_ratings(
    link: Seq<char>,
    edition: EditionRecordView,
    description: Option<Seq<char>>,
    o: CallOutcomeView<RatingsRecordView>,
) -> (PhaseView, StepActionView) {
    let rating = match o {
        CallOutcomeView::Success(ratings) => rating_from_source(
            ratings.average_rating,
            ratings.ratings_count,
        ),
        _ => Option::None,
    };
    (
        PhaseView::Done {
            result: Result::Ok(spec_merge(edition, description, rating, link)),
        },
        StepActionView::Finished,
    )
}

/// The path of the edition record of an ISBN, relative to the provider's
/// base URL.
pub open spec fn spec_edition_path(isbn: Seq<char>) -> Seq<char> {
    "/isbn/"@ + isbn + ".json"@
}

/// Builds the path of the edition record of an ISBN.
pub fn edition_path(isbn: &str) -> (p: String)
    ensures
        p@ == spec_edition_path(isbn@),
{
    let p = String::from_str("/isbn/");
    let p = p.concat(isbn);
    p.concat(".json")
}

/// The path of the work record named by a key, relative to the provider's
/// base URL.
pub open spec fn spec_work_path(key: Seq<char>) -> Seq<char> {
    key + ".json"@
}

/// Builds the path of the work record named by a key.
pub fn work_path(key: &str) -> (p: String)
    ensures
        p@ == spec_work_path(key@),
{
    let p = String::from_str(key);
    p.concat(".json")
}

/// The path of the ratings record of the work named by a key, relative to
/// the provider's base URL.
pub open spec fn spec_ratings_path(key: Seq<char>) -> Seq<char> {
    key + "/ratings.json"@
}

/// Builds the path of the ratings record of the work named by a key.
pub fn ratings_path(key: &str) -> (p: String)
    ensures
        p@ == spec_ratings_path(key@),
{
    let p = String::from_str(key);
    p.concat("/ratings.json")
}

/// The provider link of an edition: the address of the edition record at the
/// provider.
pub open spec fn spec_edition_link(base: Seq<char>, isbn: Seq<char>) -> Seq<char> {
    base + "/isbn/"@ + isbn
}

/// Builds the provider link placed into a book looked up by ISBN.
pub fn edition_link(base: &str, isbn: &str) -> (l: String)
    ensures
        l@ == spec_edition_link(base@, isbn@),
{
    let l = String::from_str(base);
    let l = l.concat("/isbn/");
    l.concat(isbn)
}

/// The result of a whole ISBN lookup as a function of its three calls'
/// outcomes: the step transitions composed, feeding the work and ratings
/// outcomes in only where the session asks for them.
pub open spec fn spec_session_result(
    link: Seq<char>,
    primary: CallOutcomeView<EditionRecordView>,
    work: CallOutcomeView<WorkRecordView>,
    ratings: CallOutcomeView<RatingsRecordView>,
) -> Result<BookView, ClientErrorView> {
    match spec_on_primary(link, primary).0 {
        PhaseView::Done { result } => result,
        PhaseView::Work { edition, work_key } => match spec_on_work(
            edition,
            work_key,
            work,
        ).0 {
            PhaseView::Ratings { edition: settled, description } => match spec_on_ratings(
                link,
                settled,
                description,
                ratings,
            ).0 {
                PhaseView::Done { result } => result,
                _ => arbitrary(),
            },
            _ => arbitrary(),
        },
        _ => arbitrary(),
    }
}

/// Law: a lookup is a function of its calls' outcomes and the provider link
/// alone, so repeating it over an unchanged backing dataset decides equally.
pub proof fn lemma_session_idempotent(
    link: Seq<char>,
    first_primary: CallOutcomeView<EditionRecordView>,
    first_work: CallOutcomeView<WorkRecordView>,
    first_ratings: CallOutcomeView<RatingsRecordView>,
    second_primary: CallOutcomeView<EditionRecordView>,
    second_work: CallOutcomeView<WorkRecordView>,
    second_ratings: CallOutcomeView<RatingsRecordView>,
)
    requires
        first_primary == second_primary,
        first_work == second_work,
        first_ratings == second_ratings,
    ensures
        spec_session_result(link, first_primary, first_work, first_ratings)
            == spec_session_result(link, second_primary, second_work, second_ratings),
{
}

/// Law: when the primary call fails, the whole session decides with exactly
/// the kind that failure maps to, whatever the enrichment calls would have
/// answered.
pub proof fn lemma_session_primary_failure(
    link: Seq<char>,
    primary: CallOutcomeView<EditionRecordView>,
    work: CallOutcomeView<WorkRecordView>,
    ratings: CallOutcomeView<RatingsRecordView>,
)
    requires
        !(primary is Success),
    ensures
        spec_session_result(link, primary, work, ratings) is Err,
        spec_session_result(link, primary, work, ratings) == spec_on_primary(
            link,
            primary,
        ).0->Done_result,
{
}

/// Law: when the primary call succeeds and both enrichment calls fail, the
/// whole session still decides with a book — built from the edition alone,
/// its description empty and its rating absent.
pub proof fn lemma_session_enrichment_failure(
    link: Seq<char>,
    edition: EditionRecordView,
    work: CallOutcomeView<WorkRecordView>,
    ratings: CallOutcomeView<RatingsRecordView>,
)
    requires
        !(work is Success),
        !(ratings is Success),
    ensures
        spec_session_result(link, CallOutcomeView::Success(edition), work, ratings)
            == Result::<BookView, ClientErrorView>::Ok(
            spec_merge(edition, Option::None, Option::None, link),
        ),
{
}

/// Merges the records of one lookup into a [`Book`].
pub fn merge_book(
    edition: &EditionRecord,
    description: Option<String>,
    rating: Option<Rating>,
    provider_link: &str,
) -> (b: Book)
    ensures
        b@ == spec_merge(edition@, opt_string_view(description), opt_rating_view(rating), provider_link@),
{
    let page_count: u32 = match &edition.page_count {
        Option::Some(count) => *count,
        Option::None => 0,
    };
    let desc: String = match description {
        Option::Some(d) => d,
        Option::None => String::new(),
    };
    let mut book = Book::new(page_count, desc.as_str(), provider_link);
    book.rating = rating;
    book
}

impl Lookup {
    /// Opens a lookup session that will place this provider link into the
    /// book; the caller's first step is the edition call, or, for an
    /// author/title lookup opened with the provider's base URL as the link,
    /// the free-text search.
    pub fn new(provider_link: String) -> (l: Lookup)
        ensures
            l@ == (LookupView { provider_link: provider_link@, phase: PhaseView::Primary }),
    {
        Lookup { provider_link, phase: Phase::Primary }
    }

    /// Feeds in the outcome of the edition (primary) call.
    ///
    /// The returned action is the caller's next step; the session moves as
    /// [`spec_on_primary`] says: any failure decides the lookup at once,
    /// without a further fetch.
    pub fn on_primary(self, outcome: CallOutcome<EditionRecord>) -> (r: (Lookup, StepAction))
        requires
            self@.phase is Primary,
        ensures
            r.0@.provider_link == self@.provider_link,
            (r.0@.phase, r.1@) == spec_on_primary(self@.provider_link, outcome@),
    {
        match outcome {
            CallOutcome::Transport(text) => (
                Lookup {
                    provider_link: self.provider_link,
                    phase: Phase::Done { result: Result::Err(ClientError::InternalClient(text)) },
                },
                StepAction::Finished,
            ),
            CallOutcome::Failure(status, body) => {
                let error = if status == 429 || status == 403 {
                    ClientError::RateLimitExceeded
                } else if status == 404 {
                    ClientError::NotFound
                } else {
                    ClientError::Http(status, body)
                };
                (
                    Lookup {
                        provider_link: self.provider_link,
                        phase: Phase::Done { result: Result::Err(error) },
                    },
                    StepAction::Finished,
                )
            },
            CallOutcome::Malformed(text) => (
                Lookup {
                    provider_link: self.provider_link,
                    phase: Phase::Done { result: Result::Err(ClientError::InternalClient(text)) },
                },
                StepAction::Finished,
            ),
            CallOutcome::Success(edition) => {
                match &edition.work_key {
                    Option::Some(key) => {
                        let key_to_fetch = key.clone();
                        let key_kept = key.clone();
                        (
                            Lookup {
                                provider_link: self.provider_link,
                                phase: Phase::Work { edition, work_key: key_kept },
                            },
                            StepAction::FetchWork(key_to_fetch),
                        )
                    },
                    Option::None => {
                        let book = merge_book(
                            &edition,
                            Option::None,
                            Option::None,
                            self.provider_link.as_str(),
                        );
                        (
                            Lookup {
                                provider_link: self.provider_link,
                                phase: Phase::Done { result: Result::Ok(book) },
                            },
                            StepAction::Finished,
                        )
                    },
                }
            },
        }
    }

    /// Feeds in the outcome of the free-text search that opens an
    /// author/title lookup, where the session was opened with the provider's
    /// base URL as its link.
    ///
    /// The session moves as [`spec_on_search`] says: failures map exactly as
    /// the edition call's do, an empty page finds nothing, and otherwise the
    /// first found work stands in for the edition reference, with the link
    /// extended to the work's address.
    pub fn on_search(self, outcome: CallOutcome<SearchPage>) -> (r: (Lookup, StepAction))
        requires
            self@.phase is Primary,
        ensures
            (r.0@.provider_link, r.0@.phase, r.1@) == spec_on_search(
                self@.provider_link,
                outcome@,
            ),
    {
        match outcome {
            CallOutcome::Transport(text) => (
                Lookup {
                    provider_link: self.provider_link,
                    phase: Phase::Done { result: Result::Err(ClientError::InternalClient(text)) },
                },
                StepAction::Finished,
            ),
            CallOutcome::Failure(status, body) => {
                let error = if status == 429 || status == 403 {
                    ClientError::RateLimitExceeded
                } else if status == 404 {
                    ClientError::NotFound
                } else {
                    ClientError::Http(status, body)
                };
                (
                    Lookup {
                        provider_link: self.provider_link,
                        phase: Phase::Done { result: Result::Err(error) },
                    },
                    StepAction::Finished,
                )
            },
            CallOutcome::Malformed(text) => (
                Lookup {
                    provider_link: self.provider_link,
                    phase: Phase::Done { result: Result::Err(ClientError::InternalClient(text)) },
                },
                StepAction::Finished,
            ),
            CallOutcome::Success(page) => {
                match page.keys {
                    Option::None => (
                        Lookup {
                            provider_link: self.provider_link,
                            phase: Phase::Done { result: Result::Err(ClientError::NotFound) },
                        },
                        StepAction::Finished,
                    ),
                    Option::Some(keys) => {
                        if keys.len() == 0 {
                            (
                                Lookup {
                                    provider_link: self.provider_link,
                                    phase: Phase::Done {
                                        result: Result::Err(ClientError::NotFound),
                                    },
                                },
                                StepAction::Finished,
                            )
                        } else {
                            let key = keys[0].clone();
                            let key_kept = key.clone();
                            let key_to_fetch = key.clone();
                            let provider_link = self.provider_link.concat(key.as_str());
                            (
                                Lookup {
                                    provider_link,
                                    phase: Phase::Work {
                                        edition: EditionRecord {
                                            page_count: Option::None,
                                            work_key: Option::Some(key),
                                        },
                                        work_key: key_kept,
                                    },
                                },
                                StepAction::FetchWork(key_to_fetch),
                            )
                        }
                    },
                }
            },
        }
    }

    /// Feeds in the outcome of the work (enrichment) call.
    ///
    /// The session moves as [`spec_on_work`] says: a failure here only drops
    /// the description, and the ratings call follows either way.
    pub fn on_work(self, outcome: CallOutcome<WorkRecord>) -> (r: (Lookup, StepAction))
        requires
            self@.phase is Work,
        ensures
            r.0@.provider_link == self@.provider_link,
            (r.0@.phase, r.1@) == spec_on_work(
                self@.phase->Work_edition,
                self@.phase->Work_work_key,
                outcome@,
            ),
    {
        match self.phase {
            Phase::Work { edition, work_key } => {
                let description: Option<String> = match outcome {
                    CallOutcome::Success(work) => work.description,
                    CallOutcome::Transport(_) => Option::None,
                    CallOutcome::Failure(_, _) => Option::None,
                    CallOutcome::Malformed(_) => Option::None,
                };
                (
                    Lookup {
                        provider_link: self.provider_link,
                        phase: Phase::Ratings { edition, description },
                    },
                    StepAction::FetchRatings(work_key),
                )
            },
            _ => unreached(),
        }
    }

    /// Feeds in the outcome of the ratings (enrichment) call.
    ///
    /// The session moves as [`spec_on_ratings`] says: a failure here only
    /// leaves the rating absent, and the lookup is decided either way.
    pub fn on_ratings(self, outcome: CallOutcome<RatingsRecord>) -> (r: (Lookup, StepAction))
        requires
            self@.phase is Ratings,
        ensures
            r.0@.provider_link == self@.provider_link,
            (r.0@.phase, r.1@) == spec_on_ratings(
                self@.provider_link,
                self@.phase->Ratings_edition,
                self@.phase->Ratings_description,
                outcome@,
            ),
    {
        match self.phase {
            Phase::Ratings { edition, description } => {
                let rating: Option<Rating> = match outcome {
                    CallOutcome::Success(ratings) => crate::build_rating(
                        ratings.average_rating,
                        ratings.ratings_count,
                    ),
                    CallOutcome::Transport(_) => Option::None,
                    CallOutcome::Failure(_, _) => Option::None,
                    CallOutcome::Malformed(_) => Option::None,
                };
                let book = merge_book(&edition, description, rating, self.provider_link.as_str());
                (
                    Lookup {
                        provider_link: self.provider_link,
                        phase: Phase::Done { result: Result::Ok(book) },
                    },
                    StepAction::Finished,
                )
            },
            _ => unreached(),
        }
    }

    /// Takes the result out of a decided session.
    pub fn into_result(self) -> (r: Result<Book, ClientError>)
        requires
            self@.phase is Done,
        ensures
            lookup_result_view(r) == self@.phase->Done_result,
    {
        match self.phase {
            Phase::Done { result } => result,
            _ => unreached(),
        }
    }
}

/// Law: a completed primary response maps onto the taxonomy by its status
/// alone — 429 and 403 yield `RateLimitExceeded`, 404 yields `NotFound`, and
/// every other non-success status yields `Http` with exactly that status and
/// body.
pub proof fn lemma_primary_status_taxonomy(status: u16, body: Seq<char>)
    ensures
        (status == 429 || status == 403) ==> spec_primary_failure_error(status, body)
            == ClientErrorView::RateLimitExceeded,
        status == 404 ==> spec_primary_failure_error(status, body) == ClientErrorView::NotFound,
        (status != 429 && status != 403 && status != 404) ==> spec_primary_failure_error(
            status,
            body,
        ) == ClientErrorView::Http(status, body),
{
}

/// Law: a primary call that fails with any taxonomy kind decides the lookup
/// with exactly that kind, and the session asks for no further call.
pub proof fn lemma_primary_failure_is_final(link: Seq<char>, o: CallOutcomeView<EditionRecordView>)
    requires
        !(o is Success),
    ensures
        spec_on_primary(link, o).1 is Finished,
        spec_on_primary(link, o).0 is Done,
        o matches CallOutcomeView::Transport(text) ==> spec_on_primary(link, o).0->Done_result
            == Result::<BookView, ClientErrorView>::Err(ClientErrorView::InternalClient(text)),
        o matches CallOutcomeView::Failure(status, body) ==> spec_on_primary(
            link,
            o,
        ).0->Done_result == Result::<BookView, ClientErrorView>::Err(
            spec_primary_failure_error(status, body),
        ),
        o matches CallOutcomeView::Malformed(text) ==> spec_on_primary(link, o).0->Done_result
            == Result::<BookView, ClientErrorView>::Err(ClientErrorView::InternalClient(text)),
{
}

/// Law: once the primary call has succeeded, failing enrichment calls do not
/// fail the lookup — the session still decides it with a book, whose
/// description is empty and whose rating is absent where both enrichment
/// calls failed.
pub proof fn lemma_enrichment_failure_tolerated(
    link: Seq<char>,
    edition: EditionRecordView,
    work_key: Seq<char>,
    work_outcome: CallOutcomeView<WorkRecordView>,
    ratings_outcome: CallOutcomeView<RatingsRecordView>,
)
    requires
        !(work_outcome is Success),
        !(ratings_outcome is Success),
    ensures
        spec_on_work(edition, work_key, work_outcome) == (
            (
                PhaseView::Ratings { edition, description: Option::<Seq<char>>::None },
                StepActionView::FetchRatings(work_key),
            )
        ),
        spec_on_ratings(link, edition, Option::None, ratings_outcome) == (
            (
                PhaseView::Done {
                    result: Result::<BookView, ClientErrorView>::Ok(
                        spec_merge(edition, Option::None, Option::None, link),
                    ),
                },
                StepActionView::Finished,
            )
        ),
        spec_merge(edition, Option::None, Option::None, link).rating is None,
        spec_merge(edition, Option::None, Option::None, link).description == Seq::<char>::empty(),
{
}

} // verus!
