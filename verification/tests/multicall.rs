use zana::openlibrary::{
    edition_link, edition_path, ratings_path, work_path, EditionRecord, Lookup, RatingsRecord,
    SearchPage, StepAction, WorkRecord,
};
use zana::outcome::CallOutcome;
use zana::{Book, ClientError, Rating};

const BASE: &str = "https://openlibrary.org";

fn edition(page_count: Option<u32>, work_key: Option<&str>) -> EditionRecord {
    EditionRecord { page_count, work_key: work_key.map(String::from) }
}

fn start() -> Lookup {
    Lookup::new(edition_link(BASE, "9780316387316"))
}

#[test]
fn build_paths() {
    assert_eq!("/isbn/9780316387316.json", edition_path("9780316387316"));
    assert_eq!("/works/OL1W.json", work_path("/works/OL1W"));
    assert_eq!("/works/OL1W/ratings.json", ratings_path("/works/OL1W"));
    assert_eq!(
        "https://openlibrary.org/isbn/9780316387316",
        edition_link(BASE, "9780316387316")
    );
}

#[test]
fn three_records_merge_into_one_book() {
    let (lookup, action) = start().on_primary(CallOutcome::Success(edition(
        Some(99),
        Some("/works/OL1W"),
    )));
    assert!(matches!(action, StepAction::FetchWork(key) if key == "/works/OL1W"));

    let (lookup, action) = lookup.on_work(CallOutcome::Success(WorkRecord {
        description: Some(String::from("A shared description.")),
    }));
    assert!(matches!(action, StepAction::FetchRatings(key) if key == "/works/OL1W"));

    let (lookup, action) = lookup.on_ratings(CallOutcome::Success(RatingsRecord {
        average_rating: Some(380),
        ratings_count: Some(12),
    }));
    assert!(matches!(action, StepAction::Finished));

    let book = lookup.into_result().expect("book expected");
    assert_eq!(
        Book {
            page_count: 99,
            description: String::from("A shared description."),
            provider_link: String::from("https://openlibrary.org/isbn/9780316387316"),
            rating: Some(Rating { average_rating: 380, ratings_count: 12 }),
        },
        book
    );
}

#[test]
fn primary_rate_limit_aborts_immediately() {
    for status in [429u16, 403] {
        let (lookup, action) = start().on_primary(CallOutcome::<EditionRecord>::Failure(
            status,
            String::from("slow down"),
        ));
        assert!(matches!(action, StepAction::Finished));
        assert_eq!(Err(ClientError::RateLimitExceeded), lookup.into_result());
    }
}

#[test]
fn primary_missing_edition_is_not_found() {
    let (lookup, action) = start().on_primary(CallOutcome::<EditionRecord>::Failure(
        404,
        String::from("not found"),
    ));
    assert!(matches!(action, StepAction::Finished));
    assert_eq!(Err(ClientError::NotFound), lookup.into_result());
}

#[test]
fn primary_http_error_keeps_code_and_body() {
    for status in [300u16, 400, 401, 500, 503] {
        let (lookup, action) = start().on_primary(CallOutcome::<EditionRecord>::Failure(
            status,
            String::from("Error returned"),
        ));
        assert!(matches!(action, StepAction::Finished));
        assert_eq!(
            Err(ClientError::Http(status, String::from("Error returned"))),
            lookup.into_result()
        );
    }
}

#[test]
fn primary_transport_failure_aborts_immediately() {
    let (lookup, action) = start().on_primary(CallOutcome::<EditionRecord>::Transport(
        String::from("connection refused"),
    ));
    assert!(matches!(action, StepAction::Finished));
    assert_eq!(
        Err(ClientError::InternalClient(String::from("connection refused"))),
        lookup.into_result()
    );
}

#[test]
fn primary_malformed_body_aborts_immediately() {
    let (lookup, action) = start().on_primary(CallOutcome::<EditionRecord>::Malformed(
        String::from("This is not JSON"),
    ));
    assert!(matches!(action, StepAction::Finished));
    assert_eq!(
        Err(ClientError::InternalClient(String::from("This is not JSON"))),
        lookup.into_result()
    );
}

#[test]
fn edition_without_work_reference_stands_alone() {
    let (lookup, action) = start().on_primary(CallOutcome::Success(edition(Some(42), None)));
    assert!(matches!(action, StepAction::Finished));
    let book = lookup.into_result().expect("book expected");
    assert_eq!(42, book.page_count);
    assert_eq!("", book.description);
    assert_eq!(None, book.rating);
}

#[test]
fn failing_enrichment_calls_still_yield_a_book() {
    let (lookup, _) = start().on_primary(CallOutcome::Success(edition(
        Some(99),
        Some("/works/OL1W"),
    )));
    let (lookup, action) = lookup.on_work(CallOutcome::<WorkRecord>::Failure(
        500,
        String::from("work broke"),
    ));
    assert!(matches!(action, StepAction::FetchRatings(key) if key == "/works/OL1W"));
    let (lookup, _) = lookup.on_ratings(CallOutcome::<RatingsRecord>::Transport(String::from(
        "timed out",
    )));
    let book = lookup.into_result().expect("book expected");
    assert_eq!(99, book.page_count);
    assert_eq!("", book.description);
    assert_eq!(None, book.rating);
}

#[test]
fn failing_work_call_keeps_the_ratings() {
    let (lookup, _) = start().on_primary(CallOutcome::Success(edition(
        Some(99),
        Some("/works/OL1W"),
    )));
    let (lookup, _) = lookup.on_work(CallOutcome::<WorkRecord>::Failure(
        404,
        String::from("no work"),
    ));
    let (lookup, _) = lookup.on_ratings(CallOutcome::Success(RatingsRecord {
        average_rating: Some(380),
        ratings_count: Some(12),
    }));
    let book = lookup.into_result().expect("book expected");
    assert_eq!("", book.description);
    assert_eq!(Some(Rating { average_rating: 380, ratings_count: 12 }), book.rating);
}

#[test]
fn failing_ratings_call_keeps_the_description() {
    let (lookup, _) = start().on_primary(CallOutcome::Success(edition(
        Some(99),
        Some("/works/OL1W"),
    )));
    let (lookup, _) = lookup.on_work(CallOutcome::Success(WorkRecord {
        description: Some(String::from("A shared description.")),
    }));
    let (lookup, _) = lookup.on_ratings(CallOutcome::<RatingsRecord>::Failure(
        429,
        String::from("slow down"),
    ));
    let book = lookup.into_result().expect("book expected");
    assert_eq!("A shared description.", book.description);
    assert_eq!(None, book.rating);
}

#[test]
fn zero_filled_ratings_record_means_no_rating() {
    let (lookup, _) = start().on_primary(CallOutcome::Success(edition(
        Some(99),
        Some("/works/OL1W"),
    )));
    let (lookup, _) = lookup.on_work(CallOutcome::Success(WorkRecord { description: None }));
    let (lookup, _) = lookup.on_ratings(CallOutcome::Success(RatingsRecord {
        average_rating: Some(0),
        ratings_count: Some(0),
    }));
    let book = lookup.into_result().expect("book expected");
    assert_eq!(None, book.rating);
}

#[test]
fn search_stands_in_for_the_edition() {
    let lookup = Lookup::new(String::from(BASE));
    let (lookup, action) = lookup.on_search(CallOutcome::Success(SearchPage {
        keys: Some(vec![String::from("/works/OL1W")]),
    }));
    assert!(matches!(action, StepAction::FetchWork(key) if key == "/works/OL1W"));

    let (lookup, _) = lookup.on_work(CallOutcome::Success(WorkRecord {
        description: Some(String::from("A shared description.")),
    }));
    let (lookup, _) = lookup.on_ratings(CallOutcome::Success(RatingsRecord {
        average_rating: Some(380),
        ratings_count: Some(12),
    }));
    let book = lookup.into_result().expect("book expected");
    assert_eq!(0, book.page_count);
    assert_eq!("https://openlibrary.org/works/OL1W", book.provider_link);
    assert_eq!("A shared description.", book.description);
    assert_eq!(Some(Rating { average_rating: 380, ratings_count: 12 }), book.rating);
}

#[test]
fn empty_search_page_is_not_found() {
    let lookup = Lookup::new(String::from(BASE));
    let (lookup, action) =
        lookup.on_search(CallOutcome::Success(SearchPage { keys: Some(vec![]) }));
    assert!(matches!(action, StepAction::Finished));
    assert_eq!(Err(ClientError::NotFound), lookup.into_result());

    let lookup = Lookup::new(String::from(BASE));
    let (lookup, action) = lookup.on_search(CallOutcome::Success(SearchPage { keys: None }));
    assert!(matches!(action, StepAction::Finished));
    assert_eq!(Err(ClientError::NotFound), lookup.into_result());
}

#[test]
fn failing_search_maps_like_the_edition_call() {
    let lookup = Lookup::new(String::from(BASE));
    let (lookup, _) = lookup.on_search(CallOutcome::<SearchPage>::Failure(
        429,
        String::from("slow down"),
    ));
    assert_eq!(Err(ClientError::RateLimitExceeded), lookup.into_result());

    let lookup = Lookup::new(String::from(BASE));
    let (lookup, _) = lookup.on_search(CallOutcome::<SearchPage>::Failure(
        404,
        String::from("nothing"),
    ));
    assert_eq!(Err(ClientError::NotFound), lookup.into_result());
}

#[test]
fn repeated_session_yields_equal_books() {
    let run = || {
        let (lookup, _) = start().on_primary(CallOutcome::Success(edition(
            Some(99),
            Some("/works/OL1W"),
        )));
        let (lookup, _) = lookup.on_work(CallOutcome::Success(WorkRecord {
            description: Some(String::from("A shared description.")),
        }));
        let (lookup, _) = lookup.on_ratings(CallOutcome::Success(RatingsRecord {
            average_rating: Some(380),
            ratings_count: Some(12),
        }));
        lookup.into_result().expect("book expected")
    };
    assert_eq!(run(), run());
}
