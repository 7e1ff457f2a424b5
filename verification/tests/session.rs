use bookshelf::{Book, Bookshelf, BookshelfError, SearchSession, SearchState};

fn found(id: &str, title: &str) -> Book {
    Book::new(id.to_string(), None, title.to_string(), vec![], None)
}

fn result_ids(session: &SearchSession) -> Vec<String> {
    match session.state() {
        SearchState::Succeeded(books) => books.iter().map(|book| book.id().clone()).collect(),
        other => panic!("no result is shown: {:?}", other),
    }
}

#[test]
fn new_session_is_idle_with_an_empty_query() {
    let session = SearchSession::new();
    assert!(matches!(session.state(), SearchState::Idle));
    assert_eq!(session.query(), "");
    assert_eq!(session.issued(), 0);
}

#[test]
fn editing_the_query_starts_no_search() {
    let mut session = SearchSession::new();
    session.submit_query("dune".to_string());
    assert_eq!(session.query(), "dune");
    assert!(matches!(session.state(), SearchState::Idle));
    assert_eq!(session.issued(), 0);
}

#[test]
fn triggering_hands_out_the_next_ticket_with_the_query() {
    let mut session = SearchSession::new();
    session.submit_query("dune".to_string());
    let first = session.trigger_search();
    assert_eq!(first.seq, 1);
    assert_eq!(first.query, "dune");
    assert!(matches!(session.state(), SearchState::Searching));
    assert_eq!(session.issued(), 1);
    let second = session.trigger_search();
    assert_eq!(second.seq, 2);
    assert_eq!(second.query, "dune");
    assert_eq!(session.issued(), 2);
}

#[test]
fn empty_query_can_be_searched() {
    let mut session = SearchSession::new();
    let ticket = session.trigger_search();
    assert_eq!(ticket.query, "");
    assert!(matches!(session.state(), SearchState::Searching));
}

#[test]
fn answer_to_the_search_under_way_is_shown() {
    let mut session = SearchSession::new();
    session.submit_query("dune".to_string());
    let ticket = session.trigger_search();
    let kept =
        session.complete(ticket.seq, Ok(vec![found("OL1W", "Dune"), found("OL3W", "Dune Messiah")]));
    assert!(kept);
    assert_eq!(result_ids(&session), vec!["OL1W", "OL3W"]);
    assert_eq!(session.query(), "dune");
    assert_eq!(session.issued(), 1);
}

#[test]
fn search_without_matches_succeeds_with_no_books() {
    let mut session = SearchSession::new();
    let ticket = session.trigger_search();
    assert!(session.complete(ticket.seq, Ok(vec![])));
    assert_eq!(result_ids(&session), Vec::<String>::new());
}

#[test]
fn failed_search_shows_a_message_and_leaves_the_shelf_alone() {
    let mut shelf = Bookshelf::new();
    shelf.add_book(found("OL2W", "Foundation"));
    let mut session = SearchSession::new();
    session.submit_query("dune".to_string());
    let ticket = session.trigger_search();
    let kept = session.complete(ticket.seq, Err(BookshelfError::RequestError));
    assert!(kept);
    match session.state() {
        SearchState::Failed(message) => {
            assert!(!message.is_empty());
            assert_eq!(message, "Request error");
        }
        other => panic!("the failure is not shown: {:?}", other),
    }
    assert_eq!(shelf.books().len(), 1);
    assert_eq!(shelf.books()[0].id(), "OL2W");
    assert_eq!(shelf.books()[0].title(), "Foundation");
}

#[test]
fn answer_to_an_earlier_search_is_dropped() {
    let mut session = SearchSession::new();
    session.submit_query("dune".to_string());
    let first = session.trigger_search();
    let second = session.trigger_search();
    assert!(!session.complete(first.seq, Ok(vec![found("OLD", "Old")])));
    assert!(matches!(session.state(), SearchState::Searching));
    assert!(session.complete(second.seq, Ok(vec![found("NEW", "New")])));
    assert_eq!(result_ids(&session), vec!["NEW"]);
}

#[test]
fn late_answer_does_not_replace_the_result_of_the_latest_search() {
    let mut session = SearchSession::new();
    let first = session.trigger_search();
    let second = session.trigger_search();
    assert!(session.complete(second.seq, Ok(vec![found("NEW", "New")])));
    assert!(!session.complete(first.seq, Ok(vec![found("OLD", "Old")])));
    assert!(!session.complete(first.seq, Err(BookshelfError::RequestError)));
    assert_eq!(result_ids(&session), vec!["NEW"]);
}

#[test]
fn answer_is_kept_once() {
    let mut session = SearchSession::new();
    let ticket = session.trigger_search();
    assert!(session.complete(ticket.seq, Ok(vec![found("A", "A")])));
    assert!(!session.complete(ticket.seq, Ok(vec![found("B", "B")])));
    assert!(!session.complete(ticket.seq, Err(BookshelfError::RequestError)));
    assert_eq!(result_ids(&session), vec!["A"]);
}

#[test]
fn answer_with_a_number_never_handed_out_is_dropped() {
    let mut session = SearchSession::new();
    assert!(!session.complete(0, Ok(vec![found("A", "A")])));
    assert!(matches!(session.state(), SearchState::Idle));
    let ticket = session.trigger_search();
    assert!(!session.complete(ticket.seq + 1, Ok(vec![found("A", "A")])));
    assert!(!session.complete(0, Ok(vec![found("A", "A")])));
    assert!(matches!(session.state(), SearchState::Searching));
}

#[test]
fn editing_hides_a_result_and_does_not_search_again() {
    let mut session = SearchSession::new();
    session.submit_query("dune".to_string());
    let ticket = session.trigger_search();
    assert!(session.complete(ticket.seq, Ok(vec![found("OL1W", "Dune")])));
    session.submit_query("dune m".to_string());
    assert!(matches!(session.state(), SearchState::Idle));
    assert_eq!(session.query(), "dune m");
    assert_eq!(session.issued(), 1);
}

#[test]
fn editing_hides_a_failure() {
    let mut session = SearchSession::new();
    let ticket = session.trigger_search();
    assert!(session.complete(ticket.seq, Err(BookshelfError::RequestError)));
    session.submit_query("again".to_string());
    assert!(matches!(session.state(), SearchState::Idle));
}

#[test]
fn answer_that_arrives_after_an_edit_is_dropped() {
    let mut session = SearchSession::new();
    session.submit_query("dune".to_string());
    let ticket = session.trigger_search();
    session.submit_query("dun".to_string());
    assert!(!session.complete(ticket.seq, Ok(vec![found("OL1W", "Dune")])));
    assert!(matches!(session.state(), SearchState::Idle));
    let next = session.trigger_search();
    assert_eq!(next.seq, 2);
    assert_eq!(next.query, "dun");
    assert!(!session.complete(ticket.seq, Ok(vec![found("OL1W", "Dune")])));
    assert!(session.complete(next.seq, Ok(vec![found("OL7W", "Dunkirk")])));
    assert_eq!(result_ids(&session), vec!["OL7W"]);
}

#[test]
fn search_can_be_repeated_after_a_failure() {
    let mut session = SearchSession::new();
    session.submit_query("dune".to_string());
    let first = session.trigger_search();
    assert!(session.complete(first.seq, Err(BookshelfError::RequestError)));
    let second = session.trigger_search();
    assert_eq!(second.seq, 2);
    assert!(matches!(session.state(), SearchState::Searching));
    assert!(session.complete(second.seq, Ok(vec![found("OL1W", "Dune")])));
    assert_eq!(result_ids(&session), vec!["OL1W"]);
}
