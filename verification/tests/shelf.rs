use bookshelf::{Book, Bookshelf, CoverSrc};

fn titled(id: &str, title: &str) -> Book {
    Book::new(id.to_string(), None, title.to_string(), vec![], None)
}

fn ids(shelf: &Bookshelf) -> Vec<String> {
    shelf.books().iter().map(|book| book.id().clone()).collect()
}

#[test]
fn new_shelf_is_empty() {
    assert!(Bookshelf::new().books().is_empty());
}

#[test]
fn added_book_is_last_and_shelf_is_one_longer() {
    let mut shelf = Bookshelf::new();
    shelf.add_book(titled("OL1W", "Dune"));
    assert_eq!(ids(&shelf), vec!["OL1W"]);
    shelf.add_book(titled("OL2W", "Foundation"));
    assert_eq!(ids(&shelf), vec!["OL1W", "OL2W"]);
    shelf.add_book(titled("OL3W", "Solaris"));
    assert_eq!(ids(&shelf), vec!["OL1W", "OL2W", "OL3W"]);
    assert_eq!(shelf.books()[2].title(), "Solaris");
}

#[test]
fn book_with_an_id_that_is_there_is_added_again() {
    let mut shelf = Bookshelf::new();
    shelf.add_book(titled("OL1W", "Dune"));
    shelf.add_book(titled("OL2W", "Foundation"));
    shelf.add_book(titled("OL1W", "Dune (again)"));
    assert_eq!(ids(&shelf), vec!["OL1W", "OL2W", "OL1W"]);
    assert_eq!(shelf.books()[0].title(), "Dune");
    assert_eq!(shelf.books()[2].title(), "Dune (again)");
}

#[test]
fn added_book_keeps_all_its_fields() {
    let mut shelf = Bookshelf::new();
    shelf.add_book(Book::new(
        "OL1W".to_string(),
        Some(CoverSrc::from(258028)),
        "Dune".to_string(),
        vec!["Frank Herbert".to_string()],
        Some(1965),
    ));
    let book = &shelf.books()[0];
    assert_eq!(book.id(), "OL1W");
    assert_eq!(book.title(), "Dune");
    assert_eq!(book.authors(), &vec!["Frank Herbert".to_string()]);
    assert_eq!(
        book.cover_src().as_ref().map(|src| src.get().as_str()),
        Some("https://covers.openlibrary.org/w/id/258028-M.jpg")
    );
    assert_eq!(book.first_publish_year(), &Some(1965));
}

#[test]
fn nothing_stored_restores_the_empty_shelf() {
    assert!(Bookshelf::restore(None).books().is_empty());
}

#[test]
fn stored_shelf_is_restored_book_for_book() {
    let mut stored = Bookshelf::new();
    stored.add_book(titled("OL2W", "Foundation"));
    stored.add_book(titled("OL1W", "Dune"));
    stored.add_book(titled("OL2W", "Foundation"));
    let restored = Bookshelf::restore(Some(stored.clone()));
    assert_eq!(ids(&restored), vec!["OL2W", "OL1W", "OL2W"]);
    assert_eq!(ids(&restored), ids(&stored));
    assert_eq!(restored.books()[1].title(), "Dune");
}

#[test]
fn shelf_made_of_books_holds_them_in_order() {
    let shelf = Bookshelf::from_books(vec![titled("b", "B"), titled("a", "A")]);
    assert_eq!(ids(&shelf), vec!["b", "a"]);
}

#[test]
fn copy_of_a_shelf_does_not_follow_it() {
    let mut shelf = Bookshelf::new();
    shelf.add_book(titled("OL1W", "Dune"));
    let copy = shelf.clone();
    shelf.add_book(titled("OL2W", "Foundation"));
    assert_eq!(ids(&copy), vec!["OL1W"]);
    assert_eq!(ids(&shelf), vec!["OL1W", "OL2W"]);
}
