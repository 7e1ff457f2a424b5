//! The shelf as it is shown: the books whose title contains the query,
//! whatever the case of the letters.

use crate::book::{Book, BookView};
use vstd::prelude::*;

verus! {

/// `needle` stands in `hay` from position `at` on.
pub open spec fn occurs_at(needle: Seq<char>, hay: Seq<char>, at: int) -> bool {
    &&& 0 <= at
    &&& at + needle.len() <= hay.len()
    &&& hay.subrange(at, at + needle.len()) == needle
}

/// `needle` is a substring of `hay`. The empty text is a substring of every
/// text.
pub open spec fn occurs_in(needle: Seq<char>, hay: Seq<char>) -> bool {
    exists|at: int| occurs_at(needle, hay, at)
}

/// The lowercase form of `text`, as `str::to_lowercase` gives it.
pub uninterp spec fn lowercase(text: Seq<char>) -> Seq<char>;

/// `str::to_lowercase`: the lowercase equivalent of the text by the rules of
/// Unicode, which the standard library carries as tables. The result depends
/// on the text alone, and on no locale, so it has a name, [`lowercase`], and
/// is not spelled out. Nothing more is assumed of it.
pub assume_specification[ str::to_lowercase ](text: &str) -> (folded: String)
    ensures
        folded@ == lowercase(text@),
;

/// `str::contains` with a string as the pattern: whether `needle` is a
/// substring of `hay`, which it is at some position or at none. The empty
/// `needle` is found in every `hay`.
#[verifier::external_body]
fn contains_text(hay: &str, needle: &str) -> (found: bool)
    ensures
        found == occurs_in(needle@, hay@),
{
    hay.contains(needle)
}

/// Whether a title with the lowercase form `folded_title` is shown for
/// `query`, whose lowercase form is `folded_query`: the empty query shows
/// every title, another one those that contain it.
pub open spec fn folded_matches(
    folded_title: Seq<char>,
    query: Seq<char>,
    folded_query: Seq<char>,
) -> bool {
    query.len() == 0 || occurs_in(folded_query, folded_title)
}

/// Whether a book with this title is shown for `query`: the title contains
/// the query when both are taken in lowercase.
pub open spec fn title_matches(title: Seq<char>, query: Seq<char>) -> bool {
    folded_matches(lowercase(title), query, lowercase(query))
}

/// The books that are shown for `query`: those whose title matches, in the
/// order of the shelf.
pub open spec fn visible_books(books: Seq<BookView>, query: Seq<char>) -> Seq<BookView> {
    books.filter(|book: BookView| title_matches(book.title, query))
}

/// The lowercase forms of the titles of `books`, in order.
pub open spec fn folded_titles_of(books: Seq<BookView>) -> Seq<Seq<char>> {
    books.map_values(|book: BookView| lowercase(book.title))
}

/// Whether the book at `index` is shown, where `folded_titles` holds the
/// lowercase form of each book's title by index. A book for which it holds
/// none is shown for the empty query only.
pub open spec fn shown_at(
    folded_titles: Seq<Seq<char>>,
    query: Seq<char>,
    folded_query: Seq<char>,
    index: int,
) -> bool {
    query.len() == 0 || (0 <= index < folded_titles.len() && occurs_in(
        folded_query,
        folded_titles[index],
    ))
}

/// The books that are shown, in order, where the lowercase forms are given.
pub open spec fn visible_folded_books(
    books: Seq<BookView>,
    folded_titles: Seq<Seq<char>>,
    query: Seq<char>,
    folded_query: Seq<char>,
) -> Seq<BookView>
    decreases books.len(),
{
    if books.len() == 0 {
        books
    } else {
        let before = visible_folded_books(books.drop_last(), folded_titles, query, folded_query);
        if shown_at(folded_titles, query, folded_query, books.len() - 1) {
            before.push(books.last())
        } else {
            before
        }
    }
}

/// The books that are shown for `query`, given the lowercase form of each
/// title and of the query.
pub fn visible_folded(
    books: &Vec<Book>,
    folded_titles: &Vec<String>,
    query: &str,
    folded_query: &str,
) -> (shown: Vec<Book>)
    ensures
        shown.deep_view() == visible_folded_books(
            books.deep_view(),
            folded_titles.deep_view(),
            query@,
            folded_query@,
        ),
{
    let ghost all = books.deep_view();
    let ghost folded = folded_titles.deep_view();
    let mut shown: Vec<Book> = Vec::new();
    let mut i: usize = 0;
    while i < books.len()
        invariant
            i <= books.len(),
            all == books.deep_view(),
            folded == folded_titles.deep_view(),
            shown.deep_view() == visible_folded_books(
                all.take(i as int),
                folded,
                query@,
                folded_query@,
            ),
        decreases books.len() - i,
    {
        let keep = query.is_empty() || (i < folded_titles.len() && contains_text(
            folded_titles[i].as_str(),
            folded_query,
        ));
        if keep {
            shown.push(books[i].clone());
        }
        assert(all.take(i + 1).drop_last() =~= all.take(i as int));
        i += 1;
    }
    assert(all.take(i as int) =~= all);
    shown
}

/// The lowercase form of each book's title, in order.
pub fn folded_titles(books: &Vec<Book>) -> (folded: Vec<String>)
    ensures
        folded.deep_view() == folded_titles_of(books.deep_view()),
{
    let mut folded: Vec<String> = Vec::new();
    let mut i: usize = 0;
    while i < books.len()
        invariant
            i <= books.len(),
            folded.len() == i,
            forall|j: int| 0 <= j < i ==> (#[trigger] folded[j])@ == lowercase(books[j]@.title),
        decreases books.len() - i,
    {
        folded.push(books[i].title().to_lowercase());
        i += 1;
    }
    folded
}

/// Where the lowercase forms are those of the books and of the query, the
/// books shown are those whose title matches.
pub proof fn lemma_folded_agrees(
    books: Seq<BookView>,
    folded_titles: Seq<Seq<char>>,
    query: Seq<char>,
)
    requires
        books.len() <= folded_titles.len(),
        forall|i: int| 0 <= i < books.len() ==> folded_titles[i] == lowercase(books[i].title),
    ensures
        visible_folded_books(books, folded_titles, query, lowercase(query)) == visible_books(
            books,
            query,
        ),
    decreases books.len(),
{
    reveal(Seq::filter);
    if books.len() > 0 {
        lemma_folded_agrees(books.drop_last(), folded_titles, query);
    }
}

/// The books of `books` that are shown for `query`, in the order of `books`:
/// a book is shown if and only if its title contains the query, both taken in
/// lowercase. The empty query shows all of them.
pub fn visible(books: &Vec<Book>, query: &str) -> (shown: Vec<Book>)
    ensures
        shown.deep_view() == visible_books(books.deep_view(), query@),
        query@.len() == 0 ==> shown.deep_view() == books.deep_view(),
{
    let folded_query = query.to_lowercase();
    let folded = folded_titles(books);
    let shown = visible_folded(books, &folded, query, folded_query.as_str());
    proof {
        lemma_folded_agrees(books.deep_view(), folded.deep_view(), query@);
        if query@.len() == 0 {
            lemma_empty_query_shows_all(books.deep_view(), query@);
        }
    }
    shown
}

/// The empty query shows the whole shelf: the same books in the same order.
pub proof fn lemma_empty_query_shows_all(books: Seq<BookView>, query: Seq<char>)
    requires
        query.len() == 0,
    ensures
        visible_books(books, query) == books,
    decreases books.len(),
{
    reveal(Seq::filter);
    if books.len() > 0 {
        lemma_empty_query_shows_all(books.drop_last(), query);
    }
}

/// Every book that is shown stands on the shelf and has a title that matches
/// the query.
pub proof fn lemma_shown_books_match(books: Seq<BookView>, query: Seq<char>, i: int)
    requires
        0 <= i < visible_books(books, query).len(),
    ensures
        title_matches(visible_books(books, query)[i].title, query),
        books.contains(visible_books(books, query)[i]),
{
    let shows = |book: BookView| title_matches(book.title, query);
    books.lemma_filter_pred(shows, i);
    books.lemma_filter_contains_rev(shows, visible_books(books, query)[i]);
}

/// Every book on the shelf whose title matches the query is shown.
pub proof fn lemma_matching_books_shown(books: Seq<BookView>, query: Seq<char>, i: int)
    requires
        0 <= i < books.len(),
        title_matches(books[i].title, query),
    ensures
        visible_books(books, query).contains(books[i]),
{
    let shows = |book: BookView| title_matches(book.title, query);
    books.lemma_filter_contains(shows, i);
}

/// A query that no title matches shows nothing.
pub proof fn lemma_no_match_shows_none(books: Seq<BookView>, query: Seq<char>)
    requires
        forall|i: int| 0 <= i < books.len() ==> !title_matches(books[i].title, query),
    ensures
        visible_books(books, query) == Seq::<BookView>::empty(),
{
    let shows = |book: BookView| title_matches(book.title, query);
    books.lemma_all_neg_filter_empty(shows);
}

} // verus!
