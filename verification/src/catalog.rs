//! The catalog client, without its transport: what is asked of the catalog,
//! and how its answer becomes books.

use crate::book::{cover_url, Book, BookView, CoverSrc};
use crate::text::{append_decimal, decimal};
use vstd::prelude::*;
use vstd::std_specs::convert::FromSpecImpl;

verus! {

/// The catalog's search endpoint.
pub const SEARCH_URL: &'static str = "https://openlibrary.org/search.json";

/// The fields that a search asks for, comma-separated.
pub const SEARCH_FIELDS: &'static str = "key,title,author_name,cover_i,first_publish_year";

/// The most matches that a search asks for.
pub const RESULT_CAP: u32 = 10;

/// The query parameters of a search for `query`, as name and value, in the
/// order in which they are sent.
pub open spec fn search_params_of(query: Seq<char>) -> Seq<(Seq<char>, Seq<char>)> {
    seq![
        ("q"@, query),
        ("fields"@, SEARCH_FIELDS@),
        ("limit"@, decimal(RESULT_CAP as nat)),
    ]
}

/// The query parameters of a search for `query`. An empty query is sent like
/// any other.
pub fn search_params(query: &str) -> (params: Vec<(String, String)>)
    ensures
        params.deep_view() == search_params_of(query@),
{
    let mut limit = String::new();
    append_decimal(&mut limit, RESULT_CAP);
    let mut params: Vec<(String, String)> = Vec::new();
    params.push((String::from_str("q"), String::from_str(query)));
    params.push((String::from_str("fields"), String::from_str(SEARCH_FIELDS)));
    params.push((String::from_str("limit"), limit));
    params
}

/// One match as the catalog sends it. A field that the catalog left out is
/// `None`, and missing authors are an empty list.
#[derive(Debug)]
pub struct RawResponseDoc {
    pub key: String,
    pub title: String,
    pub author_name: Vec<String>,
    pub cover_i: Option<u32>,
    pub first_publish_year: Option<u16>,
}

/// What a contract sees of a [`RawResponseDoc`].
pub struct DocView {
    pub key: Seq<char>,
    pub title: Seq<char>,
    pub author_name: Seq<Seq<char>>,
    pub cover_i: Option<u32>,
    pub first_publish_year: Option<u16>,
}

impl View for RawResponseDoc {
    type V = DocView;

    open spec fn view(&self) -> DocView {
        DocView {
            key: self.key@,
            title: self.title@,
            author_name: self.author_name.deep_view(),
            cover_i: self.cover_i,
            first_publish_year: self.first_publish_year,
        }
    }
}

impl DeepView for RawResponseDoc {
    type V = DocView;

    open spec fn deep_view(&self) -> DocView {
        self@
    }
}

/// The catalog's answer to a search: the matches, best first.
#[derive(Debug)]
pub struct RawResponse {
    pub docs: Vec<RawResponseDoc>,
}

/// The book that a match stands for. Every match has one: a missing cover
/// identifier or year is a missing cover or year of the book.
pub open spec fn book_of_doc(doc: DocView) -> BookView {
    BookView {
        id: doc.key,
        cover_src: match doc.cover_i {
            Some(cover_id) => Some(cover_url(cover_id)),
            None => None,
        },
        title: doc.title,
        authors: doc.author_name,
        first_publish_year: doc.first_publish_year,
    }
}

/// The books that a list of matches stands for: one for each, in the same
/// order.
pub open spec fn books_of_docs(docs: Seq<DocView>) -> Seq<BookView> {
    docs.map_values(|doc: DocView| book_of_doc(doc))
}

/// The mapping is one to one and keeps the order: a list of matches gives as
/// many books, and the book at each place is that of the match at that place.
pub proof fn lemma_books_follow_docs(docs: Seq<DocView>)
    ensures
        books_of_docs(docs).len() == docs.len(),
        forall|i: int| 0 <= i < docs.len() ==> books_of_docs(docs)[i] == book_of_doc(docs[i]),
{
}

/// What the catalog left out stays out: a match without a cover identifier
/// gives a book without a cover, one with an identifier a book with the cover
/// of that identifier, and the year is missing in the book exactly when it is
/// missing in the match.
pub proof fn lemma_absent_stays_absent(doc: DocView)
    ensures
        doc.cover_i is None <==> book_of_doc(doc).cover_src is None,
        doc.cover_i matches Some(cover_id) ==> book_of_doc(doc).cover_src == Some(
            cover_url(cover_id),
        ),
        book_of_doc(doc).first_publish_year == doc.first_publish_year,
        book_of_doc(doc).id == doc.key,
        book_of_doc(doc).title == doc.title,
        book_of_doc(doc).authors == doc.author_name,
{
}

impl From<RawResponseDoc> for Book {
    fn from(value: RawResponseDoc) -> (book: Self)
        ensures
            book@ == book_of_doc(value@),
    {
        let cover_src = match value.cover_i {
            Some(cover_id) => Some(CoverSrc::from(cover_id)),
            None => None,
        };
        Book::new(value.key, cover_src, value.title, value.author_name, value.first_publish_year)
    }
}

/// A book holds text, and text is known to contracts by its view alone: the
/// contract of `from` fixes the view, and no spec-level value is named here.
impl FromSpecImpl<RawResponseDoc> for Book {
    open spec fn obeys_from_spec() -> bool {
        false
    }

    open spec fn from_spec(v: RawResponseDoc) -> Self {
        arbitrary()
    }
}

/// Maps each match to its book, keeping the order: as many books as matches,
/// however many there are.
pub fn books_from_docs(docs: Vec<RawResponseDoc>) -> (books: Vec<Book>)
    ensures
        books.deep_view() == books_of_docs(docs.deep_view()),
        books.len() == docs.len(),
        forall|i: int| 0 <= i < docs.len() ==> (#[trigger] books[i])@ == book_of_doc(docs[i]@),
{
    let ghost matches = docs@;
    let mut books: Vec<Book> = Vec::new();
    for doc in it: docs
        invariant
            it.seq() == matches,
            books.len() == it.index(),
            forall|j: int| 0 <= j < books.len() ==> (#[trigger] books[j])@ == book_of_doc(matches[j]@),
    {
        books.push(Book::from(doc));
    }
    books
}

/// Why a search gave no books.
#[derive(Debug, Clone, Copy, PartialEq, Eq)]
pub enum BookshelfError {
    /// The request did not reach the catalog, or its answer could not be read.
    RequestError,
}

/// The message of an error, as shown to the user.
pub open spec fn error_text(error: BookshelfError) -> Seq<char> {
    match error {
        BookshelfError::RequestError => "Request error"@,
    }
}

impl BookshelfError {
    /// The message of this error, as shown to the user. It is never empty.
    pub fn to_string(&self) -> (text: String)
        ensures
            text@ == error_text(*self),
            text@.len() > 0,
    {
        proof {
            reveal_strlit("Request error");
        }
        match self {
            BookshelfError::RequestError => String::from_str("Request error"),
        }
    }
}

/// `reqwest::Error`, the failure of a request or of reading its answer. It is
/// carried through and never looked into.
#[verifier::external_type_specification]
#[verifier::external_body]
pub struct ExReqwestError(reqwest::Error);

/// Every failure of a request is the one error: what went wrong is not kept.
impl From<reqwest::Error> for BookshelfError {
    fn from(_value: reqwest::Error) -> (error: Self) {
        BookshelfError::RequestError
    }
}

impl FromSpecImpl<reqwest::Error> for BookshelfError {
    open spec fn obeys_from_spec() -> bool {
        true
    }

    open spec fn from_spec(v: reqwest::Error) -> Self {
        BookshelfError::RequestError
    }
}

/// The result of a search whose answer was `response`: the books of the
/// matches if it was read, and [`BookshelfError::RequestError`] if the request
/// or the reading failed, whatever the failure was.
pub fn search_outcome(response: Result<RawResponse, reqwest::Error>) -> (outcome: Result<
    Vec<Book>,
    BookshelfError,
>)
    ensures
        outcome is Ok <==> response is Ok,
        response matches Ok(answer) ==> outcome->Ok_0.deep_view() == books_of_docs(
            answer.docs.deep_view(),
        ),
        response matches Ok(answer) ==> outcome->Ok_0.len() == answer.docs.len(),
        response matches Ok(answer) ==> forall|i: int|
            0 <= i < answer.docs.len() ==> (#[trigger] outcome->Ok_0[i])@ == book_of_doc(
                answer.docs[i]@,
            ),
        response is Err ==> outcome == Err::<Vec<Book>, BookshelfError>(
            BookshelfError::RequestError,
        ),
{
    match response {
        Ok(answer) => Ok(books_from_docs(answer.docs)),
        Err(failure) => Err(BookshelfError::from(failure)),
    }
}

} // verus!
