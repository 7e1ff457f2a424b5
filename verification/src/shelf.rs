//! The shelf: the books that were picked, in the order in which they were
//! added.

use crate::book::{Book, BookView};
use vstd::prelude::*;

verus! {

/// An ordered collection of books. It is made empty or restored from what was
/// stored, and it changes only by [`Bookshelf::add_book`]. Two books on it may
/// have the same id.
#[derive(Debug)]
pub struct Bookshelf {
    books: Vec<Book>,
}

impl View for Bookshelf {
    type V = Seq<BookView>;

    closed spec fn view(&self) -> Seq<BookView> {
        self.books.deep_view()
    }
}

impl DeepView for Bookshelf {
    type V = Seq<BookView>;

    open spec fn deep_view(&self) -> Seq<BookView> {
        self@
    }
}

impl Bookshelf {
    /// The empty shelf.
    pub fn new() -> (shelf: Self)
        ensures
            shelf@ == Seq::<BookView>::empty(),
    {
        Bookshelf { books: Vec::new() }
    }

    /// The shelf that holds `books`, in their order.
    pub fn from_books(books: Vec<Book>) -> (shelf: Self)
        ensures
            shelf@ == books.deep_view(),
    {
        Bookshelf { books }
    }

    /// The shelf to start with: the stored one if there is one, else the empty
    /// shelf.
    pub fn restore(stored: Option<Bookshelf>) -> (shelf: Self)
        ensures
            stored matches Some(found) ==> shelf@ == found@,
            stored is None ==> shelf@ == Seq::<BookView>::empty(),
    {
        match stored {
            Some(found) => found,
            None => Bookshelf::new(),
        }
    }

    /// Puts `book` at the end of the shelf. Nothing else on the shelf changes,
    /// and a book with the same id as one that is there already is added like
    /// any other.
    pub fn add_book(&mut self, book: Book)
        ensures
            final(self)@ == old(self)@.push(book@),
            final(self)@.len() == old(self)@.len() + 1,
            final(self)@.last() == book@,
    {
        self.books.push(book);
    }

    /// The books on the shelf, first added first.
    pub fn books(&self) -> (books: &Vec<Book>)
        ensures
            books.deep_view() == self@,
            books.len() == self@.len(),
            forall|i: int| 0 <= i < books.len() ==> (#[trigger] books[i])@ == self@[i],
    {
        &self.books
    }
}

impl Clone for Bookshelf {
    fn clone(&self) -> (copy: Self)
        ensures
            copy@ == self@,
    {
        Bookshelf { books: self.books.clone() }
    }
}

/// Adding is append-only. After `book` was added to a shelf that held
/// `before`, the shelf is one longer, `book` is its last element, and the
/// books before it are those of `before`, in their order. This holds whether
/// or not `before` has a book with the id of `book`.
pub proof fn lemma_add_book_appends(before: Seq<BookView>, book: BookView)
    ensures
        before.push(book).len() == before.len() + 1,
        before.push(book).last() == book,
        before.push(book).drop_last() == before,
        forall|i: int| 0 <= i < before.len() ==> before.push(book)[i] == before[i],
{
}

} // verus!
