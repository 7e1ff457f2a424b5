//! A personal bookshelf: search a public book catalog, keep the books you pick
//! on a shelf, and filter the shelf by title.
//!
//! Every function here is verified with Verus. Contracts are stated over the
//! views of the data types: a [`Book`] is viewed as a [`BookView`], a shelf as
//! the sequence of its books' views.
//!
//! - [`book`]: the book and its cover locator;
//! - [`catalog`]: what a search asks of the catalog, and how the answer
//!   becomes books;
//! - [`shelf`]: the shelf, which only grows;
//! - [`filter`]: the books of the shelf that a query shows;
//! - [`session`]: the query text and the state of the search for it;
//! - [`text`]: decimal numerals.
//!
//! The library does no input or output. The program around it sends the
//! request, stores the shelf and draws the page.

pub mod book;
pub mod catalog;
pub mod filter;
pub mod session;
pub mod shelf;
pub mod text;

pub use book::{Book, BookView, CoverSrc};
pub use catalog::{BookshelfError, RawResponse, RawResponseDoc};
pub use filter::visible;
pub use session::{SearchSession, SearchState, SearchTicket};
pub use shelf::Bookshelf;
