//! The normalized catalog entry and its cover locator.

use crate::text::{append_decimal, decimal};
use vstd::prelude::*;
use vstd::std_specs::convert::FromSpecImpl;

verus! {

/// The address of the medium-sized cover image with the catalog's cover
/// identifier `cover_id`.
pub open spec fn cover_url(cover_id: u32) -> Seq<char> {
    "https://covers.openlibrary.org/w/id/"@ + decimal(cover_id as nat) + "-M.jpg"@
}

/// Where a book's cover image is found: a URL, held as text.
#[derive(Debug)]
pub struct CoverSrc(String);

impl View for CoverSrc {
    type V = Seq<char>;

    closed spec fn view(&self) -> Seq<char> {
        self.0@
    }
}

impl DeepView for CoverSrc {
    type V = Seq<char>;

    open spec fn deep_view(&self) -> Seq<char> {
        self@
    }
}

impl CoverSrc {
    /// A locator that holds `url` as it is, for one that was stored earlier.
    pub fn new(url: String) -> (src: CoverSrc)
        ensures
            src@ == url@,
    {
        CoverSrc(url)
    }

    /// The URL.
    pub fn get(&self) -> (url: &String)
        ensures
            url@ == self@,
    {
        &self.0
    }
}

impl Clone for CoverSrc {
    fn clone(&self) -> (copy: Self)
        ensures
            copy@ == self@,
    {
        CoverSrc(self.0.clone())
    }
}

impl Default for CoverSrc {
    fn default() -> (src: Self)
        ensures
            src@ == Seq::<char>::empty(),
    {
        CoverSrc(String::new())
    }
}

impl From<u32> for CoverSrc {
    /// The locator of the cover with identifier `value`.
    fn from(value: u32) -> (src: Self)
        ensures
            src@ == cover_url(value),
    {
        let mut url = String::from_str("https://covers.openlibrary.org/w/id/");
        append_decimal(&mut url, value);
        url.append("-M.jpg");
        CoverSrc(url)
    }
}

/// A locator is text, and text is known to contracts by its view alone: the
/// contract of `from` fixes the view, and no spec-level value is named here.
impl FromSpecImpl<u32> for CoverSrc {
    open spec fn obeys_from_spec() -> bool {
        false
    }

    open spec fn from_spec(v: u32) -> Self {
        arbitrary()
    }
}

/// What a contract sees of a [`Book`].
pub struct BookView {
    pub id: Seq<char>,
    pub cover_src: Option<Seq<char>>,
    pub title: Seq<char>,
    pub authors: Seq<Seq<char>>,
    pub first_publish_year: Option<u16>,
}

/// The year of first publication as it is shown: its decimal numeral, and
/// nothing where the year is not known.
pub open spec fn year_text_of(year: Option<u16>) -> Seq<char> {
    match year {
        Some(y) => decimal(y as nat),
        None => Seq::empty(),
    }
}

/// A catalog entry. The `id` is the catalog's stable key; nothing changes a
/// book once it is made.
#[derive(Debug)]
pub struct Book {
    id: String,
    cover_src: Option<CoverSrc>,
    title: String,
    authors: Vec<String>,
    first_publish_year: Option<u16>,
}

impl View for Book {
    type V = BookView;

    closed spec fn view(&self) -> BookView {
        BookView {
            id: self.id@,
            cover_src: self.cover_src.deep_view(),
            title: self.title@,
            authors: self.authors.deep_view(),
            first_publish_year: self.first_publish_year,
        }
    }
}

impl DeepView for Book {
    type V = BookView;

    open spec fn deep_view(&self) -> BookView {
        self@
    }
}

impl Book {
    /// A book with the given fields.
    pub fn new(
        id: String,
        cover_src: Option<CoverSrc>,
        title: String,
        authors: Vec<String>,
        first_publish_year: Option<u16>,
    ) -> (book: Book)
        ensures
            book@ == (BookView {
                id: id@,
                cover_src: cover_src.deep_view(),
                title: title@,
                authors: authors.deep_view(),
                first_publish_year,
            }),
    {
        Book { id, cover_src, title, authors, first_publish_year }
    }

    /// The catalog's key of this book.
    pub fn id(&self) -> (id: &String)
        ensures
            id@ == self@.id,
    {
        &self.id
    }

    /// The cover locator, if the catalog knows a cover.
    pub fn cover_src(&self) -> (src: &Option<CoverSrc>)
        ensures
            src.deep_view() == self@.cover_src,
    {
        &self.cover_src
    }

    /// The title; it may be empty.
    pub fn title(&self) -> (title: &String)
        ensures
            title@ == self@.title,
    {
        &self.title
    }

    /// The authors, in the catalog's order.
    pub fn authors(&self) -> (authors: &Vec<String>)
        ensures
            authors.deep_view() == self@.authors,
    {
        &self.authors
    }

    /// The year of first publication, if the catalog knows it.
    pub fn first_publish_year(&self) -> (year: &Option<u16>)
        ensures
            *year == self@.first_publish_year,
    {
        &self.first_publish_year
    }

    /// The year of first publication as it is shown: blank where it is not
    /// known.
    pub fn year_text(&self) -> (text: String)
        ensures
            text@ == year_text_of(self@.first_publish_year),
    {
        let mut text = String::new();
        match self.first_publish_year {
            Some(year) => {
                append_decimal(&mut text, year as u32);
            },
            None => {},
        }
        text
    }
}

impl Clone for Book {
    fn clone(&self) -> (copy: Self)
        ensures
            copy@ == self@,
    {
        let cover_src = match &self.cover_src {
            Some(c) => Some(c.clone()),
            None => None,
        };
        let authors = self.authors.clone();
        Book {
            id: self.id.clone(),
            cover_src,
            title: self.title.clone(),
            authors,
            first_publish_year: self.first_publish_year,
        }
    }
}

impl Default for Book {
    fn default() -> (book: Self)
        ensures
            book@ == (BookView {
                id: Seq::empty(),
                cover_src: None,
                title: Seq::empty(),
                authors: Seq::empty(),
                first_publish_year: None,
            }),
    {
        let authors: Vec<String> = Vec::new();
        assert(authors.deep_view() =~= Seq::<Seq<char>>::empty());
        Book {
            id: String::new(),
            cover_src: None,
            title: String::new(),
            authors,
            first_publish_year: None,
        }
    }
}

} // verus!
