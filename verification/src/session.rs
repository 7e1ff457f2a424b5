//! The search session: the query text, and where the search for it stands.
//!
//! The session decides; it does not fetch. [`SearchSession::trigger_search`]
//! hands out a ticket that says what to ask the catalog, and
//! [`SearchSession::complete`] takes the catalog's answer together with the
//! ticket's number. Tickets are numbered upwards, and an answer counts only
//! while the session waits for the ticket that was handed out last: an answer
//! to an earlier search, or one that arrives after the query was edited, is
//! dropped.

use crate::book::{Book, BookView};
use crate::catalog::{error_text, BookshelfError};
use vstd::prelude::*;

verus! {

/// Where a search stands.
#[derive(Debug)]
pub enum SearchState {
    /// No search was asked for since the query was last edited.
    Idle,
    /// A search is under way.
    Searching,
    /// The search gave these books, best match first.
    Succeeded(Vec<Book>),
    /// The search failed, with this message for the user.
    Failed(String),
}

/// What a contract sees of a [`SearchState`].
pub enum SearchStateView {
    Idle,
    Searching,
    Succeeded(Seq<BookView>),
    Failed(Seq<char>),
}

impl View for SearchState {
    type V = SearchStateView;

    open spec fn view(&self) -> SearchStateView {
        match self {
            SearchState::Idle => SearchStateView::Idle,
            SearchState::Searching => SearchStateView::Searching,
            SearchState::Succeeded(books) => SearchStateView::Succeeded(books.deep_view()),
            SearchState::Failed(message) => SearchStateView::Failed(message@),
        }
    }
}

/// What a contract sees of a [`SearchSession`].
pub struct SessionView {
    /// The query text as last edited.
    pub query: Seq<char>,
    /// The number of the ticket handed out last; 0 before the first.
    pub issued: nat,
    /// Where the search stands.
    pub state: SearchStateView,
}

/// What to ask the catalog: the query, and the number under which the answer
/// is handed back.
#[derive(Debug)]
pub struct SearchTicket {
    pub seq: u64,
    pub query: String,
}

/// What a contract sees of the outcome of a search.
pub open spec fn outcome_view(outcome: Result<Vec<Book>, BookshelfError>) -> Result<
    Seq<BookView>,
    BookshelfError,
> {
    match outcome {
        Ok(books) => Ok(books.deep_view()),
        Err(error) => Err(error),
    }
}

/// The session after the query was edited to `text`: the new text is kept,
/// and whatever search was shown or under way is set aside. No search starts.
pub open spec fn after_submit(session: SessionView, text: Seq<char>) -> SessionView {
    SessionView { query: text, issued: session.issued, state: SearchStateView::Idle }
}

/// The session after a search was asked for: it waits for the answer to the
/// next ticket.
pub open spec fn after_trigger(session: SessionView) -> SessionView {
    SessionView {
        query: session.query,
        issued: session.issued + 1,
        state: SearchStateView::Searching,
    }
}

/// Whether an answer under the number `seq` counts: the session is waiting,
/// and for that ticket.
pub open spec fn accepts(session: SessionView, seq: nat) -> bool {
    session.state is Searching && seq == session.issued
}

/// The session after the answer `outcome` came in under the number `seq`.
pub open spec fn after_complete(
    session: SessionView,
    seq: nat,
    outcome: Result<Seq<BookView>, BookshelfError>,
) -> SessionView {
    if accepts(session, seq) {
        SessionView {
            query: session.query,
            issued: session.issued,
            state: match outcome {
                Ok(books) => SearchStateView::Succeeded(books),
                Err(error) => SearchStateView::Failed(error_text(error)),
            },
        }
    } else {
        session
    }
}

/// The query text and the state of the search for it.
#[derive(Debug)]
pub struct SearchSession {
    query: String,
    issued: u64,
    state: SearchState,
}

impl View for SearchSession {
    type V = SessionView;

    closed spec fn view(&self) -> SessionView {
        SessionView { query: self.query@, issued: self.issued as nat, state: self.state@ }
    }
}

impl SearchSession {
    /// A session with an empty query and no search.
    pub fn new() -> (session: Self)
        ensures
            session@ == (SessionView {
                query: Seq::empty(),
                issued: 0,
                state: SearchStateView::Idle,
            }),
    {
        SearchSession { query: String::new(), issued: 0, state: SearchState::Idle }
    }

    /// The query text as last edited.
    pub fn query(&self) -> (query: &String)
        ensures
            query@ == self@.query,
    {
        &self.query
    }

    /// The number of the ticket handed out last; 0 before the first.
    pub fn issued(&self) -> (issued: u64)
        ensures
            issued == self@.issued,
    {
        self.issued
    }

    /// Where the search stands.
    pub fn state(&self) -> (state: &SearchState)
        ensures
            state@ == self@.state,
    {
        &self.state
    }

    /// Records the edited query text. A result or failure that was shown is
    /// shown no longer, and the answer to a search under way will be dropped.
    /// This starts no search.
    pub fn submit_query(&mut self, text: String)
        ensures
            final(self)@ == after_submit(old(self)@, text@),
    {
        self.query = text;
        self.state = SearchState::Idle;
    }

    /// Starts a search for the current query text, from whatever state: the
    /// session waits for its answer and for no other. The ticket carries the
    /// query and the next number.
    pub fn trigger_search(&mut self) -> (ticket: SearchTicket)
        requires
            old(self)@.issued < u64::MAX,
        ensures
            final(self)@ == after_trigger(old(self)@),
            ticket.seq == old(self)@.issued + 1,
            ticket.query@ == old(self)@.query,
    {
        self.issued = self.issued + 1;
        self.state = SearchState::Searching;
        SearchTicket { seq: self.issued, query: self.query.clone() }
    }

    /// Takes the answer to the search with ticket number `seq`. If the session
    /// waits for that ticket, the answer is kept: the books, or the message of
    /// the failure. If not, the answer is dropped and nothing changes. Returns
    /// whether the answer was kept.
    pub fn complete(&mut self, seq: u64, outcome: Result<Vec<Book>, BookshelfError>) -> (kept:
        bool)
        ensures
            kept == accepts(old(self)@, seq as nat),
            final(self)@ == after_complete(old(self)@, seq as nat, outcome_view(outcome)),
    {
        let waiting = match &self.state {
            SearchState::Searching => true,
            _ => false,
        };
        if waiting && seq == self.issued {
            self.state = match outcome {
                Ok(books) => SearchState::Succeeded(books),
                Err(error) => SearchState::Failed(error.to_string()),
            };
            true
        } else {
            false
        }
    }
}

/// Ticket numbers only go up: a new search takes the next number, and neither
/// an edit nor an answer changes the number.
pub proof fn lemma_tickets_increase(
    session: SessionView,
    text: Seq<char>,
    seq: nat,
    outcome: Result<Seq<BookView>, BookshelfError>,
)
    ensures
        after_trigger(session).issued == session.issued + 1,
        after_submit(session, text).issued == session.issued,
        after_complete(session, seq, outcome).issued == session.issued,
{
}

/// Only the latest search counts: once a newer search was asked for, the
/// answer to an older ticket changes nothing, whenever it arrives.
pub proof fn lemma_stale_answer_dropped(
    session: SessionView,
    seq: nat,
    outcome: Result<Seq<BookView>, BookshelfError>,
)
    requires
        seq != session.issued,
    ensures
        after_complete(session, seq, outcome) == session,
{
}

/// An edit sets the search aside: after it the session is idle with the new
/// text, and the answer to any ticket handed out so far is dropped.
pub proof fn lemma_edit_hides_result(
    session: SessionView,
    text: Seq<char>,
    seq: nat,
    outcome: Result<Seq<BookView>, BookshelfError>,
)
    ensures
        after_submit(session, text).state is Idle,
        after_submit(session, text).query == text,
        after_complete(after_submit(session, text), seq, outcome) == after_submit(session, text),
{
}

/// The answer to the search that was asked for last is kept: after it the
/// session shows the books, or the failure with its message, which is not
/// empty. An answer is kept once: a second one under the same number is
/// dropped.
pub proof fn lemma_latest_answer_kept(
    session: SessionView,
    outcome: Result<Seq<BookView>, BookshelfError>,
)
    ensures
        ({
            let waiting = after_trigger(session);
            let done = after_complete(waiting, waiting.issued, outcome);
            &&& done.query == session.query
            &&& match outcome {
                Ok(books) => done.state == SearchStateView::Succeeded(books),
                Err(error) => done.state == SearchStateView::Failed(error_text(error))
                    && error_text(error).len() > 0,
            }
            &&& forall|again: Result<Seq<BookView>, BookshelfError>|
                #[trigger] after_complete(done, waiting.issued, again) == done
        }),
{
    reveal_strlit("Request error");
}

} // verus!
