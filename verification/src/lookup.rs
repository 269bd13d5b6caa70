//! The lookup pipeline: from a raw search term to the definitions on display.
//!
//! Storage is outside the library. A [`Search`] says what it needs from
//! storage next, takes the reply, and ends with a [`RenderOutcome`].

use crate::display::{display_view, displayed, generate_word_result_html, records_view};
use crate::models::{Definition, RecordView, Word, WordView};
use crate::templates;
use crate::templates::RenderedView;
use crate::text::{normalize, normalized};
use vstd::prelude::*;

verus! {

/// Why a lookup gave no definitions.
#[derive(Debug, Clone, Copy, PartialEq, Eq, Structural)]
pub enum LookupError {
    /// The search term is blank.
    EmptyQuery,
    /// No entry has the word, or the entry has no definitions.
    WordNotFound,
    /// The body of the definition with this identifier cannot be displayed.
    CorruptData(i32),
}

/// How a search ended, as presentation needs it.
#[derive(Debug)]
pub enum RenderOutcome {
    /// The search term was blank.
    EmptyQuery,
    /// Nothing was found for this normalized term.
    NotFound(String),
    /// The definition with this identifier has a corrupt body.
    Corrupt(i32),
    /// The definitions on display, in storage order, under this title.
    Results(Vec<templates::Definition>, String),
}

/// The mathematical value of a [`RenderOutcome`].
pub ghost enum OutcomeView {
    EmptyQuery,
    NotFound(Seq<char>),
    Corrupt(i32),
    Results(Seq<RenderedView>, Seq<char>),
}

impl View for RenderOutcome {
    type V = OutcomeView;

    open spec fn view(&self) -> OutcomeView {
        match self {
            RenderOutcome::EmptyQuery => OutcomeView::EmptyQuery,
            RenderOutcome::NotFound(query) => OutcomeView::NotFound(query@),
            RenderOutcome::Corrupt(id) => OutcomeView::Corrupt(*id),
            RenderOutcome::Results(shown, title) => OutcomeView::Results(
                display_view(*shown),
                title@,
            ),
        }
    }
}

/// What a search asks of storage.
#[derive(Debug)]
pub enum StorageRequest {
    /// The entry whose word is exactly this one.
    FindEntryByExactWord(String),
    /// The definitions that belong to the entry with this identifier.
    FindDefinitionsByEntryId(i32),
}

/// The mathematical value of a [`StorageRequest`].
pub ghost enum RequestView {
    FindEntryByExactWord(Seq<char>),
    FindDefinitionsByEntryId(i32),
}

impl View for StorageRequest {
    type V = RequestView;

    open spec fn view(&self) -> RequestView {
        match self {
            StorageRequest::FindEntryByExactWord(word) => RequestView::FindEntryByExactWord(word@),
            StorageRequest::FindDefinitionsByEntryId(id) => RequestView::FindDefinitionsByEntryId(
                *id,
            ),
        }
    }
}

/// What storage answers.
#[derive(Debug)]
pub enum StorageReply {
    Entry(Option<Word>),
    Definitions(Vec<Definition>),
}

/// The mathematical value of a [`StorageReply`].
pub ghost enum ReplyView {
    Entry(Option<WordView>),
    Definitions(Seq<RecordView>),
}

impl View for StorageReply {
    type V = ReplyView;

    open spec fn view(&self) -> ReplyView {
        match self {
            StorageReply::Entry(Some(entry)) => ReplyView::Entry(Some(entry@)),
            StorageReply::Entry(None) => ReplyView::Entry(None),
            StorageReply::Definitions(records) => ReplyView::Definitions(records_view(*records)),
        }
    }
}

/// A search in progress.
#[derive(Debug)]
pub enum Search {
    /// Waits for the entry of the normalized term `query`.
    AwaitingEntry { query: String },
    /// Has the entry and waits for its definitions.
    AwaitingDefinitions { query: String, entry: Word },
    /// Has ended.
    Finished(RenderOutcome),
}

/// The mathematical value of a [`Search`].
pub ghost enum SearchView {
    AwaitingEntry { query: Seq<char> },
    AwaitingDefinitions { query: Seq<char>, entry: WordView },
    Finished(OutcomeView),
}

impl View for Search {
    type V = SearchView;

    open spec fn view(&self) -> SearchView {
        match self {
            Search::AwaitingEntry { query } => SearchView::AwaitingEntry { query: query@ },
            Search::AwaitingDefinitions { query, entry } => SearchView::AwaitingDefinitions {
                query: query@,
                entry: entry@,
            },
            Search::Finished(outcome) => SearchView::Finished(outcome@),
        }
    }
}

/// The search for a term that is already normalized: a blank one ends at
/// once, any other waits for its entry.
pub open spec fn started_with(query: Seq<char>) -> SearchView {
    if query.len() == 0 {
        SearchView::Finished(OutcomeView::EmptyQuery)
    } else {
        SearchView::AwaitingEntry { query }
    }
}

/// The search for a raw term.
pub open spec fn started(raw: Seq<char>) -> SearchView {
    started_with(normalized(raw))
}

/// What a search asks of storage in its state, if anything.
pub open spec fn requested(search: SearchView) -> Option<RequestView> {
    match search {
        SearchView::AwaitingEntry { query } => Some(RequestView::FindEntryByExactWord(query)),
        SearchView::AwaitingDefinitions { query, entry } => Some(
            RequestView::FindDefinitionsByEntryId(entry.id),
        ),
        SearchView::Finished(_) => None,
    }
}

/// How a search for `query` ends once the definitions of the entry titled
/// `title` are on display or have failed to be.
pub open spec fn concluded(
    query: Seq<char>,
    title: Seq<char>,
    shown: Result<Seq<RenderedView>, LookupError>,
) -> OutcomeView {
    match shown {
        Ok(list) => OutcomeView::Results(list, title),
        Err(LookupError::CorruptData(id)) => OutcomeView::Corrupt(id),
        Err(_) => OutcomeView::NotFound(query),
    }
}

/// The state after a reply. A missing entry ends the search as not found; an
/// entry makes it wait for the definitions; the definitions end it. A reply
/// that the state does not wait for changes nothing.
pub open spec fn resumed(search: SearchView, reply: ReplyView) -> SearchView {
    match (search, reply) {
        (SearchView::AwaitingEntry { query }, ReplyView::Entry(None)) => SearchView::Finished(
            OutcomeView::NotFound(query),
        ),
        (
            SearchView::AwaitingEntry { query },
            ReplyView::Entry(Some(entry)),
        ) => SearchView::AwaitingDefinitions { query, entry },
        (
            SearchView::AwaitingDefinitions { query, entry },
            ReplyView::Definitions(records),
        ) => SearchView::Finished(concluded(query, entry.word, displayed(records))),
        _ => search,
    }
}

/// Starts the search for a term that is already normalized.
pub fn generate_query_result(search_word: &String) -> (search: Search)
    ensures
        search@ == started_with(search_word@),
{
    if search_word.as_str().unicode_len() == 0 {
        Search::Finished(RenderOutcome::EmptyQuery)
    } else {
        Search::AwaitingEntry { query: search_word.clone() }
    }
}

impl Search {
    /// Starts the search for a raw term: normalizes it and goes on as
    /// [`generate_query_result`] does.
    pub fn start(raw_query: &str) -> (search: Search)
        ensures
            search@ == started(raw_query@),
    {
        let query = normalize(raw_query);
        generate_query_result(&query)
    }

    /// What the search needs from storage next; `None` once it has ended.
    pub fn request(&self) -> (r: Option<StorageRequest>)
        ensures
            match r {
                Some(request) => requested(self@) == Some(request@),
                None => requested(self@) is None,
            },
    {
        match self {
            Search::AwaitingEntry { query } => Some(
                StorageRequest::FindEntryByExactWord(query.clone()),
            ),
            Search::AwaitingDefinitions { entry, .. } => Some(
                StorageRequest::FindDefinitionsByEntryId(entry.id),
            ),
            Search::Finished(_) => None,
        }
    }

    /// Takes a reply of storage and moves on.
    pub fn resume(self, reply: StorageReply) -> (next: Search)
        ensures
            next@ == resumed(self@, reply@),
    {
        match self {
            Search::AwaitingEntry { query } => match reply {
                StorageReply::Entry(None) => Search::Finished(RenderOutcome::NotFound(query)),
                StorageReply::Entry(Some(entry)) => Search::AwaitingDefinitions { query, entry },
                StorageReply::Definitions(_) => Search::AwaitingEntry { query },
            },
            Search::AwaitingDefinitions { query, entry } => match reply {
                StorageReply::Definitions(records) => {
                    match generate_word_result_html(&entry, &records) {
                        Ok(block) => Search::Finished(
                            RenderOutcome::Results(block.definitions, entry.word.clone()),
                        ),
                        Err(LookupError::CorruptData(id)) => Search::Finished(
                            RenderOutcome::Corrupt(id),
                        ),
                        Err(_) => Search::Finished(RenderOutcome::NotFound(query)),
                    }
                },
                StorageReply::Entry(_) => Search::AwaitingDefinitions { query, entry },
            },
            Search::Finished(outcome) => Search::Finished(outcome),
        }
    }
}

/// The query of the index page: the search term, if one was given.
#[derive(Debug)]
pub struct IndexRequest {
    pub q: Option<String>,
}

impl IndexRequest {
    /// The raw term of the request; the empty one where none was given.
    pub open spec fn term(self) -> Seq<char> {
        match self.q {
            Some(q) => q@,
            None => Seq::empty(),
        }
    }

    /// Starts the search that the request asks for.
    pub fn search(&self) -> (search: Search)
        ensures
            search@ == started(self.term()),
    {
        match &self.q {
            Some(q) => Search::start(q.as_str()),
            None => {
                let none = String::new();
                Search::start(none.as_str())
            },
        }
    }
}

/// The result of a lookup behind an outcome.
pub open spec fn result_of(outcome: OutcomeView) -> Result<Seq<RenderedView>, LookupError> {
    match outcome {
        OutcomeView::EmptyQuery => Err(LookupError::EmptyQuery),
        OutcomeView::NotFound(_) => Err(LookupError::WordNotFound),
        OutcomeView::Corrupt(id) => Err(LookupError::CorruptData(id)),
        OutcomeView::Results(list, _) => Ok(list),
    }
}

impl RenderOutcome {
    /// The definitions on display, or the reason why there are none.
    pub fn into_result(self) -> (r: Result<Vec<templates::Definition>, LookupError>)
        ensures
            match r {
                Ok(shown) => result_of(self@) == Ok::<Seq<RenderedView>, LookupError>(
                    display_view(shown),
                ),
                Err(e) => result_of(self@) == Err::<Seq<RenderedView>, LookupError>(e),
            },
    {
        match self {
            RenderOutcome::EmptyQuery => Err(LookupError::EmptyQuery),
            RenderOutcome::NotFound(_) => Err(LookupError::WordNotFound),
            RenderOutcome::Corrupt(id) => Err(LookupError::CorruptData(id)),
            RenderOutcome::Results(shown, _) => Ok(shown),
        }
    }
}

} // verus!
