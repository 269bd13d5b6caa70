//! A model of storage, and what holds of every search against it.

use crate::display::{displayed, lemma_corrupt_fails_all, lemma_display_errors, rendered_text};
use crate::lookup::{
    requested, result_of, resumed, started, LookupError, OutcomeView, ReplyView, RequestView,
    SearchView,
};
use crate::models::{RecordView, WordView};
use crate::templates::RenderedView;
use crate::text::normalized;
use vstd::prelude::*;

verus! {

/// What storage holds, as far as a search can see: at most one entry for a
/// word, and for the identifier of an entry its definitions in order.
pub ghost struct Storage {
    pub entries: Map<Seq<char>, WordView>,
    pub definitions: Map<i32, Seq<RecordView>>,
}

impl Storage {
    /// The entry whose word is exactly `word`.
    pub open spec fn entry(self, word: Seq<char>) -> Option<WordView> {
        if self.entries.contains_key(word) {
            Some(self.entries[word])
        } else {
            None
        }
    }

    /// The definitions of the entry with the identifier `id`.
    pub open spec fn records(self, id: i32) -> Seq<RecordView> {
        if self.definitions.contains_key(id) {
            self.definitions[id]
        } else {
            Seq::empty()
        }
    }

    /// The reply to a request.
    pub open spec fn answered(self, request: RequestView) -> ReplyView {
        match request {
            RequestView::FindEntryByExactWord(word) => ReplyView::Entry(self.entry(word)),
            RequestView::FindDefinitionsByEntryId(id) => ReplyView::Definitions(self.records(id)),
        }
    }

    /// A search after storage has served what it asked for.
    pub open spec fn served(self, search: SearchView) -> SearchView {
        match requested(search) {
            Some(request) => resumed(search, self.answered(request)),
            None => search,
        }
    }

    /// What looking up a raw term gives: a blank term is an empty query; a
    /// term without an entry is not found; otherwise the definitions of
    /// the entry go on display.
    pub open spec fn looked_up(self, raw: Seq<char>) -> Result<Seq<RenderedView>, LookupError> {
        let query = normalized(raw);
        if query.len() == 0 {
            Err(LookupError::EmptyQuery)
        } else {
            match self.entry(query) {
                Some(entry) => displayed(self.records(entry.id)),
                None => Err(LookupError::WordNotFound),
            }
        }
    }

    /// How the search for a raw term ends.
    pub open spec fn searched(self, raw: Seq<char>) -> OutcomeView {
        let query = normalized(raw);
        match self.looked_up(raw) {
            Ok(list) => OutcomeView::Results(list, self.entry(query)->0.word),
            Err(LookupError::EmptyQuery) => OutcomeView::EmptyQuery,
            Err(LookupError::WordNotFound) => OutcomeView::NotFound(query),
            Err(LookupError::CorruptData(id)) => OutcomeView::Corrupt(id),
        }
    }
}

/// A search that storage serves twice has ended, and it has ended as the
/// lookup of its term says.
pub proof fn lemma_search_ends(store: Storage, raw: Seq<char>)
    ensures
        store.served(store.served(started(raw))) == SearchView::Finished(store.searched(raw)),
        result_of(store.searched(raw)) == store.looked_up(raw),
{
    if let Some(entry) = store.entry(normalized(raw)) {
        lemma_display_errors(store.records(entry.id));
    }
}

/// Two raw terms with the same normal form are the same search: they ask
/// storage for the same entry and end the same way.
pub proof fn lemma_same_normal_form(store: Storage, a: Seq<char>, b: Seq<char>)
    requires
        normalized(a) == normalized(b),
    ensures
        started(a) == started(b),
        store.looked_up(a) == store.looked_up(b),
        store.searched(a) == store.searched(b),
{
}

/// An entry without definitions cannot be told from a missing entry: both
/// lookups end as not found, with the same outcome.
pub proof fn lemma_no_definitions_is_not_found(with: Storage, without: Storage, raw: Seq<char>)
    requires
        normalized(raw).len() > 0,
        with.entry(normalized(raw)) matches Some(entry) && with.records(entry.id).len() == 0,
        without.entry(normalized(raw)) is None,
    ensures
        with.looked_up(raw) == Err::<Seq<RenderedView>, LookupError>(LookupError::WordNotFound),
        with.looked_up(raw) == without.looked_up(raw),
        with.searched(raw) == without.searched(raw),
{
}

/// A lookup that finds an entry with a corrupt definition reports corrupt
/// data, whatever the other definitions of the entry hold.
pub proof fn lemma_lookup_reports_corrupt(store: Storage, raw: Seq<char>, i: int)
    requires
        normalized(raw).len() > 0,
        store.entry(normalized(raw)) is Some,
        0 <= i < store.records(store.entry(normalized(raw))->0.id).len(),
        rendered_text(store.records(store.entry(normalized(raw))->0.id)[i].body) is Err,
    ensures
        store.looked_up(raw) is Err,
        store.looked_up(raw)->Err_0 is CorruptData,
        store.searched(raw) is Corrupt,
{
    lemma_corrupt_fails_all(store.records(store.entry(normalized(raw))->0.id), i);
}

} // verus!
