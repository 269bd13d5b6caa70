//! Putting stored definitions on display: each body decoded and rendered,
//! all of them or none.

use crate::decode::{decode, decoded};
use crate::lookup::LookupError;
use crate::models::{DecodeError, Definition, RecordView, Word};
use crate::render::{gives, rendered};
use crate::templates;
use crate::templates::{RenderedView, WordResult, WordTag};
use vstd::prelude::*;

verus! {

/// The HTML of a serialized body: decoded, then rendered.
pub open spec fn rendered_text(text: Seq<char>) -> Result<Seq<char>, DecodeError> {
    match decoded(text) {
        Ok(body) => rendered(body),
        Err(e) => Err(e),
    }
}

/// The first `n` records on display, in storage order; the identifier of
/// the first one whose body cannot be displayed.
pub open spec fn displayed_prefix(records: Seq<RecordView>, n: nat) -> Result<
    Seq<RenderedView>,
    LookupError,
>
    decreases n,
{
    if n == 0 || n > records.len() {
        Ok(Seq::empty())
    } else {
        match displayed_prefix(records, (n - 1) as nat) {
            Ok(head) => match rendered_text(records[n - 1].body) {
                Ok(html) => Ok(
                    head.push(RenderedView { header: records[n - 1].header, body: html }),
                ),
                Err(_) => Err(LookupError::CorruptData(records[n - 1].id)),
            },
            Err(e) => Err(e),
        }
    }
}

/// The records of an entry on display. An entry without records counts as
/// not found.
pub open spec fn displayed(records: Seq<RecordView>) -> Result<Seq<RenderedView>, LookupError> {
    if records.len() == 0 {
        Err(LookupError::WordNotFound)
    } else {
        displayed_prefix(records, records.len())
    }
}

/// The values of stored definitions, in order.
pub open spec fn records_view(records: Vec<Definition>) -> Seq<RecordView> {
    Seq::new(records.len() as nat, |i: int| records[i]@)
}

/// The values of displayed definitions, in order.
pub open spec fn display_view(shown: Vec<templates::Definition>) -> Seq<RenderedView> {
    Seq::new(shown.len() as nat, |i: int| shown[i]@)
}

/// Decodes a serialized body and renders it.
pub fn render_serialized(serialized: &str) -> (r: Result<String, DecodeError>)
    ensures
        gives(r, rendered_text(serialized@)),
{
    match decode(serialized) {
        Ok(body) => body.render(),
        Err(e) => Err(e),
    }
}

/// Rendering a serialized body is a function of the text: whatever two calls
/// on the same text return, they return the same.
pub proof fn lemma_rendering_is_a_function(
    a: Seq<char>,
    b: Seq<char>,
    first: Result<String, DecodeError>,
    second: Result<String, DecodeError>,
)
    requires
        a == b,
        gives(first, rendered_text(a)),
        gives(second, rendered_text(b)),
    ensures
        first is Ok <==> second is Ok,
        first is Ok ==> first->Ok_0@ == second->Ok_0@,
        first is Err ==> first->Err_0 == second->Err_0,
{
}

/// Puts the definitions of an entry on display, in the order given. Fails
/// as not found where there are none, and with the identifier of the first
/// definition whose body is corrupt where there is one.
pub fn render_definitions(records: &Vec<Definition>) -> (r: Result<
    Vec<templates::Definition>,
    LookupError,
>)
    ensures
        match r {
            Ok(shown) => displayed(records_view(*records)) == Ok::<
                Seq<RenderedView>,
                LookupError,
            >(display_view(shown)),
            Err(e) => displayed(records_view(*records)) == Err::<Seq<RenderedView>, LookupError>(e),
        },
{
    if records.len() == 0 {
        return Err(LookupError::WordNotFound);
    }
    let ghost held = records_view(*records);
    let mut shown: Vec<templates::Definition> = Vec::new();
    let mut i: usize = 0;
    assert(display_view(shown) =~= Seq::empty());
    while i < records.len()
        invariant
            i <= records.len(),
            held == records_view(*records),
            displayed_prefix(held, i as nat) == Ok::<Seq<RenderedView>, LookupError>(
                display_view(shown),
            ),
        decreases records.len() - i,
    {
        let record = &records[i];
        match render_serialized(record.definition.as_str()) {
            Ok(html) => {
                let ghost before = display_view(shown);
                let item = templates::Definition::new(record.definition_header.clone(), html);
                let ghost last = item@;
                shown.push(item);
                assert(display_view(shown) =~= before.push(last));
            },
            Err(_) => {
                proof {
                    lemma_display_fails(held, (i + 1) as nat, held.len());
                }
                return Err(LookupError::CorruptData(record.id));
            },
        }
        i += 1;
    }
    Ok(shown)
}

/// Builds the result block of an entry from its stored definitions.
pub fn generate_word_result_html<'a>(word: &'a Word, definitions: &Vec<Definition>) -> (r: Result<
    WordResult<'a>,
    LookupError,
>)
    ensures
        match r {
            Ok(block) => block.title == word.word && displayed(records_view(*definitions)) == Ok::<
                Seq<RenderedView>,
                LookupError,
            >(display_view(block.definitions)),
            Err(e) => displayed(records_view(*definitions)) == Err::<
                Seq<RenderedView>,
                LookupError,
            >(e),
        },
{
    match render_definitions(definitions) {
        Ok(shown) => Ok(WordResult::new(&word.word, shown)),
        Err(e) => Err(e),
    }
}

/// The values of tags, in order.
pub open spec fn tags_view(tags: Vec<WordTag>) -> Seq<Seq<char>> {
    Seq::new(tags.len() as nat, |i: int| tags[i].word@)
}

/// Makes a tag of each word, in order. The kind of the tags plays no part.
#[allow(unused_variables)]
pub fn generate_word_tags<'a>(words: &'a [String], tag_type: &str) -> (tags: Vec<WordTag<'a>>)
    ensures
        tags_view(tags) == Seq::new(words@.len(), |i: int| words@[i]@),
{
    let mut tags: Vec<WordTag<'a>> = Vec::new();
    let mut i: usize = 0;
    while i < words.len()
        invariant
            i <= words.len(),
            tags.len() == i,
            forall|k: int| 0 <= k < i ==> (#[trigger] tags[k]).word@ == words@[k]@,
        decreases words.len() - i,
    {
        tags.push(WordTag::new(&words[i]));
        i += 1;
    }
    tags
}

/// Definitions go on display all or none. The display succeeds exactly where
/// there is a definition and every body can be rendered; it then holds each
/// definition at its place, with its header and the HTML of its body.
pub proof fn lemma_displayed_all(records: Seq<RecordView>)
    ensures
        displayed(records) is Ok <==> records.len() > 0 && forall|i: int|
            0 <= i < records.len() ==> (#[trigger] rendered_text(records[i].body)) is Ok,
        displayed(records) matches Ok(list) ==> list.len() == records.len() && forall|i: int|
            0 <= i < records.len() ==> #[trigger] list[i] == (RenderedView {
                header: records[i].header,
                body: rendered_text(records[i].body)->Ok_0,
            }),
{
    lemma_displayed_prefix(records, records.len());
}

/// A display fails in two ways only: as not found, exactly where there is
/// no definition, and else with corrupt data.
pub proof fn lemma_display_errors(records: Seq<RecordView>)
    ensures
        displayed(records) matches Err(e) ==> {
            &&& e == LookupError::WordNotFound || e is CorruptData
            &&& e == LookupError::WordNotFound <==> records.len() == 0
        },
{
    if records.len() > 0 && displayed(records) is Err {
        lemma_first_corrupt(records, records.len());
    }
}

/// One corrupt body fails the whole display: the error names the first
/// definition, in storage order, whose body cannot be rendered.
pub proof fn lemma_corrupt_fails_all(records: Seq<RecordView>, i: int)
    requires
        0 <= i < records.len(),
        rendered_text(records[i].body) is Err,
    ensures
        exists|first: int|
            0 <= first <= i && (#[trigger] rendered_text(records[first].body)) is Err
                && displayed(records) == Err::<Seq<RenderedView>, LookupError>(
                LookupError::CorruptData(records[first].id),
            ) && forall|k: int| 0 <= k < first ==> (#[trigger] rendered_text(records[k].body)) is Ok,
{
    lemma_displayed_prefix(records, records.len());
    lemma_first_corrupt(records, records.len());
}

/// What a prefix on display holds.
proof fn lemma_displayed_prefix(records: Seq<RecordView>, n: nat)
    requires
        n <= records.len(),
    ensures
        displayed_prefix(records, n) is Ok <==> forall|i: int|
            0 <= i < n ==> (#[trigger] rendered_text(records[i].body)) is Ok,
        displayed_prefix(records, n) matches Ok(list) ==> list.len() == n && forall|i: int|
            0 <= i < n ==> #[trigger] list[i] == (RenderedView {
                header: records[i].header,
                body: rendered_text(records[i].body)->Ok_0,
            }),
    decreases n,
{
    if n > 0 {
        lemma_displayed_prefix(records, (n - 1) as nat);
    }
}

/// A prefix that cannot be displayed fails with its first corrupt record.
proof fn lemma_first_corrupt(records: Seq<RecordView>, n: nat)
    requires
        n <= records.len(),
        displayed_prefix(records, n) is Err,
    ensures
        exists|first: int|
            0 <= first < n && (#[trigger] rendered_text(records[first].body)) is Err
                && displayed_prefix(records, n) == Err::<Seq<RenderedView>, LookupError>(
                LookupError::CorruptData(records[first].id),
            ) && forall|k: int| 0 <= k < first ==> (#[trigger] rendered_text(records[k].body)) is Ok,
    decreases n,
{
    if n > 0 {
        if displayed_prefix(records, (n - 1) as nat) is Err {
            lemma_first_corrupt(records, (n - 1) as nat);
        } else {
            lemma_displayed_prefix(records, (n - 1) as nat);
        }
    }
}

/// Once a prefix cannot be displayed, no longer prefix can, and the error
/// stays the same.
proof fn lemma_display_fails(records: Seq<RecordView>, n: nat, m: nat)
    requires
        n <= m <= records.len(),
        displayed_prefix(records, n) is Err,
    ensures
        displayed_prefix(records, m) == displayed_prefix(records, n),
    decreases m,
{
    if n < m {
        lemma_display_fails(records, n, (m - 1) as nat);
    }
}

} // verus!
