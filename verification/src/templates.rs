//! The values that the page templates are filled with.

use vstd::prelude::*;

verus! {

/// One definition ready for display: its header and the HTML of its body.
#[derive(Debug)]
pub struct Definition {
    pub definition_header: String,
    pub definition_body: String,
}

/// The mathematical value of a displayed [`Definition`].
pub ghost struct RenderedView {
    pub header: Seq<char>,
    pub body: Seq<char>,
}

impl View for Definition {
    type V = RenderedView;

    open spec fn view(&self) -> RenderedView {
        RenderedView { header: self.definition_header@, body: self.definition_body@ }
    }
}

impl Definition {
    pub fn new(definition_header: String, definition_body: String) -> (d: Self)
        ensures
            d.definition_header == definition_header,
            d.definition_body == definition_body,
    {
        Self { definition_header, definition_body }
    }
}

/// The result block of a word: its title and its definitions in order.
#[derive(Debug)]
pub struct WordResult<'a> {
    pub title: &'a String,
    pub definitions: Vec<Definition>,
}

impl<'a> WordResult<'a> {
    pub fn new(title: &'a String, definitions: Vec<Definition>) -> (r: Self)
        ensures
            r.title == title,
            r.definitions == definitions,
    {
        Self { title, definitions }
    }
}

/// A word shown as a tag that searches for it.
#[derive(Debug)]
pub struct WordTag<'a> {
    pub word: &'a String,
}

impl<'a> WordTag<'a> {
    pub fn new(word: &'a String) -> (t: Self)
        ensures
            t.word == word,
    {
        Self { word }
    }
}

/// The message for a word that the dictionary does not have.
#[derive(Debug)]
pub struct Error<'a> {
    pub search_word: &'a String,
}

impl<'a> Error<'a> {
    pub fn new(search_word: &'a String) -> (e: Self)
        ensures
            e.search_word == search_word,
    {
        Self { search_word }
    }
}

/// The page shell around the result of a query.
#[derive(Debug)]
pub struct Index {
    pub query_result: String,
}

impl Index {
    pub fn new(query_result: String) -> (page: Self)
        ensures
            page.query_result == query_result,
    {
        Self { query_result }
    }
}

/// Links that search for a word: each a pair of the word and its label.
#[derive(Debug)]
pub struct QuickLinks<'a> {
    pub links: Vec<(&'a str, &'a str)>,
}

impl<'a> QuickLinks<'a> {
    pub fn new(links: Vec<(&'a str, &'a str)>) -> (q: Self)
        ensures
            q.links == links,
    {
        Self { links }
    }
}

} // verus!
