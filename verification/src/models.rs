//! Dictionary records and the rich-text tree of a definition body.

use crate::json::{Json, JsonView};
use vstd::prelude::*;

verus! {

/// A dictionary headword.
#[derive(Debug)]
pub struct Word {
    pub id: i32,
    pub word: String,
}

/// One stored definition of a headword. `definition` is the serialized body.
#[derive(Debug)]
pub struct Definition {
    pub id: i32,
    pub word_id: i32,
    pub definition: String,
    pub definition_header: String,
}

/// The mathematical value of a [`Word`].
pub ghost struct WordView {
    pub id: i32,
    pub word: Seq<char>,
}

impl View for Word {
    type V = WordView;

    open spec fn view(&self) -> WordView {
        WordView { id: self.id, word: self.word@ }
    }
}

/// The mathematical value of a stored [`Definition`].
pub ghost struct RecordView {
    pub id: i32,
    pub word_id: i32,
    pub body: Seq<char>,
    pub header: Seq<char>,
}

impl View for Definition {
    type V = RecordView;

    open spec fn view(&self) -> RecordView {
        RecordView {
            id: self.id,
            word_id: self.word_id,
            body: self.definition@,
            header: self.definition_header@,
        }
    }
}

/// Why a definition body could not be turned into HTML.
#[derive(Debug, Clone, Copy, PartialEq, Eq, Structural)]
pub enum DecodeError {
    /// The serialized body is not in the wire format.
    Malformed,
    /// A `label-onclick` tag carries no `to`.
    MissingTarget,
}

/// One node of a definition body.
#[derive(Debug)]
pub enum DefinitionBodyChild {
    String(String),
    Tag(DefinitionBodyTag),
}

/// A formatting or cross-reference tag with its optional parts.
#[derive(Debug)]
pub struct DefinitionBodyTag {
    pub tag_type: String,
    pub attrs: Option<Json>,
    pub children: Option<Vec<DefinitionBodyChild>>,
    pub to: Option<String>,
}

/// A decoded definition body: its nodes in order.
#[derive(Debug)]
pub struct DefinitionBody(pub Vec<DefinitionBodyChild>);

/// The mathematical value of a [`DefinitionBodyChild`].
pub ghost enum ChildView {
    Text(Seq<char>),
    Tag(TagView),
}

/// The mathematical value of a [`DefinitionBodyTag`].
pub ghost struct TagView {
    pub kind: Seq<char>,
    pub attrs: Option<JsonView>,
    pub children: Option<Seq<ChildView>>,
    pub target: Option<Seq<char>>,
}

/// The value of a node.
pub open spec fn child_view(c: DefinitionBodyChild) -> ChildView
    decreases c,
{
    match c {
        DefinitionBodyChild::String(s) => ChildView::Text(s@),
        DefinitionBodyChild::Tag(t) => ChildView::Tag(tag_view(t)),
    }
}

/// The value of a tag: its parts, the children each by their value.
pub open spec fn tag_view(t: DefinitionBodyTag) -> TagView
    decreases t,
{
    TagView {
        kind: t.tag_type@,
        attrs: match t.attrs {
            Some(a) => Some(a@),
            None => None,
        },
        children: match t.children {
            Some(cs) => Some(
                Seq::new(
                    cs.len() as nat,
                    |i: int|
                        if 0 <= i < cs.len() {
                            child_view(cs[i])
                        } else {
                            ChildView::Text(Seq::empty())
                        },
                ),
            ),
            None => None,
        },
        target: match t.to {
            Some(s) => Some(s@),
            None => None,
        },
    }
}

impl View for DefinitionBodyChild {
    type V = ChildView;

    open spec fn view(&self) -> ChildView {
        child_view(*self)
    }
}

impl View for DefinitionBodyTag {
    type V = TagView;

    open spec fn view(&self) -> TagView {
        tag_view(*self)
    }
}

/// The values of nodes, in order.
pub open spec fn children_view(cs: Vec<DefinitionBodyChild>) -> Seq<ChildView> {
    Seq::new(cs.len() as nat, |i: int| cs[i]@)
}

impl View for DefinitionBody {
    type V = Seq<ChildView>;

    open spec fn view(&self) -> Seq<ChildView> {
        children_view(self.0)
    }
}

} // verus!
