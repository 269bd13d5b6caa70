//! Decoding of a serialized definition body.
//!
//! A body is a JSON array. Each element is a string, which is literal text,
//! or an object with a string `type` and the optional members `attrs`,
//! `children` (an array of further elements) and `to` (a string). A member
//! that is `null` counts as absent; members with other names are ignored.

use crate::json::{items_view, members_view, parsed, Json, JsonView};
use crate::models::{
    children_view, ChildView, DecodeError, DefinitionBody, DefinitionBodyChild, DefinitionBodyTag,
    TagView,
};
use crate::text::same_text;
use vstd::prelude::*;

verus! {

/// The index of the first member from `from` on that is named `key`.
pub open spec fn position_from(
    members: Seq<(Seq<char>, JsonView)>,
    key: Seq<char>,
    from: nat,
) -> Option<int>
    decreases members.len() - from,
{
    if from >= members.len() {
        None
    } else if members[from as int].0 == key {
        Some(from as int)
    } else {
        position_from(members, key, from + 1)
    }
}

/// The value of the first member named `key`; `None` where no member has
/// that name or the value is `null`.
pub open spec fn member(members: Seq<(Seq<char>, JsonView)>, key: Seq<char>) -> Option<JsonView> {
    match position_from(members, key, 0) {
        Some(i) => if members[i].1 is Null {
            None
        } else {
            Some(members[i].1)
        },
        None => None,
    }
}

/// Whether a member that has to be a string, if it is there, is one.
pub open spec fn text_or_absent(m: Option<JsonView>) -> bool {
    m is Some ==> m->0 is String
}

/// The text of an optional string member.
pub open spec fn text_of(m: Option<JsonView>) -> Option<Seq<char>> {
    match m {
        Some(JsonView::String(s)) => Some(s),
        _ => None,
    }
}

/// The node that a JSON value decodes to, or `None` where the value is not
/// in the wire format. A string is text. An object is a tag where its `type`
/// is a string, its `to`, if there, is a string, and its `children`, if
/// there, are an array of which every element decodes.
pub open spec fn decoded_child(j: JsonView) -> Option<ChildView>
    decreases j, 0nat,
{
    match j {
        JsonView::String(s) => Some(ChildView::Text(s)),
        JsonView::Object(members) => {
            let kind = member(members, "type"@);
            let to = member(members, "to"@);
            let at = position_from(members, "children"@, 0);
            let children = if at is Some && 0 <= at->0 < members.len() && members[at->0].1
                is Array {
                decoded_prefix(members[at->0].1->Array_0, members[at->0].1->Array_0.len())
            } else {
                None
            };
            if kind is Some && kind->0 is String && text_or_absent(to) && (member(
                members,
                "children"@,
            ) is Some ==> children is Some) {
                Some(
                    ChildView::Tag(
                        TagView {
                            kind: kind->0->String_0,
                            attrs: member(members, "attrs"@),
                            children,
                            target: text_of(to),
                        },
                    ),
                )
            } else {
                None
            }
        },
        _ => None,
    }
}

/// The nodes that the first `n` elements of a JSON array decode to, in
/// order; `None` where one of them is not in the wire format.
pub open spec fn decoded_prefix(items: Seq<JsonView>, n: nat) -> Option<Seq<ChildView>>
    decreases items, n,
{
    if n == 0 || n > items.len() {
        Some(Seq::empty())
    } else {
        match (decoded_prefix(items, (n - 1) as nat), decoded_child(items[n - 1])) {
            (Some(head), Some(last)) => Some(head.push(last)),
            _ => None,
        }
    }
}

/// The nodes that the elements of a JSON array decode to.
pub open spec fn decoded_children(items: Seq<JsonView>) -> Option<Seq<ChildView>> {
    decoded_prefix(items, items.len())
}

/// The body that a JSON value decodes to.
pub open spec fn decoded_body(j: JsonView) -> Result<Seq<ChildView>, DecodeError> {
    match j {
        JsonView::Array(items) => match decoded_children(items) {
            Some(cs) => Ok(cs),
            None => Err(DecodeError::Malformed),
        },
        _ => Err(DecodeError::Malformed),
    }
}

/// The body that a serialized text decodes to.
pub open spec fn decoded(text: Seq<char>) -> Result<Seq<ChildView>, DecodeError> {
    match parsed(text) {
        Some(j) => decoded_body(j),
        None => Err(DecodeError::Malformed),
    }
}

/// Finds the first member named `key` and gives its index, unless its value
/// is `null`.
fn find(members: &Vec<(String, Json)>, key: &str) -> (r: Option<usize>)
    ensures
        match r {
            Some(i) => {
                &&& i < members.len()
                &&& position_from(members_view(*members), key@, 0) == Some(i as int)
                &&& members_view(*members)[i as int].1 == members[i as int].1@
                &&& member(members_view(*members), key@) == Some(members[i as int].1@)
            },
            None => member(members_view(*members), key@) is None,
        },
{
    let ghost held = members_view(*members);
    let mut i: usize = 0;
    while i < members.len()
        invariant
            i <= members.len(),
            held == members_view(*members),
            position_from(held, key@, 0) == position_from(held, key@, i as nat),
        decreases members.len() - i,
    {
        assert(held[i as int] == (members[i as int].0@, members[i as int].1@));
        if same_text(members[i].0.as_str(), key) {
            return match &members[i].1 {
                Json::Null => None,
                _ => Some(i),
            };
        }
        i += 1;
    }
    None
}

/// Decodes one element of a body.
fn decode_child(j: &Json) -> (r: Result<DefinitionBodyChild, DecodeError>)
    ensures
        match r {
            Ok(c) => decoded_child(j@) == Some(c@),
            Err(e) => e == DecodeError::Malformed && decoded_child(j@) is None,
        },
    decreases j,
{
    match j {
        Json::String(s) => Ok(DefinitionBodyChild::String(s.clone())),
        Json::Object(members) => {
            let tag_type = match find(members, "type") {
                Some(i) => match &members[i].1 {
                    Json::String(s) => s.clone(),
                    _ => {
                        return Err(DecodeError::Malformed);
                    },
                },
                None => {
                    return Err(DecodeError::Malformed);
                },
            };
            let to = match find(members, "to") {
                Some(i) => match &members[i].1 {
                    Json::String(s) => Some(s.clone()),
                    _ => {
                        return Err(DecodeError::Malformed);
                    },
                },
                None => None,
            };
            let children = match find(members, "children") {
                Some(i) => match &members[i].1 {
                    Json::Array(items) => match decode_children(items) {
                        Ok(cs) => Some(cs),
                        Err(e) => {
                            return Err(e);
                        },
                    },
                    _ => {
                        return Err(DecodeError::Malformed);
                    },
                },
                None => None,
            };
            let attrs = match find(members, "attrs") {
                Some(i) => Some(members[i].1.duplicate()),
                None => None,
            };
            let tag = DefinitionBodyTag { tag_type, attrs, children, to };
            assert(tag@.children matches Some(cs) ==> cs =~= children_view(tag.children->0));
            Ok(DefinitionBodyChild::Tag(tag))
        },
        _ => Err(DecodeError::Malformed),
    }
}

/// Decodes the elements of an array, in order.
fn decode_children(items: &Vec<Json>) -> (r: Result<Vec<DefinitionBodyChild>, DecodeError>)
    ensures
        match r {
            Ok(cs) => decoded_children(items_view(*items)) == Some(children_view(cs)),
            Err(e) => e == DecodeError::Malformed && decoded_children(items_view(*items)) is None,
        },
    decreases items,
{
    let ghost held = items_view(*items);
    let mut out: Vec<DefinitionBodyChild> = Vec::new();
    let mut i: usize = 0;
    while i < items.len()
        invariant
            i <= items.len(),
            held == items_view(*items),
            decoded_prefix(held, i as nat) == Some(children_view(out)),
        decreases items.len() - i,
    {
        match decode_child(&items[i]) {
            Ok(c) => {
                out.push(c);
            },
            Err(e) => {
                proof {
                    lemma_prefix_fails(held, (i + 1) as nat, held.len());
                }
                return Err(e);
            },
        }
        i += 1;
    }
    Ok(out)
}

/// Decodes a body from its JSON value: an array whose elements are all in
/// the wire format. Anything else is malformed.
pub fn decode_json(j: &Json) -> (r: Result<DefinitionBody, DecodeError>)
    ensures
        match r {
            Ok(body) => decoded_body(j@) == Ok::<Seq<ChildView>, DecodeError>(body@),
            Err(e) => decoded_body(j@) == Err::<Seq<ChildView>, DecodeError>(e),
        },
{
    match j {
        Json::Array(items) => match decode_children(items) {
            Ok(cs) => Ok(DefinitionBody(cs)),
            Err(e) => Err(e),
        },
        _ => Err(DecodeError::Malformed),
    }
}

/// Decodes a serialized body. A text that is not JSON is malformed; for one
/// that is, the result is that of [`decode_json`] on its value.
pub fn decode(serialized: &str) -> (r: Result<DefinitionBody, DecodeError>)
    ensures
        match r {
            Ok(body) => decoded(serialized@) == Ok::<Seq<ChildView>, DecodeError>(body@),
            Err(e) => decoded(serialized@) == Err::<Seq<ChildView>, DecodeError>(e),
        },
{
    match Json::parse(serialized) {
        Some(j) => decode_json(&j),
        None => Err(DecodeError::Malformed),
    }
}

/// An array decodes exactly where each of its elements does, and then to the
/// nodes of the elements, each at its place.
pub proof fn lemma_decoded_children(items: Seq<JsonView>)
    ensures
        decoded_children(items) is Some <==> forall|i: int|
            0 <= i < items.len() ==> (#[trigger] decoded_child(items[i])) is Some,
        decoded_children(items) matches Some(cs) ==> cs.len() == items.len() && forall|i: int|
            0 <= i < items.len() ==> Some(#[trigger] cs[i]) == decoded_child(items[i]),
{
    lemma_decoded_prefix(items, items.len());
}

/// What the decoded prefix of an array holds.
proof fn lemma_decoded_prefix(items: Seq<JsonView>, n: nat)
    requires
        n <= items.len(),
    ensures
        decoded_prefix(items, n) is Some <==> forall|i: int|
            0 <= i < n ==> (#[trigger] decoded_child(items[i])) is Some,
        decoded_prefix(items, n) matches Some(cs) ==> cs.len() == n && forall|i: int|
            0 <= i < n ==> Some(#[trigger] cs[i]) == decoded_child(items[i]),
    decreases n,
{
    if n > 0 {
        lemma_decoded_prefix(items, (n - 1) as nat);
        // Names the last element, so that the facts of both prefixes meet on it.
        assert(decoded_child(items[n - 1]) is Some || decoded_child(items[n - 1]) is None);
    }
}

/// Once a prefix fails to decode, every longer prefix fails.
proof fn lemma_prefix_fails(items: Seq<JsonView>, n: nat, m: nat)
    requires
        n <= m <= items.len(),
        decoded_prefix(items, n) is None,
    ensures
        decoded_prefix(items, m) is None,
    decreases m,
{
    if n < m {
        lemma_prefix_fails(items, n, (m - 1) as nat);
    }
}

} // verus!
