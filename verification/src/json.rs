//! JSON values as the decoder reads them.

use vstd::prelude::*;

verus! {

/// A JSON value reduced to what the decoder looks at. Numbers carry no
/// magnitude: nothing downstream reads it.
#[derive(Debug)]
pub enum Json {
    Null,
    Bool(bool),
    Number,
    String(String),
    Array(Vec<Json>),
    Object(Vec<(String, Json)>),
}

/// The mathematical value of a [`Json`].
pub ghost enum JsonView {
    Null,
    Bool(bool),
    Number,
    String(Seq<char>),
    Array(Seq<JsonView>),
    Object(Seq<(Seq<char>, JsonView)>),
}

/// The value of a [`Json`]: the same shape, with strings as sequences of
/// characters and arrays and objects as sequences.
pub open spec fn json_view(j: Json) -> JsonView
    decreases j,
{
    match j {
        Json::Null => JsonView::Null,
        Json::Bool(b) => JsonView::Bool(b),
        Json::Number => JsonView::Number,
        Json::String(s) => JsonView::String(s@),
        Json::Array(items) => JsonView::Array(
            Seq::new(
                items.len() as nat,
                |i: int|
                    if 0 <= i < items.len() {
                        json_view(items[i])
                    } else {
                        JsonView::Null
                    },
            ),
        ),
        Json::Object(members) => JsonView::Object(
            Seq::new(
                members.len() as nat,
                |i: int|
                    if 0 <= i < members.len() {
                        (members[i].0@, json_view(members[i].1))
                    } else {
                        (Seq::empty(), JsonView::Null)
                    },
            ),
        ),
    }
}

impl View for Json {
    type V = JsonView;

    open spec fn view(&self) -> JsonView {
        json_view(*self)
    }
}

/// The values of the elements of an array.
pub open spec fn items_view(items: Vec<Json>) -> Seq<JsonView> {
    Json::Array(items)@->Array_0
}

/// The names and values of the members of an object.
pub open spec fn members_view(members: Vec<(String, Json)>) -> Seq<(Seq<char>, JsonView)> {
    Json::Object(members)@->Object_0
}

impl Json {
    /// A copy of the value.
    pub fn duplicate(&self) -> (copy: Json)
        ensures
            copy@ == self@,
        decreases self,
    {
        match self {
            Json::Null => Json::Null,
            Json::Bool(b) => Json::Bool(*b),
            Json::Number => Json::Number,
            Json::String(s) => Json::String(s.clone()),
            Json::Array(items) => {
                let mut out: Vec<Json> = Vec::new();
                let mut i: usize = 0;
                while i < items.len()
                    invariant
                        i <= items.len(),
                        *self == Json::Array(*items),
                        out.len() == i,
                        forall|k: int| 0 <= k < i ==> (#[trigger] out[k])@ == items[k]@,
                    decreases items.len() - i,
                {
                    assert(decreases_to!(*self => self->Array_0[i as int]));
                    out.push(items[i].duplicate());
                    i += 1;
                }
                let copy = Json::Array(out);
                assert(copy@->Array_0 =~= self@->Array_0);
                copy
            },
            Json::Object(members) => {
                let mut out: Vec<(String, Json)> = Vec::new();
                let mut i: usize = 0;
                while i < members.len()
                    invariant
                        i <= members.len(),
                        *self == Json::Object(*members),
                        out.len() == i,
                        forall|k: int|
                            0 <= k < i ==> (#[trigger] out[k]).0@ == members[k].0@ && out[k].1@
                                == members[k].1@,
                    decreases members.len() - i,
                {
                    assert(decreases_to!(*self => self->Object_0[i as int].1));
                    out.push((members[i].0.clone(), members[i].1.duplicate()));
                    i += 1;
                }
                let copy = Json::Object(out);
                assert(copy@->Object_0 =~= self@->Object_0);
                copy
            },
        }
    }
}

/// `serde_json::Value`, carried through as an opaque value.
#[verifier::external_type_specification]
#[verifier::external_body]
pub struct ExValue(serde_json::Value);

/// What a `serde_json::Value` holds.
pub uninterp spec fn value_of(v: serde_json::Value) -> JsonView;

/// What `serde_json::from_str::<serde_json::Value>` makes of a text: the
/// value it parses to, or `None` where it reports an error.
pub uninterp spec fn parsed(text: Seq<char>) -> Option<JsonView>;

/// One level of a `serde_json::Value`: its variant, with the fields borrowed.
enum Shape<'a> {
    Null,
    Bool(bool),
    Number,
    String(&'a String),
    Array(&'a Vec<serde_json::Value>),
    Object(Vec<(&'a String, &'a serde_json::Value)>),
}

impl<'a> Shape<'a> {
    /// The JSON value that a shape stands for, each nested value taken by
    /// what it holds.
    spec fn value(self) -> JsonView {
        match self {
            Shape::Null => JsonView::Null,
            Shape::Bool(b) => JsonView::Bool(b),
            Shape::Number => JsonView::Number,
            Shape::String(s) => JsonView::String(s@),
            Shape::Array(items) => JsonView::Array(items@.map_values(|v| value_of(v))),
            Shape::Object(members) => JsonView::Object(
                members@.map_values(
                    |m: (&String, &serde_json::Value)| (m.0@, value_of(*m.1)),
                ),
            ),
        }
    }
}

/// Calls `serde_json::from_str` at type `serde_json::Value` and drops the
/// error it may report. The outcome is a function of the text alone: a value
/// that holds `parsed(text)`, or `None` exactly where `parsed(text)` is.
#[verifier::external_body]
fn parse_value(text: &str) -> (r: Option<serde_json::Value>)
    ensures
        match r {
            Some(v) => parsed(text@) == Some(value_of(v)),
            None => parsed(text@) is None,
        },
{
    serde_json::from_str::<serde_json::Value>(text).ok()
}

/// Tells the variants of `serde_json::Value` apart and borrows the fields.
/// The members of an object come in the order in which `serde_json::Map`
/// iterates over them.
#[verifier::external_body]
fn shape_of<'a>(v: &'a serde_json::Value) -> (r: Shape<'a>)
    ensures
        r.value() == value_of(*v),
{
    match v {
        serde_json::Value::Null => Shape::Null,
        serde_json::Value::Bool(b) => Shape::Bool(*b),
        serde_json::Value::Number(_) => Shape::Number,
        serde_json::Value::String(s) => Shape::String(s),
        serde_json::Value::Array(items) => Shape::Array(items),
        serde_json::Value::Object(members) => Shape::Object(members.iter().collect()),
    }
}

/// Copies a `serde_json::Value` into a [`Json`], level by level.
fn lift(v: &serde_json::Value) -> (j: Json)
    ensures
        j@ == value_of(*v),
    decreases value_of(*v),
{
    match shape_of(v) {
        Shape::Null => Json::Null,
        Shape::Bool(b) => Json::Bool(b),
        Shape::Number => Json::Number,
        Shape::String(s) => Json::String(s.clone()),
        Shape::Array(items) => {
            let ghost held = items@.map_values(|x| value_of(x));
            let mut out: Vec<Json> = Vec::new();
            let mut i: usize = 0;
            while i < items.len()
                invariant
                    i <= items.len(),
                    held == items@.map_values(|x| value_of(x)),
                    value_of(*v) == JsonView::Array(held),
                    out.len() == i,
                    forall|k: int| 0 <= k < i ==> (#[trigger] out[k])@ == held[k],
                decreases items.len() - i,
            {
                proof {
                    assert(decreases_to!(value_of(*v) => value_of(*v)->Array_0[i as int]));
                }
                let item = lift(&items[i]);
                out.push(item);
                i += 1;
            }
            let j = Json::Array(out);
            assert(j@ =~= value_of(*v)) by {
                assert(j@->Array_0 =~= held);
            }
            j
        },
        Shape::Object(members) => {
            let ghost held = members@.map_values(
                |m: (&String, &serde_json::Value)| (m.0@, value_of(*m.1)),
            );
            let mut out: Vec<(String, Json)> = Vec::new();
            let mut i: usize = 0;
            while i < members.len()
                invariant
                    i <= members.len(),
                    held == members@.map_values(
                        |m: (&String, &serde_json::Value)| (m.0@, value_of(*m.1)),
                    ),
                    value_of(*v) == JsonView::Object(held),
                    out.len() == i,
                    forall|k: int|
                        0 <= k < i ==> ((#[trigger] out[k]).0@, out[k].1@) == held[k],
                decreases members.len() - i,
            {
                proof {
                    assert(held[i as int] == (
                        members[i as int].0@,
                        value_of(*members[i as int].1),
                    ));
                    assert(decreases_to!(value_of(*v) => value_of(*v)->Object_0[i as int].1));
                }
                let key = members[i].0.clone();
                let item = lift(members[i].1);
                out.push((key, item));
                i += 1;
            }
            let j = Json::Object(out);
            assert(j@ =~= value_of(*v)) by {
                assert(j@->Object_0 =~= held);
            }
            j
        },
    }
}

impl Json {
    /// Parses a JSON text with `serde_json`. The result is `Some` exactly
    /// where `serde_json` accepts the text, and then holds the value that it
    /// read.
    pub fn parse(text: &str) -> (r: Option<Json>)
        ensures
            match r {
                Some(j) => parsed(text@) == Some(j@),
                None => parsed(text@) is None,
            },
    {
        match parse_value(text) {
            Some(v) => Some(lift(&v)),
            None => None,
        }
    }
}

} // verus!
