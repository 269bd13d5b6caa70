//! Rendering of a definition body to an HTML fragment.

use crate::models::{
    children_view, ChildView, DecodeError, DefinitionBody, DefinitionBodyChild, DefinitionBodyTag,
};
use crate::text::same_text;
use vstd::prelude::*;

verus! {

/// The tags that the renderer knows, and one variant for every other kind.
#[derive(Debug, Clone, Copy, PartialEq, Eq, Structural)]
pub enum TagKind {
    Br,
    Sup,
    Sub,
    I,
    LabelOnclick,
    Other,
}

/// The kind that a tag's `type` names. The match is exact and case-sensitive.
pub open spec fn kind_of(tag_type: Seq<char>) -> TagKind {
    if tag_type == "br"@ {
        TagKind::Br
    } else if tag_type == "sup"@ {
        TagKind::Sup
    } else if tag_type == "sub"@ {
        TagKind::Sub
    } else if tag_type == "i"@ {
        TagKind::I
    } else if tag_type == "label-onclick"@ {
        TagKind::LabelOnclick
    } else {
        TagKind::Other
    }
}

/// `s` without the leading `p`, or `s` itself where it does not start with `p`.
pub open spec fn without_prefix(s: Seq<char>, p: Seq<char>) -> Seq<char> {
    if p.is_prefix_of(s) {
        s.skip(p.len() as int)
    } else {
        s
    }
}

/// `s` without the trailing `p`, or `s` itself where it does not end with `p`.
pub open spec fn without_suffix(s: Seq<char>, p: Seq<char>) -> Seq<char> {
    if p.is_suffix_of(s) {
        s.take(s.len() - p.len())
    } else {
        s
    }
}

/// The word that a cross-reference target names: the target without the
/// opening `lookupWord1('` and then without the closing `')`. A target in
/// another form passes through with whatever part of it matches removed.
pub open spec fn target_word(to: Seq<char>) -> Seq<char> {
    without_suffix(without_prefix(to, "lookupWord1('"@), "')"@)
}

/// The markup of a tag of the given kind around the rendered children.
pub open spec fn wrapped(kind: TagKind, target: Option<Seq<char>>, inner: Seq<char>) -> Result<
    Seq<char>,
    DecodeError,
> {
    match kind {
        TagKind::Br => Ok("<br>"@),
        TagKind::Sup => Ok("<sup>"@ + inner + "</sup>"@),
        TagKind::Sub => Ok("<sub>"@ + inner + "</sub>"@),
        TagKind::I => Ok("<i>"@ + inner + "</i>"@),
        TagKind::LabelOnclick => match target {
            Some(to) => Ok("<a href=\"?q="@ + target_word(to) + "\">"@ + inner + "</a>"@),
            None => Err(DecodeError::MissingTarget),
        },
        TagKind::Other => Ok(inner),
    }
}

/// The HTML of one node. Text stands for itself. A tag without children is
/// empty; otherwise its children are rendered first, in order, and the tag's
/// markup goes around them.
pub open spec fn rendered_child(c: ChildView) -> Result<Seq<char>, DecodeError>
    decreases c, 0nat,
{
    match c {
        ChildView::Text(s) => Ok(s),
        ChildView::Tag(t) => match t.children {
            None => Ok(Seq::empty()),
            Some(cs) => match rendered_prefix(cs, cs.len()) {
                Ok(inner) => wrapped(kind_of(t.kind), t.target, inner),
                Err(e) => Err(e),
            },
        },
    }
}

/// The HTML of the first `n` nodes of `cs`, one after the other; the error of
/// the first node that has one.
pub open spec fn rendered_prefix(cs: Seq<ChildView>, n: nat) -> Result<Seq<char>, DecodeError>
    decreases cs, n,
{
    if n == 0 || n > cs.len() {
        Ok(Seq::empty())
    } else {
        match rendered_prefix(cs, (n - 1) as nat) {
            Ok(head) => match rendered_child(cs[n - 1]) {
                Ok(last) => Ok(head + last),
                Err(e) => Err(e),
            },
            Err(e) => Err(e),
        }
    }
}

/// The HTML of a whole body.
pub open spec fn rendered(body: Seq<ChildView>) -> Result<Seq<char>, DecodeError> {
    rendered_prefix(body, body.len())
}

/// Rendering fails in one way only: for a cross-reference without target.
pub proof fn lemma_render_errors(body: Seq<ChildView>)
    ensures
        rendered(body) matches Err(e) ==> e == DecodeError::MissingTarget,
{
    lemma_prefix_errors(body, body.len());
}

/// The error of a node is that of a cross-reference in it without target.
proof fn lemma_child_errors(c: ChildView)
    ensures
        rendered_child(c) matches Err(e) ==> e == DecodeError::MissingTarget,
    decreases c, 0nat,
{
    if let ChildView::Tag(t) = c {
        if let Some(cs) = t.children {
            lemma_prefix_errors(cs, cs.len());
        }
    }
}

/// The error of a prefix is that of one of its nodes.
proof fn lemma_prefix_errors(cs: Seq<ChildView>, n: nat)
    ensures
        rendered_prefix(cs, n) matches Err(e) ==> e == DecodeError::MissingTarget,
    decreases cs, n,
{
    if 0 < n <= cs.len() {
        lemma_prefix_errors(cs, (n - 1) as nat);
        lemma_child_errors(cs[n - 1]);
    }
}

/// Two results in a row: the texts joined, or the first error.
pub open spec fn joined(
    first: Result<Seq<char>, DecodeError>,
    second: Result<Seq<char>, DecodeError>,
) -> Result<Seq<char>, DecodeError> {
    match (first, second) {
        (Ok(head), Ok(tail)) => Ok(head + tail),
        (Err(e), _) => Err(e),
        (_, Err(e)) => Err(e),
    }
}

/// Rendering keeps the order of the nodes: the HTML of nodes followed by
/// further nodes is the HTML of the former followed by that of the latter.
pub proof fn lemma_rendered_in_order(a: Seq<ChildView>, b: Seq<ChildView>)
    ensures
        rendered(a + b) == joined(rendered(a), rendered(b)),
{
    lemma_rendered_split(a, b, b.len());
}

/// A prefix is rendered from its own nodes alone.
proof fn lemma_rendered_front(a: Seq<ChildView>, b: Seq<ChildView>, n: nat)
    requires
        n <= a.len(),
    ensures
        rendered_prefix(a + b, n) == rendered_prefix(a, n),
    decreases n,
{
    if n > 0 {
        lemma_rendered_front(a, b, (n - 1) as nat);
    }
}

/// What is rendered of `a` and the first `k` nodes of `b`.
proof fn lemma_rendered_split(a: Seq<ChildView>, b: Seq<ChildView>, k: nat)
    requires
        k <= b.len(),
    ensures
        rendered_prefix(a + b, a.len() + k) == joined(rendered(a), rendered_prefix(b, k)),
    decreases k,
{
    if k == 0 {
        lemma_rendered_front(a, b, a.len());
    } else {
        lemma_rendered_split(a, b, (k - 1) as nat);
        let last = rendered_child(b[k - 1]);
        if rendered(a) is Ok && rendered_prefix(b, (k - 1) as nat) is Ok && last is Ok {
            let head = rendered(a)->Ok_0;
            let tail = rendered_prefix(b, (k - 1) as nat)->Ok_0;
            assert((head + tail) + last->Ok_0 =~= head + (tail + last->Ok_0));
        }
    }
}

/// Whether an executable result is the given mathematical one.
pub open spec fn gives(r: Result<String, DecodeError>, m: Result<Seq<char>, DecodeError>) -> bool {
    match r {
        Ok(html) => m == Ok::<Seq<char>, DecodeError>(html@),
        Err(e) => m == Err::<Seq<char>, DecodeError>(e),
    }
}

/// Names the kind of a tag from its `type`.
pub fn classify(tag_type: &str) -> (kind: TagKind)
    ensures
        kind == kind_of(tag_type@),
{
    if same_text(tag_type, "br") {
        TagKind::Br
    } else if same_text(tag_type, "sup") {
        TagKind::Sup
    } else if same_text(tag_type, "sub") {
        TagKind::Sub
    } else if same_text(tag_type, "i") {
        TagKind::I
    } else if same_text(tag_type, "label-onclick") {
        TagKind::LabelOnclick
    } else {
        TagKind::Other
    }
}

fn drop_prefix<'a>(s: &'a str, p: &str) -> (r: &'a str)
    ensures
        r@ == without_prefix(s@, p@),
{
    let n: usize = s.unicode_len();
    let k: usize = p.unicode_len();
    if k <= n && same_text(s.substring_char(0, k), p) {
        s.substring_char(k, n)
    } else {
        s
    }
}

fn drop_suffix<'a>(s: &'a str, p: &str) -> (r: &'a str)
    ensures
        r@ == without_suffix(s@, p@),
{
    let n: usize = s.unicode_len();
    let k: usize = p.unicode_len();
    if k <= n && same_text(s.substring_char(n - k, n), p) {
        s.substring_char(0, n - k)
    } else {
        s
    }
}

/// Extracts the word from a cross-reference target.
pub fn lookup_word(to: &str) -> (word: String)
    ensures
        word@ == target_word(to@),
{
    drop_suffix(drop_prefix(to, "lookupWord1('"), "')").to_owned()
}

/// `open`, `inner` and `close`, one after the other.
fn enclose(open: &str, inner: &str, close: &str) -> (html: String)
    ensures
        html@ == open@ + inner@ + close@,
{
    let mut html = open.to_owned();
    html.append(inner);
    html.append(close);
    html
}

/// Puts the markup of a tag of the given kind around its rendered children.
fn wrap(kind: TagKind, target: &Option<String>, inner: String) -> (r: Result<String, DecodeError>)
    ensures
        gives(
            r,
            wrapped(
                kind,
                match *target {
                    Some(to) => Some(to@),
                    None => None,
                },
                inner@,
            ),
        ),
{
    match kind {
        TagKind::Br => Ok("<br>".to_owned()),
        TagKind::Sup => Ok(enclose("<sup>", inner.as_str(), "</sup>")),
        TagKind::Sub => Ok(enclose("<sub>", inner.as_str(), "</sub>")),
        TagKind::I => Ok(enclose("<i>", inner.as_str(), "</i>")),
        TagKind::LabelOnclick => match target {
            Some(to) => {
                let word = lookup_word(to.as_str());
                let head = enclose("<a href=\"?q=", word.as_str(), "\">");
                Ok(enclose(head.as_str(), inner.as_str(), "</a>"))
            },
            None => Err(DecodeError::MissingTarget),
        },
        TagKind::Other => Ok(inner),
    }
}

/// Renders one node.
pub fn render_node(node: &DefinitionBodyChild) -> (r: Result<String, DecodeError>)
    ensures
        gives(r, rendered_child(node@)),
    decreases node,
{
    match node {
        DefinitionBodyChild::String(s) => Ok(s.clone()),
        DefinitionBodyChild::Tag(t) => t.render(),
    }
}

/// Renders nodes in order and joins what they give.
fn render_nodes(nodes: &Vec<DefinitionBodyChild>) -> (r: Result<String, DecodeError>)
    ensures
        gives(r, rendered(children_view(*nodes))),
    decreases nodes,
{
    let ghost views = children_view(*nodes);
    let mut html = String::new();
    let mut i: usize = 0;
    while i < nodes.len()
        invariant
            i <= nodes.len(),
            views == children_view(*nodes),
            rendered_prefix(views, i as nat) == Ok::<Seq<char>, DecodeError>(html@),
        decreases nodes.len() - i,
    {
        match render_node(&nodes[i]) {
            Ok(piece) => {
                html.append(piece.as_str());
            },
            Err(e) => {
                proof {
                    lemma_prefix_error(views, (i + 1) as nat, views.len());
                }
                return Err(e);
            },
        }
        i += 1;
    }
    Ok(html)
}

/// Once a prefix has an error, every longer prefix has the same one.
proof fn lemma_prefix_error(cs: Seq<ChildView>, n: nat, m: nat)
    requires
        n <= m <= cs.len(),
        rendered_prefix(cs, n) is Err,
    ensures
        rendered_prefix(cs, m) == rendered_prefix(cs, n),
    decreases m,
{
    if n < m {
        lemma_prefix_error(cs, n, (m - 1) as nat);
    }
}

impl DefinitionBodyTag {
    /// Renders the tag with its children.
    pub fn render(&self) -> (r: Result<String, DecodeError>)
        ensures
            gives(r, rendered_child(ChildView::Tag(self@))),
        decreases self,
    {
        match &self.children {
            None => Ok(String::new()),
            Some(cs) => {
                proof {
                    assert(self@.children->0 =~= children_view(*cs));
                }
                match render_nodes(cs) {
                    Ok(inner) => wrap(classify(self.tag_type.as_str()), &self.to, inner),
                    Err(e) => Err(e),
                }
            },
        }
    }
}

impl DefinitionBody {
    /// Renders the body: the HTML of its nodes in order, or the error of the
    /// first node that cannot be rendered.
    pub fn render(&self) -> (r: Result<String, DecodeError>)
        ensures
            gives(r, rendered(self@)),
    {
        render_nodes(&self.0)
    }

    /// The HTML of a body in which every cross-reference has its target.
    pub fn to_string(&self) -> (html: String)
        requires
            rendered(self@) is Ok,
        ensures
            rendered(self@) == Ok::<Seq<char>, DecodeError>(html@),
    {
        match self.render() {
            Ok(html) => html,
            Err(_) => String::new(),
        }
    }
}

} // verus!
