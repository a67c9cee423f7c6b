//! The XML events that the registry generators consume, as plain values.

use vstd::prelude::*;
use crate::text::same_text;

verus! {

/// An opening or empty element: its name and its attributes in document
/// order, values as written (not unescaped).
#[derive(Debug, Clone, PartialEq, Eq)]
pub struct XmlTag {
    pub name: String,
    pub attributes: Vec<(String, String)>,
}

/// One event of an XML reader that trims whitespace-only text.
#[derive(Debug, Clone, PartialEq, Eq)]
pub enum XmlEvent {
    /// An opening tag.
    Start(XmlTag),
    /// An empty element (`<a/>`).
    Empty(XmlTag),
    /// Text between tags, unescaped.
    Text(String),
    /// A closing tag, by name.
    End(String),
    /// A comment, declaration, processing instruction or the like.
    Other,
}

/// The mathematical value of a tag.
#[verifier::ext_equal]
pub struct XmlTagView {
    pub name: Seq<char>,
    pub attributes: Seq<(Seq<char>, Seq<char>)>,
}

/// The mathematical value of an event.
#[verifier::ext_equal]
pub enum XmlEventView {
    Start(XmlTagView),
    Empty(XmlTagView),
    Text(Seq<char>),
    End(Seq<char>),
    Other,
}

/// The views of a list of attributes.
pub open spec fn attributes_view(a: Seq<(String, String)>) -> Seq<(Seq<char>, Seq<char>)> {
    a.map_values(|p: (String, String)| (p.0@, p.1@))
}

impl View for XmlTag {
    type V = XmlTagView;

    open spec fn view(&self) -> XmlTagView {
        XmlTagView { name: self.name@, attributes: attributes_view(self.attributes@) }
    }
}

impl View for XmlEvent {
    type V = XmlEventView;

    open spec fn view(&self) -> XmlEventView {
        match self {
            XmlEvent::Start(t) => XmlEventView::Start(t@),
            XmlEvent::Empty(t) => XmlEventView::Empty(t@),
            XmlEvent::Text(s) => XmlEventView::Text(s@),
            XmlEvent::End(s) => XmlEventView::End(s@),
            XmlEvent::Other => XmlEventView::Other,
        }
    }
}

/// The value of attribute `k`: the last one of that name, as a map filled in
/// document order keeps it.
pub open spec fn attr_get(a: Seq<(Seq<char>, Seq<char>)>, k: Seq<char>) -> Option<Seq<char>>
    decreases a.len(),
{
    if a.len() == 0 {
        None
    } else if a.last().0 == k {
        Some(a.last().1)
    } else {
        attr_get(a.drop_last(), k)
    }
}

/// The view of an optional text.
pub open spec fn opt_view(o: Option<String>) -> Option<Seq<char>> {
    match o {
        Some(s) => Some(s@),
        None => None,
    }
}

/// The value of attribute `key` of a tag, if it has one.
pub fn attribute(tag: &XmlTag, key: &str) -> (r: Option<String>)
    ensures
        opt_view(r) == attr_get(tag@.attributes, key@),
{
    let ghost a = tag@.attributes;
    let mut i: usize = tag.attributes.len();
    assert(a.take(i as int) =~= a);
    while i > 0
        invariant
            i <= tag.attributes@.len(),
            a == attributes_view(tag.attributes@),
            attr_get(a, key@) == attr_get(a.take(i as int), key@),
        decreases i,
    {
        let ghost t = a.take(i as int);
        assert(t.drop_last() =~= a.take(i - 1));
        assert(t.last() == (tag.attributes@[i - 1].0@, tag.attributes@[i - 1].1@));
        if same_text(tag.attributes[i - 1].0.as_str(), key) {
            return Some(tag.attributes[i - 1].1.clone());
        }
        i = i - 1;
    }
    None
}

/// The value of attribute `key`, or the empty text.
pub open spec fn attr_or_empty(a: Seq<(Seq<char>, Seq<char>)>, k: Seq<char>) -> Seq<char> {
    match attr_get(a, k) {
        Some(v) => v,
        None => Seq::empty(),
    }
}

/// The value of attribute `key` of a tag, or the empty text.
pub fn attribute_or_empty(tag: &XmlTag, key: &str) -> (r: String)
    ensures
        r@ == attr_or_empty(tag@.attributes, key@),
{
    match attribute(tag, key) {
        Some(v) => v,
        None => String::new(),
    }
}

} // verus!
