//! Reading an XML document into the events that the generators consume:
//! quick-xml tokenises the document, and the names, attribute values and
//! text it reports are decoded here.

use vstd::prelude::*;
use vstd::utf8::{valid_utf8, decode_utf8};
use vstd::string::StringSliceAdditionalSpecFns;
use quick_xml::events::Event;
use crate::text::str_from_utf8;
use crate::vk_registry::GenError;
use crate::xml::{attributes_view, opt_view, XmlEvent, XmlEventView, XmlTag, XmlTagView};

verus! {

#[verifier::external_type_specification]
#[verifier::external_body]
pub struct ExXmlError(quick_xml::Error);

#[verifier::external_type_specification]
#[verifier::external_body]
pub struct ExXmlAttributes<'a>(quick_xml::events::attributes::Attributes<'a>);

#[verifier::external_type_specification]
#[verifier::external_body]
pub struct ExXmlAttribute<'a>(quick_xml::events::attributes::Attribute<'a>);

/// A tag as quick-xml reports it: its name and its attributes in document
/// order, all as raw bytes (attribute values not unescaped).
#[derive(Debug, Clone, PartialEq, Eq)]
pub struct RawXmlTag {
    pub name: Vec<u8>,
    pub attributes: Vec<(Vec<u8>, Vec<u8>)>,
}

/// An event as quick-xml reports it, text still escaped.
#[derive(Debug, Clone, PartialEq, Eq)]
pub enum RawXmlEvent {
    Start(RawXmlTag),
    Empty(RawXmlTag),
    Text(Vec<u8>),
    End(Vec<u8>),
    /// The end of the document.
    Eof,
    /// A comment, CDATA section, declaration, processing instruction or doctype.
    Other,
}

/// The mathematical value of a raw tag.
#[verifier::ext_equal]
pub struct RawXmlTagView {
    pub name: Seq<u8>,
    pub attributes: Seq<(Seq<u8>, Seq<u8>)>,
}

/// The mathematical value of a raw event.
#[verifier::ext_equal]
pub enum RawXmlEventView {
    Start(RawXmlTagView),
    Empty(RawXmlTagView),
    Text(Seq<u8>),
    End(Seq<u8>),
    Eof,
    Other,
}

/// The views of raw attributes.
pub open spec fn raw_attributes_view(a: Seq<(Vec<u8>, Vec<u8>)>) -> Seq<(Seq<u8>, Seq<u8>)> {
    a.map_values(|p: (Vec<u8>, Vec<u8>)| (p.0@, p.1@))
}

impl View for RawXmlTag {
    type V = RawXmlTagView;

    open spec fn view(&self) -> RawXmlTagView {
        RawXmlTagView { name: self.name@, attributes: raw_attributes_view(self.attributes@) }
    }
}

impl View for RawXmlEvent {
    type V = RawXmlEventView;

    open spec fn view(&self) -> RawXmlEventView {
        match self {
            RawXmlEvent::Start(t) => RawXmlEventView::Start(t@),
            RawXmlEvent::Empty(t) => RawXmlEventView::Empty(t@),
            RawXmlEvent::Text(b) => RawXmlEventView::Text(b@),
            RawXmlEvent::End(b) => RawXmlEventView::End(b@),
            RawXmlEvent::Eof => RawXmlEventView::Eof,
            RawXmlEvent::Other => RawXmlEventView::Other,
        }
    }
}

/// The event at position `index` (counted from zero) that quick-xml's reader
/// reports on the document `text`, after `Reader::from_reader` on it and
/// `trim_text(true)`, with the attributes of a tag as its attribute iterator
/// yields them; `None` where the reader or the attribute iterator reports an
/// error. Each call of `read_event` reports the next position.
pub uninterp spec fn xml_event_at(text: Seq<u8>, index: nat) -> Option<RawXmlEventView>;

/// What `quick_xml::escape::unescape` gives for raw text: the text with its
/// entity and character references replaced, or `None` for a malformed one.
pub uninterp spec fn xml_unescaped(raw: Seq<u8>) -> Option<Seq<u8>>;

/// A quick-xml reader over a byte slice. Verus cannot be told of
/// `quick_xml::Reader` itself (its parameter is bound by `std::io::BufRead`,
/// which Verus does not know), so the reader is held opaquely here.
#[verifier::external_body]
pub struct XmlReader<'a> {
    reader: quick_xml::Reader<&'a [u8]>,
}

/// A quick-xml reader over a document. `reads` has one entry for each call of
/// `read_event` made on the reader.
///
/// The contract of `read_raw_event` holds only while three things stay true,
/// and the fields are private to this module so that they do: the tokenizer
/// is built only by `XmlTokenizer::new`, which makes the reader on `text` with
/// whitespace trimming on and `reads` empty; `reads` is written only by
/// `read_raw_event`, once per call of `read_event`; and `reader` and `text` are
/// never replaced. The reader is opaque to Verus, so no type invariant can say
/// this.
pub struct XmlTokenizer<'a> {
    reader: XmlReader<'a>,
    text: &'a [u8],
    reads: Vec<()>,
}

/// `quick_xml::Reader::from_reader` on the bytes of a document.
#[verifier::external_body]
fn xml_reader<'a>(text: &'a [u8]) -> XmlReader<'a> {
    XmlReader { reader: quick_xml::Reader::from_reader(text) }
}

/// `quick_xml::Reader::trim_text(true)`: text that is only whitespace is not
/// reported, and other text is reported without surrounding whitespace.
#[verifier::external_body]
fn xml_trim_text(r: &mut XmlReader) {
    r.reader.trim_text(true);
}

/// `quick_xml::Reader::buffer_position`: the byte position the reader has
/// reached (nothing is stated of it).
#[verifier::external_body]
fn xml_position(t: &XmlTokenizer) -> usize {
    t.reader.reader.buffer_position()
}

/// The `Debug` text of a quick-xml error (nothing is stated of it).
#[verifier::external_body]
fn xml_error_message(e: &quick_xml::Error) -> String {
    format!("{:?}", e)
}

/// The attributes of a tag as raw key and value bytes, in document order, as
/// `quick_xml::events::attributes::Attributes` yields them (nothing is stated
/// of them; the caller's contract speaks of the event they belong to).
#[verifier::external_body]
fn raw_attributes(a: quick_xml::events::attributes::Attributes) -> Result<Vec<(Vec<u8>, Vec<u8>)>, quick_xml::Error> {
    a.map(|a| a.map(|a| (a.key.to_vec(), a.value.to_vec()))).collect()
}

/// `quick_xml::Reader::read_event`: the next event of the document, its
/// parts copied out as bytes; the call is counted in `reads`. Since the
/// reader was built on `text` and has answered `reads.len()` calls, the result
/// is the event at that position. Every event other than the end consumes at
/// least one byte of the document (whitespace-only text is skipped, never
/// reported empty, and after the end or an error the reader only reports the
/// end), so from position `text.len()` on only the end is reported.
#[verifier::external_body]
fn read_raw_event(t: &mut XmlTokenizer) -> (r: Result<RawXmlEvent, quick_xml::Error>)
    ensures
        final(t).text@ == old(t).text@,
        final(t).reads@.len() == old(t).reads@.len() + 1,
        r matches Ok(e) ==> xml_event_at(old(t).text@, old(t).reads@.len()) == Some(e@),
        r is Err <==> xml_event_at(old(t).text@, old(t).reads@.len()) is None,
        old(t).reads@.len() >= old(t).text@.len() ==> r matches Ok(RawXmlEvent::Eof),
{
    let mut buf = Vec::new();
    let event = t.reader.reader.read_event(&mut buf);
    t.reads.push(());
    Ok(match event? {
        Event::Start(e) => RawXmlEvent::Start(RawXmlTag { name: e.name().to_vec(), attributes: raw_attributes(e.attributes())? }),
        Event::Empty(e) => RawXmlEvent::Empty(RawXmlTag { name: e.name().to_vec(), attributes: raw_attributes(e.attributes())? }),
        Event::Text(e) => RawXmlEvent::Text(e.to_vec()),
        Event::End(e) => RawXmlEvent::End(e.name().to_vec()),
        Event::Eof => RawXmlEvent::Eof,
        _ => RawXmlEvent::Other,
    })
}

/// `quick_xml::escape::unescape`: raw text with its references replaced;
/// text without `&` comes back unchanged.
#[verifier::external_body]
fn xml_unescape(raw: &[u8]) -> (r: Option<Vec<u8>>)
    ensures
        r matches Some(v) ==> xml_unescaped(raw@) == Some(v@),
        r is None <==> xml_unescaped(raw@) is None,
        r is None ==> raw@.contains(38u8),
        r matches Some(v) ==> (raw@.contains(38u8) || v@ == raw@),
{
    quick_xml::escape::unescape(raw).ok().map(|c| c.into_owned())
}

/// The text of UTF-8 bytes, `None` when they are not UTF-8.
pub open spec fn utf8_text(b: Seq<u8>) -> Option<Seq<char>> {
    if valid_utf8(b) {
        Some(decode_utf8(b))
    } else {
        None
    }
}

/// The attributes as text, `None` when a key or a value is not UTF-8.
pub open spec fn decoded_attributes(a: Seq<(Seq<u8>, Seq<u8>)>) -> Option<Seq<(Seq<char>, Seq<char>)>>
    decreases a.len(),
{
    if a.len() == 0 {
        Some(Seq::empty())
    } else {
        match (decoded_attributes(a.drop_last()), utf8_text(a.last().0), utf8_text(a.last().1)) {
            (Some(r), Some(k), Some(v)) => Some(r.push((k, v))),
            _ => None,
        }
    }
}

/// A tag as text, `None` when its name or an attribute is not UTF-8.
pub open spec fn decoded_tag(t: RawXmlTagView) -> Option<XmlTagView> {
    match (utf8_text(t.name), decoded_attributes(t.attributes)) {
        (Some(n), Some(a)) => Some(XmlTagView { name: n, attributes: a }),
        _ => None,
    }
}

/// Text as quick-xml's `unescape_and_decode` gives it: the raw bytes must be
/// UTF-8, are then unescaped, and the result must be UTF-8 again.
pub open spec fn decoded_text(raw: Seq<u8>) -> Option<Seq<char>> {
    if !valid_utf8(raw) {
        None
    } else {
        match xml_unescaped(raw) {
            Some(u) => utf8_text(u),
            None => None,
        }
    }
}

/// An event as the generators see it, `None` when it cannot be decoded. The
/// generators look at the name of an empty element only to compare it with
/// the names they know, none of which a name that is not UTF-8 can equal: such
/// an element is passed on as `Other` (its attributes are still decoded).
pub open spec fn decoded_event(e: RawXmlEventView) -> Option<XmlEventView> {
    match e {
        RawXmlEventView::Start(t) => match decoded_tag(t) {
            Some(d) => Some(XmlEventView::Start(d)),
            None => None,
        },
        RawXmlEventView::Empty(t) => match decoded_tag(t) {
            Some(d) => Some(XmlEventView::Empty(d)),
            None => if utf8_text(t.name) is None && decoded_attributes(t.attributes) is Some {
                Some(XmlEventView::Other)
            } else {
                None
            },
        },
        RawXmlEventView::Text(b) => match decoded_text(b) {
            Some(d) => Some(XmlEventView::Text(d)),
            None => None,
        },
        RawXmlEventView::End(b) => match utf8_text(b) {
            Some(d) => Some(XmlEventView::End(d)),
            None => None,
        },
        _ => Some(XmlEventView::Other),
    }
}

/// UTF-8 bytes as a string.
fn utf8_string(b: &Vec<u8>) -> (r: Option<String>)
    ensures
        opt_view(r) == utf8_text(b@),
{
    match str_from_utf8(b.as_slice()) {
        Ok(s) => Some(s.to_owned()),
        Err(_) => None,
    }
}

/// Decodes attributes.
fn decode_attributes(a: &Vec<(Vec<u8>, Vec<u8>)>) -> (r: Option<Vec<(String, String)>>)
    ensures
        match decoded_attributes(raw_attributes_view(a@)) {
            Some(d) => r matches Some(v) && attributes_view(v@) == d,
            None => r is None,
        },
{
    let ghost all = raw_attributes_view(a@);
    let mut out: Vec<(String, String)> = Vec::new();
    let mut i: usize = 0;
    assert(all.take(0) =~= Seq::<(Seq<u8>, Seq<u8>)>::empty());
    while i < a.len()
        invariant
            i <= a@.len(),
            all == raw_attributes_view(a@),
            decoded_attributes(all.take(i as int)) == Some(attributes_view(out@)),
        decreases a@.len() - i,
    {
        assert(all.take(i + 1).drop_last() =~= all.take(i as int));
        assert(all.take(i + 1).last() == (a@[i as int].0@, a@[i as int].1@));
        let k = utf8_string(&a[i].0);
        let v = utf8_string(&a[i].1);
        match (k, v) {
            (Some(k), Some(v)) => {
                let ghost before = attributes_view(out@);
                out.push((k, v));
                assert(attributes_view(out@) =~= before.push((k@, v@)));
            },
            _ => {
                proof {
                    lemma_decoded_attributes_none(all, i as int + 1);
                }
                return None;
            },
        }
        i = i + 1;
    }
    assert(all.take(a@.len() as int) =~= all);
    Some(out)
}

/// Once a prefix of the attributes cannot be decoded, no longer prefix can.
proof fn lemma_decoded_attributes_none(a: Seq<(Seq<u8>, Seq<u8>)>, n: int)
    requires
        0 <= n <= a.len(),
        decoded_attributes(a.take(n)) is None,
    ensures
        decoded_attributes(a) is None,
    decreases a.len() - n,
{
    if n < a.len() {
        assert(a.take(n + 1).drop_last() =~= a.take(n));
        lemma_decoded_attributes_none(a, n + 1);
    } else {
        assert(a.take(n) =~= a);
    }
}

/// Decodes a tag.
fn decode_tag(t: &RawXmlTag) -> (r: Option<XmlTag>)
    ensures
        match decoded_tag(t@) {
            Some(d) => r matches Some(v) && v@ == d,
            None => r is None,
        },
{
    let attributes = decode_attributes(&t.attributes);
    let name = utf8_string(&t.name);
    match (name, attributes) {
        (Some(name), Some(attributes)) => Some(XmlTag { name, attributes }),
        _ => None,
    }
}

/// Decodes text: UTF-8, unescaped, UTF-8 again.
fn decode_text(raw: &Vec<u8>) -> (r: Option<String>)
    ensures
        opt_view(r) == decoded_text(raw@),
{
    if str_from_utf8(raw.as_slice()).is_err() {
        return None;
    }
    match xml_unescape(raw.as_slice()) {
        Some(u) => utf8_string(&u),
        None => None,
    }
}

/// Decodes an event for the generators: names, attribute keys and values as
/// UTF-8 text, text unescaped; `None` when a part cannot be decoded.
pub fn decode_event(e: &RawXmlEvent) -> (r: Option<XmlEvent>)
    ensures
        match decoded_event(e@) {
            Some(d) => r matches Some(v) && v@ == d,
            None => r is None,
        },
{
    match e {
        RawXmlEvent::Start(t) => match decode_tag(t) {
            Some(d) => Some(XmlEvent::Start(d)),
            None => None,
        },
        RawXmlEvent::Empty(t) => match decode_tag(t) {
            Some(d) => Some(XmlEvent::Empty(d)),
            None => {
                let name = utf8_string(&t.name);
                let attributes = decode_attributes(&t.attributes);
                if name.is_none() && attributes.is_some() {
                    Some(XmlEvent::Other)
                } else {
                    None
                }
            },
        },
        RawXmlEvent::Text(b) => match decode_text(b) {
            Some(d) => Some(XmlEvent::Text(d)),
            None => None,
        },
        RawXmlEvent::End(b) => match utf8_string(b) {
            Some(d) => Some(XmlEvent::End(d)),
            None => None,
        },
        _ => Some(XmlEvent::Other),
    }
}

/// Why a document could not be read into events.
#[derive(Debug, Clone, Copy, PartialEq, Eq, Structural)]
pub enum XmlFailure {
    /// quick-xml found the document malformed.
    Malformed,
    /// A name, an attribute or a text is not UTF-8, or a text holds a
    /// malformed reference.
    Undecodable,
}

/// A failure to read a document, with the byte position quick-xml had reached
/// and a description.
#[derive(Debug, Clone, PartialEq, Eq)]
pub struct XmlReadError {
    pub failure: XmlFailure,
    pub position: usize,
    pub message: String,
}

/// Whether the event at `i` is read and decoded.
pub open spec fn good_event(b: Seq<u8>, i: nat) -> bool {
    &&& xml_event_at(b, i) matches Some(e)
    &&& !(e is Eof)
    &&& decoded_event(e) is Some
}

/// The position of the first event at or after `i` that is not read and
/// decoded (the end, an error or an undecodable event); quick-xml reports
/// only the end from the document's length on.
pub open spec fn first_stop(b: Seq<u8>, i: nat) -> nat
    decreases b.len() - i,
{
    if i >= b.len() || !good_event(b, i) {
        i
    } else {
        first_stop(b, i + 1)
    }
}

/// The decoded events of a document, up to the end or the first failure.
pub open spec fn events_read(b: Seq<u8>) -> Seq<XmlEventView> {
    Seq::new(first_stop(b, 0), |i: int| decoded_event(xml_event_at(b, i as nat)->0)->0)
}

/// How reading a document stops: `None` at its end, or the failure.
pub open spec fn read_failure(b: Seq<u8>) -> Option<XmlFailure> {
    match xml_event_at(b, first_stop(b, 0)) {
        None => Some(XmlFailure::Malformed),
        Some(RawXmlEventView::Eof) => None,
        Some(_) => Some(XmlFailure::Undecodable),
    }
}

impl<'a> XmlTokenizer<'a> {
    /// A tokenizer at the start of a document.
    fn new(text: &'a [u8]) -> (r: Self)
        ensures
            r.text@ == text@,
            r.reads@.len() == 0,
    {
        let mut reader = xml_reader(text);
        xml_trim_text(&mut reader);
        XmlTokenizer { reader, text, reads: Vec::new() }
    }
}

/// Reads a document into the events that the generators consume: the events
/// up to its end or to the first failure, and that failure.
pub fn read_xml_events(text: &str) -> (r: (Vec<XmlEvent>, Option<XmlReadError>))
    ensures
        r.0@.map_values(|e: XmlEvent| e@) == events_read(text.spec_bytes()),
        r.1 is None <==> read_failure(text.spec_bytes()) is None,
        r.1 matches Some(e) ==> read_failure(text.spec_bytes()) == Some(e.failure),
{
    let bytes = text.as_bytes();
    let ghost b = bytes@;
    let n = bytes.len();
    let mut t = XmlTokenizer::new(bytes);
    let mut events: Vec<XmlEvent> = Vec::new();
    loop
        invariant
            t.text@ == b,
            b == text.spec_bytes(),
            t.reads@.len() == events@.len(),
            events@.len() <= b.len(),
            b.len() == n,
            first_stop(b, 0) == first_stop(b, events@.len()),
            forall|i: nat| i < events@.len() ==> #[trigger] good_event(b, i),
            forall|i: int| 0 <= i < events@.len() ==> decoded_event(xml_event_at(b, i as nat)->0) == Some(
                #[trigger] events@[i]@,
            ),
        decreases b.len() - events@.len(),
    {
        let ghost k = events@.len();
        let raw = read_raw_event(&mut t);
        let failure = match raw {
            Err(e) => {
                let position = xml_position(&t);
                let message = xml_error_message(&e);
                Some(XmlReadError { failure: XmlFailure::Malformed, position, message })
            },
            Ok(RawXmlEvent::Eof) => None,
            Ok(raw) => match decode_event(&raw) {
                None => {
                    let position = xml_position(&t);
                    let message = "invalid UTF-8 or reference".to_string();
                    Some(XmlReadError { failure: XmlFailure::Undecodable, position, message })
                },
                Some(ev) => {
                    assert(good_event(b, k));
                    assert(decoded_event(xml_event_at(b, k)->0) == Some(ev@));
                    let ghost before = events@;
                    events.push(ev);
                    assert forall|i: int| 0 <= i < events@.len() implies decoded_event(
                        xml_event_at(b, i as nat)->0,
                    ) == Some(#[trigger] events@[i]@) by {
                        if i < before.len() {
                            assert(events@[i] == before[i]);
                        }
                    }
                    continue;
                },
            },
        };
        proof {
            assert(!good_event(b, k));
            assert(first_stop(b, k) == k);
            let m = events@.map_values(|e: XmlEvent| e@);
            assert forall|i: int| 0 <= i < m.len() implies m[i] == events_read(b)[i] by {
                assert(decoded_event(xml_event_at(b, i as nat)->0) == Some(events@[i]@));
            }
            assert(m =~= events_read(b));
        }
        return (events, failure);
    }
}

/// Why generating from a document stopped: it could not be read, or the
/// generator gave up on what was read.
#[derive(Debug, Clone, PartialEq, Eq)]
pub enum SourceError {
    Xml(XmlReadError),
    Gen(GenError),
}

/// The kind of a `SourceError`.
#[derive(Debug, Clone, Copy, PartialEq, Eq, Structural)]
pub enum SourceFailure {
    Xml(XmlFailure),
    Gen(GenError),
}

impl SourceError {
    /// The kind of the error.
    pub open spec fn failure(self) -> SourceFailure {
        match self {
            SourceError::Xml(e) => SourceFailure::Xml(e.failure),
            SourceError::Gen(g) => SourceFailure::Gen(g),
        }
    }
}

} // verus!
