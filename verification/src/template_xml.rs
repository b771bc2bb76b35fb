//! XML reading through `quick_xml`, and template rendering.
//!
//! A `quick_xml::Reader` over a string slice is a deterministic parser:
//! the `n`-th event it reads depends on the source text, on whether text
//! is trimmed, and on `n` alone. The names below stand for those results.

use vstd::prelude::*;
use quick_xml::Reader;
use quick_xml::events::Event;
use crate::error::ForgerError;
use crate::text::{chars_start_with, is_ws, owned, starts_with_spec, to_chars, trim_start_chars, trim_start_spec};

verus! {

#[verifier::external_type_specification]
#[verifier::external_body]
#[verifier::reject_recursive_types(R)]
pub struct ExXmlReader<R>(quick_xml::Reader<R>);

/// Event kinds, as the first component of an event's view.
pub open spec fn ev_start() -> u8 { 0 }
pub open spec fn ev_empty() -> u8 { 1 }
pub open spec fn ev_end() -> u8 { 2 }
pub open spec fn ev_text() -> u8 { 3 }
pub open spec fn ev_eof() -> u8 { 4 }
pub open spec fn ev_error() -> u8 { 5 }
pub open spec fn ev_other() -> u8 { 6 }

/// One event read from an XML text. Tag names and texts are carried as
/// strings; an error carries its message.
#[derive(Debug, Clone)]
pub enum XmlEvent {
    Start(String),
    Empty(String),
    End(String),
    Text(String),
    Eof,
    Error(String),
    Other,
}

/// An event as a kind code and its text (name, text or message).
pub open spec fn event_view(e: XmlEvent) -> (u8, Seq<char>) {
    match e {
        XmlEvent::Start(s) => (ev_start(), s@),
        XmlEvent::Empty(s) => (ev_empty(), s@),
        XmlEvent::End(s) => (ev_end(), s@),
        XmlEvent::Text(s) => (ev_text(), s@),
        XmlEvent::Eof => (ev_eof(), Seq::empty()),
        XmlEvent::Error(s) => (ev_error(), s@),
        XmlEvent::Other => (ev_other(), Seq::empty()),
    }
}

/// The reading ends at this event: end of input or an error.
pub open spec fn is_terminal(e: (u8, Seq<char>)) -> bool {
    e.0 == ev_eof() || e.0 == ev_error()
}

/// The text a reader reads.
pub uninterp spec fn xml_source(r: Reader<&[u8]>) -> Seq<char>;

/// Whether a reader trims whitespace around text events.
pub uninterp spec fn xml_trims(r: Reader<&[u8]>) -> bool;

/// How many events a reader has read.
pub uninterp spec fn xml_reads(r: Reader<&[u8]>) -> nat;

/// The reader has read events only, one at a time, since it was made.
pub uninterp spec fn xml_fresh(r: Reader<&[u8]>) -> bool;

/// The event that the `n`-th `read_event` call returns on `src`.
pub uninterp spec fn xml_event_at(src: Seq<char>, trim: bool, n: nat) -> (u8, Seq<char>);

/// `buffer_position` after `n` events have been read from `src`.
pub uninterp spec fn xml_position_at(src: Seq<char>, trim: bool, n: nat) -> u64;

/// What `read_text(end)` returns after `n` events have been read from `src`:
/// the raw text up to the matching end tag, or an error message.
pub uninterp spec fn xml_text_at(src: Seq<char>, trim: bool, n: nat, end: Seq<char>) -> Result<
    Seq<char>,
    Seq<char>,
>;

/// `quick_xml::Reader::from_str` with `trim_text(trim)`.
/// Claims: the reader reads `text`, has read nothing yet, and its event
/// stream reaches the end of input or an error after finitely many reads.
#[verifier::external_body]
pub(crate) fn xml_reader<'a>(text: &'a str, trim: bool) -> (r: Reader<&'a [u8]>)
    ensures
        xml_source(r) == text@,
        xml_trims(r) == trim,
        xml_reads(r) == 0,
        xml_fresh(r),
        exists|n: nat| is_terminal(xml_event_at(xml_source(r), xml_trims(r), n)),
{
    let mut r = Reader::from_str(text);
    r.config_mut().trim_text(trim);
    r
}

/// `quick_xml::Reader::read_event`, converted: tag names and texts become
/// strings, an error becomes its message, the other kinds become `Other`.
/// Claims: the result is the reader's next event in its stream.
#[verifier::external_body]
pub(crate) fn xml_next(r: &mut Reader<&[u8]>) -> (e: XmlEvent)
    requires
        xml_fresh(*old(r)),
    ensures
        event_view(e) == xml_event_at(xml_source(*old(r)), xml_trims(*old(r)), xml_reads(*old(r))),
        xml_source(*final(r)) == xml_source(*old(r)),
        xml_trims(*final(r)) == xml_trims(*old(r)),
        xml_reads(*final(r)) == xml_reads(*old(r)) + 1,
        xml_fresh(*final(r)),
{
    match r.read_event() {
        Ok(Event::Start(b)) => XmlEvent::Start(String::from_utf8_lossy(b.name().as_ref()).into_owned()),
        Ok(Event::Empty(b)) => XmlEvent::Empty(String::from_utf8_lossy(b.name().as_ref()).into_owned()),
        Ok(Event::End(b)) => XmlEvent::End(String::from_utf8_lossy(b.name().as_ref()).into_owned()),
        Ok(Event::Text(b)) => XmlEvent::Text(b.decode().map(|t| t.into_owned()).unwrap_or_default()),
        Ok(Event::Eof) => XmlEvent::Eof,
        Ok(_) => XmlEvent::Other,
        Err(err) => XmlEvent::Error(err.to_string()),
    }
}

/// `quick_xml::Reader::buffer_position`.
/// Claims: the position is the one the reader has after its reads so far.
#[verifier::external_body]
pub(crate) fn xml_position(r: &Reader<&[u8]>) -> (p: u64)
    requires
        xml_fresh(*r),
    ensures
        p == xml_position_at(xml_source(*r), xml_trims(*r), xml_reads(*r)),
{
    r.buffer_position()
}

/// `quick_xml::Reader::read_text` up to the end tag named `end`, the error
/// converted to its message. Claims: the result is the one the reader gives
/// after its reads so far. Nothing is said of the reader afterwards.
#[verifier::external_body]
pub(crate) fn xml_read_text(r: &mut Reader<&[u8]>, end: &str) -> (res: Result<String, String>)
    requires
        xml_fresh(*old(r)),
    ensures
        match (res, xml_text_at(xml_source(*old(r)), xml_trims(*old(r)), xml_reads(*old(r)), end@)) {
            (Ok(t), Ok(u)) => t@ == u,
            (Err(m), Err(u)) => m@ == u,
            _ => false,
        },
{
    match r.read_text(quick_xml::name::QName(end.as_bytes())) {
        Ok(t) => Ok(t.into_owned()),
        Err(err) => Err(err.to_string()),
    }
}

/// A least index satisfying a predicate exists once some index does.
pub proof fn lemma_least(p: spec_fn(nat) -> bool, n: nat)
    requires
        p(n),
    ensures
        exists|m: nat| #[trigger] p(m) && forall|k: nat| k < m ==> !#[trigger] p(k),
    decreases n,
{
    if exists|k: nat| k < n && #[trigger] p(k) {
        let k = choose|k: nat| k < n && #[trigger] p(k);
        lemma_least(p, k);
    } else {
        assert(p(n) && forall|k: nat| k < n ==> !#[trigger] p(k));
    }
}

// ---------------------------------------------------------------------------
// Templates
// ---------------------------------------------------------------------------

/// The reading of a template stops at this event: the start of the
/// `content` element, the end of input, or an error.
pub open spec fn template_stop(e: (u8, Seq<char>)) -> bool {
    (e.0 == ev_start() && e.1 == "content"@) || is_terminal(e)
}

/// The index of the first event at which the reading of a template stops.
pub open spec fn template_stop_index(src: Seq<char>) -> nat {
    choose|m: nat| #[trigger] template_stop(xml_event_at(src, false, m)) && forall|k: nat|
        k < m ==> !template_stop(xml_event_at(src, false, k))
}

/// The message for a template without content.
pub open spec fn missing_content_message() -> Seq<char> {
    "Template content missing <content> block"@
}

/// What rendering a template gives: a text that does not start with a
/// `<template` element is its own rendering; otherwise the raw text of the
/// `content` element, which must be non-empty.
pub open spec fn render_spec(src: Seq<char>) -> Result<Seq<char>, Seq<char>> {
    if !starts_with_spec(trim_start_spec(src), "<template"@) {
        Ok(src)
    } else {
        let m = template_stop_index(src);
        let e = xml_event_at(src, false, m);
        if e.0 == ev_error() {
            Err(e.1)
        } else if e.0 == ev_eof() {
            Err(missing_content_message())
        } else {
            match xml_text_at(src, false, m + 1, "content"@) {
                Err(msg) => Err(msg),
                Ok(t) => if t.len() == 0 {
                    Err(missing_content_message())
                } else {
                    Ok(t)
                },
            }
        }
    }
}

/// Renders an XML template: the text of its `<content>` block, or the
/// template itself when it is not wrapped in `<template>`.
pub fn render_template(template: &str) -> (res: Result<String, ForgerError>)
    ensures
        match (res, render_spec(template@)) {
            (Ok(s), Ok(t)) => s@ == t,
            (Err(e), Err(m)) => e.message@ == m,
            _ => false,
        },
{
    let chars = to_chars(template);
    let trimmed = trim_start_chars(chars.as_slice());
    let prefix = to_chars("<template");
    if !chars_start_with(trimmed.as_slice(), prefix.as_slice()) {
        return Ok(owned(template));
    }
    let mut reader = xml_reader(template, false);
    let ghost src = template@;
    let ghost stop = |k: nat| template_stop(xml_event_at(src, false, k));
    proof {
        let n = choose|n: nat| is_terminal(xml_event_at(src, false, n));
        assert(stop(n));
        lemma_least(stop, n);
        let w = choose|w: nat| #[trigger] stop(w) && forall|k: nat| k < w ==> !#[trigger] stop(k);
        assert(template_stop(xml_event_at(src, false, w)));
        assert(forall|k: nat| k < w ==> !template_stop(xml_event_at(src, false, k))) by {
            assert forall|k: nat| k < w implies !template_stop(xml_event_at(src, false, k)) by {
                assert(!stop(k));
            }
        }
    }
    let ghost m = template_stop_index(src);
    let content_name = to_chars("content");
    let mut content = String::new();
    loop
        invariant_except_break
            xml_reads(reader) <= m,
            forall|k: nat| k < xml_reads(reader) ==> !template_stop(xml_event_at(src, false, k)),
        invariant
            xml_fresh(reader),
            xml_source(reader) == src,
            src == template@,
            !xml_trims(reader),
            m == template_stop_index(src),
            template_stop(xml_event_at(src, false, m)),
            forall|k: nat| k < m ==> !template_stop(xml_event_at(src, false, k)),
            content_name@ == "content"@,
            content@.len() == 0,
            starts_with_spec(trim_start_spec(src), "<template"@),
        ensures
            xml_reads(reader) == m + 1,
            xml_event_at(src, false, m).0 == ev_start(),
            xml_event_at(src, false, m).1 == "content"@,
            content@.len() == 0,
            xml_fresh(reader),
            xml_source(reader) == src,
            !xml_trims(reader),
        decreases m - xml_reads(reader),
    {
        let ghost k = xml_reads(reader);
        let ev = xml_next(&mut reader);
        match ev {
            XmlEvent::Start(name) => {
                let nv = to_chars(name.as_str());
                if chars_eq(nv.as_slice(), content_name.as_slice()) {
                    proof {
                        assert(template_stop(xml_event_at(src, false, k)));
                        assert(k == m);
                    }
                    break;
                }
            },
            XmlEvent::Eof => {
                proof {
                    assert(template_stop(xml_event_at(src, false, k)));
                    assert(k == m);
                }
                return Err(ForgerError::new(owned("Template content missing <content> block")));
            },
            XmlEvent::Error(msg) => {
                proof {
                    assert(template_stop(xml_event_at(src, false, k)));
                    assert(k == m);
                }
                return Err(ForgerError::new(msg));
            },
            _ => {},
        }
        proof {
            assert(!template_stop(xml_event_at(src, false, k)));
            if k == m {
                assert(false);
            }
        }
    }
    match xml_read_text(&mut reader, "content") {
        Err(msg) => Err(ForgerError::new(msg)),
        Ok(t) => {
            if t.as_str().is_empty() {
                Err(ForgerError::new(owned("Template content missing <content> block")))
            } else {
                Ok(t)
            }
        },
    }
}

/// Whether two character sequences are equal.
pub fn chars_eq(a: &[char], b: &[char]) -> (r: bool)
    ensures
        r == (a@ == b@),
{
    if a.len() != b.len() {
        return false;
    }
    let mut i: usize = 0;
    while i < a.len()
        invariant
            a@.len() == b@.len(),
            i <= a@.len(),
            forall|k: int| 0 <= k < i ==> a@[k] == b@[k],
        decreases a.len() - i,
    {
        if a[i] != b[i] {
            return false;
        }
        i = i + 1;
    }
    assert(a@ =~= b@);
    true
}

/// A text that starts with a character other than whitespace and `<` is
/// not a wrapped template: rendering hands it back as it is.
pub proof fn lemma_plain_text_renders(t: Seq<char>)
    requires
        t.len() > 0,
        !is_ws(t[0]),
        t[0] != '<',
    ensures
        render_spec(t) == Ok::<Seq<char>, Seq<char>>(t),
{
    reveal_strlit("<template");
    assert(trim_start_spec(t) == t);
    if "<template"@.len() <= t.len() {
        assert(t.subrange(0, "<template"@.len() as int)[0] == t[0]);
    }
}

} // verus!
