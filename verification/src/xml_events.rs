//! The token stream of an XML document as quick-xml reads it, held as plain
//! values for the data-file readers.
use vstd::prelude::*;
use quick_xml::events::Event;
use crate::text;

verus! {

#[verifier::external_type_specification]
#[verifier::external_body]
#[verifier::reject_recursive_types(R)]
pub struct ExXmlReader<R>(quick_xml::Reader<R>);

#[verifier::external_type_specification]
#[verifier::external_body]
pub struct ExBytesStart<'a>(quick_xml::events::BytesStart<'a>);

/// One token of an XML document.
pub enum XmlEv {
    /// `<name attrs…>`: the name and each attribute's key and unescaped
    /// value (`None` where the value could not be unescaped).
    Start(String, Vec<(String, Option<String>)>),
    /// `<name attrs…/>`.
    Empty(String, Vec<(String, Option<String>)>),
    /// Text between tags, as written (entities not unescaped; `None` where
    /// it is not UTF-8).
    Text(Option<String>),
    /// `</name>`.
    End(String),
    /// The end of the document.
    Eof,
    /// A syntax error; reading stops.
    Error,
    /// Anything else (comments, declarations, CDATA…).
    Other,
}

/// The attributes of a start tag (`BytesStart::attributes`, malformed ones
/// skipped), each key with its unescaped value.
#[verifier::external_body]
fn attr_list(e: &quick_xml::events::BytesStart) -> (r: Vec<(String, Option<String>)>) {
    e.attributes().flatten().map(|a| (String::from_utf8_lossy(a.key.as_ref()).into_owned(), a.unescape_value().ok().map(|v| v.into_owned()))).collect()
}

/// The tokens that quick-xml reads from `xml` (with text trimmed around
/// tags when `trim` is set), each taken as an [`XmlEv`], in order, up to
/// and including the end of the document or the first error.
pub uninterp spec fn xml_tokens(xml: Seq<char>, trim: bool) -> Seq<XmlEvV>;

/// The tokens that a reader has yet to give, in order, up to and including
/// the end of the document or the first error.
pub uninterp spec fn reader_rest(r: quick_xml::Reader<&[u8]>) -> Seq<XmlEvV>;

/// A quick-xml reader over `xml`, trimming text around tags when asked
/// (`Reader::from_str`, `trim_text`). It has yet to give all the tokens of
/// the document. Reading ends: the last of them, and only the last, is the
/// end of the document or an error.
#[verifier::external_body]
fn reader_for<'a>(xml: &'a str, trim: bool) -> (r: quick_xml::Reader<&'a [u8]>)
    ensures
        reader_rest(r) == xml_tokens(xml@, trim),
        reader_rest(r).len() >= 1,
        reader_rest(r).last() is Eof || reader_rest(r).last() is Error,
        forall|i: int| 0 <= i < reader_rest(r).len() - 1 ==> !(reader_rest(r)[i] is Eof) && !(#[trigger] reader_rest(r)[i] is Error),
{
    let mut r = quick_xml::Reader::from_str(xml);
    r.config_mut().trim_text(trim);
    r
}

/// The next token from the reader (`Reader::read_event`): the first of
/// those it had yet to give, which it then no longer has to give.
#[verifier::external_body]
fn next_event<'a>(r: &mut quick_xml::Reader<&'a [u8]>) -> (ev: XmlEv)
    ensures
        reader_rest(*old(r)).len() > 0 ==> ev@ == reader_rest(*old(r))[0] && reader_rest(*final(r))
            == reader_rest(*old(r)).drop_first(),
{
    match r.read_event() {
        Ok(Event::Start(e)) => XmlEv::Start(String::from_utf8_lossy(e.name().as_ref()).into_owned(), attr_list(&e)),
        Ok(Event::Empty(e)) => XmlEv::Empty(String::from_utf8_lossy(e.name().as_ref()).into_owned(), attr_list(&e)),
        Ok(Event::Text(e)) => XmlEv::Text(std::str::from_utf8(&e).ok().map(str::to_string)),
        Ok(Event::End(e)) => XmlEv::End(String::from_utf8_lossy(e.name().as_ref()).into_owned()),
        Ok(Event::Eof) => XmlEv::Eof,
        Err(_) => XmlEv::Error,
        _ => XmlEv::Other,
    }
}

pub open spec fn attrs_view(a: Seq<(String, Option<String>)>) -> Seq<(Seq<char>, Option<Seq<char>>)> {
    a.map_values(|p: (String, Option<String>)| (p.0@, match p.1 {
        Some(v) => Some(v@),
        None => None,
    }))
}

/// The view of a token.
pub enum XmlEvV {
    Start(Seq<char>, Seq<(Seq<char>, Option<Seq<char>>)>),
    Empty(Seq<char>, Seq<(Seq<char>, Option<Seq<char>>)>),
    Text(Option<Seq<char>>),
    End(Seq<char>),
    Eof,
    Error,
    Other,
}

impl View for XmlEv {
    type V = XmlEvV;

    open spec fn view(&self) -> XmlEvV {
        match self {
            XmlEv::Start(n, a) => XmlEvV::Start(n@, attrs_view(a@)),
            XmlEv::Empty(n, a) => XmlEvV::Empty(n@, attrs_view(a@)),
            XmlEv::Text(t) => XmlEvV::Text(match t {
                Some(s) => Some(s@),
                None => None,
            }),
            XmlEv::End(n) => XmlEvV::End(n@),
            XmlEv::Eof => XmlEvV::Eof,
            XmlEv::Error => XmlEvV::Error,
            XmlEv::Other => XmlEvV::Other,
        }
    }
}

pub open spec fn events_view(v: Seq<XmlEv>) -> Seq<XmlEvV> {
    v.map_values(|e: XmlEv| e@)
}

/// The tokens of `xml` up to and including the end of the document or the
/// first error, exactly as quick-xml reads them.
pub fn read_xml_events(xml: &str, trim: bool) -> (r: Vec<XmlEv>)
    ensures
        events_view(r@) == xml_tokens(xml@, trim),
{
    let mut reader = reader_for(xml, trim);
    let ghost toks = xml_tokens(xml@, trim);
    let mut out: Vec<XmlEv> = Vec::new();
    loop
        invariant
            toks == xml_tokens(xml@, trim),
            toks.len() >= 1,
            toks.last() is Eof || toks.last() is Error,
            forall|i: int| 0 <= i < toks.len() - 1 ==> !(toks[i] is Eof) && !(#[trigger] toks[i] is Error),
            out@.len() < toks.len(),
            events_view(out@) == toks.take(out@.len() as int),
            reader_rest(reader) == toks.skip(out@.len() as int),
        decreases reader_rest(reader).len(),
    {
        let ghost k = out@.len() as int;
        let ev = next_event(&mut reader);
        assert(ev@ == toks[k]);
        let stop = match ev {
            XmlEv::Eof | XmlEv::Error => true,
            _ => false,
        };
        out.push(ev);
        assert(events_view(out@) =~= toks.take(k + 1));
        if stop {
            assert(toks.take(k + 1) =~= toks);
            return out;
        }
        assert(reader_rest(reader) =~= toks.skip(k + 1));
    }
}

/// The value of the first attribute named `key` (empty when it is missing
/// or its value could not be unescaped).
pub open spec fn attr_value(a: Seq<(Seq<char>, Option<Seq<char>>)>, key: Seq<char>, i: int) -> Seq<char>
    decreases a.len() - i,
{
    if i < 0 || i >= a.len() {
        seq![]
    } else if a[i].0 == key {
        match a[i].1 {
            Some(v) => v,
            None => seq![],
        }
    } else {
        attr_value(a, key, i + 1)
    }
}

pub fn attr_value_exec(a: &Vec<(String, Option<String>)>, key: &str) -> (r: Vec<char>)
    ensures
        r@ == attr_value(attrs_view(a@), key@, 0),
{
    let ghost av = attrs_view(a@);
    let mut i: usize = 0;
    while i < a.len()
        invariant
            i <= a.len(),
            av == attrs_view(a@),
            attr_value(av, key@, 0) == attr_value(av, key@, i as int),
        decreases a.len() - i,
    {
        if text::str_eq(a[i].0.as_str(), key) {
            return match &a[i].1 {
                Some(v) => text::chars_of(v.as_str()),
                None => Vec::new(),
            };
        }
        i += 1;
    }
    Vec::new()
}

} // verus!
