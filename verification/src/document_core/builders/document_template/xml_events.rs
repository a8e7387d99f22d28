//! XML fragments as a list of events (kind and content), read with
//! `quick_xml`, and the raw XML text an element's events write back.

use crate::document_core::builders::document_template::effect_writer::{
    insert_member,
    new_members,
    text_member,
};
use crate::json_value::{members_get, members_unique, JsonValue};
use crate::text::{push_str, string_of};
use quick_xml::events::Event;
use vstd::prelude::*;
use vstd::string::*;

verus! {

/// `quick_xml`'s event.
#[verifier::external_type_specification]
#[verifier::external_body]
pub struct ExXmlEvent<'a>(quick_xml::events::Event<'a>);

/// The kind of an XML event.
#[derive(Debug, Clone, Copy, PartialEq, Eq, Structural)]
pub enum XmlKind {
    Start,
    End,
    Empty,
    Text,
    CData,
    Comment,
    Decl,
    PI,
    DocType,
    GeneralRef,
}

/// An XML event: its kind and its content (for a tag, the text between
/// `<` and `>` or `/>`; for an end tag, the name).
#[derive(Debug, Clone, PartialEq)]
pub struct XmlRaw {
    pub kind: XmlKind,
    pub content: String,
}

/// An event as its kind and content text.
pub type XmlEv = (XmlKind, Seq<char>);

/// Events as kinds and content texts.
pub open spec fn events_view(v: Seq<XmlRaw>) -> Seq<XmlEv> {
    v.map_values(|e: XmlRaw| (e.kind, e.content@))
}

/// The events `quick_xml` reads from a text (from the start, with its
/// default settings), up to the end of the text or the first event it
/// cannot read.
pub uninterp spec fn xml_events_named(text: Seq<char>) -> Seq<XmlEv>;

/// The kind of a `quick_xml` event other than the end of the text.
#[verifier::external_body]
fn xml_event_kind(e: &Event) -> XmlKind {
    match e {
        Event::Start(_) => XmlKind::Start,
        Event::End(_) => XmlKind::End,
        Event::Empty(_) => XmlKind::Empty,
        Event::Text(_) => XmlKind::Text,
        Event::CData(_) => XmlKind::CData,
        Event::Comment(_) => XmlKind::Comment,
        Event::Decl(_) => XmlKind::Decl,
        Event::PI(_) => XmlKind::PI,
        Event::DocType(_) => XmlKind::DocType,
        _ => XmlKind::GeneralRef,
    }
}

/// `quick_xml::Reader::from_str` and `Reader::read_event`, called until the
/// end of the text or an error: the events read, each as its kind and its
/// content (the text of the event as `quick_xml` hands it out). These are
/// the named events of the text (`xml_events_named`). A `Vec` never holds
/// more than `isize::MAX` bytes, so fewer than `usize::MAX` events.
#[verifier::external_body]
fn read_xml_events(raw: &str) -> (r: Vec<XmlRaw>)
    ensures
        events_view(r@) == xml_events_named(raw@),
        r@.len() < usize::MAX,
{
    let mut reader = quick_xml::Reader::from_str(raw);
    let mut out = Vec::new();
    while let Ok(e) = reader.read_event() {
        if matches!(e, Event::Eof) { break; }
        out.push(XmlRaw { kind: xml_event_kind(&e), content: String::from(&*e) });
    }
    out
}

/// The events `quick_xml` reads from a text, up to its end.
pub open spec fn fragment_events(text: Seq<char>) -> Seq<XmlEv> {
    xml_events_named(text)
}

/// The events of an XML fragment, up to its end (see `fragment_events`).
pub fn xml_fragment_events(raw: &str) -> (r: Vec<XmlRaw>)
    ensures
        events_view(r@) == fragment_events(raw@),
        r@.len() < usize::MAX,
{
    read_xml_events(raw)
}

// ---------------------------------------------------------------------------
// Tags
// ---------------------------------------------------------------------------

/// An XML blank: space, carriage return, new line or tab.
pub open spec fn is_xml_blank(c: char) -> bool {
    c == ' ' || c == '\r' || c == '\n' || c == '\t'
}

/// The length of the first word of a text (up to its first blank).
pub open spec fn first_word_len(s: Seq<char>) -> nat
    decreases s.len(),
{
    if s.len() == 0 || is_xml_blank(s[0]) {
        0
    } else {
        1 + first_word_len(s.drop_first())
    }
}

/// A tag's name: the first word of its content.
pub open spec fn tag_name_spec(content: Seq<char>) -> Seq<char> {
    content.take(first_word_len(content) as int)
}

proof fn lemma_first_word_len_bound(s: Seq<char>)
    ensures
        first_word_len(s) <= s.len(),
        forall|i: int| 0 <= i < first_word_len(s) ==> !is_xml_blank(#[trigger] s[i]),
        first_word_len(s) < s.len() ==> is_xml_blank(s[first_word_len(s) as int]),
    decreases s.len(),
{
    if s.len() > 0 && !is_xml_blank(s[0]) {
        lemma_first_word_len_bound(s.drop_first());
        assert forall|i: int| 0 <= i < first_word_len(s) implies !is_xml_blank(#[trigger] s[i]) by {
            if i > 0 {
                assert(s[i] == s.drop_first()[i - 1]);
            }
        }
    }
}

/// The name of a tag: the first word of its content.
pub fn xml_tag_name(content: &str) -> (r: String)
    ensures
        r@ == tag_name_spec(content@),
{
    let n = content.unicode_len();
    let mut name = String::new();
    let mut i: usize = 0;
    proof {
        lemma_first_word_len_bound(content@);
    }
    while i < n
        invariant
            n == content@.len(),
            i <= first_word_len(content@),
            first_word_len(content@) <= n,
            forall|j: int| 0 <= j < first_word_len(content@) ==> !is_xml_blank(#[trigger] content@[j]),
            first_word_len(content@) < n ==> is_xml_blank(content@[first_word_len(content@) as int]),
            name@ == content@.take(i as int),
        decreases n - i,
    {
        let c = content.get_char(i);
        if c == ' ' || c == '\r' || c == '\n' || c == '\t' {
            assert(i >= first_word_len(content@)) by {
                if i < first_word_len(content@) {
                    assert(!is_xml_blank(content@[i as int]));
                }
            }
            return name;
        }
        proof {
            if i == first_word_len(content@) {
                assert(is_xml_blank(content@[i as int]));
            }
        }
        crate::text::push_char(&mut name, c);
        i = i + 1;
        assert(name@ =~= content@.take(i as int));
    }
    name
}

/// The local part of a qualified name: after its first `:`, or the whole
/// name.
pub open spec fn local_name_spec(name: Seq<char>) -> Seq<char>
    decreases name.len(),
{
    if name.len() == 0 {
        name
    } else if name[0] == ':' {
        name.drop_first()
    } else {
        local_name_spec(name.drop_first())
    }
}

/// Whether a name has no `:`.
pub open spec fn no_colon(name: Seq<char>) -> bool {
    forall|i: int| 0 <= i < name.len() ==> name[i] != ':'
}

proof fn lemma_local_name_plain(name: Seq<char>)
    requires
        no_colon(name),
    ensures
        local_name_spec(name) == Seq::<char>::empty(),
    decreases name.len(),
{
    if name.len() > 0 {
        assert(no_colon(name.drop_first())) by {
            assert forall|i: int| 0 <= i < name.drop_first().len() implies name.drop_first()[i] != ':' by {
                assert(name.drop_first()[i] == name[i + 1]);
            }
        }
        lemma_local_name_plain(name.drop_first());
    }
}

/// The local part of an XML name: what follows its first `:`, or the whole
/// name when it has none.
pub open spec fn xml_local_name_spec(name: Seq<char>) -> Seq<char> {
    if no_colon(name) {
        name
    } else {
        local_name_spec(name)
    }
}

/// The local part of an XML name (see `xml_local_name_spec`).
pub fn drawing_style_xml_local_name(name: &str) -> (r: String)
    ensures
        r@ == xml_local_name_spec(name@),
{
    let n = name.unicode_len();
    let mut i: usize = 0;
    assert(name@.skip(0) =~= name@);
    while i < n
        invariant
            n == name@.len(),
            i <= n,
            forall|j: int| 0 <= j < i ==> name@[j] != ':',
            local_name_spec(name@) == local_name_spec(name@.skip(i as int)),
        decreases n - i,
    {
        assert(name@.skip(i as int).drop_first() =~= name@.skip(i + 1));
        if name.get_char(i) == ':' {
            let mut out = String::new();
            let mut j: usize = i + 1;
            while j < n
                invariant
                    n == name@.len(),
                    i < j <= n,
                    out@ == name@.subrange(i + 1, j as int),
                decreases n - j,
            {
                crate::text::push_char(&mut out, name.get_char(j));
                j = j + 1;
                assert(out@ =~= name@.subrange(i + 1, j as int));
            }
            assert(!no_colon(name@));
            assert(name@.skip(i as int).drop_first() =~= name@.subrange(i + 1, n as int));
            return out;
        }
        i = i + 1;
    }
    assert(no_colon(name@));
    string_of(name)
}

/// The attributes that `quick_xml` reads from a tag's content (its
/// `attributes()`, skipping those it refuses), each as its qualified key
/// and raw value.
pub uninterp spec fn xml_attributes_named(content: Seq<char>) -> Seq<(Seq<char>, Seq<char>)>;

/// `quick_xml::events::BytesStart::attributes` of a tag's content (see
/// `xml_attributes_named`); `name` is the tag's name, after which attribute
/// parsing starts.
#[verifier::external_body]
fn xml_tag_attributes(content: &str, name: &str) -> (r: Vec<(String, String)>)
    requires
        name@ == tag_name_spec(content@),
    ensures
        r@.map_values(|p: (String, String)| (p.0@, p.1@)) == xml_attributes_named(content@),
{
    quick_xml::events::BytesStart::from_content(content, name.len())
        .attributes()
        .flatten()
        .map(|a| (String::from(a.key.as_ref()), a.value.to_string()))
        .collect()
}

/// Whether `prefix` starts `s`.
pub open spec fn starts_with(s: Seq<char>, prefix: Seq<char>) -> bool {
    prefix.len() <= s.len() && s.take(prefix.len() as int) == prefix
}

/// A tag's attributes as names and values: each key by its local name,
/// without empty names and namespace declarations (`xmlns...`).
pub open spec fn attr_pairs_spec(attrs: Seq<(Seq<char>, Seq<char>)>) -> Seq<(Seq<char>, Seq<char>)>
    decreases attrs.len(),
{
    if attrs.len() == 0 {
        Seq::empty()
    } else {
        let (k, v) = attrs.last();
        let name = xml_local_name_spec(k);
        attr_pairs_spec(attrs.drop_last()) + if name.len() == 0 || starts_with(name, "xmlns"@) {
            Seq::empty()
        } else {
            seq![(name, v)]
        }
    }
}

/// A tag's attributes as names and values (see `attr_pairs_spec`).
pub fn drawing_style_xml_attr_pairs(content: &str) -> (r: Vec<(String, String)>)
    ensures
        r@.map_values(|p: (String, String)| (p.0@, p.1@)) == attr_pairs_spec(xml_attributes_named(content@)),
{
    let name = xml_tag_name(content);
    let attrs = xml_tag_attributes(content, name.as_str());
    let ghost view = attrs@.map_values(|p: (String, String)| (p.0@, p.1@));
    let mut out: Vec<(String, String)> = Vec::new();
    let mut i: usize = 0;
    while i < attrs.len()
        invariant
            i <= attrs@.len(),
            view == attrs@.map_values(|p: (String, String)| (p.0@, p.1@)),
            out@.map_values(|p: (String, String)| (p.0@, p.1@)) == attr_pairs_spec(view.take(i as int)),
        decreases attrs@.len() - i,
    {
        assert(view.take(i + 1).drop_last() =~= view.take(i as int));
        let key = drawing_style_xml_local_name(attrs[i].0.as_str());
        let empty = key.unicode_len() == 0;
        let xmlns = crate::text::str_starts_with(key.as_str(), "xmlns");
        let ghost before = out@;
        if !empty && !xmlns {
            out.push((key, string_of(attrs[i].1.as_str())));
        }
        proof {
            let k = view[i as int];
            assert(view.take(i + 1).last() == k);
            if !empty && !xmlns {
                assert(out@.map_values(|p: (String, String)| (p.0@, p.1@)) =~= before.map_values(
                    |p: (String, String)| (p.0@, p.1@),
                ).push((xml_local_name_spec(k.0), k.1)));
            } else {
                assert(out@ == before);
            }
        }
        i = i + 1;
    }
    assert(view.take(i as int) =~= view);
    out
}

/// The value the last pair under `key` gives.
pub open spec fn pairs_last(pairs: Seq<(Seq<char>, Seq<char>)>, key: Seq<char>) -> Option<Seq<char>>
    decreases pairs.len(),
{
    if pairs.len() == 0 {
        None
    } else if pairs.last().0 == key {
        Some(pairs.last().1)
    } else {
        pairs_last(pairs.drop_last(), key)
    }
}

/// A tag's attributes as a JSON object: one string member per name, the
/// last of a repeated name winning.
pub open spec fn is_attrs_object(v: JsonValue, content: Seq<char>) -> bool {
    &&& v is Object
    &&& members_unique(v->Object_0@)
    &&& forall|k: Seq<char>| #![trigger members_get(v->Object_0@, k)]
        text_member(members_get(v->Object_0@, k), pairs_last(attr_pairs_spec(xml_attributes_named(content)), k))
}

/// A tag's attributes as a JSON object (see `is_attrs_object`).
pub fn drawing_style_xml_attrs_value(content: &str) -> (r: Vec<(String, JsonValue)>)
    ensures
        is_attrs_object(JsonValue::Object(r), content@),
{
    let pairs = drawing_style_xml_attr_pairs(content);
    let ghost view = pairs@.map_values(|p: (String, String)| (p.0@, p.1@));
    let mut map = new_members();
    let mut i: usize = 0;
    while i < pairs.len()
        invariant
            i <= pairs@.len(),
            view == pairs@.map_values(|p: (String, String)| (p.0@, p.1@)),
            view == attr_pairs_spec(xml_attributes_named(content@)),
            members_unique(map@),
            forall|k: Seq<char>| #![trigger members_get(map@, k)]
                text_member(members_get(map@, k), pairs_last(view.take(i as int), k)),
        decreases pairs@.len() - i,
    {
        assert(view.take(i + 1).drop_last() =~= view.take(i as int));
        assert(view.take(i + 1).last() == view[i as int]);
        insert_member(&mut map, pairs[i].0.as_str(), JsonValue::String(string_of(pairs[i].1.as_str())));
        i = i + 1;
    }
    assert(view.take(i as int) =~= view);
    map
}

// ---------------------------------------------------------------------------
// Raw XML text of events
// ---------------------------------------------------------------------------

/// The text `quick_xml`'s writer (default settings) writes for an event:
/// its content between the delimiters of its kind.
pub open spec fn event_text(kind: XmlKind, content: Seq<char>) -> Seq<char> {
    match kind {
        XmlKind::Start => "<"@ + content + ">"@,
        XmlKind::End => "</"@ + content + ">"@,
        XmlKind::Empty => "<"@ + content + "/>"@,
        XmlKind::Text => content,
        XmlKind::CData => "<![CDATA["@ + content + "]]>"@,
        XmlKind::Comment => "<!--"@ + content + "-->"@,
        XmlKind::Decl => "<?"@ + content + "?>"@,
        XmlKind::PI => "<?"@ + content + "?>"@,
        XmlKind::DocType => "<!DOCTYPE "@ + content + ">"@,
        XmlKind::GeneralRef => "&"@ + content + ";"@,
    }
}

/// Appends the text of an event.
fn push_event_text(out: &mut String, kind: XmlKind, content: &str)
    ensures
        final(out)@ == old(out)@ + event_text(kind, content@),
{
    let (before, after) = match kind {
        XmlKind::Start => ("<", ">"),
        XmlKind::End => ("</", ">"),
        XmlKind::Empty => ("<", "/>"),
        XmlKind::Text => ("", ""),
        XmlKind::CData => ("<![CDATA[", "]]>"),
        XmlKind::Comment => ("<!--", "-->"),
        XmlKind::Decl => ("<?", "?>"),
        XmlKind::PI => ("<?", "?>"),
        XmlKind::DocType => ("<!DOCTYPE ", ">"),
        XmlKind::GeneralRef => ("&", ";"),
    };
    proof {
        reveal_strlit("");
    }
    let ghost start = out@;
    push_str(out, before);
    push_str(out, content);
    push_str(out, after);
    assert(out@ =~= start + event_text(kind, content@));
}

/// The raw XML of an empty element.
pub fn drawing_style_raw_empty_xml_element(content: &str) -> (r: Option<String>)
    ensures
        r matches Some(t) && t@ == event_text(XmlKind::Empty, content@),
{
    let mut out = String::new();
    push_event_text(&mut out, XmlKind::Empty, content);
    Some(out)
}

/// The text that events write from `i` on while an element opened before
/// them is open (`depth` elements deep), up to and including the end tag
/// that closes it, and the place after that end tag (or after the last
/// event when it is never closed).
pub open spec fn capture_rest(ev: Seq<XmlEv>, i: int, depth: int) -> (Seq<char>, int)
    decreases ev.len() - i,
{
    if i < 0 || i >= ev.len() {
        (Seq::empty(), i)
    } else {
        let (kind, content) = ev[i];
        let piece = event_text(kind, content);
        match kind {
            XmlKind::Start => {
                let (rest, j) = capture_rest(ev, i + 1, depth + 1);
                (piece + rest, j)
            },
            XmlKind::End => if depth <= 1 {
                (piece, i + 1)
            } else {
                let (rest, j) = capture_rest(ev, i + 1, depth - 1);
                (piece + rest, j)
            },
            _ => {
                let (rest, j) = capture_rest(ev, i + 1, depth);
                (piece + rest, j)
            },
        }
    }
}

/// The raw XML of an element that opens with the start tag `start` and
/// whose following events begin at `i`, and the place after it.
pub fn drawing_style_capture_raw_xml_element(start: &str, events: &Vec<XmlRaw>, i: usize) -> (r: (Option<String>, usize))
    requires
        i <= events@.len(),
        events@.len() < usize::MAX,
    ensures
        r.0 matches Some(t) && t@ == event_text(XmlKind::Start, start@) + capture_rest(events_view(events@), i as int, 1).0,
        r.1 as int == capture_rest(events_view(events@), i as int, 1).1,
        i <= r.1 <= events@.len(),
{
    let ghost ev = events_view(events@);
    let mut out = String::new();
    push_event_text(&mut out, XmlKind::Start, start);
    let ghost head = out@;
    assert(head =~= event_text(XmlKind::Start, start@));
    let mut depth: usize = 1;
    let mut j: usize = i;
    while j < events.len()
        invariant
            ev == events_view(events@),
            events@.len() < usize::MAX,
            head == event_text(XmlKind::Start, start@),
            i <= j <= events@.len(),
            1 <= depth,
            depth <= 1 + j - i,
            out@ + capture_rest(ev, j as int, depth as int).0 == head + capture_rest(ev, i as int, 1).0,
            capture_rest(ev, j as int, depth as int).1 == capture_rest(ev, i as int, 1).1,
        decreases events@.len() - j,
    {
        let kind = events[j].kind;
        assert(ev[j as int] == (kind, events@[j as int].content@));
        push_event_text(&mut out, kind, events[j].content.as_str());
        match kind {
            XmlKind::Start => {
                depth = depth + 1;
            },
            XmlKind::End => {
                if depth <= 1 {
                    assert(out@ == head + capture_rest(ev, i as int, 1).0);
                    return (Some(out), j + 1);
                }
                depth = depth - 1;
            },
            _ => {},
        }
        j = j + 1;
    }
    assert(capture_rest(ev, j as int, depth as int).0 == Seq::<char>::empty());
    (Some(out), j)
}

} // verus!
