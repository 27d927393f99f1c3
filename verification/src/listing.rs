//! Reading the names out of a listing answer: the text of every `<Name>` or
//! `<Key>` element of an XML answer (read with `quick_xml`), and the bucket
//! names of a JSON answer (parsed with `serde_json`).
use vstd::prelude::*;

verus! {

/// One event of an XML document, as the client tells them apart.
pub enum XmlEvent {
    /// An opening tag and its name.
    Start(Vec<u8>),
    /// A closing tag and its name.
    End(Vec<u8>),
    /// Text, unescaped and decoded; `None` where decoding failed.
    Text(Option<String>),
    /// Any other event (declarations, comments, empty elements ...).
    Other,
    /// The reader failed.
    Error,
}

/// An XML event as a mathematical value.
pub enum XmlStep {
    Start(Seq<u8>),
    End(Seq<u8>),
    Text(Option<Seq<char>>),
    Other,
    Error,
}

impl View for XmlEvent {
    type V = XmlStep;

    open spec fn view(&self) -> XmlStep {
        match self {
            XmlEvent::Start(n) => XmlStep::Start(n@),
            XmlEvent::End(n) => XmlStep::End(n@),
            XmlEvent::Text(t) => XmlStep::Text(t.deep_view()),
            XmlEvent::Other => XmlStep::Other,
            XmlEvent::Error => XmlStep::Error,
        }
    }
}

pub open spec fn steps(evs: Seq<XmlEvent>) -> Seq<XmlStep> {
    evs.map_values(|e: XmlEvent| e@)
}

/// Why a listing answer could not be read.
#[derive(Clone, Copy, Debug, PartialEq, Eq, Structural)]
pub enum ListingError {
    /// The XML reader failed or a text could not be decoded.
    Xml,
}

/// The state of the scan after `evs`: inside the wanted element, and the texts
/// found so far (`None` once the scan failed).
pub open spec fn scan(evs: Seq<XmlStep>, tag: Seq<u8>) -> (bool, Option<Seq<Seq<char>>>)
    decreases evs.len(),
{
    if evs.len() == 0 {
        (false, Some(Seq::empty()))
    } else {
        let (inside, found) = scan(evs.drop_last(), tag);
        match evs.last() {
            XmlStep::Start(n) => (if n == tag { true } else { inside }, found),
            XmlStep::End(n) => (if n == tag { false } else { inside }, found),
            XmlStep::Text(t) => if inside {
                match (found, t) {
                    (Some(f), Some(s)) => (inside, Some(f.push(s))),
                    _ => (inside, None),
                }
            } else {
                (inside, found)
            },
            XmlStep::Other => (inside, found),
            XmlStep::Error => (inside, None),
        }
    }
}

/// The texts of the elements named `tag` among the events `evs` of a
/// document: each text met inside such an element, in order; `None` where
/// the reader failed or a text inside the element could not be decoded.
pub open spec fn tag_texts(evs: Seq<XmlStep>, tag: Seq<u8>) -> Option<Seq<Seq<char>>> {
    scan(evs, tag).1
}

fn bytes_eq(a: &Vec<u8>, b: &Vec<u8>) -> (r: bool)
    ensures
        r == (a@ == b@),
{
    if a.len() != b.len() {
        return false;
    }
    let mut i: usize = 0;
    while i < a.len()
        invariant
            a.len() == b.len(),
            i <= a.len(),
            forall|j: int| 0 <= j < i ==> a@[j] == b@[j],
        decreases a.len() - i,
    {
        if a[i] != b[i] {
            return false;
        }
        i = i + 1;
    }
    assert(a@ =~= b@);
    true
}

/// The texts of the elements named `tag` among `events`.
pub fn scan_tag_texts(events: &Vec<XmlEvent>, tag: &Vec<u8>) -> (r: Result<Vec<String>, ListingError>)
    ensures
        match r {
            Ok(v) => tag_texts(steps(events@), tag@) == Some(v.deep_view()),
            Err(e) => tag_texts(steps(events@), tag@) is None && e == ListingError::Xml,
        },
{
    let ghost all = steps(events@);
    let mut inside = false;
    let mut found: Vec<String> = Vec::new();
    let mut i: usize = 0;
    assert(all.take(0) =~= Seq::<XmlStep>::empty());
    assert(found.deep_view() =~= Seq::<Seq<char>>::empty());
    while i < events.len()
        invariant
            i <= events.len(),
            all == steps(events@),
            scan(all.take(i as int), tag@) == (inside, Some(found.deep_view())),
        decreases events.len() - i,
    {
        assert(all.take(i + 1).drop_last() =~= all.take(i as int));
        assert(all.take(i + 1).last() == events@[i as int]@);
        match &events[i] {
            XmlEvent::Start(n) => {
                if bytes_eq(n, tag) {
                    inside = true;
                }
            },
            XmlEvent::End(n) => {
                if bytes_eq(n, tag) {
                    inside = false;
                }
            },
            XmlEvent::Text(t) => {
                if inside {
                    match t {
                        Some(s) => {
                            let ghost prev = found.deep_view();
                            found.push(s.clone());
                            assert(found.deep_view() =~= prev.push(s@));
                        },
                        None => {
                            proof {
                                lemma_scan_failed_stays(all, tag@, i as int + 1);
                            }
                            return Err(ListingError::Xml);
                        },
                    }
                }
            },
            XmlEvent::Other => {},
            XmlEvent::Error => {
                proof {
                    lemma_scan_failed_stays(all, tag@, i as int + 1);
                }
                return Err(ListingError::Xml);
            },
        }
        i = i + 1;
    }
    assert(all.take(events.len() as int) =~= all);
    Ok(found)
}

/// Once the scan has failed it stays failed.
proof fn lemma_scan_failed_stays(evs: Seq<XmlStep>, tag: Seq<u8>, k: int)
    requires
        0 <= k <= evs.len(),
        scan(evs.take(k), tag).1 is None,
    ensures
        scan(evs, tag).1 is None,
    decreases evs.len() - k,
{
    if k < evs.len() {
        assert(evs.take(k + 1).drop_last() =~= evs.take(k));
        lemma_scan_failed_stays(evs, tag, k + 1);
    } else {
        assert(evs.take(k) =~= evs);
    }
}

/// A `quick_xml` reader over a document. Verus refuses a declaration of
/// `quick_xml::Reader` (its parameter is bound by `BufRead`), so the reader is
/// held in a field that Verus does not see.
#[verifier::external_body]
pub struct XmlDocument<'a> {
    reader: quick_xml::Reader<&'a [u8]>,
}

/// The events that `quick_xml` reads from a document, in order, up to its end;
/// a failure of the reader is the last event.
pub uninterp spec fn document_events(body: Seq<char>) -> Seq<XmlStep>;

/// The events that a reader has still to give.
pub uninterp spec fn pending_events(doc: XmlDocument) -> Seq<XmlStep>;

/// `quick_xml::Reader::from_str`: a reader that has all the events of the
/// document still to give.
#[verifier::external_body]
fn xml_reader<'a>(s: &'a str) -> (r: XmlDocument<'a>)
    ensures
        pending_events(r) == document_events(s@),
{
    XmlDocument { reader: quick_xml::Reader::from_str(s) }
}

/// `quick_xml::Reader::read_event`, with `unescape_and_decode` for a text:
/// the next event, as the client tells them apart, or `None` at the end of
/// the document (the reader's `Eof`, which it gives for ever after the end or
/// after a failure).
#[verifier::external_body]
fn xml_next_event(doc: &mut XmlDocument) -> (r: Option<XmlEvent>)
    ensures
        pending_events(*old(doc)).len() == 0 ==> r is None && pending_events(*final(doc)).len() == 0,
        pending_events(*old(doc)).len() > 0 ==> r is Some && r->Some_0@ == pending_events(*old(doc))[0]
            && pending_events(*final(doc)) == pending_events(*old(doc)).drop_first(),
{
    let mut buf: Vec<u8> = Vec::new();
    let reader = &mut doc.reader;
    match reader.read_event(&mut buf) {
        Ok(quick_xml::events::Event::Start(ref e)) => Some(XmlEvent::Start(e.name().to_vec())),
        Ok(quick_xml::events::Event::End(ref e)) => Some(XmlEvent::End(e.name().to_vec())),
        Ok(quick_xml::events::Event::Text(e)) => Some(XmlEvent::Text(e.unescape_and_decode(reader).ok())),
        Ok(quick_xml::events::Event::Eof) => None,
        Err(_) => Some(XmlEvent::Error),
        _ => Some(XmlEvent::Other),
    }
}

/// The events of an XML document, read with `quick_xml` up to its end.
pub fn xml_events(body: &str) -> (r: Vec<XmlEvent>)
    ensures
        steps(r@) == document_events(body@),
{
    let mut doc = xml_reader(body);
    let mut events: Vec<XmlEvent> = Vec::new();
    let mut done = false;
    assert(steps(events@) =~= Seq::<XmlStep>::empty());
    assert(document_events(body@) =~= steps(events@) + pending_events(doc));
    while !done
        invariant
            document_events(body@) == steps(events@) + pending_events(doc),
            done ==> pending_events(doc).len() == 0,
        decreases pending_events(doc).len() + if done { 0int } else { 1int },
    {
        let ghost before = pending_events(doc);
        match xml_next_event(&mut doc) {
            None => {
                done = true;
            },
            Some(ev) => {
                let ghost prev = steps(events@);
                events.push(ev);
                assert(steps(events@) =~= prev.push(before[0]));
                assert(before =~= seq![before[0]] + before.drop_first());
                assert(steps(events@) + pending_events(doc) =~= prev + before);
            },
        }
    }
    assert(pending_events(doc) =~= Seq::<XmlStep>::empty());
    assert(steps(events@) + pending_events(doc) =~= steps(events@));
    events
}

/// `Name`.
pub open spec fn name_tag() -> Seq<u8> {
    seq![78u8, 97, 109, 101]
}

/// `Key`.
pub open spec fn key_tag() -> Seq<u8> {
    seq![75u8, 101, 121]
}

fn name_tag_bytes() -> (r: Vec<u8>)
    ensures
        r@ == name_tag(),
{
    let mut v: Vec<u8> = Vec::new();
    v.push(78);
    v.push(97);
    v.push(109);
    v.push(101);
    assert(v@ =~= name_tag());
    v
}

fn key_tag_bytes() -> (r: Vec<u8>)
    ensures
        r@ == key_tag(),
{
    let mut v: Vec<u8> = Vec::new();
    v.push(75);
    v.push(101);
    v.push(121);
    assert(v@ =~= key_tag());
    v
}

/// The bucket names of an XML bucket listing: the texts of its `<Name>` elements.
pub fn xml_bucket_names(body: &str) -> (r: Result<Vec<String>, ListingError>)
    ensures
        match r {
            Ok(v) => tag_texts(document_events(body@), name_tag()) == Some(v.deep_view()),
            Err(e) => tag_texts(document_events(body@), name_tag()) is None && e == ListingError::Xml,
        },
{
    let events = xml_events(body);
    let tag = name_tag_bytes();
    scan_tag_texts(&events, &tag)
}

/// The object keys of an XML object listing: the texts of its `<Key>` elements.
pub fn xml_object_keys(body: &str) -> (r: Result<Vec<String>, ListingError>)
    ensures
        match r {
            Ok(v) => tag_texts(document_events(body@), key_tag()) == Some(v.deep_view()),
            Err(e) => tag_texts(document_events(body@), key_tag()) is None && e == ListingError::Xml,
        },
{
    let events = xml_events(body);
    let tag = key_tag_bytes();
    scan_tag_texts(&events, &tag)
}

/// A JSON value as the listing logic reads it; numbers keep their text.
pub enum JsonValue {
    Null,
    Bool(bool),
    Number(String),
    Str(String),
    Array(Vec<JsonValue>),
    Object(Vec<(String, JsonValue)>),
}

/// `serde_json::Value`, the document that `serde_json` parses; opaque here.
#[verifier::external_type_specification]
#[verifier::external_body]
pub struct ExJsonDocument(serde_json::Value);

/// The value that `serde_json` parses out of a text, as a `JsonValue`
/// (numbers by their text, object fields in the order of `serde_json::Map`);
/// `None` where the text is no JSON document.
pub uninterp spec fn json_document(text: Seq<char>) -> Option<JsonValue>;

/// `serde_json::from_str::<serde_json::Value>`, converted one for one into a
/// `JsonValue`; `None` for a parse error. Named, nothing else claimed.
#[verifier::external_body]
fn parse_json(text: &str) -> (r: Option<JsonValue>)
    ensures
        r == json_document(text@),
{
    serde_json::from_str::<serde_json::Value>(text).ok().map(|v| json_value_of(&v))
}

/// The one-for-one conversion of a parsed `serde_json::Value` that
/// `parse_json` hands back: each variant to the variant of the same name,
/// a number to its text, an object to its fields in the map's order.
#[verifier::external_body]
fn json_value_of(v: &serde_json::Value) -> JsonValue {
    match v {
        serde_json::Value::Null => JsonValue::Null,
        serde_json::Value::Bool(b) => JsonValue::Bool(*b),
        serde_json::Value::Number(n) => JsonValue::Number(n.to_string()),
        serde_json::Value::String(s) => JsonValue::Str(s.clone()),
        serde_json::Value::Array(a) => JsonValue::Array(a.iter().map(json_value_of).collect()),
        serde_json::Value::Object(o) => JsonValue::Object(o.iter().map(|(k, x)| (k.clone(), json_value_of(x))).collect()),
    }
}

/// `value[i]` as `serde_json` indexes: the element of an array, else null.
pub open spec fn json_index(v: JsonValue, i: int) -> JsonValue {
    match v {
        JsonValue::Array(items) => if 0 <= i < items@.len() {
            items@[i]
        } else {
            JsonValue::Null
        },
        _ => JsonValue::Null,
    }
}

/// The value of the first entry named `k`, or null.
pub open spec fn field_in(entries: Seq<(String, JsonValue)>, k: Seq<char>) -> JsonValue
    decreases entries.len(),
{
    if entries.len() == 0 {
        JsonValue::Null
    } else if entries[0].0@ == k {
        entries[0].1
    } else {
        field_in(entries.drop_first(), k)
    }
}

/// `value[k]` as `serde_json` indexes: the field of an object, else null.
pub open spec fn json_field(v: JsonValue, k: Seq<char>) -> JsonValue {
    match v {
        JsonValue::Object(entries) => field_in(entries@, k),
        _ => JsonValue::Null,
    }
}

pub open spec fn has_str_name(v: JsonValue) -> bool {
    json_field(v, "Name"@) is Str
}

pub open spec fn name_of(v: JsonValue) -> Seq<char> {
    json_field(v, "Name"@)->Str_0@
}

/// The bucket names of a JSON bucket listing: `value[1]` is the array of
/// buckets, each named by its string `Name`; no buckets when `value[1]` is
/// no array; `None` when a bucket has no string `Name`.
pub open spec fn json_bucket_names(v: JsonValue) -> Option<Seq<Seq<char>>> {
    match json_index(v, 1) {
        JsonValue::Array(items) => if forall|i: int| 0 <= i < items@.len() ==> has_str_name(#[trigger] items@[i]) {
            Some(Seq::new(items@.len(), |i: int| name_of(items@[i])))
        } else {
            None
        },
        _ => Some(Seq::empty()),
    }
}

fn field_of<'a>(entries: &'a Vec<(String, JsonValue)>, k: &str) -> (r: Option<&'a JsonValue>)
    ensures
        match r {
            Some(v) => field_in(entries@, k@) == *v,
            None => field_in(entries@, k@) is Null,
        },
{
    let mut i: usize = 0;
    assert(entries@.skip(0) =~= entries@);
    while i < entries.len()
        invariant
            i <= entries.len(),
            field_in(entries@, k@) == field_in(entries@.skip(i as int), k@),
        decreases entries.len() - i,
    {
        assert(entries@.skip(i as int).drop_first() =~= entries@.skip(i + 1));
        if crate::text::str_eq(entries[i].0.as_str(), k) {
            return Some(&entries[i].1);
        }
        i = i + 1;
    }
    None
}

/// The string `Name` of a bucket entry, if it has one.
fn bucket_name(v: &JsonValue) -> (r: Option<String>)
    ensures
        match r {
            Some(s) => has_str_name(*v) && s@ == name_of(*v),
            None => !has_str_name(*v),
        },
{
    match v {
        JsonValue::Object(entries) => match field_of(entries, "Name") {
            Some(JsonValue::Str(s)) => Some(s.clone()),
            _ => None,
        },
        _ => None,
    }
}

/// The bucket names of a JSON bucket listing; `None` where a bucket has no
/// string `Name` (the client stops there).
pub fn json_bucket_names_of(v: &JsonValue) -> (r: Option<Vec<String>>)
    ensures
        match r {
            Some(names) => json_bucket_names(*v) == Some(names.deep_view()),
            None => json_bucket_names(*v) is None,
        },
{
    let list = match v {
        JsonValue::Array(top) => {
            if top.len() > 1 {
                &top[1]
            } else {
                return Some(Vec::new());
            }
        },
        _ => return Some(Vec::new()),
    };
    match list {
        JsonValue::Array(items) => {
            let mut names: Vec<String> = Vec::new();
            let mut i: usize = 0;
            while i < items.len()
                invariant
                    i <= items.len(),
                    json_index(*v, 1) == JsonValue::Array(*items),
                    forall|j: int| 0 <= j < i ==> has_str_name(#[trigger] items@[j]),
                    names.deep_view() == Seq::new(i as nat, |j: int| name_of(items@[j])),
                decreases items.len() - i,
            {
                match bucket_name(&items[i]) {
                    Some(n) => {
                        let ghost prev = names.deep_view();
                        let ghost nv = n@;
                        names.push(n);
                        assert(names.deep_view() =~= prev.push(nv));
                        assert(names.deep_view() =~= Seq::new((i + 1) as nat, |j: int| name_of(items@[j])));
                    },
                    None => {
                        return None;
                    },
                }
                i = i + 1;
            }
            Some(names)
        },
        _ => Some(Vec::new()),
    }
}

/// The bucket names of a JSON bucket listing, read from the answer's text:
/// `None` where the text is no JSON document or a bucket has no string
/// `Name` (the client stops there).
pub fn json_bucket_names_of_text(body: &str) -> (r: Option<Vec<String>>)
    ensures
        match json_document(body@) {
            None => r is None,
            Some(v) => match r {
                Some(names) => json_bucket_names(v) == Some(names.deep_view()),
                None => json_bucket_names(v) is None,
            },
        },
{
    match parse_json(body) {
        None => None,
        Some(v) => json_bucket_names_of(&v),
    }
}

} // verus!
