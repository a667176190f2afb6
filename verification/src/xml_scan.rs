//! Scanning an XML feed for a closed set of named fields.
//!
//! The document is read as a stream of events. Only three shapes of event
//! matter: the start of an element (which names the scope for any character
//! data that follows), character data itself, and everything else. The scan
//! keeps the most recent start-element name as its one piece of state; a
//! character-data event assigns its text to that name, and a later assignment
//! to the same name overwrites an earlier one.

use vstd::prelude::*;
use crate::FeedError;

verus! {

/// One event of an XML document, reduced to what the field scan reads.
pub enum XmlEvent {
    /// An element starts; its local name becomes the current scope.
    Start(String),
    /// Character data inside the current scope.
    Text(String),
    /// Any other well-formed event; the scan ignores it.
    Other,
}

/// The mathematical shape of one scan event.
pub enum XmlEventView {
    Start { name: Seq<char> },
    Text { value: Seq<char> },
    Other,
}

impl View for XmlEvent {
    type V = XmlEventView;

    open spec fn view(&self) -> XmlEventView {
        match self {
            XmlEvent::Start(name) => XmlEventView::Start { name: name@ },
            XmlEvent::Text(value) => XmlEventView::Text { value: value@ },
            XmlEvent::Other => XmlEventView::Other,
        }
    }
}

/// The views of a sequence of scan events.
pub open spec fn views_of(events: Seq<XmlEvent>) -> Seq<XmlEventView> {
    events.map_values(|e: XmlEvent| e@)
}

/// What the XML reader yields for a byte input: the events it produced, in
/// order, and whether it reached the end of the document without a fault.
/// When the scan faults, the events are the prefix read before the fault.
pub uninterp spec fn xml_events_of(input: Seq<u8>) -> (Seq<XmlEventView>, bool);

/// Relies on `xml::reader::EventReader`: iterating it yields the document's
/// parse events in order, and yields an error event at the first malformed
/// construct, after which the stream ends. The events and the fault, if any,
/// are a function of the input bytes alone.
#[verifier::external_body]
fn scan_xml(input: &[u8]) -> (r: (Vec<XmlEvent>, bool))
    ensures
        (views_of(r.0@), r.1) == xml_events_of(input@),
{
    let mut events = Vec::new();
    for e in xml::reader::EventReader::new(input) {
        match e {
            Ok(xml::reader::XmlEvent::StartElement { name, .. }) => {
                events.push(XmlEvent::Start(name.local_name));
            }
            Ok(xml::reader::XmlEvent::Characters(s)) => events.push(XmlEvent::Text(s)),
            Ok(_) => events.push(XmlEvent::Other),
            Err(_) => return (events, false),
        }
    }
    (events, true)
}

/// The element name in scope while the event at position `i` is handled: the
/// name of the latest start-element event before it, or the empty name when
/// no element has started yet.
pub open spec fn name_in_scope(v: Seq<XmlEventView>, i: int) -> Seq<char>
    decreases i,
{
    if i <= 0 {
        Seq::empty()
    } else {
        match v[i - 1] {
            XmlEventView::Start { name } => name,
            _ => name_in_scope(v, i - 1),
        }
    }
}

/// Whether the event at position `j` assigns text to the field `name`: it is
/// character data, and `name` is the element name in scope there.
pub open spec fn assigns_field(v: Seq<XmlEventView>, j: int, name: Seq<char>) -> bool {
    v[j] is Text && name_in_scope(v, j) == name
}

/// The text carried by a character-data event.
pub open spec fn text_of(e: XmlEventView) -> Seq<char> {
    match e {
        XmlEventView::Text { value } => value,
        _ => Seq::empty(),
    }
}

/// The value of the field `name` after the first `n` events: the text of the
/// last assignment to it, or the empty string when none assigned it.
pub open spec fn field_value_prefix(v: Seq<XmlEventView>, name: Seq<char>, n: int) -> Seq<char>
    decreases n,
{
    if n <= 0 {
        Seq::empty()
    } else if assigns_field(v, n - 1, name) {
        text_of(v[n - 1])
    } else {
        field_value_prefix(v, name, n - 1)
    }
}

/// The value of the field `name` after the whole event stream.
pub open spec fn field_value(v: Seq<XmlEventView>, name: Seq<char>) -> Seq<char> {
    field_value_prefix(v, name, v.len() as int)
}

/// Whether an event starts an element named `entry`, the feed's marker that a
/// data row exists.
pub open spec fn is_entry_start(e: XmlEventView) -> bool {
    match e {
        XmlEventView::Start { name } => name == "entry"@,
        _ => false,
    }
}

/// Whether one of the first `n` events starts an `entry` element.
pub open spec fn entry_in_prefix(v: Seq<XmlEventView>, n: int) -> bool {
    exists|i: int| 0 <= i < n && is_entry_start(#[trigger] v[i])
}

/// Whether the event stream holds any `entry` element.
pub open spec fn has_entry(v: Seq<XmlEventView>) -> bool {
    entry_in_prefix(v, v.len() as int)
}

/// Whether one of the first `n` events starts any element at all.
pub open spec fn element_in_prefix(v: Seq<XmlEventView>, n: int) -> bool {
    exists|i: int| 0 <= i < n && (#[trigger] v[i]) is Start
}

proof fn lemma_entry_prefix_step(v: Seq<XmlEventView>, n: int)
    requires
        0 <= n < v.len(),
    ensures
        entry_in_prefix(v, n + 1) == (entry_in_prefix(v, n) || is_entry_start(v[n])),
{
    if entry_in_prefix(v, n + 1) {
        let k = choose|i: int| 0 <= i < n + 1 && is_entry_start(#[trigger] v[i]);
        if k < n {
            assert(entry_in_prefix(v, n));
        }
    }
    if entry_in_prefix(v, n) {
        let k = choose|i: int| 0 <= i < n && is_entry_start(#[trigger] v[i]);
        assert(0 <= k < n + 1 && is_entry_start(v[k]));
    }
    if is_entry_start(v[n]) {
        assert(0 <= n < n + 1 && is_entry_start(v[n]));
    }
}

proof fn lemma_element_prefix_step(v: Seq<XmlEventView>, n: int)
    requires
        0 <= n < v.len(),
    ensures
        element_in_prefix(v, n + 1) == (element_in_prefix(v, n) || v[n] is Start),
{
    if element_in_prefix(v, n + 1) {
        let k = choose|i: int| 0 <= i < n + 1 && (#[trigger] v[i]) is Start;
        if k < n {
            assert(element_in_prefix(v, n));
        }
    }
    if element_in_prefix(v, n) {
        let k = choose|i: int| 0 <= i < n && (#[trigger] v[i]) is Start;
        assert(0 <= k < n + 1 && v[k] is Start);
    }
    if v[n] is Start {
        assert(0 <= n < n + 1 && v[n] is Start);
    }
}

/// Whether any element started before the scan ended. Used to tell a document
/// with no elements at all from one that breaks midway.
#[verifier::loop_isolation(false)]
pub fn contains_element_start(events: &Vec<XmlEvent>) -> (b: bool)
    ensures
        b == element_in_prefix(views_of(events@), events@.len() as int),
{
    let ghost v = views_of(events@);
    let mut i: usize = 0;
    let mut found = false;
    while i < events.len()
        invariant
            i <= events@.len(),
            found == element_in_prefix(v, i as int),
        decreases events@.len() - i,
    {
        proof {
            lemma_element_prefix_step(v, i as int);
            assert(v[i as int] == events@[i as int]@);
        }
        match &events[i] {
            XmlEvent::Start(_) => {
                found = true;
            }
            _ => {}
        }
        i += 1;
    }
    found
}

/// Scans the events for the schema's fields, last assignment winning, and
/// reports whether an `entry` element was seen.
#[verifier::loop_isolation(false)]
pub fn extract_values(events: &Vec<XmlEvent>, schema: &Vec<String>) -> (r: (Vec<String>, bool))
    ensures
        r.0@.len() == schema@.len(),
        forall|q: int|
            0 <= q < schema@.len() ==> (#[trigger] r.0@[q])@ == field_value(
                views_of(events@),
                schema@[q]@,
            ),
        r.1 == has_entry(views_of(events@)),
{
    let ghost v = views_of(events@);
    let mut vals: Vec<String> = Vec::new();
    while vals.len() < schema.len()
        invariant
            vals@.len() <= schema@.len(),
            forall|q: int| 0 <= q < vals@.len() ==> (#[trigger] vals@[q])@ == Seq::<char>::empty(),
        decreases schema@.len() - vals@.len(),
    {
        vals.push(String::new());
    }
    let mut current = String::new();
    let mut found = false;
    let entry_name: String = "entry".to_owned();
    let mut i: usize = 0;
    while i < events.len()
        invariant
            i <= events@.len(),
            vals@.len() == schema@.len(),
            current@ == name_in_scope(v, i as int),
            found == entry_in_prefix(v, i as int),
            forall|q: int|
                0 <= q < schema@.len() ==> (#[trigger] vals@[q])@ == field_value_prefix(
                    v,
                    schema@[q]@,
                    i as int,
                ),
        decreases events@.len() - i,
    {
        proof {
            lemma_entry_prefix_step(v, i as int);
            assert(v[i as int] == events@[i as int]@);
        }
        match &events[i] {
            XmlEvent::Start(name) => {
                current = name.clone();
                if *name == entry_name {
                    found = true;
                }
                proof {
                    assert forall|q: int| 0 <= q < schema@.len() implies field_value_prefix(
                        v,
                        schema@[q]@,
                        i as int + 1,
                    ) == field_value_prefix(v, schema@[q]@, i as int) by {
                        assert(!assigns_field(v, i as int, schema@[q]@));
                    }
                }
            }
            XmlEvent::Text(s) => {
                let mut j: usize = 0;
                while j < schema.len()
                    invariant
                        j <= schema@.len(),
                        vals@.len() == schema@.len(),
                        forall|q: int|
                            0 <= q < schema@.len() ==> (#[trigger] vals@[q])@ == (if q < j
                                && schema@[q]@ == current@ {
                                s@
                            } else {
                                field_value_prefix(v, schema@[q]@, i as int)
                            }),
                    decreases schema@.len() - j,
                {
                    if schema[j] == current {
                        vals[j] = s.clone();
                    }
                    j += 1;
                }
                proof {
                    assert forall|q: int| 0 <= q < schema@.len() implies field_value_prefix(
                        v,
                        schema@[q]@,
                        i as int + 1,
                    ) == (if schema@[q]@ == current@ {
                        s@
                    } else {
                        field_value_prefix(v, schema@[q]@, i as int)
                    }) by {
                        assert(name_in_scope(v, i as int) == current@);
                        assert(text_of(v[i as int]) == s@);
                    }
                }
            }
            XmlEvent::Other => {
                proof {
                    assert forall|q: int| 0 <= q < schema@.len() implies field_value_prefix(
                        v,
                        schema@[q]@,
                        i as int + 1,
                    ) == field_value_prefix(v, schema@[q]@, i as int) by {
                        assert(!assigns_field(v, i as int, schema@[q]@));
                    }
                }
            }
        }
        i += 1;
    }
    (vals, found)
}

/// The views of a sequence of owned strings.
pub open spec fn strs_view(v: Seq<String>) -> Seq<Seq<char>> {
    v.map_values(|s: String| s@)
}

/// What parsing a byte input against a schema yields, over the event model:
/// a faulted scan is a parse error, except that a document in which no
/// element ever started counts as having no entries; a complete scan without
/// an `entry` element has no entries; otherwise every schema field gets its
/// scanned value, the empty string by default.
pub open spec fn parse_outcome(input: Seq<u8>, schema: Seq<Seq<char>>) -> Result<
    Seq<Seq<char>>,
    FeedError,
> {
    let (events, complete) = xml_events_of(input);
    if !complete {
        if element_in_prefix(events, events.len() as int) {
            Err(FeedError::XmlParse)
        } else {
            Err(FeedError::NoEntries)
        }
    } else if !has_entry(events) {
        Err(FeedError::NoEntries)
    } else {
        Ok(Seq::new(schema.len(), |q: int| field_value(events, schema[q])))
    }
}

/// The view of a parse result.
pub open spec fn parse_result_view(r: Result<Vec<String>, FeedError>) -> Result<
    Seq<Seq<char>>,
    FeedError,
> {
    match r {
        Ok(vals) => Ok(strs_view(vals@)),
        Err(e) => Err(e),
    }
}

/// Parses a feed document and extracts the schema's fields.
///
/// The result is exactly `parse_outcome` of the input's event model: an
/// `entry` element must be present for a record to come back, every schema
/// field defaults to the empty string, and a later value for a field
/// overwrites an earlier one.
pub fn parse_fields(input: &[u8], schema: &Vec<String>) -> (r: Result<Vec<String>, FeedError>)
    ensures
        parse_result_view(r) == parse_outcome(input@, strs_view(schema@)),
{
    let (events, complete) = scan_xml(input);
    let ghost v = views_of(events@);
    if !complete {
        if contains_element_start(&events) {
            Err(FeedError::XmlParse)
        } else {
            Err(FeedError::NoEntries)
        }
    } else {
        let (vals, found) = extract_values(&events, schema);
        if found {
            proof {
                assert(strs_view(vals@) =~= Seq::new(
                    strs_view(schema@).len(),
                    |q: int| field_value(v, strs_view(schema@)[q]),
                ));
            }
            Ok(vals)
        } else {
            Err(FeedError::NoEntries)
        }
    }
}

/// Law: a document whose scan completes without ever meeting an `entry`
/// element parses to `NoEntries`, whatever the schema.
pub proof fn lemma_no_entry_means_no_entries(input: Seq<u8>, schema: Seq<Seq<char>>)
    requires
        xml_events_of(input).1,
        !has_entry(xml_events_of(input).0),
    ensures
        parse_outcome(input, schema) == Err::<Seq<Seq<char>>, FeedError>(FeedError::NoEntries),
{
}

/// Law: a document whose scan completes and holds an `entry` element parses
/// to a record with one value per schema field, each the scanned value of
/// its field.
pub proof fn lemma_entry_means_record(input: Seq<u8>, schema: Seq<Seq<char>>)
    requires
        xml_events_of(input).1,
        has_entry(xml_events_of(input).0),
    ensures
        parse_outcome(input, schema) matches Ok(vals) && vals.len() == schema.len()
            && forall|q: int|
            0 <= q < schema.len() ==> vals[q] == field_value(xml_events_of(input).0, schema[q]),
{
}

/// Law: a document in which no element ever starts — the empty document
/// among them — parses to `NoEntries`, never to a parse error.
pub proof fn lemma_elementless_document_means_no_entries(input: Seq<u8>, schema: Seq<Seq<char>>)
    requires
        !element_in_prefix(xml_events_of(input).0, xml_events_of(input).0.len() as int),
    ensures
        parse_outcome(input, schema) == Err::<Seq<Seq<char>>, FeedError>(FeedError::NoEntries),
{
    let (events, complete) = xml_events_of(input);
    if has_entry(events) {
        let k = choose|i: int| 0 <= i < events.len() && is_entry_start(#[trigger] events[i]);
        assert(events[k] is Start);
        assert(element_in_prefix(events, events.len() as int));
    }
}

/// Law: a schema field to which no character-data event is scoped comes out
/// as the empty string.
pub proof fn lemma_absent_field_is_empty(v: Seq<XmlEventView>, name: Seq<char>)
    requires
        forall|j: int| 0 <= j < v.len() ==> !#[trigger] assigns_field(v, j, name),
    ensures
        field_value(v, name) == Seq::<char>::empty(),
{
    lemma_field_value_prefix_unchanged(v, name, 0, v.len() as int);
}

/// Law: the last character-data event scoped to a field decides its value;
/// in particular, when a field's element appears more than once, the last
/// occurrence wins.
pub proof fn lemma_last_assignment_wins(v: Seq<XmlEventView>, name: Seq<char>, i: int)
    requires
        0 <= i < v.len(),
        assigns_field(v, i, name),
        forall|j: int| i < j < v.len() ==> !#[trigger] assigns_field(v, j, name),
    ensures
        field_value(v, name) == text_of(v[i]),
{
    lemma_field_value_prefix_unchanged(v, name, i + 1, v.len() as int);
}

proof fn lemma_field_value_prefix_unchanged(v: Seq<XmlEventView>, name: Seq<char>, lo: int, hi: int)
    requires
        0 <= lo <= hi <= v.len(),
        forall|j: int| lo <= j < hi ==> !#[trigger] assigns_field(v, j, name),
    ensures
        field_value_prefix(v, name, hi) == field_value_prefix(v, name, lo),
    decreases hi - lo,
{
    if hi > lo {
        assert(!assigns_field(v, hi - 1, name));
        lemma_field_value_prefix_unchanged(v, name, lo, hi - 1);
    }
}

} // verus!
