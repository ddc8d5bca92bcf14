use vstd::prelude::*;
use vstd::string::{StrSliceExecFns, StringExecFns};

use quick_xml::events::Event;
use quick_xml::Reader;

verus! {

/// Metadata of a city file.
#[derive(Clone, Debug, Default, PartialEq, Eq)]
pub struct CityMetadata {
    pub title: String,
    pub description: String,
    pub save_file_name: String,
    pub is_read_only: bool,
}

/// What the XML reader reads next: the start of an element (its name), a
/// text (unescaped), a text that cannot be unescaped (with the error's
/// message), anything else, the end of the input, or an error.
#[derive(Clone, Debug, PartialEq, Eq)]
pub enum XmlEvent {
    Start(String),
    Text(String),
    UndecodableText(String),
    Other,
    Eof,
    Error(String),
}

/// Names of the properties of a city's metadata, in the order of the file.
pub open spec fn required_properties() -> Seq<Seq<char>> {
    seq!["title"@, "description"@, "saveFileName"@, "readOnly"@]
}

/// Progress of the decoding of the metadata.
pub struct MetaState {
    pub in_container: bool,
    pub current: Option<Seq<char>>,
    pub missing: Seq<Seq<char>>,
    pub title: Seq<char>,
    pub description: Seq<char>,
    pub save_file_name: Seq<char>,
    pub read_only: bool,
}

/// State before any event.
pub open spec fn meta_start() -> MetaState {
    MetaState {
        in_container: false,
        current: None,
        missing: required_properties(),
        title: Seq::empty(),
        description: Seq::empty(),
        save_file_name: Seq::empty(),
        read_only: false,
    }
}

/// Outcome of one event: the next state, the end of the input, or a failure.
pub enum MetaStep {
    Continue(MetaState),
    Done,
    Fail,
}

/// Decoding one event: the `metaCity` container opens once; each property
/// opens once and its text sets the property (`true` or `false` for
/// `readOnly`); any other element, or a text outside a property, fails.
pub open spec fn meta_step(s: MetaState, e: XmlEvent) -> MetaStep {
    match e {
        XmlEvent::Start(name) => if name@ == "metaCity"@ {
            if s.in_container {
                MetaStep::Fail
            } else {
                MetaStep::Continue(MetaState { in_container: true, ..s })
            }
        } else if s.missing.contains(name@) {
            MetaStep::Continue(
                MetaState {
                    current: Some(name@),
                    missing: s.missing.filter(|p: Seq<char>| p != name@),
                    ..s
                },
            )
        } else {
            MetaStep::Fail
        },
        XmlEvent::Text(text) => match s.current {
            Some(p) => if p == "title"@ {
                MetaStep::Continue(MetaState { title: text@, ..s })
            } else if p == "description"@ {
                MetaStep::Continue(MetaState { description: text@, ..s })
            } else if p == "saveFileName"@ {
                MetaStep::Continue(MetaState { save_file_name: text@, ..s })
            } else if p == "readOnly"@ {
                if text@ == "true"@ {
                    MetaStep::Continue(MetaState { read_only: true, ..s })
                } else if text@ == "false"@ {
                    MetaStep::Continue(MetaState { read_only: false, ..s })
                } else {
                    MetaStep::Fail
                }
            } else {
                MetaStep::Continue(s)
            },
            None => MetaStep::Fail,
        },
        XmlEvent::UndecodableText(_) => MetaStep::Fail,
        XmlEvent::Other => MetaStep::Continue(s),
        XmlEvent::Eof => MetaStep::Done,
        XmlEvent::Error(_) => MetaStep::Fail,
    }
}

/// Decoding the events from a state up to the end of the input (or of the
/// events); `None` on a failure.
pub open spec fn meta_run(s: MetaState, events: Seq<XmlEvent>) -> Option<MetaState>
    decreases events.len(),
{
    if events.len() == 0 {
        Some(s)
    } else {
        match meta_step(s, events[0]) {
            MetaStep::Continue(next) => meta_run(next, events.drop_first()),
            MetaStep::Done => Some(s),
            MetaStep::Fail => None,
        }
    }
}

/// The metadata decoded from the events, when they decode and give every property.
pub open spec fn decoded_metadata(events: Seq<XmlEvent>) -> Option<MetaState> {
    match meta_run(meta_start(), events) {
        Some(s) => if s.missing.len() == 0 {
            Some(s)
        } else {
            None
        },
        None => None,
    }
}

/// The text of a name, if any.
pub open spec fn name_view(name: Option<String>) -> Option<Seq<char>> {
    match name {
        Some(p) => Some(p@),
        None => None,
    }
}

/// Does the metadata hold the decoded properties?
pub open spec fn holds_decoded(m: CityMetadata, s: MetaState) -> bool {
    &&& m.title@ == s.title
    &&& m.description@ == s.description
    &&& m.save_file_name@ == s.save_file_name
    &&& m.is_read_only == s.read_only
}

/// The XML text of the metadata.
pub open spec fn metadata_xml(m: CityMetadata) -> Seq<char> {
    "<metaCity>\n    <title>"@ + m.title@ + "</title>\n    <description>"@ + m.description@
        + "</description>\n    <saveFileName>"@ + m.save_file_name@
        + "</saveFileName>\n    <readOnly>"@ + (if m.is_read_only {
        "true"@
    } else {
        "false"@
    }) + "</readOnly>\n</metaCity>"@
}

/// Is the event the start of the element of the given name?
pub open spec fn starts(e: XmlEvent, name: Seq<char>) -> bool {
    e matches XmlEvent::Start(n) && n@ == name
}

/// Is the event the text of a property with the given value? An empty
/// value gives no text (the reader skips empty texts).
pub open spec fn gives_text(e: XmlEvent, value: Seq<char>) -> bool {
    ||| e matches XmlEvent::Text(t) && t@ == value
    ||| value.len() == 0 && e is Other
}

/// The events that reading the XML text of the metadata gives: the start of
/// the container, each property (its start, its text, its end), the end of
/// the container and the end of the input.
pub open spec fn metadata_events(events: Seq<XmlEvent>, m: CityMetadata) -> bool {
    &&& events.len() == 15
    &&& starts(events[0], "metaCity"@)
    &&& starts(events[1], "title"@)
    &&& gives_text(events[2], m.title@)
    &&& events[3] is Other
    &&& starts(events[4], "description"@)
    &&& gives_text(events[5], m.description@)
    &&& events[6] is Other
    &&& starts(events[7], "saveFileName"@)
    &&& gives_text(events[8], m.save_file_name@)
    &&& events[9] is Other
    &&& starts(events[10], "readOnly"@)
    &&& gives_text(events[11], if m.is_read_only { "true"@ } else { "false"@ })
    &&& events[12] is Other
    &&& events[13] is Other
    &&& events[14] is Eof
}

/// One decoding step at position `k` of the events.
proof fn lemma_run_step(s: MetaState, events: Seq<XmlEvent>, k: int, next: MetaState)
    requires
        0 <= k < events.len(),
        meta_step(s, events[k]) == MetaStep::Continue(next),
    ensures
        meta_run(s, events.skip(k)) == meta_run(next, events.skip(k + 1)),
{
    assert(events.skip(k).drop_first() =~= events.skip(k + 1));
    assert(events.skip(k)[0] == events[k]);
}

/// Removing the first name of a list of distinct names leaves the others.
proof fn lemma_filter_first(a: Seq<Seq<char>>, x: Seq<char>)
    requires
        a.len() > 0,
        a[0] == x,
        forall|i: int| 1 <= i < a.len() ==> a[i] != x,
    ensures
        a.filter(|p: Seq<char>| p != x) == a.drop_first(),
    decreases a.len(),
{
    let b = a.drop_last();
    assert(b.push(a.last()) =~= a);
    b.lemma_filter_push(a.last(), |p: Seq<char>| p != x);
    if a.len() == 1 {
        assert(b =~= Seq::<Seq<char>>::empty());
        assert(b.filter(|p: Seq<char>| p != x) =~= Seq::<Seq<char>>::empty()) by {
            reveal(Seq::filter);
        }
        assert(a.drop_first() =~= Seq::<Seq<char>>::empty());
    } else {
        lemma_filter_first(b, x);
        assert(b.drop_first().push(a.last()) =~= a.drop_first());
    }
}

/// A run that meets an error before the end of the input fails.
proof fn lemma_meta_run_errors(s: MetaState, events: Seq<XmlEvent>, last: XmlEvent)
    requires
        forall|j: int| 0 <= j < events.len() ==> !(#[trigger] events[j] is Eof),
        last is Error,
    ensures
        meta_run(s, events.push(last)) is None,
    decreases events.len(),
{
    let all = events.push(last);
    if events.len() > 0 {
        assert(all[0] == events[0]);
        match meta_step(s, events[0]) {
            MetaStep::Continue(next) => {
                assert(all.drop_first() =~= events.drop_first().push(last));
                lemma_meta_run_errors(next, events.drop_first(), last);
            },
            _ => {},
        }
    }
}

/// Decoding the events of the XML text of a metadata gives that metadata
/// back: what `encode_to_xml` writes, `decode_events` reads back.
pub proof fn law_metadata_round_trip(m: CityMetadata, events: Seq<XmlEvent>)
    requires
        metadata_events(events, m),
    ensures
        decoded_metadata(events) matches Some(s) && holds_decoded(m, s),
{
    reveal_strlit("metaCity");
    reveal_strlit("title");
    reveal_strlit("description");
    reveal_strlit("saveFileName");
    reveal_strlit("readOnly");
    reveal_strlit("true");
    reveal_strlit("false");
    let t = "title"@;
    let d = "description"@;
    let f = "saveFileName"@;
    let o = "readOnly"@;
    assert(t.len() == 5 && d.len() == 11 && f.len() == 12 && o.len() == 8);
    assert("metaCity"@.len() == 8 && "metaCity"@[0] != o[0]);
    assert("true"@.len() == 4 && "false"@.len() == 5);
    let s0 = meta_start();
    let s1 = MetaState { in_container: true, ..s0 };
    assert(s1.missing =~= seq![t, d, f, o]);
    assert(events.skip(0) =~= events);
    lemma_run_step(s0, events, 0, s1);
    let m1 = seq![d, f, o];
    lemma_filter_first(s1.missing, t);
    assert(s1.missing.drop_first() =~= m1);
    let s2 = MetaState { current: Some(t), missing: m1, ..s1 };
    let n1 = events[1]->Start_0;
    assert((|p: Seq<char>| p != n1@) =~= (|p: Seq<char>| p != t));
    lemma_run_step(s1, events, 1, s2);
    let s3 = MetaState { title: m.title@, ..s2 };
    if events[2] is Other {
        assert(m.title@ =~= Seq::<char>::empty());
    }
    lemma_run_step(s2, events, 2, s3);
    lemma_run_step(s3, events, 3, s3);
    let m2 = seq![f, o];
    lemma_filter_first(m1, d);
    assert(m1.drop_first() =~= m2);
    let s5 = MetaState { current: Some(d), missing: m2, ..s3 };
    let n4 = events[4]->Start_0;
    assert((|p: Seq<char>| p != n4@) =~= (|p: Seq<char>| p != d));
    lemma_run_step(s3, events, 4, s5);
    let s6 = MetaState { description: m.description@, ..s5 };
    if events[5] is Other {
        assert(m.description@ =~= Seq::<char>::empty());
    }
    lemma_run_step(s5, events, 5, s6);
    lemma_run_step(s6, events, 6, s6);
    let m3 = seq![o];
    lemma_filter_first(m2, f);
    assert(m2.drop_first() =~= m3);
    let s8 = MetaState { current: Some(f), missing: m3, ..s6 };
    let n7 = events[7]->Start_0;
    assert((|p: Seq<char>| p != n7@) =~= (|p: Seq<char>| p != f));
    lemma_run_step(s6, events, 7, s8);
    let s9 = MetaState { save_file_name: m.save_file_name@, ..s8 };
    if events[8] is Other {
        assert(m.save_file_name@ =~= Seq::<char>::empty());
    }
    lemma_run_step(s8, events, 8, s9);
    lemma_run_step(s9, events, 9, s9);
    lemma_filter_first(m3, o);
    assert(m3.drop_first() =~= Seq::<Seq<char>>::empty());
    let s11 = MetaState { current: Some(o), missing: Seq::empty(), ..s9 };
    let n10 = events[10]->Start_0;
    assert((|p: Seq<char>| p != n10@) =~= (|p: Seq<char>| p != o));
    lemma_run_step(s9, events, 10, s11);
    let s12 = MetaState { read_only: m.is_read_only, ..s11 };
    lemma_run_step(s11, events, 11, s12);
    lemma_run_step(s12, events, 12, s12);
    lemma_run_step(s12, events, 13, s12);
    assert(events.skip(14)[0] == events[14]);
    assert(meta_run(s12, events.skip(14)) == Some(s12));
}

#[verifier::external_type_specification]
#[verifier::external_body]
#[verifier::reject_recursive_types(R)]
pub struct ExXmlReader<R>(Reader<R>);

/// The event that the `index`-th read (from 0) gives, of successive reads
/// of the text by quick-xml with its texts trimmed and empty texts skipped,
/// converted as `next_xml_event` converts it. Once the end of the input or
/// an error has been read, each further read gives the end.
pub uninterp spec fn xml_event_at(text: Seq<char>, index: int) -> XmlEvent;

/// A quick-xml reader of a text, with its buffer, the text it reads and the
/// events it has given so far.
pub struct XmlSource<'a> {
    reader: Reader<&'a [u8]>,
    buffer: Vec<u8>,
    text: Ghost<Seq<char>>,
    events: Ghost<Seq<XmlEvent>>,
}

impl<'a> XmlSource<'a> {
    /// The text that the reader reads.
    pub closed spec fn text(&self) -> Seq<char> {
        self.text@
    }

    /// The events that the reader has given so far, in order.
    pub closed spec fn events(&self) -> Seq<XmlEvent> {
        self.events@
    }

    /// A reader of the given text that has given no event yet.
    pub fn new(raw: &'a str) -> (r: Self)
        ensures
            r.text() == raw@,
            r.events() == Seq::<XmlEvent>::empty(),
    {
        XmlSource { reader: xml_reader(raw), buffer: Vec::new(), text: Ghost(raw@), events: Ghost(Seq::empty()) }
    }
}

/// A quick-xml reader of the text (`quick_xml::Reader::from_str`, then
/// `trim_text(true)`): it trims the texts it reads and skips the empty ones.
/// Nothing is stated of the reader, whose state Verus does not see.
#[verifier::external_body]
fn xml_reader<'a>(raw: &'a str) -> Reader<&'a [u8]> {
    let mut reader = Reader::from_str(raw);
    reader.trim_text(true);
    reader
}

/// The next event of the reader (`quick_xml::Reader::read_event_into`, into
/// the source's buffer), with the name of a start tag read as UTF-8 and a
/// text unescaped: the event of the source's text at the position of the
/// number of events it has given so far, which it then has given too.
#[verifier::external_body]
fn next_xml_event(source: &mut XmlSource) -> (e: XmlEvent)
    ensures
        e == xml_event_at(old(source).text(), old(source).events().len() as int),
        final(source).text() == old(source).text(),
        final(source).events() == old(source).events().push(e),
{
    match source.reader.read_event_into(&mut source.buffer) {
        Ok(Event::Start(e)) => match std::str::from_utf8(e.name().into_inner()) {
            Ok(name) => XmlEvent::Start(name.to_string()),
            Err(err) => XmlEvent::Error(format!("from_utf8 error: {}", err)),
        },
        Ok(Event::Text(e)) => match e.unescape() {
            Ok(text) => XmlEvent::Text(text.to_string()),
            Err(err) => XmlEvent::UndecodableText(format!("decoding error: {}", err)),
        },
        Ok(Event::Eof) => XmlEvent::Eof,
        Err(why) => XmlEvent::Error(
            format!("parsing error at position {}: {:?}", source.reader.buffer_position(), why),
        ),
        _ => XmlEvent::Other,
    }
}

/// Does the event end the reading (the end of the input, or an error)?
pub open spec fn ends_reading(e: XmlEvent) -> bool {
    e is Eof || e is Error
}

/// The first `n` events of the reading of the text.
pub open spec fn read_events(text: Seq<char>, n: int) -> Seq<XmlEvent> {
    Seq::new(n as nat, |i: int| xml_event_at(text, i))
}

/// Position of the first event from `i` on that ends the reading of the
/// text, or `n` when none before `n` does.
pub open spec fn first_end(text: Seq<char>, i: int, n: int) -> int
    decreases n - i,
{
    if i >= n {
        n
    } else if ends_reading(xml_event_at(text, i)) {
        i
    } else {
        first_end(text, i + 1, n)
    }
}

/// When no event before `c` ends the reading, the first end from 0 is the
/// first end from `c`.
proof fn lemma_first_end_from(text: Seq<char>, c: int, n: int)
    requires
        0 <= c <= n,
        forall|j: int| 0 <= j < c ==> !ends_reading(#[trigger] xml_event_at(text, j)),
    ensures
        first_end(text, 0, n) == first_end(text, c, n),
    decreases c,
{
    if c > 0 {
        lemma_first_end_from(text, c - 1, n);
        assert(!ends_reading(xml_event_at(text, c - 1)));
    }
}

/// The first end from `i` is at least `i` and at most `n`; when it is
/// before `n`, that event ends the reading.
proof fn lemma_first_end_range(text: Seq<char>, i: int, n: int)
    requires
        i <= n,
    ensures
        i <= first_end(text, i, n) <= n,
        first_end(text, i, n) < n ==> ends_reading(xml_event_at(text, first_end(text, i, n))),
    decreases n - i,
{
    if i < n && !ends_reading(xml_event_at(text, i)) {
        lemma_first_end_range(text, i + 1, n);
    }
}

/// What decoding the text gives: the events read up to the first end of the
/// reading among the first `length + 1` ones, decoded; an error when none of
/// them ends the reading.
pub open spec fn decoded_text(text: Seq<char>) -> Option<MetaState> {
    let n = text.len() + 1int;
    let k = first_end(text, 0, n);
    if k < n {
        decoded_metadata(read_events(text, k + 1))
    } else {
        None
    }
}

/// Decimal digit of a number below ten.
pub open spec fn digit_char(d: nat) -> char {
    seq!['0', '1', '2', '3', '4', '5', '6', '7', '8', '9'][d as int]
}

/// Decimal writing of a number.
pub open spec fn decimal(n: nat) -> Seq<char>
    decreases n,
{
    if n < 10 {
        seq![digit_char(n)]
    } else {
        decimal(n / 10).push(digit_char(n % 10))
    }
}

/// The decimal digit of a number below ten.
fn digit_text(d: usize) -> (r: &'static str)
    requires
        d < 10,
    ensures
        r@ == seq![digit_char(d as nat)],
{
    match d {
        0 => {
            proof {
                reveal_strlit("0");
            }
            "0"
        },
        1 => {
            proof {
                reveal_strlit("1");
            }
            "1"
        },
        2 => {
            proof {
                reveal_strlit("2");
            }
            "2"
        },
        3 => {
            proof {
                reveal_strlit("3");
            }
            "3"
        },
        4 => {
            proof {
                reveal_strlit("4");
            }
            "4"
        },
        5 => {
            proof {
                reveal_strlit("5");
            }
            "5"
        },
        6 => {
            proof {
                reveal_strlit("6");
            }
            "6"
        },
        7 => {
            proof {
                reveal_strlit("7");
            }
            "7"
        },
        8 => {
            proof {
                reveal_strlit("8");
            }
            "8"
        },
        _ => {
            proof {
                reveal_strlit("9");
            }
            "9"
        },
    }
}

/// The number written in decimal.
pub(crate) fn decimal_text(n: usize) -> (r: String)
    ensures
        r@ == decimal(n as nat),
    decreases n,
{
    if n < 10 {
        String::from_str(digit_text(n))
    } else {
        let mut text = decimal_text(n / 10);
        text.append(digit_text(n % 10));
        text
    }
}

/// The names joined by commas.
pub open spec fn joined(names: Seq<Seq<char>>) -> Seq<char>
    decreases names.len(),
{
    if names.len() == 0 {
        Seq::empty()
    } else if names.len() == 1 {
        names[0]
    } else {
        joined(names.drop_last()) + ", "@ + names.last()
    }
}

/// Text of the message listing the missing properties.
pub open spec fn missing_text(names: Seq<Seq<char>>) -> Seq<char> {
    "missing "@ + decimal(names.len()) + " propertie(s): "@ + joined(names)
}

/// The message listing the missing properties.
fn missing_message(missing: &Vec<String>) -> (r: String)
    ensures
        r@ == missing_text(missing@.map_values(|p: String| p@)),
{
    let ghost names = missing@.map_values(|p: String| p@);
    let mut message = String::from_str("missing ");
    let count = decimal_text(missing.len());
    message.append(count.as_str());
    message.append(" propertie(s): ");
    let ghost head = message@;
    let mut i: usize = 0;
    while i < missing.len()
        invariant
            i <= missing@.len(),
            names == missing@.map_values(|p: String| p@),
            head == "missing "@ + decimal(names.len()) + " propertie(s): "@,
            message@ == head + joined(names.take(i as int)),
        decreases missing@.len() - i,
    {
        proof {
            assert(names.take(i + 1).drop_last() =~= names.take(i as int));
            assert(names.take(i + 1).last() == names[i as int]);
        }
        if i > 0 {
            message.append(", ");
        }
        message.append(missing[i].as_str());
        proof {
            if i == 0 {
                assert(names.take(1) =~= seq![names[0]]);
            }
            assert(message@ =~= head + joined(names.take(i + 1)));
        }
        i = i + 1;
    }
    proof {
        assert(names.take(i as int) =~= names);
    }
    message
}

/// Is the name that of a required property?
fn is_required_property(name: &String) -> (r: bool)
    ensures
        r == required_properties().contains(name@),
{
    let t = String::from_str("title");
    let d = String::from_str("description");
    let f = String::from_str("saveFileName");
    let o = String::from_str("readOnly");
    let r = *name == t || *name == d || *name == f || *name == o;
    proof {
        let req = required_properties();
        if r {
            if name@ == t@ { assert(req[0] == t@); }
            if name@ == d@ { assert(req[1] == d@); }
            if name@ == f@ { assert(req[2] == f@); }
            if name@ == o@ { assert(req[3] == o@); }
        } else {
            assert forall|k: int| 0 <= k < req.len() implies req[k] != name@ by {
                assert(req[0] == t@ && req[1] == d@ && req[2] == f@ && req[3] == o@);
            }
        }
    }
    r
}

/// Is the name in the list?
fn listed(names: &Vec<String>, name: &String) -> (r: bool)
    ensures
        r == names@.map_values(|p: String| p@).contains(name@),
{
    let ghost views = names@.map_values(|p: String| p@);
    let mut i: usize = 0;
    while i < names.len()
        invariant
            i <= names@.len(),
            views == names@.map_values(|p: String| p@),
            forall|k: int| 0 <= k < i ==> views[k] != name@,
        decreases names@.len() - i,
    {
        if names[i] == *name {
            assert(views[i as int] == name@);
            return true;
        }
        i = i + 1;
    }
    false
}

/// The names other than the given one, in order.
fn without_name(names: &Vec<String>, name: &String) -> (r: Vec<String>)
    ensures
        r@.map_values(|p: String| p@) == names@.map_values(|p: String| p@).filter(
            |p: Seq<char>| p != name@,
        ),
{
    let ghost views = names@.map_values(|p: String| p@);
    let mut r: Vec<String> = Vec::new();
    let mut i: usize = 0;
    assert(views.take(0).filter(|p: Seq<char>| p != name@) =~= Seq::<Seq<char>>::empty());
    while i < names.len()
        invariant
            i <= names@.len(),
            views == names@.map_values(|p: String| p@),
            r@.map_values(|p: String| p@) == views.take(i as int).filter(|p: Seq<char>| p != name@),
        decreases names@.len() - i,
    {
        let ghost before = r@.map_values(|p: String| p@);
        proof {
            assert(views.take(i + 1).drop_last() =~= views.take(i as int));
            views.take(i as int).lemma_filter_push(views[i as int], |p: Seq<char>| p != name@);
            assert(views.take(i as int).push(views[i as int]) =~= views.take(i + 1));
        }
        if names[i] != *name {
            r.push(names[i].clone());
            assert(r@.map_values(|p: String| p@) =~= before.push(views[i as int]));
        }
        i = i + 1;
    }
    assert(views.take(i as int) =~= views);
    r
}

impl CityMetadata {
    pub fn get_title(&self) -> (r: &String)
        ensures
            r == &self.title,
    {
        &self.title
    }

    pub fn get_description(&self) -> (r: &String)
        ensures
            r == &self.description,
    {
        &self.description
    }

    pub fn get_save_file_name(&self) -> (r: &String)
        ensures
            r == &self.save_file_name,
    {
        &self.save_file_name
    }

    pub fn get_is_read_only(&self) -> (r: bool)
        ensures
            r == self.is_read_only,
    {
        self.is_read_only
    }

    /// The metadata that the events read from its XML text give: the
    /// `metaCity` container, then each property as an element whose text is
    /// its value, until the end of the input.
    pub fn decode_events(events: &Vec<XmlEvent>) -> (r: Result<Self, String>)
        ensures
            decoded_metadata(events@) matches Some(s) ==> r matches Ok(m) && holds_decoded(m, s),
            decoded_metadata(events@) is None ==> r is Err,
    {
        let mut in_container = false;
        let mut current: Option<String> = None;
        let mut missing: Vec<String> = Vec::new();
        missing.push(String::from_str("title"));
        missing.push(String::from_str("description"));
        missing.push(String::from_str("saveFileName"));
        missing.push(String::from_str("readOnly"));
        let mut parsed = CityMetadata {
            title: String::new(),
            description: String::new(),
            save_file_name: String::new(),
            is_read_only: false,
        };
        let ghost start = meta_start();
        proof {
            assert(missing@.map_values(|p: String| p@) =~= required_properties());
            assert(events@.skip(0) =~= events@);
        }
        let mut i: usize = 0;
        while i < events.len()
            invariant
                i <= events@.len(),
                ({
                    let s = MetaState {
                        in_container,
                        current: name_view(current),
                        missing: missing@.map_values(|p: String| p@),
                        title: parsed.title@,
                        description: parsed.description@,
                        save_file_name: parsed.save_file_name@,
                        read_only: parsed.is_read_only,
                    };
                    meta_run(meta_start(), events@) == meta_run(s, events@.skip(i as int))
                }),
            decreases events@.len() - i,
        {
            let ghost s = MetaState {
                in_container,
                current: name_view(current),
                missing: missing@.map_values(|p: String| p@),
                title: parsed.title@,
                description: parsed.description@,
                save_file_name: parsed.save_file_name@,
                read_only: parsed.is_read_only,
            };
            proof {
                assert(events@.skip(i as int).drop_first() =~= events@.skip(i + 1));
                assert(events@.skip(i as int)[0] == events@[i as int]);
            }
            match &events[i] {
                XmlEvent::Start(name) => {
                    if *name == String::from_str("metaCity") {
                        if in_container {
                            return Err(String::from_str("duplicate 'metaCity' container tag"));
                        }
                        in_container = true;
                    } else if listed(&missing, name) {
                        missing = without_name(&missing, name);
                        current = Some(name.clone());
                    } else if is_required_property(name) {
                        let mut message = String::from_str("duplicate property tag '");
                        message.append(name.as_str());
                        message.append("'");
                        return Err(message);
                    } else {
                        let mut message = String::from_str("unknown property tag '");
                        message.append(name.as_str());
                        message.append("'");
                        return Err(message);
                    }
                },
                XmlEvent::Text(text) => {
                    match &current {
                        Some(property) => {
                            if *property == String::from_str("title") {
                                parsed.title = text.clone();
                            } else if *property == String::from_str("description") {
                                parsed.description = text.clone();
                            } else if *property == String::from_str("saveFileName") {
                                parsed.save_file_name = text.clone();
                            } else if *property == String::from_str("readOnly") {
                                if *text == String::from_str("true") {
                                    parsed.is_read_only = true;
                                } else if *text == String::from_str("false") {
                                    parsed.is_read_only = false;
                                } else {
                                    let mut message = String::from_str("invalid boolean value '");
                                    message.append(text.as_str());
                                    message.append("'");
                                    return Err(message);
                                }
                            }
                        },
                        None => {
                            return Err(String::from_str("not inside any known property tag"));
                        },
                    }
                },
                XmlEvent::Other => {},
                XmlEvent::Eof => {
                    proof {
                        assert(events@.skip(events@.len() as int) =~= Seq::<XmlEvent>::empty());
                    }
                    i = events.len();
                    continue;
                },
                XmlEvent::UndecodableText(message) => {
                    // the text is only decoded inside a property
                    match &current {
                        Some(_) => {
                            return Err(message.clone());
                        },
                        None => {
                            return Err(String::from_str("not inside any known property tag"));
                        },
                    }
                },
                XmlEvent::Error(message) => {
                    return Err(message.clone());
                },
            }
            i = i + 1;
        }
        if missing.len() == 0 {
            Ok(parsed)
        } else {
            Err(missing_message(&missing))
        }
    }

    /// Try and decode an XML-encoded city metadata string.
    ///
    /// The text is read with quick-xml, its texts trimmed; the events read,
    /// up to the end of the input or the first error, are decoded by
    /// `decode_events`. quick-xml reads at least one character of the input
    /// per event before its end, so the end comes among the first
    /// `length + 1` events; a reading that would go on is taken as an error.
    pub fn decode_from_xml(raw: &str) -> (r: Result<Self, String>)
        ensures
            decoded_text(raw@) matches Some(s) ==> r matches Ok(m) && holds_decoded(m, s),
            decoded_text(raw@) is None ==> r is Err,
    {
        let ghost text = raw@;
        let mut reader = XmlSource::new(raw);
        let mut events: Vec<XmlEvent> = Vec::new();
        let mut ended = false;
        let bound = raw.unicode_len() as u128;
        let ghost n: int = text.len() + 1int;
        let mut count: u128 = 0;
        while !ended && count <= bound
            invariant
                count <= bound + 1,
                bound <= 0xffff_ffff_ffff_ffffu128,
                bound == text.len(),
                n == text.len() + 1,
                reader.text() == text,
                reader.events() == events@,
                events@ == read_events(text, count as int),
                !ended ==> forall|j: int| 0 <= j < count ==> !ends_reading(#[trigger] xml_event_at(text, j)),
                ended ==> count > 0 && first_end(text, 0, n) == count - 1,
            decreases bound + 1 - count,
        {
            let event = next_xml_event(&mut reader);
            proof {
                lemma_first_end_from(text, count as int, n);
            }
            ended = match event {
                XmlEvent::Eof => true,
                XmlEvent::Error(_) => true,
                _ => false,
            };
            events.push(event);
            count = count + 1;
            proof {
                assert(events@ =~= read_events(text, count as int));
            }
        }
        proof {
            lemma_first_end_range(text, 0, n);
        }
        if !ended {
            let ghost before = events@;
            events.push(XmlEvent::Error(String::from_str("the XML reading does not end")));
            proof {
                lemma_first_end_from(text, n, n);
                lemma_meta_run_errors(meta_start(), before, events@.last());
                assert(before.push(events@.last()) =~= events@);
            }
        }
        Self::decode_events(&events)
    }

    /// Encode the metadata as XML.
    pub fn encode_to_xml(&self) -> (r: String)
        ensures
            r@ == metadata_xml(*self),
    {
        let mut xml = String::from_str("<metaCity>\n    <title>");
        xml.append(self.title.as_str());
        xml.append("</title>\n    <description>");
        xml.append(self.description.as_str());
        xml.append("</description>\n    <saveFileName>");
        xml.append(self.save_file_name.as_str());
        xml.append("</saveFileName>\n    <readOnly>");
        xml.append(if self.is_read_only {
            "true"
        } else {
            "false"
        });
        xml.append("</readOnly>\n</metaCity>");
        xml
    }
}

} // verus!
