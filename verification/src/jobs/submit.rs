//! Submitting jobs.

use vstd::prelude::*;

use crate::jobs::{subsystem_text, write_subsystem};
use crate::jobs::list::{opt_number, opt_number_string};
use crate::request::{
    jstr, lemma_header_opt_values, lemma_header_values, opt_view, pairs_view, request_to, url_of,
    values_named, Body, BodyView, Json, JsonValue, Members, Method, Request, RequestView,
};
use crate::text::{chars_of, extend_str, string_of};

verus! {

/// JCL given with the request.
#[derive(Clone, Debug)]
pub enum JclData {
    Binary(Vec<u8>),
    Record(Vec<u8>),
    Text(String),
}

/// Where the JCL of a job comes from.
#[derive(Clone, Debug)]
pub enum JobSource {
    Dataset(String),
    File(String),
    Jcl(JclData),
}

/// An event of a job that z/OSMF can notify.
#[derive(Clone, Copy, Debug, PartialEq, Eq, Structural, Hash)]
pub enum JobNotificationEvent {
    Active,
    Complete,
    Ready,
}

/// The record format of submitted JCL.
#[derive(Clone, Copy, Debug, PartialEq, Eq, Structural, Hash)]
pub enum JobRecordFormat {
    Fixed,
    Variable,
}

/// The header text of a record format.
pub open spec fn record_format_text(f: JobRecordFormat) -> Seq<char> {
    match f {
        JobRecordFormat::Fixed => "F"@,
        JobRecordFormat::Variable => "V"@,
    }
}

impl JobRecordFormat {
    /// The header text of this record format: `F` or `V`.
    pub fn header_value(&self) -> (r: String)
        ensures
            r@ == record_format_text(*self),
    {
        match self {
            JobRecordFormat::Fixed => String::from_str("F"),
            JobRecordFormat::Variable => String::from_str("V"),
        }
    }
}

/// The name of an event.
pub open spec fn event_name(e: JobNotificationEvent) -> Seq<char> {
    match e {
        JobNotificationEvent::Active => "active"@,
        JobNotificationEvent::Complete => "complete"@,
        JobNotificationEvent::Ready => "ready"@,
    }
}

/// The events that occur in `events`, each once, in alphabetical order of
/// their names.
pub open spec fn distinct_events(events: Seq<JobNotificationEvent>) -> Seq<JobNotificationEvent> {
    (if events.contains(JobNotificationEvent::Active) {
        seq![JobNotificationEvent::Active]
    } else {
        Seq::empty()
    }) + (if events.contains(JobNotificationEvent::Complete) {
        seq![JobNotificationEvent::Complete]
    } else {
        Seq::empty()
    }) + (if events.contains(JobNotificationEvent::Ready) {
        seq![JobNotificationEvent::Ready]
    } else {
        Seq::empty()
    })
}

/// `"name"`.
pub open spec fn quoted(s: Seq<char>) -> Seq<char> {
    seq!['"'] + s + seq!['"']
}

/// The quoted names of the events, separated by `, `.
pub open spec fn quoted_names(events: Seq<JobNotificationEvent>) -> Seq<char>
    decreases events.len(),
{
    if events.len() == 0 {
        Seq::empty()
    } else if events.len() == 1 {
        quoted(event_name(events[0]))
    } else {
        quoted_names(events.drop_last()) + ", "@ + quoted(event_name(events.last()))
    }
}

/// The notification options header for a list of events: nothing for no
/// events, else `{"events": [...]}` with each event named once, in order.
pub open spec fn notification_options(events: Seq<JobNotificationEvent>) -> Option<Seq<char>> {
    if events.len() == 0 {
        None
    } else {
        Some("{\"events\": ["@ + quoted_names(distinct_events(events)) + "]}"@)
    }
}

/// The notification options header depends only on which events are asked
/// for: not on their order, nor on repetitions.
pub proof fn lemma_notification_options_set(a: Seq<JobNotificationEvent>, b: Seq<JobNotificationEvent>)
    requires
        a.to_set() == b.to_set(),
    ensures
        notification_options(a) == notification_options(b),
{
    assert(a.contains(JobNotificationEvent::Active) == a.to_set().contains(JobNotificationEvent::Active));
    assert(b.contains(JobNotificationEvent::Active) == b.to_set().contains(JobNotificationEvent::Active));
    assert(a.contains(JobNotificationEvent::Complete) == a.to_set().contains(JobNotificationEvent::Complete));
    assert(b.contains(JobNotificationEvent::Complete) == b.to_set().contains(JobNotificationEvent::Complete));
    assert(a.contains(JobNotificationEvent::Ready) == a.to_set().contains(JobNotificationEvent::Ready));
    assert(b.contains(JobNotificationEvent::Ready) == b.to_set().contains(JobNotificationEvent::Ready));
    if a.len() == 0 && b.len() > 0 {
        assert(b.to_set().contains(b[0]));
    }
    if b.len() == 0 && a.len() > 0 {
        assert(a.to_set().contains(a[0]));
    }
}

/// Every event that is asked for is named, and no other.
pub proof fn lemma_notification_options_events(events: Seq<JobNotificationEvent>, e: JobNotificationEvent)
    ensures
        distinct_events(events).contains(e) <==> events.contains(e),
        distinct_events(events).no_duplicates(),
{
    let d = distinct_events(events);
    if events.contains(e) {
        match e {
            JobNotificationEvent::Active => assert(d[0] == e),
            JobNotificationEvent::Complete => {
                if events.contains(JobNotificationEvent::Active) {
                    assert(d[1] == e);
                } else {
                    assert(d[0] == e);
                }
            },
            JobNotificationEvent::Ready => assert(d[d.len() - 1] == e),
        }
    }
}

/// Tests whether `events` holds `e`.
fn has_event(events: &Vec<JobNotificationEvent>, e: JobNotificationEvent) -> (r: bool)
    ensures
        r == events@.contains(e),
{
    let mut i: usize = 0;
    while i < events.len()
        invariant
            0 <= i <= events.len(),
            forall|k: int| 0 <= k < i ==> events@[k] != e,
        decreases events.len() - i,
    {
        if events[i] == e {
            return true;
        }
        i = i + 1;
    }
    false
}

/// The name of an event.
fn event_str(e: JobNotificationEvent) -> (r: &'static str)
    ensures
        r@ == event_name(e),
{
    match e {
        JobNotificationEvent::Active => "active",
        JobNotificationEvent::Complete => "complete",
        JobNotificationEvent::Ready => "ready",
    }
}

/// The notification options header for a list of events.
pub fn notification_options_header(events: &Vec<JobNotificationEvent>) -> (r: Option<String>)
    ensures
        opt_view(r) == notification_options(events@),
{
    if events.len() == 0 {
        return None;
    }
    let mut chosen: Vec<JobNotificationEvent> = Vec::new();
    if has_event(events, JobNotificationEvent::Active) {
        chosen.push(JobNotificationEvent::Active);
    }
    if has_event(events, JobNotificationEvent::Complete) {
        chosen.push(JobNotificationEvent::Complete);
    }
    if has_event(events, JobNotificationEvent::Ready) {
        chosen.push(JobNotificationEvent::Ready);
    }
    proof {
        assert(chosen@ =~= distinct_events(events@));
    }
    let mut text = chars_of("{\"events\": [");
    let ghost prefix = text@;
    let mut i: usize = 0;
    while i < chosen.len()
        invariant
            0 <= i <= chosen.len(),
            text@ == prefix + quoted_names(chosen@.take(i as int)),
        decreases chosen.len() - i,
    {
        let ghost before = text@;
        if i > 0 {
            extend_str(&mut text, ", ");
        }
        text.push('"');
        extend_str(&mut text, event_str(chosen[i]));
        text.push('"');
        proof {
            let t = chosen@.take(i + 1);
            assert(t.drop_last() =~= chosen@.take(i as int));
            assert(t.last() == chosen@[i as int]);
            if i == 0 {
                assert(chosen@.take(0) =~= Seq::<JobNotificationEvent>::empty());
                assert(text@ =~= prefix + quoted(event_name(chosen@[0])));
            } else {
                assert(text@ =~= before + ", "@ + quoted(event_name(chosen@[i as int])));
            }
        }
        i = i + 1;
    }
    extend_str(&mut text, "]}");
    proof {
        assert(chosen@.take(chosen.len() as int) =~= chosen@);
        assert(text@ =~= "{\"events\": ["@ + quoted_names(distinct_events(events@)) + "]}"@);
    }
    Some(string_of(&text))
}

/// A request that submits a job.
#[derive(Clone, Debug)]
pub struct JobSubmitBuilder {
    pub base_url: String,
    pub subsystem: Option<String>,
    pub message_class: Option<String>,
    pub record_format: Option<JobRecordFormat>,
    pub record_length: Option<i32>,
    pub user_correlator: Option<String>,
    pub symbols: Option<Vec<(String, String)>>,
    pub jcl_source: JobSource,
    pub notification_url: Option<String>,
    pub notification_events: Option<Vec<JobNotificationEvent>>,
    pub encoding: Option<String>,
}

/// No two symbols have the same name.
pub open spec fn distinct_names(symbols: Seq<(String, String)>) -> bool {
    forall|i: int, j: int| 0 <= i < j < symbols.len() ==> symbols[i].0@ != symbols[j].0@
}

/// The header `X-IBM-JCL-Symbol-name: value` for each symbol, in order.
pub open spec fn with_symbols(r: RequestView, symbols: Seq<(Seq<char>, Seq<char>)>) -> RequestView
    decreases symbols.len(),
{
    if symbols.len() == 0 {
        r
    } else {
        with_symbols(r, symbols.drop_last()).with_header(
            "X-IBM-JCL-Symbol-"@ + symbols.last().0,
            symbols.last().1,
        )
    }
}

/// The headers and body that carry the JCL.
pub open spec fn with_jcl_source(r: RequestView, source: JobSource) -> RequestView {
    match source {
        JobSource::Dataset(d) => r.with_header("Content-Type"@, "application/json"@).with_json(
            Json::Object(seq![("file"@, jstr("//'"@ + d@ + "'"@))]),
        ),
        JobSource::File(f) => r.with_header("Content-Type"@, "application/json"@).with_json(
            Json::Object(seq![("file"@, jstr(f@))]),
        ),
        JobSource::Jcl(JclData::Binary(b)) => r.with_header(
            "Content-Type"@,
            "application/octet-stream"@,
        ).with_header("X-IBM-Intrdr-Mode"@, "BINARY"@).with_body(BodyView::Binary(b@)),
        JobSource::Jcl(JclData::Record(b)) => r.with_header(
            "Content-Type"@,
            "application/octet-stream"@,
        ).with_header("X-IBM-Intrdr-Mode"@, "RECORD"@).with_body(BodyView::Binary(b@)),
        JobSource::Jcl(JclData::Text(t)) => r.with_header("Content-Type"@, "text/plain"@).with_header(
            "X-IBM-Intrdr-Mode"@,
            "TEXT"@,
        ).with_body(BodyView::Text(t@)),
    }
}

/// The JCL symbol headers, whose names all begin with `X-IBM-JCL-Symbol-`,
/// leave the values of every other header name as they were.
pub proof fn lemma_symbols_keep_values(
    r: RequestView,
    symbols: Seq<(Seq<char>, Seq<char>)>,
    name: Seq<char>,
)
    requires
        !(name.len() >= 17 && name.take(17) == "X-IBM-JCL-Symbol-"@),
    ensures
        values_named(with_symbols(r, symbols).headers, name) == values_named(r.headers, name),
    decreases symbols.len(),
{
    if symbols.len() > 0 {
        reveal_strlit("X-IBM-JCL-Symbol-");
        let n = "X-IBM-JCL-Symbol-"@ + symbols.last().0;
        lemma_symbols_keep_values(r, symbols.drop_last(), name);
        lemma_header_values(with_symbols(r, symbols.drop_last()), n, symbols.last().1, name);
        assert(n.take(17) =~= "X-IBM-JCL-Symbol-"@);
    }
}

/// A submission says how the JCL is sent, with literal values: JCL given as
/// bytes is sent as `application/octet-stream` in `BINARY` mode, JCL given
/// as records as `application/octet-stream` in `RECORD` mode, JCL given as
/// text as `text/plain` in `TEXT` mode, each with the JCL as the body; JCL in
/// a data set or a UNIX file is named in a JSON body, with no mode header.
/// Each request has exactly one `Content-Type` header, and at most one
/// `X-IBM-Intrdr-Mode` header, whatever the other settings are.
pub proof fn submit_jcl_headers(b: JobSubmitBuilder)
    ensures
        ({
            let r = b.spec_request();
            let modes = values_named(r.headers, "X-IBM-Intrdr-Mode"@);
            let types = values_named(r.headers, "Content-Type"@);
            match b.jcl_source {
                JobSource::Jcl(JclData::Binary(d)) => {
                    &&& modes == seq!["BINARY"@]
                    &&& types == seq!["application/octet-stream"@]
                    &&& r.body == BodyView::Binary(d@)
                },
                JobSource::Jcl(JclData::Record(d)) => {
                    &&& modes == seq!["RECORD"@]
                    &&& types == seq!["application/octet-stream"@]
                    &&& r.body == BodyView::Binary(d@)
                },
                JobSource::Jcl(JclData::Text(t)) => {
                    &&& modes == seq!["TEXT"@]
                    &&& types == seq!["text/plain"@]
                    &&& r.body == BodyView::Text(t@)
                },
                JobSource::Dataset(d) => {
                    &&& modes == Seq::<Seq<char>>::empty()
                    &&& types == seq!["application/json"@]
                    &&& r.body == BodyView::Json(
                        Json::Object(seq![("file"@, jstr("//'"@ + d@ + "'"@))]),
                    )
                },
                JobSource::File(f) => {
                    &&& modes == Seq::<Seq<char>>::empty()
                    &&& types == seq!["application/json"@]
                    &&& r.body == BodyView::Json(Json::Object(seq![("file"@, jstr(f@))]))
                },
            }
        }),
{
    reveal_strlit("X-IBM-JCL-Symbol-");
    reveal_strlit("Content-Type");
    reveal_strlit("X-IBM-Intrdr-Class");
    reveal_strlit("X-IBM-Intrdr-File-Encoding");
    reveal_strlit("X-IBM-Intrdr-Lrecl");
    reveal_strlit("X-IBM-Intrdr-Mode");
    reveal_strlit("X-IBM-Intrdr-Recfm");
    reveal_strlit("X-IBM-Notification-Options");
    reveal_strlit("X-IBM-Notification-URL");
    reveal_strlit("X-IBM-User-Correlator");
    assert("Content-Type"@[0] != "X-IBM-Intrdr-Class"@[0]);
    assert("Content-Type"@[0] != "X-IBM-Intrdr-File-Encoding"@[0]);
    assert("Content-Type"@[0] != "X-IBM-Intrdr-Lrecl"@[0]);
    assert("Content-Type"@[0] != "X-IBM-Intrdr-Mode"@[0]);
    assert("Content-Type"@[0] != "X-IBM-Intrdr-Recfm"@[0]);
    assert("Content-Type"@[0] != "X-IBM-Notification-Options"@[0]);
    assert("Content-Type"@[0] != "X-IBM-Notification-URL"@[0]);
    assert("Content-Type"@[0] != "X-IBM-User-Correlator"@[0]);
    assert("X-IBM-Intrdr-Class"@[13] != "X-IBM-Intrdr-File-Encoding"@[13]);
    assert("X-IBM-Intrdr-Class"@[13] != "X-IBM-Intrdr-Lrecl"@[13]);
    assert("X-IBM-Intrdr-Class"@[13] != "X-IBM-Intrdr-Mode"@[13]);
    assert("X-IBM-Intrdr-Class"@[13] != "X-IBM-Intrdr-Recfm"@[13]);
    assert("X-IBM-Intrdr-Class"@[6] != "X-IBM-Notification-Options"@[6]);
    assert("X-IBM-Intrdr-Class"@[6] != "X-IBM-Notification-URL"@[6]);
    assert("X-IBM-Intrdr-Class"@[6] != "X-IBM-User-Correlator"@[6]);
    assert("X-IBM-Intrdr-File-Encoding"@[13] != "X-IBM-Intrdr-Lrecl"@[13]);
    assert("X-IBM-Intrdr-File-Encoding"@[13] != "X-IBM-Intrdr-Mode"@[13]);
    assert("X-IBM-Intrdr-File-Encoding"@[13] != "X-IBM-Intrdr-Recfm"@[13]);
    assert("X-IBM-Intrdr-File-Encoding"@[6] != "X-IBM-Notification-Options"@[6]);
    assert("X-IBM-Intrdr-File-Encoding"@[6] != "X-IBM-Notification-URL"@[6]);
    assert("X-IBM-Intrdr-File-Encoding"@[6] != "X-IBM-User-Correlator"@[6]);
    assert("X-IBM-Intrdr-Lrecl"@[13] != "X-IBM-Intrdr-Mode"@[13]);
    assert("X-IBM-Intrdr-Lrecl"@[13] != "X-IBM-Intrdr-Recfm"@[13]);
    assert("X-IBM-Intrdr-Lrecl"@[6] != "X-IBM-Notification-Options"@[6]);
    assert("X-IBM-Intrdr-Lrecl"@[6] != "X-IBM-Notification-URL"@[6]);
    assert("X-IBM-Intrdr-Lrecl"@[6] != "X-IBM-User-Correlator"@[6]);
    assert("X-IBM-Intrdr-Mode"@[13] != "X-IBM-Intrdr-Recfm"@[13]);
    assert("X-IBM-Intrdr-Mode"@[6] != "X-IBM-Notification-Options"@[6]);
    assert("X-IBM-Intrdr-Mode"@[6] != "X-IBM-Notification-URL"@[6]);
    assert("X-IBM-Intrdr-Mode"@[6] != "X-IBM-User-Correlator"@[6]);
    assert("X-IBM-Intrdr-Recfm"@[6] != "X-IBM-Notification-Options"@[6]);
    assert("X-IBM-Intrdr-Recfm"@[6] != "X-IBM-Notification-URL"@[6]);
    assert("X-IBM-Intrdr-Recfm"@[6] != "X-IBM-User-Correlator"@[6]);
    assert("X-IBM-Notification-Options"@[19] != "X-IBM-Notification-URL"@[19]);
    assert("X-IBM-Notification-Options"@[6] != "X-IBM-User-Correlator"@[6]);
    assert("X-IBM-Notification-URL"@[6] != "X-IBM-User-Correlator"@[6]);
    assert("X-IBM-Intrdr-Mode"@.take(17) =~= "X-IBM-Intrdr-Mode"@);
    assert("X-IBM-Intrdr-Mode"@[6] != "X-IBM-JCL-Symbol-"@[6]);
    assert("Content-Type"@.len() < 17);
    let r0 = request_to(
        Method::Put,
        url_of(b.base_url@, "/zosmf/restjobs/jobs"@ + subsystem_text(opt_view(b.subsystem))),
    );
    let r1 = r0.with_header_opt("X-IBM-Intrdr-Class"@, opt_view(b.message_class));
    lemma_header_opt_values(r0, "X-IBM-Intrdr-Class"@, opt_view(b.message_class), "X-IBM-Intrdr-Mode"@);
    lemma_header_opt_values(r0, "X-IBM-Intrdr-Class"@, opt_view(b.message_class), "Content-Type"@);
    let r2 = r1.with_header_opt("X-IBM-Intrdr-Recfm"@, match b.record_format { Some(f) => Some(record_format_text(f)), None => None });
    lemma_header_opt_values(r1, "X-IBM-Intrdr-Recfm"@, match b.record_format { Some(f) => Some(record_format_text(f)), None => None }, "X-IBM-Intrdr-Mode"@);
    lemma_header_opt_values(r1, "X-IBM-Intrdr-Recfm"@, match b.record_format { Some(f) => Some(record_format_text(f)), None => None }, "Content-Type"@);
    let r3 = r2.with_header_opt("X-IBM-Intrdr-Lrecl"@, opt_number(b.record_length));
    lemma_header_opt_values(r2, "X-IBM-Intrdr-Lrecl"@, opt_number(b.record_length), "X-IBM-Intrdr-Mode"@);
    lemma_header_opt_values(r2, "X-IBM-Intrdr-Lrecl"@, opt_number(b.record_length), "Content-Type"@);
    let r4 = r3.with_header_opt("X-IBM-User-Correlator"@, opt_view(b.user_correlator));
    lemma_header_opt_values(r3, "X-IBM-User-Correlator"@, opt_view(b.user_correlator), "X-IBM-Intrdr-Mode"@);
    lemma_header_opt_values(r3, "X-IBM-User-Correlator"@, opt_view(b.user_correlator), "Content-Type"@);
    let q = match b.symbols {
        Some(s) => with_symbols(r4, pairs_view(s@)),
        None => r4,
    };
    match b.symbols {
        Some(s) => {
            lemma_symbols_keep_values(r4, pairs_view(s@), "X-IBM-Intrdr-Mode"@);
            lemma_symbols_keep_values(r4, pairs_view(s@), "Content-Type"@);
        },
        None => {},
    }
    assert(values_named(q.headers, "X-IBM-Intrdr-Mode"@).len() == 0);
    assert(values_named(q.headers, "Content-Type"@).len() == 0);
    match b.jcl_source {
        JobSource::Dataset(d) => {
            lemma_header_values(q, "Content-Type"@, "application/json"@, "Content-Type"@);
            lemma_header_values(q, "Content-Type"@, "application/json"@, "X-IBM-Intrdr-Mode"@);
        },
        JobSource::File(f) => {
            lemma_header_values(q, "Content-Type"@, "application/json"@, "Content-Type"@);
            lemma_header_values(q, "Content-Type"@, "application/json"@, "X-IBM-Intrdr-Mode"@);
        },
        JobSource::Jcl(JclData::Binary(d)) => {
            let q1 = q.with_header("Content-Type"@, "application/octet-stream"@);
            lemma_header_values(q, "Content-Type"@, "application/octet-stream"@, "Content-Type"@);
            lemma_header_values(q, "Content-Type"@, "application/octet-stream"@, "X-IBM-Intrdr-Mode"@);
            lemma_header_values(q1, "X-IBM-Intrdr-Mode"@, "BINARY"@, "Content-Type"@);
            lemma_header_values(q1, "X-IBM-Intrdr-Mode"@, "BINARY"@, "X-IBM-Intrdr-Mode"@);
        },
        JobSource::Jcl(JclData::Record(d)) => {
            let q1 = q.with_header("Content-Type"@, "application/octet-stream"@);
            lemma_header_values(q, "Content-Type"@, "application/octet-stream"@, "Content-Type"@);
            lemma_header_values(q, "Content-Type"@, "application/octet-stream"@, "X-IBM-Intrdr-Mode"@);
            lemma_header_values(q1, "X-IBM-Intrdr-Mode"@, "RECORD"@, "Content-Type"@);
            lemma_header_values(q1, "X-IBM-Intrdr-Mode"@, "RECORD"@, "X-IBM-Intrdr-Mode"@);
        },
        JobSource::Jcl(JclData::Text(t)) => {
            let q1 = q.with_header("Content-Type"@, "text/plain"@);
            lemma_header_values(q, "Content-Type"@, "text/plain"@, "Content-Type"@);
            lemma_header_values(q, "Content-Type"@, "text/plain"@, "X-IBM-Intrdr-Mode"@);
            lemma_header_values(q1, "X-IBM-Intrdr-Mode"@, "TEXT"@, "Content-Type"@);
            lemma_header_values(q1, "X-IBM-Intrdr-Mode"@, "TEXT"@, "X-IBM-Intrdr-Mode"@);
        },
    }
    let s0 = with_jcl_source(q, b.jcl_source);
    let s1 = s0.with_header_opt("X-IBM-Notification-URL"@, opt_view(b.notification_url));
    lemma_header_opt_values(s0, "X-IBM-Notification-URL"@, opt_view(b.notification_url), "X-IBM-Intrdr-Mode"@);
    lemma_header_opt_values(s0, "X-IBM-Notification-URL"@, opt_view(b.notification_url), "Content-Type"@);
    let s2 = s1.with_header_opt("X-IBM-Notification-Options"@, match b.notification_events { Some(e) => notification_options(e@), None => None });
    lemma_header_opt_values(s1, "X-IBM-Notification-Options"@, match b.notification_events { Some(e) => notification_options(e@), None => None }, "X-IBM-Intrdr-Mode"@);
    lemma_header_opt_values(s1, "X-IBM-Notification-Options"@, match b.notification_events { Some(e) => notification_options(e@), None => None }, "Content-Type"@);
    let s3 = s2.with_header_opt("X-IBM-Intrdr-File-Encoding"@, opt_view(b.encoding));
    lemma_header_opt_values(s2, "X-IBM-Intrdr-File-Encoding"@, opt_view(b.encoding), "X-IBM-Intrdr-Mode"@);
    lemma_header_opt_values(s2, "X-IBM-Intrdr-File-Encoding"@, opt_view(b.encoding), "Content-Type"@);
    assert(Seq::<Seq<char>>::empty().push("application/json"@) =~= seq!["application/json"@]);
    assert(Seq::<Seq<char>>::empty().push("application/octet-stream"@) =~= seq![
        "application/octet-stream"@,
    ]);
    assert(Seq::<Seq<char>>::empty().push("text/plain"@) =~= seq!["text/plain"@]);
    assert(Seq::<Seq<char>>::empty().push("BINARY"@) =~= seq!["BINARY"@]);
    assert(Seq::<Seq<char>>::empty().push("RECORD"@) =~= seq!["RECORD"@]);
    assert(Seq::<Seq<char>>::empty().push("TEXT"@) =~= seq!["TEXT"@]);
}

impl JobSubmitBuilder {
    /// The builder as it is first made.
    pub open spec fn is_new(self, base_url: Seq<char>, source: JobSource) -> bool {
        &&& self.base_url@ == base_url
        &&& self.jcl_source == source
        &&& self.subsystem is None
        &&& self.message_class is None
        &&& self.record_format is None
        &&& self.record_length is None
        &&& self.user_correlator is None
        &&& self.symbols is None
        &&& self.notification_url is None
        &&& self.notification_events is None
        &&& self.encoding is None
    }

    /// A builder that submits the JCL of `source`.
    pub fn new(base_url: String, source: JobSource) -> (r: JobSubmitBuilder)
        ensures
            r.is_new(base_url@, source),
    {
        JobSubmitBuilder {
            base_url,
            subsystem: None,
            message_class: None,
            record_format: None,
            record_length: None,
            user_correlator: None,
            symbols: None,
            jcl_source: source,
            notification_url: None,
            notification_events: None,
            encoding: None,
        }
    }

    /// Names the subsystem that runs the job.
    pub fn subsystem(self, value: &str) -> (r: JobSubmitBuilder)
        ensures
            r.subsystem matches Some(s) && s@ == value@,
            r == (JobSubmitBuilder { subsystem: r.subsystem, ..self }),
    {
        JobSubmitBuilder { subsystem: Some(String::from_str(value)), ..self }
    }

    /// Sets the message class of the job.
    pub fn message_class(self, value: char) -> (r: JobSubmitBuilder)
        ensures
            r.message_class matches Some(s) && s@ == seq![value],
            r == (JobSubmitBuilder { message_class: r.message_class, ..self }),
    {
        let mut v: Vec<char> = Vec::new();
        v.push(value);
        proof {
            assert(v@ =~= seq![value]);
        }
        JobSubmitBuilder { message_class: Some(string_of(&v)), ..self }
    }

    /// Sets the record format of the JCL.
    pub fn record_format(self, value: JobRecordFormat) -> (r: JobSubmitBuilder)
        ensures
            r == (JobSubmitBuilder { record_format: Some(value), ..self }),
    {
        JobSubmitBuilder { record_format: Some(value), ..self }
    }

    /// Sets the record length of the JCL.
    pub fn record_length(self, value: i32) -> (r: JobSubmitBuilder)
        ensures
            r == (JobSubmitBuilder { record_length: Some(value), ..self }),
    {
        JobSubmitBuilder { record_length: Some(value), ..self }
    }

    /// Sets the user correlator of the job.
    pub fn user_correlator(self, value: &str) -> (r: JobSubmitBuilder)
        ensures
            r.user_correlator matches Some(s) && s@ == value@,
            r == (JobSubmitBuilder { user_correlator: r.user_correlator, ..self }),
    {
        JobSubmitBuilder { user_correlator: Some(String::from_str(value)), ..self }
    }

    /// Sets the JCL symbols, names and values; no name is given twice.
    pub fn symbols(self, value: Vec<(String, String)>) -> (r: JobSubmitBuilder)
        requires
            distinct_names(value@),
        ensures
            r == (JobSubmitBuilder { symbols: Some(value), ..self }),
    {
        JobSubmitBuilder { symbols: Some(value), ..self }
    }

    /// Sets the URL that z/OSMF notifies.
    pub fn notification_url(self, value: &str) -> (r: JobSubmitBuilder)
        ensures
            r.notification_url matches Some(s) && s@ == value@,
            r == (JobSubmitBuilder { notification_url: r.notification_url, ..self }),
    {
        JobSubmitBuilder { notification_url: Some(String::from_str(value)), ..self }
    }

    /// Sets the events that z/OSMF notifies.
    pub fn notification_events(self, value: Vec<JobNotificationEvent>) -> (r: JobSubmitBuilder)
        ensures
            r == (JobSubmitBuilder { notification_events: Some(value), ..self }),
    {
        JobSubmitBuilder { notification_events: Some(value), ..self }
    }

    /// Sets the encoding of the JCL.
    pub fn encoding(self, value: &str) -> (r: JobSubmitBuilder)
        ensures
            r.encoding matches Some(s) && s@ == value@,
            r == (JobSubmitBuilder { encoding: r.encoding, ..self }),
    {
        JobSubmitBuilder { encoding: Some(String::from_str(value)), ..self }
    }

    /// The request that this builder describes.
    pub open spec fn spec_request(&self) -> RequestView {
        let r0 = request_to(
            Method::Put,
            url_of(self.base_url@, "/zosmf/restjobs/jobs"@ + subsystem_text(opt_view(self.subsystem))),
        )
            .with_header_opt("X-IBM-Intrdr-Class"@, opt_view(self.message_class))
            .with_header_opt(
                "X-IBM-Intrdr-Recfm"@,
                match self.record_format {
                    Some(f) => Some(record_format_text(f)),
                    None => None,
                },
            )
            .with_header_opt("X-IBM-Intrdr-Lrecl"@, opt_number(self.record_length))
            .with_header_opt("X-IBM-User-Correlator"@, opt_view(self.user_correlator));
        let r1 = match self.symbols {
            Some(s) => with_symbols(r0, pairs_view(s@)),
            None => r0,
        };
        with_jcl_source(r1, self.jcl_source)
            .with_header_opt("X-IBM-Notification-URL"@, opt_view(self.notification_url))
            .with_header_opt(
                "X-IBM-Notification-Options"@,
                match self.notification_events {
                    Some(e) => notification_options(e@),
                    None => None,
                },
            )
            .with_header_opt("X-IBM-Intrdr-File-Encoding"@, opt_view(self.encoding))
    }

    /// Adds the JCL symbol headers.
    fn add_symbols(r: &mut Request, symbols: &Vec<(String, String)>)
        ensures
            final(r)@ == with_symbols(old(r)@, pairs_view(symbols@)),
    {
        let mut i: usize = 0;
        proof {
            assert(pairs_view(symbols@).take(0) =~= Seq::<(Seq<char>, Seq<char>)>::empty());
        }
        while i < symbols.len()
            invariant
                0 <= i <= symbols.len(),
                r@ == with_symbols(old(r)@, pairs_view(symbols@).take(i as int)),
            decreases symbols.len() - i,
        {
            let name = crate::text::concat("X-IBM-JCL-Symbol-", symbols[i].0.as_str());
            r.add_header_string(name, symbols[i].1.clone());
            proof {
                let t = pairs_view(symbols@).take(i + 1);
                assert(t.drop_last() =~= pairs_view(symbols@).take(i as int));
            }
            i = i + 1;
        }
        proof {
            assert(pairs_view(symbols@).take(symbols.len() as int) =~= pairs_view(symbols@));
        }
    }

    /// Adds the headers and body that carry the JCL.
    fn add_jcl_source(r: &mut Request, source: &JobSource)
        ensures
            final(r)@ == with_jcl_source(old(r)@, *source),
    {
        match source {
            JobSource::Dataset(d) => {
                r.add_header("Content-Type", String::from_str("application/json"));
                let mut t = chars_of("//'");
                extend_str(&mut t, d.as_str());
                extend_str(&mut t, "'");
                let mut m = Members::new();
                m.add("file", JsonValue::Str(string_of(&t)));
                proof {
                    assert(m@ =~= seq![("file"@, jstr("//'"@ + d@ + "'"@))]);
                }
                r.set_json(m.into_object());
            },
            JobSource::File(f) => {
                r.add_header("Content-Type", String::from_str("application/json"));
                let mut m = Members::new();
                m.add_str("file", f.as_str());
                proof {
                    assert(m@ =~= seq![("file"@, jstr(f@))]);
                }
                r.set_json(m.into_object());
            },
            JobSource::Jcl(JclData::Binary(b)) => {
                r.add_header("Content-Type", String::from_str("application/octet-stream"));
                r.add_header("X-IBM-Intrdr-Mode", String::from_str("BINARY"));
                r.set_body(Body::Binary(b.clone()));
            },
            JobSource::Jcl(JclData::Record(b)) => {
                r.add_header("Content-Type", String::from_str("application/octet-stream"));
                r.add_header("X-IBM-Intrdr-Mode", String::from_str("RECORD"));
                r.set_body(Body::Binary(b.clone()));
            },
            JobSource::Jcl(JclData::Text(t)) => {
                r.add_header("Content-Type", String::from_str("text/plain"));
                r.add_header("X-IBM-Intrdr-Mode", String::from_str("TEXT"));
                r.set_body(Body::Text(t.clone()));
            },
        }
    }

    /// The request: `PUT` on the jobs, with the JCL and its settings.
    pub fn get_request(&self) -> (r: Request)
        ensures
            r@ == self.spec_request(),
    {
        let mut path = chars_of("/zosmf/restjobs/jobs");
        write_subsystem(&mut path, &self.subsystem);
        let mut r = Request::new(Method::Put, self.base_url.as_str(), &path);
        r.add_header_opt("X-IBM-Intrdr-Class", &self.message_class);
        let recfm = match self.record_format {
            Some(f) => Some(f.header_value()),
            None => None,
        };
        r.add_header_opt("X-IBM-Intrdr-Recfm", &recfm);
        r.add_header_opt("X-IBM-Intrdr-Lrecl", &opt_number_string(self.record_length));
        r.add_header_opt("X-IBM-User-Correlator", &self.user_correlator);
        match &self.symbols {
            Some(s) => Self::add_symbols(&mut r, s),
            None => {},
        }
        Self::add_jcl_source(&mut r, &self.jcl_source);
        r.add_header_opt("X-IBM-Notification-URL", &self.notification_url);
        let options = match &self.notification_events {
            Some(e) => notification_options_header(e),
            None => None,
        };
        r.add_header_opt("X-IBM-Notification-Options", &options);
        r.add_header_opt("X-IBM-Intrdr-File-Encoding", &self.encoding);
        r
    }
}

} // verus!
