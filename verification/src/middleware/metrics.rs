//! Records requests: labels for the metrics, lines for the log and events for the collector.

use vstd::prelude::*;

use crate::backend::Backend;
use crate::headers;
use crate::headers::HeaderError;
use crate::routing::{Retries, REQUEST_TIMEOUT};
use crate::text;
use crate::time::TimeSpan;

verus! {

/// The TLS parameters of a connection.
#[derive(Debug)]
pub struct TlsDetails {
    pub version: String,
    pub cipher: String,
    pub handshake: TimeSpan,
}

/// A request as it comes in.
#[derive(Debug)]
pub struct RequestInfo {
    pub tls: Option<TlsDetails>,
    pub method: String,
    pub http_version: String,
    pub authority: Option<String>,
    pub path: String,
    pub query: Option<String>,
    pub conn_id: String,
    pub request_id: Option<String>,
    pub body_size: Option<u64>,
    pub remote_addr: String,
    pub timestamp: i64,
}

/// What is recorded of a request.
#[derive(Debug)]
pub struct RequestRecord {
    pub tls_version: String,
    pub tls_cipher: String,
    pub tls_handshake: TimeSpan,
    pub method: String,
    pub http_version: String,
    pub authority: String,
    pub path: String,
    pub query: String,
    pub conn_id: String,
    pub request_id: String,
    pub request_size: i64,
    pub remote_addr: String,
    pub timestamp: i64,
}

/// A text that may be missing: it is empty if it is.
pub open spec fn text_or_empty(text: Option<String>) -> Seq<char> {
    match text {
        Some(text) => text@,
        None => Seq::empty(),
    }
}

/// The size of a body as it is recorded: -1 if it is unknown.
pub open spec fn recorded_size(size: Option<u64>) -> int {
    match size {
        Some(size) => (size as i64) as int,
        None => -1,
    }
}

impl RequestRecord {
    /// The record says what the request said, with defaults for what it did not say.
    pub open spec fn records(self, info: RequestInfo) -> bool {
        &&& match info.tls {
            Some(tls) => {
                &&& self.tls_version == tls.version
                &&& self.tls_cipher == tls.cipher
                &&& self.tls_handshake == tls.handshake
            },
            None => {
                &&& self.tls_version@ == Seq::<char>::empty()
                &&& self.tls_cipher@ == Seq::<char>::empty()
                &&& self.tls_handshake@ == 0
            },
        }
        &&& self.method == info.method
        &&& self.http_version == info.http_version
        &&& self.authority@ == text_or_empty(info.authority)
        &&& self.path == info.path
        &&& self.query@ == text_or_empty(info.query)
        &&& self.conn_id == info.conn_id
        &&& self.request_id@ == text_or_empty(info.request_id)
        &&& self.request_size == recorded_size(info.body_size)
        &&& self.remote_addr == info.remote_addr
        &&& self.timestamp == info.timestamp
    }
}

fn or_empty(text: Option<String>) -> (result: String)
    ensures
        result@ == text_or_empty(text),
{
    match text {
        Some(text) => text,
        None => String::new(),
    }
}

fn size_to_record(size: Option<u64>) -> (recorded: i64)
    ensures
        recorded == recorded_size(size),
{
    match size {
        Some(size) => size as i64,
        None => -1,
    }
}

/// Records a request and sets the address of the client in its headers.
pub fn middleware(
    info: RequestInfo,
    request_headers: &mut http::HeaderMap<http::HeaderValue>,
) -> (record: Result<RequestRecord, HeaderError>)
    ensures
        record matches Ok(record) ==> record.records(info),
        record matches Ok(record) ==> {
            &&& info.authority matches Some(authority) ==> record.authority@ == authority@
            &&& info.query matches Some(query) ==> record.query@ == query@
            &&& info.request_id matches Some(id) ==> record.request_id@ == id@
            &&& info.body_size is None ==> record.request_size == -1
            &&& info.body_size matches Some(size) ==> record.request_size == size as i64
            &&& headers::first_value(
                headers::header_fields(*final(request_headers)),
                "x-real-ip"@,
            ) == Some(vstd::utf8::encode_utf8(info.remote_addr@))
        },
        headers::header_is_set(
            headers::header_fields(*old(request_headers)),
            headers::X_REAL_IP@,
            info.remote_addr@,
            match record {
                Ok(_) => Ok(()),
                Err(e) => Err(e),
            },
            headers::header_fields(*final(request_headers)),
        ),
{
    proof {
        headers::known_names();
    }
    match headers::set_header(request_headers, headers::X_REAL_IP, info.remote_addr.as_str()) {
        Ok(()) => {},
        Err(e) => {
            return Err(e);
        },
    }
    let (tls_version, tls_cipher, tls_handshake) = match info.tls {
        Some(tls) => (tls.version, tls.cipher, tls.handshake),
        None => (String::new(), String::new(), TimeSpan::zero()),
    };
    Ok(
        RequestRecord {
            tls_version,
            tls_cipher,
            tls_handshake,
            method: info.method,
            http_version: info.http_version,
            authority: or_empty(info.authority),
            path: info.path,
            query: or_empty(info.query),
            conn_id: info.conn_id,
            request_id: or_empty(info.request_id),
            request_size: size_to_record(info.body_size),
            remote_addr: info.remote_addr,
            timestamp: info.timestamp,
        },
    )
}

/// What is recorded of a response.
#[derive(Debug)]
pub struct ResponseMeta {
    pub status: u16,
    pub duration: TimeSpan,
    pub backend: String,
    pub size: i64,
    pub retries: u8,
}

impl Default for ResponseMeta {
    /// What is recorded when a request was given up before there was a response.
    fn default() -> (meta: Self)
        ensures
            meta.is_default(),
    {
        ResponseMeta {
            status: REQUEST_TIMEOUT,
            duration: TimeSpan::zero(),
            backend: "unknown".to_owned(),
            size: 0,
            retries: 0,
        }
    }
}

impl ResponseMeta {
    /// What is recorded when a request was given up before there was a response.
    pub open spec fn is_default(self) -> bool {
        &&& self.status == REQUEST_TIMEOUT
        &&& self.duration@ == 0
        &&& self.backend@ == "unknown"@
        &&& self.size == 0
        &&& self.retries == 0
    }

    /// Records a response.
    pub fn new(
        status: u16,
        duration: TimeSpan,
        backend: Option<&Backend>,
        body_size: Option<u64>,
        retries: Option<Retries>,
    ) -> (meta: ResponseMeta)
        ensures
            meta.status == status,
            meta.duration == duration,
            meta.backend@ == (match backend {
                Some(backend) => backend.name@,
                None => Seq::empty(),
            }),
            meta.size == recorded_size(body_size),
            meta.retries == (match retries {
                Some(Retries(n)) => n,
                None => 0,
            }),
    {
        ResponseMeta {
            status,
            duration,
            backend: match backend {
                Some(backend) => backend.name.clone(),
                None => String::new(),
            },
            size: size_to_record(body_size),
            retries: match retries {
                Some(Retries(n)) => n,
                None => 0,
            },
        }
    }
}

/// The level of a line in the log.
#[derive(Clone, Copy, Debug, PartialEq, Eq, Structural)]
pub enum LogLineLevel {
    Info,
    Warn,
}

/// The value of a field of an event.
#[derive(Debug, PartialEq, Eq)]
pub enum EventValue {
    Text(String),
    Integer(i64),
    Span(TimeSpan),
}

/// The value of a field of an event. A span is given in nanoseconds.
pub enum ValueModel {
    Text(Seq<char>),
    Integer(int),
    Span(nat),
}

impl View for EventValue {
    type V = ValueModel;

    open spec fn view(&self) -> ValueModel {
        match self {
            EventValue::Text(text) => ValueModel::Text(text@),
            EventValue::Integer(n) => ValueModel::Integer(*n as int),
            EventValue::Span(span) => ValueModel::Span(span@),
        }
    }
}

/// A field of an event.
#[derive(Debug, PartialEq, Eq)]
pub struct EventField {
    pub name: &'static str,
    pub value: EventValue,
}

/// The fields of an event.
pub open spec fn fields_view(fields: Seq<EventField>) -> Seq<(Seq<char>, ValueModel)> {
    fields.map_values(|field: EventField| (field.name@, field.value@))
}

/// Which requests are logged, and whether events are sent to a collector.
#[derive(Clone, Copy, Debug)]
pub struct MetricsState {
    pub vector: bool,
    pub log_requests: bool,
    pub log_requests_long: Option<TimeSpan>,
}

/// What is reported of a request: the labels under which it is counted, how it went, the level of
/// its line in the log, if it has one, and the event for the collector, if there is one.
#[derive(Debug)]
pub struct Report {
    pub labels: Vec<String>,
    pub meta: ResponseMeta,
    pub level: Option<LogLineLevel>,
    pub event: Option<Vec<EventField>>,
}

/// Whether attempts failed, as a label says it.
pub open spec fn retried_label(retries: u8) -> Seq<char> {
    if retries > 0 {
        "yes"@
    } else {
        "no"@
    }
}

/// The values of the labels under which a request is counted.
pub open spec fn label_values(record: RequestRecord, meta: ResponseMeta) -> Seq<Seq<char>> {
    seq![
        record.tls_version@,
        record.method@,
        record.http_version@,
        text::decimal_text(meta.status as nat),
        meta.backend@,
        retried_label(meta.retries),
    ]
}

/// The names of the labels under which a request is counted.
pub open spec fn label_name_list() -> Seq<Seq<char>> {
    seq!["tls"@, "method"@, "http"@, "status"@, "backend"@, "retried"@]
}

/// The event that tells of a request.
pub open spec fn event_fields(
    env: Seq<char>,
    hostname: Seq<char>,
    record: RequestRecord,
    meta: ResponseMeta,
) -> Seq<(Seq<char>, ValueModel)> {
    seq![
        ("env"@, ValueModel::Text(env)),
        ("hostname"@, ValueModel::Text(hostname)),
        ("timestamp"@, ValueModel::Integer(record.timestamp as int)),
        ("conn_id"@, ValueModel::Text(record.conn_id@)),
        ("request_id"@, ValueModel::Text(record.request_id@)),
        ("tls_version"@, ValueModel::Text(record.tls_version@)),
        ("tls_cipher"@, ValueModel::Text(record.tls_cipher@)),
        ("tls_handshake"@, ValueModel::Span(record.tls_handshake@)),
        ("http_version"@, ValueModel::Text(record.http_version@)),
        ("authority"@, ValueModel::Text(record.authority@)),
        ("method"@, ValueModel::Text(record.method@)),
        ("path"@, ValueModel::Text(record.path@)),
        ("query"@, ValueModel::Text(record.query@)),
        ("status"@, ValueModel::Integer(meta.status as int)),
        ("duration"@, ValueModel::Span(meta.duration@)),
        ("backend"@, ValueModel::Text(meta.backend@)),
        ("remote_addr"@, ValueModel::Text(record.remote_addr@)),
        ("request_size"@, ValueModel::Integer(record.request_size as int)),
        ("response_size"@, ValueModel::Integer(meta.size as int)),
        ("retries"@, ValueModel::Integer(meta.retries as int)),
    ]
}

fn text_field(name: &'static str, value: &str) -> (field: EventField)
    ensures
        field.name == name,
        field.value@ == ValueModel::Text(value@),
{
    EventField { name, value: EventValue::Text(value.to_owned()) }
}

fn integer_field(name: &'static str, value: i64) -> (field: EventField)
    ensures
        field.name == name,
        field.value@ == ValueModel::Integer(value as int),
{
    EventField { name, value: EventValue::Integer(value) }
}

fn span_field(name: &'static str, value: TimeSpan) -> (field: EventField)
    ensures
        field.name == name,
        field.value@ == ValueModel::Span(value@),
{
    EventField { name, value: EventValue::Span(value) }
}

/// The names of the labels under which requests are counted.
pub fn label_names() -> (names: Vec<&'static str>)
    ensures
        names@.map_values(|name: &'static str| name@) == label_name_list(),
{
    let names: Vec<&'static str> = vec!["tls", "method", "http", "status", "backend", "retried"];
    assert(names@.map_values(|name: &'static str| name@) =~= label_name_list());
    names
}

/// The values of the labels under which a request is counted.
pub fn labels(record: &RequestRecord, meta: &ResponseMeta) -> (values: Vec<String>)
    ensures
        values@.map_values(|value: String| value@) == label_values(*record, *meta),
{
    let retried: String = if meta.retries > 0 {
        "yes".to_owned()
    } else {
        "no".to_owned()
    };
    let values: Vec<String> =
        vec![
        record.tls_version.clone(),
        record.method.clone(),
        record.http_version.clone(),
        text::decimal(meta.status as u64),
        meta.backend.clone(),
        retried,
    ];
    assert(values@.map_values(|value: String| value@) =~= label_values(*record, *meta));
    values
}

/// The event that tells of a request.
pub fn event(env: &str, hostname: &str, record: &RequestRecord, meta: &ResponseMeta) -> (fields: Vec<
    EventField,
>)
    ensures
        fields_view(fields@) == event_fields(env@, hostname@, *record, *meta),
{
    let fields: Vec<EventField> =
        vec![
        text_field("env", env),
        text_field("hostname", hostname),
        integer_field("timestamp", record.timestamp),
        text_field("conn_id", record.conn_id.as_str()),
        text_field("request_id", record.request_id.as_str()),
        text_field("tls_version", record.tls_version.as_str()),
        text_field("tls_cipher", record.tls_cipher.as_str()),
        span_field("tls_handshake", record.tls_handshake),
        text_field("http_version", record.http_version.as_str()),
        text_field("authority", record.authority.as_str()),
        text_field("method", record.method.as_str()),
        text_field("path", record.path.as_str()),
        text_field("query", record.query.as_str()),
        integer_field("status", meta.status as i64),
        span_field("duration", meta.duration),
        text_field("backend", meta.backend.as_str()),
        text_field("remote_addr", record.remote_addr.as_str()),
        integer_field("request_size", record.request_size),
        integer_field("response_size", meta.size),
        integer_field("retries", meta.retries as i64),
    ];
    assert(fields_view(fields@) =~= event_fields(env@, hostname@, *record, *meta));
    fields
}

impl MetricsState {
    pub fn new(vector: bool, log_requests: bool, log_requests_long: Option<TimeSpan>) -> (state:
        MetricsState)
        ensures
            state == (MetricsState { vector, log_requests, log_requests_long }),
    {
        MetricsState { vector, log_requests, log_requests_long }
    }

    /// The level at which a request of a duration is logged, if it is logged at all. One that
    /// took too long is a warning, whether or not the others are logged.
    pub open spec fn level_for(self, duration: nat) -> Option<LogLineLevel> {
        if self.log_requests_long is Some && duration > self.log_requests_long->0@ {
            Some(LogLineLevel::Warn)
        } else if self.log_requests {
            Some(LogLineLevel::Info)
        } else {
            None
        }
    }

    /// The level at which a request of a duration is logged, if it is logged at all.
    pub fn log_level(&self, duration: TimeSpan) -> (level: Option<LogLineLevel>)
        ensures
            level == self.level_for(duration@),
    {
        let long: bool = match &self.log_requests_long {
            Some(long) => duration.exceeds(long),
            None => false,
        };
        if long {
            Some(LogLineLevel::Warn)
        } else if self.log_requests {
            Some(LogLineLevel::Info)
        } else {
            None
        }
    }

    /// Reports a request. One that was given up before there was a response is reported all the
    /// same.
    pub fn report(
        &self,
        env: &str,
        hostname: &str,
        record: &RequestRecord,
        meta: Option<ResponseMeta>,
    ) -> (report: Report)
        ensures
            match meta {
                Some(meta) => report.meta == meta,
                None => report.meta.is_default(),
            },
            report.labels@.map_values(|value: String| value@) == label_values(
                *record,
                report.meta,
            ),
            report.level == self.level_for(report.meta.duration@),
            report.event is Some == self.vector,
            report.event matches Some(fields) ==> fields_view(fields@) == event_fields(
                env@,
                hostname@,
                *record,
                report.meta,
            ),
    {
        let meta: ResponseMeta = match meta {
            Some(meta) => meta,
            None => ResponseMeta::default(),
        };
        let event: Option<Vec<EventField>> = if self.vector {
            Some(event(env, hostname, record, &meta))
        } else {
            None
        };
        Report { labels: labels(record, &meta), level: self.log_level(meta.duration), event, meta }
    }
}

/// Every request is counted under one value for each label.
pub proof fn labels_match_their_names(record: RequestRecord, meta: ResponseMeta)
    ensures
        label_values(record, meta).len() == label_name_list().len(),
{
}

/// The limit on the duration works independently of whether requests are logged: a request that
/// exceeds it is a warning in any case, and any other request is logged as if there were no limit.
pub proof fn long_requests_are_warnings(state: MetricsState, duration: nat)
    ensures
        ({
            let unlimited = MetricsState { log_requests_long: None, ..state };
            let exceeds = state.log_requests_long is Some && duration
                > state.log_requests_long->0@;
            &&& exceeds == (state.level_for(duration) == Some(LogLineLevel::Warn))
            &&& !exceeds ==> state.level_for(duration) == unlimited.level_for(duration)
        }),
{
}

/// A record holds in full what the request says. What it does not say is empty, takes no time, or
/// has the size -1.
pub proof fn records_keep_what_is_said(record: RequestRecord, info: RequestInfo)
    requires
        record.records(info),
    ensures
        record.method@ == info.method@,
        record.http_version@ == info.http_version@,
        record.path@ == info.path@,
        record.conn_id@ == info.conn_id@,
        record.remote_addr@ == info.remote_addr@,
        record.timestamp == info.timestamp,
        info.authority matches Some(text) ==> record.authority@ == text@,
        info.authority is None ==> record.authority@.len() == 0,
        info.query matches Some(text) ==> record.query@ == text@,
        info.query is None ==> record.query@.len() == 0,
        info.request_id matches Some(text) ==> record.request_id@ == text@,
        info.request_id is None ==> record.request_id@.len() == 0,
        info.body_size matches Some(size) ==> (size <= i64::MAX ==> record.request_size == size),
        info.body_size is None ==> record.request_size == -1,
        info.tls matches Some(tls) ==> {
            &&& record.tls_version@ == tls.version@
            &&& record.tls_cipher@ == tls.cipher@
            &&& record.tls_handshake@ == tls.handshake@
        },
        info.tls is None ==> {
            &&& record.tls_version@.len() == 0
            &&& record.tls_cipher@.len() == 0
            &&& record.tls_handshake@ == 0
        },
{
}

/// Sizes that are known are recorded as they are, and are told apart from those that are not.
pub proof fn sizes_are_recorded(size: u64)
    requires
        size <= i64::MAX,
    ensures
        recorded_size(Some(size)) == size,
        recorded_size(None) == -1,
        recorded_size(Some(size)) != recorded_size(None),
{
}

/// The value of each label is what its name says. Whether attempts failed is told exactly by
/// whether there was one that did.
pub proof fn labels_say_what_their_names_say(record: RequestRecord, meta: ResponseMeta, i: int)
    requires
        0 <= i < label_name_list().len(),
    ensures
        label_values(record, meta).len() == label_name_list().len(),
        ({
            let name = label_name_list()[i];
            let value = label_values(record, meta)[i];
            &&& name == "tls"@ ==> value == record.tls_version@
            &&& name == "method"@ ==> value == record.method@
            &&& name == "http"@ ==> value == record.http_version@
            &&& name == "status"@ ==> text::decimal_value(value) == meta.status
            &&& name == "backend"@ ==> value == meta.backend@
            &&& name == "retried"@ ==> value == (if meta.retries == 0 {
                "no"@
            } else {
                "yes"@
            })
            &&& name == "tls"@ || name == "method"@ || name == "http"@ || name == "status"@ || name
                == "backend"@ || name == "retried"@
        }),
{
    reveal_strlit("tls");
    reveal_strlit("method");
    reveal_strlit("http");
    reveal_strlit("status");
    reveal_strlit("backend");
    reveal_strlit("retried");
    text::decimals_can_be_read(meta.status as nat);
    assert("tls"@.len() == 3);
    assert("method"@.len() == 6 && "method"@[0] == 'm');
    assert("http"@.len() == 4);
    assert("status"@.len() == 6 && "status"@[0] == 's');
    assert("backend"@.len() == 7 && "backend"@[0] == 'b');
    assert("retried"@.len() == 7 && "retried"@[0] == 'r');
}

/// An event tells of a request what its record and its response say, each under its name.
pub proof fn events_say_what_their_names_say(
    env: Seq<char>,
    hostname: Seq<char>,
    record: RequestRecord,
    meta: ResponseMeta,
)
    ensures
        ({
            let fields = event_fields(env, hostname, record, meta);
            &&& fields.len() == 20
            &&& fields.contains(("env"@, ValueModel::Text(env)))
            &&& fields.contains(("hostname"@, ValueModel::Text(hostname)))
            &&& fields.contains(("timestamp"@, ValueModel::Integer(record.timestamp as int)))
            &&& fields.contains(("conn_id"@, ValueModel::Text(record.conn_id@)))
            &&& fields.contains(("request_id"@, ValueModel::Text(record.request_id@)))
            &&& fields.contains(("tls_version"@, ValueModel::Text(record.tls_version@)))
            &&& fields.contains(("tls_cipher"@, ValueModel::Text(record.tls_cipher@)))
            &&& fields.contains(("tls_handshake"@, ValueModel::Span(record.tls_handshake@)))
            &&& fields.contains(("http_version"@, ValueModel::Text(record.http_version@)))
            &&& fields.contains(("authority"@, ValueModel::Text(record.authority@)))
            &&& fields.contains(("method"@, ValueModel::Text(record.method@)))
            &&& fields.contains(("path"@, ValueModel::Text(record.path@)))
            &&& fields.contains(("query"@, ValueModel::Text(record.query@)))
            &&& fields.contains(("status"@, ValueModel::Integer(meta.status as int)))
            &&& fields.contains(("duration"@, ValueModel::Span(meta.duration@)))
            &&& fields.contains(("backend"@, ValueModel::Text(meta.backend@)))
            &&& fields.contains(("remote_addr"@, ValueModel::Text(record.remote_addr@)))
            &&& fields.contains(("request_size"@, ValueModel::Integer(record.request_size as int)))
            &&& fields.contains(("response_size"@, ValueModel::Integer(meta.size as int)))
            &&& fields.contains(("retries"@, ValueModel::Integer(meta.retries as int)))
        }),
{
    let fields = event_fields(env, hostname, record, meta);
    assert(fields[0].0 == "env"@ && fields[1].0 == "hostname"@ && fields[2].0 == "timestamp"@);
    assert(fields[3].0 == "conn_id"@ && fields[4].0 == "request_id"@);
    assert(fields[5].0 == "tls_version"@ && fields[6].0 == "tls_cipher"@);
    assert(fields[7].0 == "tls_handshake"@ && fields[8].0 == "http_version"@);
    assert(fields[9].0 == "authority"@ && fields[10].0 == "method"@ && fields[11].0 == "path"@);
    assert(fields[12].0 == "query"@ && fields[13].0 == "status"@ && fields[14].0 == "duration"@);
    assert(fields[15].0 == "backend"@ && fields[16].0 == "remote_addr"@);
    assert(fields[17].0 == "request_size"@ && fields[18].0 == "response_size"@);
    assert(fields[19].0 == "retries"@);
}

/// A request is logged exactly if requests are logged or it exceeds the limit, as a warning in the
/// latter case and as an information otherwise.
pub proof fn levels_follow_the_settings(state: MetricsState, duration: nat)
    ensures
        ({
            let exceeds = state.log_requests_long is Some && duration
                > state.log_requests_long->0@;
            &&& state.level_for(duration) is None <==> !exceeds && !state.log_requests
            &&& state.level_for(duration) == Some(LogLineLevel::Warn) <==> exceeds
            &&& state.level_for(duration) == Some(LogLineLevel::Info) <==> !exceeds
                && state.log_requests
        }),
{
}

/// A request that was given up is told apart by its status code and its backend: it is a timeout at
/// a backend that is not known, after no time, with an empty body and no retries.
pub proof fn given_up_requests_are_timeouts(meta: ResponseMeta)
    requires
        meta.is_default(),
    ensures
        meta.status == 408,
        meta.backend@ == "unknown"@,
        meta.duration@ == 0,
        meta.size == 0,
        meta.retries == 0,
{
}

/// What is told of a field of an event is its name and its whole value.
pub proof fn fields_are_told_apart(one: EventField, text: String, n: i64, span: TimeSpan)
    ensures
        fields_view(seq![one]) == seq![(one.name@, one.value@)],
        EventValue::Text(text)@ == ValueModel::Text(text@),
        EventValue::Integer(n)@ == ValueModel::Integer(n as int),
        EventValue::Span(span)@ == ValueModel::Span(span@),
{
    assert(fields_view(seq![one]) =~= seq![(one.name@, one.value@)]);
}

} // verus!
