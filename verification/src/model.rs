//! Data carriers of one in-flight request: the request's matched path
//! parameters, the response the chain builds, the depot that passes computed
//! state between handlers, and the structured log the boundary writes to.
//!
//! All four are exclusively owned by the sequential chain of one request;
//! their contracts relate each mutation to the value before it.

use vstd::prelude::*;
use vstd::string::*;

use crate::table::StrKeyed;

verus! {

/// Immutable-to-extractors view over the matched path parameters of one
/// request: a mapping from parameter name to raw matched string, keys unique.
pub struct Request {
    params: StrKeyed<String>,
}

impl Request {
    /// Keys of the path-parameter mapping are unique.
    pub closed spec fn wf(&self) -> bool {
        self.params.wf()
    }

    /// A request with no matched path parameters.
    pub fn new() -> (r: Request)
        ensures
            r.wf(),
            r@ == Map::<Seq<char>, Seq<char>>::empty(),
    {
        Request { params: StrKeyed::new() }
    }

    /// Binds path parameter `name` to the raw matched string `value`,
    /// replacing any earlier binding of `name`. Used by the router while it
    /// fills in the matched mapping; extractors only read.
    pub fn set_param(&mut self, name: &str, value: &str)
        requires
            old(self).wf(),
        ensures
            final(self).wf(),
            final(self)@ == old(self)@.insert(name@, value@),
    {
        self.params.insert(name, value.to_owned());
    }

    /// The raw matched string bound to path parameter `name`, if any.
    pub fn param(&self, name: &str) -> (r: Option<&String>)
        requires
            self.wf(),
        ensures
            match r {
                Some(v) => self@.contains_key(name@) && v@ == self@[name@],
                None => !self@.contains_key(name@),
            },
    {
        self.params.get(name)
    }
}

impl View for Request {
    type V = Map<Seq<char>, Seq<char>>;

    closed spec fn view(&self) -> Map<Seq<char>, Seq<char>> {
        self.params@
    }
}

/// A value stored in the depot. The depot is heterogeneous: handlers pass
/// both text (say, an authenticated identity) and typed values that the
/// extraction engine produced.
pub enum DepotValue {
    Text(String),
    UInt(u64),
}

/// The abstract value of a [`DepotValue`].
#[verifier::ext_equal]
pub enum DepotAbs {
    Text(Seq<char>),
    UInt(u64),
}

impl View for DepotValue {
    type V = DepotAbs;

    open spec fn view(&self) -> DepotAbs {
        match self {
            DepotValue::Text(s) => DepotAbs::Text(s@),
            DepotValue::UInt(v) => DepotAbs::UInt(*v),
        }
    }
}

/// Per-request scratch store, exclusively owned by the sequential chain of
/// one request; handlers use it to pass computed state forward.
pub struct Depot {
    entries: StrKeyed<DepotValue>,
}

impl Depot {
    /// Keys of the store are unique.
    pub closed spec fn wf(&self) -> bool {
        self.entries.wf()
    }

    /// An empty depot, created when the request starts.
    pub fn new() -> (r: Depot)
        ensures
            r.wf(),
            r@ == Map::<Seq<char>, DepotAbs>::empty(),
    {
        Depot { entries: StrKeyed::new() }
    }

    /// Binds `key` to `value`, replacing any earlier binding. The new binding
    /// is visible to every later handler of the same chain.
    pub fn insert(&mut self, key: &str, value: DepotValue)
        requires
            old(self).wf(),
        ensures
            final(self).wf(),
            final(self)@ == old(self)@.insert(key@, value@),
    {
        self.entries.insert(key, value);
    }

    /// The value bound to `key`, if any.
    pub fn get(&self, key: &str) -> (r: Option<&DepotValue>)
        requires
            self.wf(),
        ensures
            match r {
                Some(v) => self@.contains_key(key@) && v@ == self@[key@],
                None => !self@.contains_key(key@),
            },
    {
        self.entries.get(key)
    }
}

impl View for Depot {
    type V = Map<Seq<char>, DepotAbs>;

    closed spec fn view(&self) -> Map<Seq<char>, DepotAbs> {
        self.entries@
    }
}

/// A status plus descriptive texts, built by a handler and rendered into the
/// response: the fixed 500 outcome of the containment boundary, or a 4xx
/// extraction failure.
pub struct StatusError {
    code: u16,
    brief: String,
    cause: String,
}

impl StatusError {
    /// Status 500, with empty texts until the builders below fill them.
    pub fn internal_server_error() -> (r: StatusError)
        ensures
            r.code() == 500u16,
            r.brief_text() == Seq::<char>::empty(),
            r.cause_text() == Seq::<char>::empty(),
    {
        StatusError { code: 500, brief: String::new(), cause: String::new() }
    }

    /// Status 400, with empty texts until the builders below fill them.
    pub fn bad_request() -> (r: StatusError)
        ensures
            r.code() == 400u16,
            r.brief_text() == Seq::<char>::empty(),
            r.cause_text() == Seq::<char>::empty(),
    {
        StatusError { code: 400, brief: String::new(), cause: String::new() }
    }

    /// Replaces the brief, client-facing text.
    pub fn brief(self, brief: &str) -> (r: StatusError)
        ensures
            r.code() == self.code(),
            r.brief_text() == brief@,
            r.cause_text() == self.cause_text(),
    {
        StatusError { brief: brief.to_owned(), ..self }
    }

    /// Replaces the cause text: the formatted diagnostic payload.
    pub fn cause(self, cause: String) -> (r: StatusError)
        ensures
            r.code() == self.code(),
            r.brief_text() == self.brief_text(),
            r.cause_text() == cause@,
    {
        StatusError { cause, ..self }
    }

    /// The HTTP status code.
    pub closed spec fn code(&self) -> u16 {
        self.code
    }

    /// The brief text.
    pub closed spec fn brief_text(&self) -> Seq<char> {
        self.brief@
    }

    /// The cause text.
    pub closed spec fn cause_text(&self) -> Seq<char> {
        self.cause@
    }

    /// The HTTP status code.
    pub fn status_code(&self) -> (c: u16)
        ensures
            c == self.code(),
    {
        self.code
    }
}

/// The abstract value of a [`Response`].
#[verifier::ext_equal]
pub struct ResponseAbs {
    /// The status code, `None` until some handler wrote one.
    pub status: Option<u16>,
    /// The rendered body text.
    pub body: Seq<char>,
    /// The cause text of a rendered error, empty otherwise.
    pub cause: Seq<char>,
}

/// Mutable output that the chain builds incrementally; when several handlers
/// write, the last write wins.
pub struct Response {
    status: Option<u16>,
    body: String,
    cause: String,
}

impl Response {
    /// An empty response: no status, empty body.
    pub fn new() -> (r: Response)
        ensures
            r@ == (ResponseAbs {
                status: None,
                body: Seq::<char>::empty(),
                cause: Seq::<char>::empty(),
            }),
    {
        Response { status: None, body: String::new(), cause: String::new() }
    }

    /// Renders plain text with status 200, overwriting whatever an earlier
    /// handler wrote.
    pub fn render_text(&mut self, body: &str)
        ensures
            final(self)@ == (ResponseAbs {
                status: Some(200u16),
                body: body@,
                cause: Seq::<char>::empty(),
            }),
    {
        self.status = Some(200);
        self.body = body.to_owned();
        self.cause = String::new();
    }

    /// Renders a status error, overwriting whatever an earlier handler wrote:
    /// the status becomes the error's code, the body its brief text, the
    /// cause its cause text.
    pub fn render_error(&mut self, err: StatusError)
        ensures
            final(self)@ == (ResponseAbs {
                status: Some(err.code()),
                body: err.brief_text(),
                cause: err.cause_text(),
            }),
    {
        self.status = Some(err.code);
        self.body = err.brief;
        self.cause = err.cause;
    }

    /// The status code, if one was written.
    pub fn status_code(&self) -> (c: Option<u16>)
        ensures
            c == self@.status,
    {
        self.status
    }

    /// The rendered body text.
    pub fn body(&self) -> (b: &str)
        ensures
            b@ == self@.body,
    {
        self.body.as_str()
    }

    /// The cause text of a rendered error.
    pub fn cause(&self) -> (c: &str)
        ensures
            c@ == self@.cause,
    {
        self.cause.as_str()
    }
}

impl View for Response {
    type V = ResponseAbs;

    closed spec fn view(&self) -> ResponseAbs {
        ResponseAbs { status: self.status, body: self.body@, cause: self.cause@ }
    }
}

/// Severity of a structured log event.
#[derive(Clone, Copy, Debug, PartialEq, Eq, Structural)]
pub enum LogLevel {
    Info,
    Warn,
    Error,
}

/// The abstract value of a [`LogEvent`].
#[verifier::ext_equal]
pub struct LogEventAbs {
    /// Severity of the event.
    pub level: LogLevel,
    /// The event's message.
    pub message: Seq<char>,
    /// The event's `error` field: a formatted diagnostic payload.
    pub error: Seq<char>,
}

/// One structured event handed to the logging sink.
pub struct LogEvent {
    level: LogLevel,
    message: String,
    error: String,
}

impl LogEvent {
    /// Severity of the event.
    pub fn level(&self) -> (l: LogLevel)
        ensures
            l == self@.level,
    {
        self.level
    }

    /// The event's message.
    pub fn message(&self) -> (m: &str)
        ensures
            m@ == self@.message,
    {
        self.message.as_str()
    }

    /// The event's `error` field.
    pub fn error(&self) -> (e: &str)
        ensures
            e@ == self@.error,
    {
        self.error.as_str()
    }
}

impl View for LogEvent {
    type V = LogEventAbs;

    closed spec fn view(&self) -> LogEventAbs {
        LogEventAbs { level: self.level, message: self.message@, error: self.error@ }
    }
}

/// The ordered structured events one request's chain emitted; the hosting
/// environment hands them to the logging sink.
pub struct Log {
    events: Vec<LogEvent>,
}

impl Log {
    /// An empty log.
    pub fn new() -> (r: Log)
        ensures
            r@ == Seq::<LogEventAbs>::empty(),
    {
        let r = Log { events: Vec::new() };
        proof {
            assert(r@ =~= Seq::<LogEventAbs>::empty());
        }
        r
    }

    /// Appends one error-level event with the given message and `error`
    /// field.
    pub fn error(&mut self, message: &str, error: &str)
        ensures
            final(self)@ == old(self)@.push(
                LogEventAbs { level: LogLevel::Error, message: message@, error: error@ },
            ),
    {
        let ghost s0 = self@;
        self.events.push(
            LogEvent {
                level: LogLevel::Error,
                message: message.to_owned(),
                error: error.to_owned(),
            },
        );
        proof {
            assert(self@ =~= s0.push(
                LogEventAbs { level: LogLevel::Error, message: message@, error: error@ },
            ));
        }
    }

    /// How many events were emitted.
    pub fn len(&self) -> (n: usize)
        ensures
            n == self@.len(),
    {
        self.events.len()
    }

    /// The `i`-th event, in emission order.
    pub fn get(&self, i: usize) -> (e: &LogEvent)
        requires
            i < self@.len(),
        ensures
            e@ == self@[i as int],
    {
        &self.events[i]
    }
}

impl View for Log {
    type V = Seq<LogEventAbs>;

    closed spec fn view(&self) -> Seq<LogEventAbs> {
        self.events@.map_values(|e: LogEvent| e@)
    }
}

} // verus!
