use vstd::prelude::*;
use vstd::string::StringSliceAdditionalSpecFns;

use crate::decimal::{decimal, decimal_string};
use crate::headers::{find_header, format_header_lines, header_line, header_lines, lookup};

verus! {

/// The directive a callback hands back to the host.
#[derive(PartialEq, Eq, Structural, Clone, Copy, Debug)]
pub enum Action {
    /// The host carries on with the exchange unmodified.
    Continue,
    /// The host stops forwarding the exchange; a local response takes its place.
    Pause,
}

/// Which kind of traffic a filter observes.
#[derive(PartialEq, Eq, Structural, Clone, Copy, Debug)]
pub enum ContextType {
    /// Whole HTTP exchanges: headers, bodies and trailers.
    HttpContext,
    /// Raw byte streams of a connection.
    StreamContext,
}

/// Where an exchange stands in its lifecycle.
#[derive(PartialEq, Eq, Structural, Clone, Copy, Debug)]
pub enum Phase {
    /// No callback has been seen yet.
    Created,
    /// The request was answered locally with the greeting response.
    ShortCircuited,
    /// The request was let through to the upstream.
    PassThrough,
    /// The upstream's response headers have been seen.
    ResponseHeadersSeen,
    /// The exchange has finished; no callback follows.
    Completed,
}

/// A response produced by the filter itself rather than by an upstream.
#[derive(Debug)]
pub struct HttpResponse {
    pub status_code: u32,
    pub headers: Vec<(String, String)>,
    pub body: Option<Vec<u8>>,
}

impl DeepView for HttpResponse {
    type V = (u32, Seq<(Seq<char>, Seq<char>)>, Option<Seq<u8>>);

    open spec fn deep_view(&self) -> Self::V {
        (self.status_code, self.headers.deep_view(), self.body.deep_view())
    }
}

/// What the request-headers callback decided and what it has to log.
#[derive(Debug)]
pub struct RequestOutcome {
    pub action: Action,
    /// The response to hand to the host, when the request is answered locally.
    pub response: Option<HttpResponse>,
    /// The lines to write to the log, in order.
    pub log: Vec<String>,
}

/// What the response-headers callback decided and what it has to log.
#[derive(Debug)]
pub struct ResponseOutcome {
    pub action: Action,
    /// The lines to write to the log, in order.
    pub log: Vec<String>,
}

/// The marker of a request header's log line.
pub open spec fn request_marker() -> Seq<char> {
    "->"@
}

/// The marker of a response header's log line.
pub open spec fn response_marker() -> Seq<char> {
    "<-"@
}

/// Whether a request is answered locally: its `:path` header is exactly `/wasm`.
pub open spec fn short_circuits(headers: Seq<(Seq<char>, Seq<char>)>) -> bool {
    lookup(headers, ":path"@) == Some("/wasm"@)
}

/// The body of the local response: the UTF-8 bytes of `Hello, World!` and a newline.
pub open spec fn greeting_body() -> Seq<u8> {
    "Hello, World!\n".spec_bytes()
}

/// The local response: status 200, one `powered-by: proxy-wasm` header, the greeting body.
pub open spec fn greeting() -> (u32, Seq<(Seq<char>, Seq<char>)>, Option<Seq<u8>>) {
    (200, seq![("powered-by"@, "proxy-wasm"@)], Some(greeting_body()))
}

/// The directive for a request with these headers.
pub open spec fn request_action(headers: Seq<(Seq<char>, Seq<char>)>) -> Action {
    if short_circuits(headers) {
        Action::Pause
    } else {
        Action::Continue
    }
}

/// The local response for a request with these headers, if there is one.
pub open spec fn request_response(headers: Seq<(Seq<char>, Seq<char>)>) -> Option<
    (u32, Seq<(Seq<char>, Seq<char>)>, Option<Seq<u8>>),
> {
    if short_circuits(headers) {
        Some(greeting())
    } else {
        None
    }
}

/// The line logged when exchange `id` finishes: `#<id> completed.`
pub open spec fn completed_line(id: u32) -> Seq<char> {
    "#"@ + decimal(id as nat) + " completed."@
}

/// How many times `line` occurs in `log`.
pub open spec fn occurrences(log: Seq<Seq<char>>, line: Seq<char>) -> nat
    decreases log.len(),
{
    if log.len() == 0 {
        0
    } else {
        occurrences(log.drop_last(), line) + if log.last() == line {
            1nat
        } else {
            0nat
        }
    }
}

/// Occurrences in two logs put end to end add up.
pub proof fn lemma_occurrences_concat(a: Seq<Seq<char>>, b: Seq<Seq<char>>, line: Seq<char>)
    ensures
        occurrences(a + b, line) == occurrences(a, line) + occurrences(b, line),
    decreases b.len(),
{
    if b.len() == 0 {
        assert(a + b =~= a);
    } else {
        assert((a + b).drop_last() =~= a + b.drop_last());
        lemma_occurrences_concat(a, b.drop_last(), line);
    }
}

/// A line that no entry equals does not occur.
pub proof fn lemma_occurrences_absent(log: Seq<Seq<char>>, line: Seq<char>)
    requires
        forall|i: int| 0 <= i < log.len() ==> log[i] != line,
    ensures
        occurrences(log, line) == 0,
    decreases log.len(),
{
    if log.len() > 0 {
        lemma_occurrences_absent(log.drop_last(), line);
    }
}

/// A header's log line is never the completion line of the same exchange.
pub proof fn lemma_header_line_is_not_completion(
    id: u32,
    marker: Seq<char>,
    name: Seq<char>,
    value: Seq<char>,
)
    requires
        marker.len() > 0,
        marker[0] != 'c',
    ensures
        header_line(id, marker, name, value) != completed_line(id),
{
    reveal_strlit("#");
    reveal_strlit(" ");
    reveal_strlit(": ");
    reveal_strlit(" completed.");
    let k: int = 2 + decimal(id as nat).len() as int;
    assert(header_line(id, marker, name, value)[k] == marker[0]);
    assert(completed_line(id)[k] == 'c');
}

/// The log of a header list holds no completion line of the same exchange.
pub proof fn lemma_header_lines_hold_no_completion(
    id: u32,
    marker: Seq<char>,
    headers: Seq<(Seq<char>, Seq<char>)>,
)
    requires
        marker.len() > 0,
        marker[0] != 'c',
    ensures
        occurrences(header_lines(id, marker, headers), completed_line(id)) == 0,
{
    let lines = header_lines(id, marker, headers);
    assert forall|i: int| 0 <= i < lines.len() implies lines[i] != completed_line(id) by {
        lemma_header_line_is_not_completion(id, marker, headers[i].0, headers[i].1);
    }
    lemma_occurrences_absent(lines, completed_line(id));
}

fn greeting_response() -> (r: HttpResponse)
    ensures
        r.deep_view() == greeting(),
{
    let mut headers: Vec<(String, String)> = Vec::new();
    headers.push(("powered-by".to_owned(), "proxy-wasm".to_owned()));
    let body = "Hello, World!\n".as_bytes_vec();
    let r = HttpResponse { status_code: 200, headers, body: Some(body) };
    assert(r.headers.deep_view() =~= seq![("powered-by"@, "proxy-wasm"@)]);
    r
}

/// The filter of a whole process: it asks for HTTP exchanges and makes one handler per exchange.
#[derive(Clone, Copy, Debug)]
pub struct HttpHeadersRoot;

/// The handler of one HTTP exchange.
pub struct HttpHeaders {
    /// The host's id of the exchange.
    pub context_id: u32,
    /// Where the exchange stands.
    pub phase: Phase,
    /// Every line this handler has asked to log, in order.
    pub emitted: Ghost<Seq<Seq<char>>>,
}

impl HttpHeadersRoot {
    /// The kind of traffic this filter observes: whole HTTP exchanges.
    pub fn get_type(&self) -> (r: Option<ContextType>)
        ensures
            r == Some(ContextType::HttpContext),
    {
        Some(ContextType::HttpContext)
    }

    /// A fresh handler for the exchange `context_id`.
    pub fn create_http_context(&self, context_id: u32) -> (r: Option<HttpHeaders>)
        ensures
            r is Some,
            r->0.context_id == context_id,
            r->0.phase == Phase::Created,
            r->0.emitted@ == Seq::<Seq<char>>::empty(),
            r->0.wf(),
    {
        Some(HttpHeaders::new(context_id))
    }
}

impl HttpHeaders {
    /// The log holds the completion line once, as its last line, when the exchange has
    /// completed, and not at all before.
    pub open spec fn wf(&self) -> bool {
        &&& occurrences(self.emitted@, completed_line(self.context_id)) == if self.phase
            == Phase::Completed {
            1nat
        } else {
            0nat
        }
        &&& self.phase == Phase::Completed ==> self.emitted@.last() == completed_line(
            self.context_id,
        )
    }

    /// A handler for the exchange `context_id` that has seen no callback.
    pub fn new(context_id: u32) -> (r: HttpHeaders)
        ensures
            r.context_id == context_id,
            r.phase == Phase::Created,
            r.emitted@ == Seq::<Seq<char>>::empty(),
            r.wf(),
    {
        HttpHeaders { context_id, phase: Phase::Created, emitted: Ghost(Seq::empty()) }
    }

    /// The request headers have arrived: log each pair, then answer the request locally
    /// when its `:path` is exactly `/wasm`, else let it through.
    pub fn on_http_request_headers(
        &mut self,
        _num_headers: usize,
        _end_of_stream: bool,
        headers: &Vec<(String, String)>,
    ) -> (r: RequestOutcome)
        requires
            old(self).wf(),
            old(self).phase == Phase::Created,
        ensures
            final(self).wf(),
            final(self).context_id == old(self).context_id,
            final(self).phase == if short_circuits(headers.deep_view()) {
                Phase::ShortCircuited
            } else {
                Phase::PassThrough
            },
            r.action == request_action(headers.deep_view()),
            r.response.deep_view() == request_response(headers.deep_view()),
            r.log.deep_view() == header_lines(
                old(self).context_id,
                request_marker(),
                headers.deep_view(),
            ),
            final(self).emitted@ == old(self).emitted@ + r.log.deep_view(),
    {
        proof {
            reveal_strlit("->");
        }
        let log = format_header_lines(self.context_id, "->", headers);
        proof {
            lemma_header_lines_hold_no_completion(
                self.context_id,
                request_marker(),
                headers.deep_view(),
            );
            lemma_occurrences_concat(self.emitted@, log.deep_view(), completed_line(self.context_id));
        }
        self.emitted = Ghost(self.emitted@ + log.deep_view());
        let path_name = ":path".to_owned();
        let wasm_path = "/wasm".to_owned();
        let path = find_header(headers, &path_name);
        let matched = match &path {
            Some(p) => *p == wasm_path,
            None => false,
        };
        if matched {
            self.phase = Phase::ShortCircuited;
            RequestOutcome { action: Action::Pause, response: Some(greeting_response()), log }
        } else {
            self.phase = Phase::PassThrough;
            RequestOutcome { action: Action::Continue, response: None, log }
        }
    }

    /// The upstream's response headers have arrived: log each pair and let the response
    /// through.
    pub fn on_http_response_headers(
        &mut self,
        _num_headers: usize,
        _end_of_stream: bool,
        headers: &Vec<(String, String)>,
    ) -> (r: ResponseOutcome)
        requires
            old(self).wf(),
            old(self).phase == Phase::PassThrough,
        ensures
            final(self).wf(),
            final(self).context_id == old(self).context_id,
            final(self).phase == Phase::ResponseHeadersSeen,
            r.action == Action::Continue,
            r.log.deep_view() == header_lines(
                old(self).context_id,
                response_marker(),
                headers.deep_view(),
            ),
            final(self).emitted@ == old(self).emitted@ + r.log.deep_view(),
    {
        proof {
            reveal_strlit("<-");
        }
        let log = format_header_lines(self.context_id, "<-", headers);
        proof {
            lemma_header_lines_hold_no_completion(
                self.context_id,
                response_marker(),
                headers.deep_view(),
            );
            lemma_occurrences_concat(self.emitted@, log.deep_view(), completed_line(self.context_id));
        }
        self.emitted = Ghost(self.emitted@ + log.deep_view());
        self.phase = Phase::ResponseHeadersSeen;
        ResponseOutcome { action: Action::Continue, log }
    }

    /// The exchange has finished: returns the line to log, `#<id> completed.`
    pub fn on_log(&mut self) -> (r: String)
        requires
            old(self).wf(),
            old(self).phase != Phase::Completed,
        ensures
            final(self).wf(),
            final(self).context_id == old(self).context_id,
            final(self).phase == Phase::Completed,
            r@ == completed_line(old(self).context_id),
            final(self).emitted@ == old(self).emitted@.push(r@),
    {
        let mut line = "#".to_owned();
        let digits = decimal_string(self.context_id);
        line.append(digits.as_str());
        line.append(" completed.");
        proof {
            let old_log = self.emitted@;
            assert(old_log.push(line@).drop_last() =~= old_log);
        }
        self.emitted = Ghost(self.emitted@.push(line@));
        self.phase = Phase::Completed;
        line
    }
}

} // verus!
