use vstd::prelude::*;

use crate::filter::{
    completed_line, greeting, lemma_header_lines_hold_no_completion, lemma_occurrences_concat,
    occurrences, request_action, request_marker, request_response, response_marker,
    short_circuits, Action, HttpHeaders, Phase,
};
use crate::headers::{header_line, header_lines, lookup};

verus! {

/// Where `name` is carried by exactly one pair, at `i`, a lookup finds that pair's value.
pub proof fn lemma_lookup_single(headers: Seq<(Seq<char>, Seq<char>)>, name: Seq<char>, i: int)
    requires
        0 <= i < headers.len(),
        headers[i].0 == name,
        forall|j: int| 0 <= j < headers.len() && j != i ==> headers[j].0 != name,
    ensures
        lookup(headers, name) == Some(headers[i].1),
    decreases headers.len(),
{
    if i > 0 {
        lemma_lookup_single(headers.drop_first(), name, i - 1);
    }
}

/// Where no pair is called `name`, a lookup finds nothing.
pub proof fn lemma_lookup_absent(headers: Seq<(Seq<char>, Seq<char>)>, name: Seq<char>)
    requires
        forall|j: int| 0 <= j < headers.len() ==> headers[j].0 != name,
    ensures
        lookup(headers, name) == None::<Seq<char>>,
    decreases headers.len(),
{
    if headers.len() > 0 {
        lemma_lookup_absent(headers.drop_first(), name);
    }
}

/// A request whose one `:path` pair has the value `/wasm` is paused and answered with
/// status 200, the single header `powered-by: proxy-wasm` and the body `Hello, World!\n`.
pub proof fn lemma_wasm_path_is_answered(headers: Seq<(Seq<char>, Seq<char>)>, i: int)
    requires
        0 <= i < headers.len(),
        headers[i] == (":path"@, "/wasm"@),
        forall|j: int| 0 <= j < headers.len() && j != i ==> headers[j].0 != ":path"@,
    ensures
        request_action(headers) == Action::Pause,
        request_response(headers) == Some(greeting()),
{
    lemma_lookup_single(headers, ":path"@, i);
}

/// A request whose one `:path` pair has any value other than `/wasm` is let through, with
/// no local response.
pub proof fn lemma_other_path_passes(headers: Seq<(Seq<char>, Seq<char>)>, i: int)
    requires
        0 <= i < headers.len(),
        headers[i].0 == ":path"@,
        headers[i].1 != "/wasm"@,
        forall|j: int| 0 <= j < headers.len() && j != i ==> headers[j].0 != ":path"@,
    ensures
        request_action(headers) == Action::Continue,
        request_response(headers) is None,
{
    lemma_lookup_single(headers, ":path"@, i);
}

/// A request without a `:path` pair is let through, with no local response.
pub proof fn lemma_missing_path_passes(headers: Seq<(Seq<char>, Seq<char>)>)
    requires
        forall|j: int| 0 <= j < headers.len() ==> headers[j].0 != ":path"@,
    ensures
        request_action(headers) == Action::Continue,
        request_response(headers) is None,
{
    lemma_lookup_absent(headers, ":path"@);
}

/// The request log has one line per request header pair, in the pairs' order, each
/// `#<id> -> <name>: <value>`.
pub proof fn lemma_request_log_follows_headers(id: u32, headers: Seq<(Seq<char>, Seq<char>)>)
    ensures
        header_lines(id, request_marker(), headers).len() == headers.len(),
        forall|i: int|
            0 <= i < headers.len() ==> #[trigger] header_lines(id, request_marker(), headers)[i]
                == header_line(id, "->"@, headers[i].0, headers[i].1),
{
}

/// The response log has one line per response header pair, in the pairs' order, each
/// `#<id> <- <name>: <value>`.
pub proof fn lemma_response_log_follows_headers(id: u32, headers: Seq<(Seq<char>, Seq<char>)>)
    ensures
        header_lines(id, response_marker(), headers).len() == headers.len(),
        forall|i: int|
            0 <= i < headers.len() ==> #[trigger] header_lines(id, response_marker(), headers)[i]
                == header_line(id, "<-"@, headers[i].0, headers[i].1),
{
}

/// Everything logged for one exchange, callback by callback: the request headers, the
/// response headers where the request was let through and an upstream answered, and the
/// completion line.
pub open spec fn exchange_log(
    id: u32,
    request: Seq<(Seq<char>, Seq<char>)>,
    response: Option<Seq<(Seq<char>, Seq<char>)>>,
) -> Seq<Seq<char>> {
    let request_log = header_lines(id, request_marker(), request);
    let response_log = match response {
        Some(r) if !short_circuits(request) => header_lines(id, response_marker(), r),
        _ => Seq::empty(),
    };
    (request_log + response_log).push(completed_line(id))
}

/// Whichever way an exchange went, its log holds the completion line exactly once, and
/// as its last line.
pub proof fn lemma_exchange_completes_once(
    id: u32,
    request: Seq<(Seq<char>, Seq<char>)>,
    response: Option<Seq<(Seq<char>, Seq<char>)>>,
)
    ensures
        occurrences(exchange_log(id, request, response), completed_line(id)) == 1,
        exchange_log(id, request, response).last() == completed_line(id),
{
    reveal_strlit("->");
    reveal_strlit("<-");
    let request_log = header_lines(id, request_marker(), request);
    let response_log = match response {
        Some(r) if !short_circuits(request) => header_lines(id, response_marker(), r),
        _ => Seq::empty(),
    };
    lemma_header_lines_hold_no_completion(id, request_marker(), request);
    match response {
        Some(r) => lemma_header_lines_hold_no_completion(id, response_marker(), r),
        None => {},
    }
    lemma_occurrences_concat(request_log, response_log, completed_line(id));
    let log = exchange_log(id, request, response);
    assert(log.drop_last() =~= request_log + response_log);
}

/// A handler whose exchange has completed has logged the completion line exactly once, as
/// its last line.
pub proof fn lemma_completed_handler_logged_once(h: HttpHeaders)
    requires
        h.wf(),
        h.phase == Phase::Completed,
    ensures
        occurrences(h.emitted@, completed_line(h.context_id)) == 1,
        h.emitted@.last() == completed_line(h.context_id),
{
}

/// What the request-headers callback of exchange `id` returns for `headers`: its
/// directive, its local response and its log lines.
pub open spec fn is_request_outcome(
    id: u32,
    headers: Seq<(Seq<char>, Seq<char>)>,
    outcome: (Action, Option<(u32, Seq<(Seq<char>, Seq<char>)>, Option<Seq<u8>>)>, Seq<Seq<char>>),
) -> bool {
    &&& outcome.0 == request_action(headers)
    &&& outcome.1 == request_response(headers)
    &&& outcome.2 == header_lines(id, request_marker(), headers)
}

/// Two runs of the request-headers callback on the same exchange id and header list
/// return the same directive, the same local response and the same log lines.
pub proof fn lemma_request_outcome_is_determined(
    id: u32,
    headers: Seq<(Seq<char>, Seq<char>)>,
    first: (Action, Option<(u32, Seq<(Seq<char>, Seq<char>)>, Option<Seq<u8>>)>, Seq<Seq<char>>),
    second: (Action, Option<(u32, Seq<(Seq<char>, Seq<char>)>, Option<Seq<u8>>)>, Seq<Seq<char>>),
)
    requires
        is_request_outcome(id, headers, first),
        is_request_outcome(id, headers, second),
    ensures
        first == second,
{
}

} // verus!
