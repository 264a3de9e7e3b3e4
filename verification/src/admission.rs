//! Outcomes of one routing decision and the mapping from decisions to HTTP
//! replies: accepted and enqueued is 200/"OK", script rejection is
//! 400/"FAIL", a script fault is 500/"ERROR", a closed delivery channel is
//! 503/"FAIL", and a request outside the webhook route is 404. Every reply
//! carries the generated request id.
use vstd::prelude::*;

use crate::publish::Payload;
use crate::record::LuaRequest;
use crate::textenc::clone_bytes;

verus! {

/// Outcome of one `decide` invocation of the routing script: forward to
/// the named queue, reject the request, or a fault while the handler ran.
#[derive(Debug, Clone, PartialEq)]
pub enum RoutingDecision {
    Accept(String),
    Reject,
    Error(String),
}

/// One HTTP response of the admission service: a status code, the request
/// id echoed in a response header, and a short plain-text body token.
#[derive(Debug, Clone, PartialEq)]
pub struct HttpReply {
    pub status: u16,
    pub request_id: String,
    pub body: String,
}

/// True when the reply has the given status and body token and carries the
/// given request id.
pub open spec fn is_reply(r: HttpReply, status: int, id: Seq<char>, token: Seq<char>) -> bool {
    &&& r.status == status
    &&& r.request_id@ == id
    &&& r.body@ == token
}

/// The fixed URL path of the single webhook route.
pub open spec fn webhook_path() -> Seq<char> {
    "/webhook"@
}

/// The content type of every reply body.
pub open spec fn reply_content_type() -> Seq<char> {
    "text/plain; charset=utf-8"@
}

/// The value of the content-type header every reply is sent with.
pub fn reply_content_type_value() -> (r: String)
    ensures
        r@ == reply_content_type(),
{
    String::from_str("text/plain; charset=utf-8")
}

/// True exactly when `a` and `b` hold the same characters.
pub fn str_eq(a: &str, b: &str) -> (r: bool)
    ensures
        r == (a@ == b@),
{
    let x = String::from_str(a);
    let y = String::from_str(b);
    x == y
}

/// Whether a request falls on the webhook route. The route is a single
/// fixed path; any method may carry it, so that methods that conventionally
/// have no body still reach the handler with their conditional MIME
/// default. Everything else is answered 404 without consulting the script.
pub fn route_matches(url: &str) -> (r: bool)
    ensures
        r == (url@ == webhook_path()),
{
    str_eq(url, "/webhook")
}

/// Turns the raw outcome of one handler call into a routing decision: a
/// returned queue name accepts, a returned absence value rejects, and a
/// fault during evaluation is an error carrying its rendered detail.
pub fn decision_of(outcome: Result<Option<String>, String>) -> (r: RoutingDecision)
    ensures
        outcome matches Ok(Some(q)) ==> (r matches RoutingDecision::Accept(n) && n@ == q@),
        outcome matches Ok(o) && o is None ==> r is Reject,
        outcome matches Err(d) ==> (r matches RoutingDecision::Error(e) && e@ == d@),
{
    match outcome {
        Ok(Some(qname)) => RoutingDecision::Accept(qname),
        Ok(None) => RoutingDecision::Reject,
        Err(detail) => RoutingDecision::Error(detail),
    }
}

/// The unspecified-binary marker a payload is tagged with when the record
/// carries no MIME type.
pub open spec fn octet_stream() -> Seq<char> {
    "application/octet-stream"@
}

/// What the admission service does with one routing decision: hand a
/// delivery payload to the channel, or answer the request at once.
pub enum AdmissionOutcome {
    Enqueue(Payload),
    Respond(HttpReply),
}

/// The one delivery payload of an accepted request: its id, the queue the
/// script chose, the record's MIME type (or the unspecified-binary marker
/// when it has none), and the body, byte for byte.
pub fn payload_for(record: &LuaRequest, qname: String) -> (r: Payload)
    ensures
        r.request_id@ == record.request_id@,
        r.qname@ == qname@,
        record.mime_type matches Some(m) ==> r.mime_type@ == m@,
        record.mime_type is None ==> r.mime_type@ == octet_stream(),
        r.body@ == record.body@,
{
    let mime_type = match &record.mime_type {
        Some(m) => m.clone(),
        None => String::from_str("application/octet-stream"),
    };
    Payload {
        request_id: record.request_id.clone(),
        qname,
        mime_type,
        body: clone_bytes(&record.body),
    }
}

/// Turns one routing decision into what the admission service does next:
/// an accepted request yields exactly one delivery payload, carrying the
/// record's id, body and MIME type and the queue the script named; a
/// rejection is answered 400/"FAIL" and a fault 500/"ERROR", both without
/// any payload, and every reply carries the record's id.
pub fn apply_decision(record: &LuaRequest, decision: RoutingDecision) -> (r: AdmissionOutcome)
    ensures
        decision matches RoutingDecision::Accept(q) ==> (r matches AdmissionOutcome::Enqueue(p) && {
            &&& p.request_id@ == record.request_id@
            &&& p.qname@ == q@
            &&& (record.mime_type matches Some(m) ==> p.mime_type@ == m@)
            &&& (record.mime_type is None ==> p.mime_type@ == octet_stream())
            &&& p.body@ == record.body@
        }),
        decision is Reject ==> (r matches AdmissionOutcome::Respond(h) && is_reply(
            h,
            400,
            record.request_id@,
            "FAIL"@,
        )),
        decision matches RoutingDecision::Error(_) ==> (r matches AdmissionOutcome::Respond(h)
            && is_reply(h, 500, record.request_id@, "ERROR"@)),
{
    match decision {
        RoutingDecision::Accept(q) => AdmissionOutcome::Enqueue(payload_for(record, q)),
        RoutingDecision::Reject => AdmissionOutcome::Respond(rejected_reply(&record.request_id)),
        RoutingDecision::Error(_) => AdmissionOutcome::Respond(fault_reply(&record.request_id)),
    }
}

/// Reply for a request the script rejected.
pub fn rejected_reply(request_id: &String) -> (r: HttpReply)
    ensures
        is_reply(r, 400, request_id@, "FAIL"@),
{
    HttpReply { status: 400, request_id: request_id.clone(), body: String::from_str("FAIL") }
}

/// Reply for a request whose handler call faulted.
pub fn fault_reply(request_id: &String) -> (r: HttpReply)
    ensures
        is_reply(r, 500, request_id@, "ERROR"@),
{
    HttpReply { status: 500, request_id: request_id.clone(), body: String::from_str("ERROR") }
}

/// Reply for a request outside the webhook route; no body token is
/// defined for it.
pub fn not_found_reply(request_id: &String) -> (r: HttpReply)
    ensures
        is_reply(r, 404, request_id@, Seq::<char>::empty()),
{
    HttpReply { status: 404, request_id: request_id.clone(), body: String::new() }
}

/// Reply for an accepted request, after the attempt to hand its payload to
/// the delivery channel: 200/"OK" when the payload was taken, 503/"FAIL"
/// when the channel is closed because the publisher has exited.
pub fn reply_for_send(request_id: &String, sent: bool) -> (r: HttpReply)
    ensures
        sent ==> is_reply(r, 200, request_id@, "OK"@),
        !sent ==> is_reply(r, 503, request_id@, "FAIL"@),
{
    if sent {
        HttpReply { status: 200, request_id: request_id.clone(), body: String::from_str("OK") }
    } else {
        HttpReply { status: 503, request_id: request_id.clone(), body: String::from_str("FAIL") }
    }
}

} // verus!
