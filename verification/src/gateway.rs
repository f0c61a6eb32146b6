//! The proxy gateway: shapes every request the supervisor sends to the
//! engine's loopback HTTP API and classifies every outcome into the
//! typed error taxonomy.
//!
//! The gateway is stateless: it reads only the configured port. Each
//! operation builds a request plan — method, URL, optional JSON body,
//! and an explicit timeout — that the unverified shell executes; the
//! shell hands the raw outcome back as plain values and the
//! classification here decides the typed result. The chat operation
//! carries a deliberately longer timeout than the metadata operations,
//! since a chat turn is a synchronous round trip through the engine's
//! own processing, while agent and context listings are near-instant
//! local lookups.

use vstd::prelude::*;
use vstd::string::StringExecFns;

use crate::errors::RappError;
use crate::text::join_commas;
use crate::text::joined;
use crate::text::json_quote;
use crate::text::json_quoted;
use crate::text::loopback_url;
use crate::text::views_of;

verus! {

/// Timeout for a chat round trip, in milliseconds.
pub const CHAT_TIMEOUT_MS: u64 = 120_000;

/// Timeout for the metadata operations (agent listing, context listing,
/// reload), in milliseconds.
pub const META_TIMEOUT_MS: u64 = 30_000;

/// Timeout for the health probe, in milliseconds.
pub const HEALTH_TIMEOUT_MS: u64 = 500;

/// Timeout asymmetry: the chat timeout is strictly greater than the
/// metadata timeout, which is strictly greater than the health-probe
/// timeout, and every operation's timeout is finite and positive —
/// no gateway call may hang indefinitely.
pub proof fn lemma_timeout_asymmetry()
    ensures
        CHAT_TIMEOUT_MS > META_TIMEOUT_MS,
        META_TIMEOUT_MS > HEALTH_TIMEOUT_MS,
        HEALTH_TIMEOUT_MS > 0,
{
}

/// A chat turn as the caller provides it; only the user input is
/// required. History records are opaque, already-serialized JSON texts
/// passed through unmodified.
pub struct ChatRequest {
    pub user_input: String,
    pub user_guid: Option<String>,
    pub session_guid: Option<String>,
    pub context_guid: Option<String>,
    pub conversation_history: Option<Vec<String>>,
}

/// A chat reply as the caller consumes it. The gateway itself validates
/// only that the engine's reply is well-formed structured data; the
/// unverified shell lifts the validated text into this shape.
pub struct ChatResponse {
    pub response: String,
    pub voice_response: Option<String>,
    pub agent_logs: Vec<String>,
    pub agents_used: Vec<String>,
    pub session_guid: String,
    pub context_guid: String,
}

/// The user guid sent when the caller provides none.
pub open spec fn filled_user_guid(t: ChatRequest) -> Seq<char> {
    match t.user_guid {
        Some(g) => g@,
        None => "desktop"@,
    }
}

/// The session guid sent when the caller provides none: empty.
pub open spec fn filled_session_guid(t: ChatRequest) -> Seq<char> {
    match t.session_guid {
        Some(g) => g@,
        None => Seq::<char>::empty(),
    }
}

/// The context guid sent when the caller provides none.
pub open spec fn filled_context_guid(t: ChatRequest) -> Seq<char> {
    match t.context_guid {
        Some(g) => g@,
        None => "default"@,
    }
}

/// The history sent when the caller provides none: empty.
pub open spec fn filled_history(t: ChatRequest) -> Seq<Seq<char>> {
    match t.conversation_history {
        Some(h) => views_of(h@),
        None => Seq::<Seq<char>>::empty(),
    }
}

/// A chat turn with the gateway's defaults applied: every field that
/// the outgoing body needs is present.
pub struct FilledChatTurn {
    pub user_input: String,
    pub user_guid: String,
    pub session_guid: String,
    pub context_guid: String,
    pub conversation_history: Vec<String>,
}

/// Default-filling: a chat turn that carries only the user input is
/// sent with user guid `"desktop"`, context guid `"default"`, an empty
/// session guid and an empty history.
pub proof fn lemma_default_filling(t: ChatRequest)
    requires
        t.user_guid is None,
        t.session_guid is None,
        t.context_guid is None,
        t.conversation_history is None,
    ensures
        filled_user_guid(t) == "desktop"@,
        filled_session_guid(t) == Seq::<char>::empty(),
        filled_context_guid(t) == "default"@,
        filled_history(t) == Seq::<Seq<char>>::empty(),
{
}

/// Applies the gateway's defaults to a chat turn: fields the caller
/// left out are filled, fields the caller set are kept as given.
pub fn apply_defaults(t: ChatRequest) -> (r: FilledChatTurn)
    ensures
        r.user_input@ == t.user_input@,
        r.user_guid@ == filled_user_guid(t),
        r.session_guid@ == filled_session_guid(t),
        r.context_guid@ == filled_context_guid(t),
        views_of(r.conversation_history@) == filled_history(t),
{
    let user_guid = match t.user_guid {
        Some(g) => g,
        None => String::from_str("desktop"),
    };
    let session_guid = match t.session_guid {
        Some(g) => g,
        None => String::new(),
    };
    let context_guid = match t.context_guid {
        Some(g) => g,
        None => String::from_str("default"),
    };
    let conversation_history = match t.conversation_history {
        Some(h) => h,
        None => Vec::new(),
    };
    proof {
        if t.conversation_history is None {
            assert(views_of(Seq::<String>::empty()) =~= Seq::<Seq<char>>::empty());
        }
    }
    FilledChatTurn {
        user_input: t.user_input,
        user_guid,
        session_guid,
        context_guid,
        conversation_history,
    }
}

/// The outgoing JSON body for a chat turn: the four string fields as
/// JSON string literals and the opaque history records joined by commas
/// into a JSON array, in the fixed field order the engine expects.
pub open spec fn chat_body_spec(
    user_input: Seq<char>,
    user_guid: Seq<char>,
    session_guid: Seq<char>,
    context_guid: Seq<char>,
    history: Seq<Seq<char>>,
) -> Seq<char> {
    "{\"user_input\":"@ + json_quoted(user_input) + ",\"user_guid\":"@ + json_quoted(user_guid)
        + ",\"session_guid\":"@ + json_quoted(session_guid) + ",\"context_guid\":"@ + json_quoted(
        context_guid,
    ) + ",\"conversation_history\":["@ + joined(history) + "]}"@
}

/// Builds the outgoing JSON body for a default-filled chat turn.
pub fn chat_body(turn: &FilledChatTurn) -> (r: String)
    ensures
        r@ == chat_body_spec(
            turn.user_input@,
            turn.user_guid@,
            turn.session_guid@,
            turn.context_guid@,
            views_of(turn.conversation_history@),
        ),
{
    let mut out = String::from_str("{\"user_input\":");
    let q_input = json_quote(turn.user_input.as_str());
    out.append(q_input.as_str());
    out.append(",\"user_guid\":");
    let q_user = json_quote(turn.user_guid.as_str());
    out.append(q_user.as_str());
    out.append(",\"session_guid\":");
    let q_session = json_quote(turn.session_guid.as_str());
    out.append(q_session.as_str());
    out.append(",\"context_guid\":");
    let q_context = json_quote(turn.context_guid.as_str());
    out.append(q_context.as_str());
    out.append(",\"conversation_history\":[");
    let hist = join_commas(&turn.conversation_history);
    out.append(hist.as_str());
    out.append("]}");
    proof {
        assert(out@ =~= chat_body_spec(
            turn.user_input@,
            turn.user_guid@,
            turn.session_guid@,
            turn.context_guid@,
            views_of(turn.conversation_history@),
        ));
    }
    out
}

/// An HTTP method the gateway uses.
pub enum HttpMethod {
    Get,
    Post,
}

/// One planned HTTP request: everything the unverified shell needs to
/// perform the call, computed and pinned down here.
pub struct RequestPlan {
    pub method: HttpMethod,
    pub url: String,
    pub body: Option<String>,
    pub timeout_ms: u64,
}

/// Plans the chat operation: POST to `/api/rapp` with the
/// default-filled turn as JSON body and the long chat timeout.
pub fn chat_request_plan(port: u16, turn: &FilledChatTurn) -> (p: RequestPlan)
    ensures
        p.method is Post,
        p.url@ == loopback_url(port, "/api/rapp"@),
        (p.body matches Some(b) && b@ == chat_body_spec(
            turn.user_input@,
            turn.user_guid@,
            turn.session_guid@,
            turn.context_guid@,
            views_of(turn.conversation_history@),
        )),
        p.timeout_ms == CHAT_TIMEOUT_MS,
{
    RequestPlan {
        method: HttpMethod::Post,
        url: crate::text::build_loopback_url(port, "/api/rapp"),
        body: Some(chat_body(turn)),
        timeout_ms: CHAT_TIMEOUT_MS,
    }
}

/// Plans the agent listing: GET `/agents`, no body, metadata timeout.
pub fn agents_request_plan(port: u16) -> (p: RequestPlan)
    ensures
        p.method is Get,
        p.url@ == loopback_url(port, "/agents"@),
        p.body is None,
        p.timeout_ms == META_TIMEOUT_MS,
{
    RequestPlan {
        method: HttpMethod::Get,
        url: crate::text::build_loopback_url(port, "/agents"),
        body: None,
        timeout_ms: META_TIMEOUT_MS,
    }
}

/// Plans the context listing: GET `/contexts`, no body, metadata
/// timeout.
pub fn contexts_request_plan(port: u16) -> (p: RequestPlan)
    ensures
        p.method is Get,
        p.url@ == loopback_url(port, "/contexts"@),
        p.body is None,
        p.timeout_ms == META_TIMEOUT_MS,
{
    RequestPlan {
        method: HttpMethod::Get,
        url: crate::text::build_loopback_url(port, "/contexts"),
        body: None,
        timeout_ms: META_TIMEOUT_MS,
    }
}

/// Plans the reload operation: GET `/reload`, no body, metadata
/// timeout.
pub fn reload_request_plan(port: u16) -> (p: RequestPlan)
    ensures
        p.method is Get,
        p.url@ == loopback_url(port, "/reload"@),
        p.body is None,
        p.timeout_ms == META_TIMEOUT_MS,
{
    RequestPlan {
        method: HttpMethod::Get,
        url: crate::text::build_loopback_url(port, "/reload"),
        body: None,
        timeout_ms: META_TIMEOUT_MS,
    }
}

/// Plans the liveness probe: GET `/health`, no body, short bounded
/// timeout. Only reachability matters; the response body is ignored.
pub fn health_request_plan(port: u16) -> (p: RequestPlan)
    ensures
        p.method is Get,
        p.url@ == loopback_url(port, "/health"@),
        p.body is None,
        p.timeout_ms == HEALTH_TIMEOUT_MS,
{
    RequestPlan {
        method: HttpMethod::Get,
        url: crate::text::build_loopback_url(port, "/health"),
        body: None,
        timeout_ms: HEALTH_TIMEOUT_MS,
    }
}

/// The raw outcome of one HTTP call, as the unverified shell reports
/// it: either a transport-level failure with the client's error text,
/// or a response with its status code and body text.
pub enum HttpOutcome {
    Transport(String),
    Response(u16, String),
}

/// An HTTP status code that counts as success.
pub open spec fn http_success(status: u16) -> bool {
    200 <= status < 300
}

/// Whether a body text is one well-formed JSON document. Named, not
/// written out: the JSON grammar is decided by the parser the gateway
/// relies on, and it is a fact of the text alone.
pub uninterp spec fn json_well_formed(s: Seq<char>) -> bool;

/// Relies on serde_json::from_str::<Value>: it returns Ok exactly when
/// the text is one well-formed JSON document, a fact of the text alone;
/// on failure the error text describes the parse failure.
#[verifier::external_body]
fn check_json(s: &str) -> (r: Result<(), String>)
    ensures
        r is Ok <==> json_well_formed(s@),
{
    match serde_json::from_str::<serde_json::Value>(s) {
        Ok(_) => Ok(()),
        Err(e) => Err(e.to_string()),
    }
}

/// Classifies a chat outcome: a transport failure is `ConnectFailed`
/// with the client's text, a non-success status is `EngineError` with
/// that status, a success whose body is not well-formed is
/// `DecodeFailed`, and a success with a well-formed body passes the
/// body through unchanged.
pub fn classify_chat_outcome(outcome: HttpOutcome) -> (r: Result<String, RappError>)
    ensures
        (match outcome {
            HttpOutcome::Transport(e) => (r matches Err(RappError::ConnectFailed(m)) && m@ == e@),
            HttpOutcome::Response(status, body) => {
                if !http_success(status) {
                    r matches Err(RappError::EngineError(s)) && s == status
                } else if json_well_formed(body@) {
                    r matches Ok(b) && b@ == body@
                } else {
                    r matches Err(RappError::DecodeFailed(_))
                }
            },
        }),
{
    match outcome {
        HttpOutcome::Transport(e) => Err(RappError::ConnectFailed(e)),
        HttpOutcome::Response(status, body) => {
            if !(200 <= status && status < 300) {
                Err(RappError::EngineError(status))
            } else {
                match check_json(body.as_str()) {
                    Ok(()) => Ok(body),
                    Err(e) => Err(RappError::DecodeFailed(e)),
                }
            }
        },
    }
}

/// Classifies a metadata outcome (agent listing, context listing,
/// reload): a transport failure is `ConnectFailed`, a response whose
/// body is well-formed passes through whatever the status was, and any
/// other body is `DecodeFailed`. The status is not inspected: these
/// responses are opaque pass-through payloads.
pub fn classify_meta_outcome(outcome: HttpOutcome) -> (r: Result<String, RappError>)
    ensures
        (match outcome {
            HttpOutcome::Transport(e) => (r matches Err(RappError::ConnectFailed(m)) && m@ == e@),
            HttpOutcome::Response(status, body) => {
                if json_well_formed(body@) {
                    r matches Ok(b) && b@ == body@
                } else {
                    r matches Err(RappError::DecodeFailed(_))
                }
            },
        }),
{
    match outcome {
        HttpOutcome::Transport(e) => Err(RappError::ConnectFailed(e)),
        HttpOutcome::Response(_status, body) => {
            match check_json(body.as_str()) {
                Ok(()) => Ok(body),
                Err(e) => Err(RappError::DecodeFailed(e)),
            }
        },
    }
}

} // verus!
