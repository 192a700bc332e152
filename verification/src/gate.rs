//! The scan-gated orchestrator: an explicit state machine.
//!
//! One gated exchange runs `Received -> PreScanned -> BackendCalled ->
//! PostScanned -> Responded`, failing closed at every step. The machine is
//! driven by events (the inbound body, each scan verdict or failure, the
//! backend's reply or failure) and answers with commands (send this scan
//! envelope, send this body to the backend, respond to the caller). The
//! network runs outside the library; every decision is made here.
//!
//! Each executable transition is pinned to a pure specification transition,
//! so the gating laws — a blocking pre-scan verdict never reaches the
//! backend; two allows hand the caller exactly the backend's bytes; an
//! oversized body is rejected before any outbound call — are proved once,
//! of the specification, and hold of the code.

use vstd::prelude::*;
use vstd::string::*;
use crate::airs::{
    blank, envelope_spec, fresh_tr_id, is_space_char, normalize_spec, build_scan_envelope,
    ScanConfig, ScanContent, ScanError, ScanResponse,
};
use crate::chat::{empty_marker, extract_spec, extract_user_prompt, ChatMessage};
use crate::jsontext::str_eq;
use crate::ollama::BackendError;
use crate::synth::{block_body_spec, synthesize_block};

verus! {

/// What the caller finally receives.
#[derive(Debug)]
pub enum GateReply {
    /// The backend's own bytes, untouched. Sent with the success status.
    Forwarded { body: Vec<u8> },
    /// A synthesized refusal in the backend's response shape. Sent with the
    /// success status, so chat clients display it inline.
    Blocked { body: String },
    /// The inbound body exceeded the size ceiling.
    PayloadTooLarge,
    /// A scan call or the backend call failed; the gated path fails closed
    /// with a fixed response, and nothing unscanned is ever returned.
    InternalError,
}

/// Where one gated exchange stands.
#[derive(Debug)]
pub enum GateState {
    /// The pre-scan envelope is out; the verdict decides whether the
    /// backend is called at all.
    AwaitingPreScan { body: Vec<u8> },
    /// The pre-scan allowed; the original body is on its way to the backend.
    AwaitingBackend { body: Vec<u8> },
    /// The backend answered; its bytes are held until the post-scan allows
    /// their release.
    AwaitingPostScan { backend_body: Vec<u8> },
    /// The exchange is over; `reply` is what the caller gets.
    Done { reply: GateReply },
}

/// What the surrounding process must do next.
#[derive(Debug)]
pub enum GateCmd {
    /// POST this envelope to the scanner; `tr_id` is the transaction id it
    /// carries, kept alongside for audit logging.
    SendScan { envelope: String, tr_id: String },
    /// POST this body to the backend's chat endpoint.
    SendBackend { body: Vec<u8> },
    /// Answer the caller; the exchange is finished.
    Respond { reply: GateReply },
}

/// Specification-level reply.
pub enum SpecReply {
    Forwarded(Seq<u8>),
    Blocked(Seq<char>),
    PayloadTooLarge,
    InternalError,
}

/// Specification-level state.
pub enum SpecState {
    AwaitingPreScan(Seq<u8>),
    AwaitingBackend(Seq<u8>),
    AwaitingPostScan(Seq<u8>),
    Done(SpecReply),
}

/// Specification-level command.
pub enum SpecCmd {
    SendScan(Seq<char>, Seq<char>),
    SendBackend(Seq<u8>),
    Respond(SpecReply),
}

impl View for GateReply {
    type V = SpecReply;

    open spec fn view(&self) -> SpecReply {
        match self {
            GateReply::Forwarded { body } => SpecReply::Forwarded(body@),
            GateReply::Blocked { body } => SpecReply::Blocked(body@),
            GateReply::PayloadTooLarge => SpecReply::PayloadTooLarge,
            GateReply::InternalError => SpecReply::InternalError,
        }
    }
}

impl View for GateState {
    type V = SpecState;

    open spec fn view(&self) -> SpecState {
        match self {
            GateState::AwaitingPreScan { body } => SpecState::AwaitingPreScan(body@),
            GateState::AwaitingBackend { body } => SpecState::AwaitingBackend(body@),
            GateState::AwaitingPostScan { backend_body } => SpecState::AwaitingPostScan(
                backend_body@,
            ),
            GateState::Done { reply } => SpecState::Done(reply@),
        }
    }
}

impl View for GateCmd {
    type V = SpecCmd;

    open spec fn view(&self) -> SpecCmd {
        match self {
            GateCmd::SendScan { envelope, tr_id } => SpecCmd::SendScan(envelope@, tr_id@),
            GateCmd::SendBackend { body } => SpecCmd::SendBackend(body@),
            GateCmd::Respond { reply } => SpecCmd::Respond(reply@),
        }
    }
}

/// View of the optional parsed message list.
pub open spec fn msgs_view(messages: Option<Vec<ChatMessage>>) -> Option<Seq<ChatMessage>> {
    match messages {
        Some(ms) => Some(ms@),
        None => None,
    }
}

/// View of the backend call's outcome.
pub open spec fn backend_result_view(result: Result<Vec<u8>, BackendError>) -> Result<
    Seq<u8>,
    BackendError,
> {
    match result {
        Ok(b) => Ok(b@),
        Err(e) => Err(e),
    }
}

/// View of the optionally extracted assistant answer.
pub open spec fn answer_view(answer: Option<String>) -> Option<Seq<char>> {
    match answer {
        Some(a) => Some(a@),
        None => None,
    }
}

/// The verdict that lets content through.
pub open spec fn is_allow(v: ScanResponse) -> bool {
    v.action@ == "allow"@
}

/// Receiving a gated request: reject an oversized body outright, otherwise
/// extract the latest user prompt and order the pre-scan.
pub open spec fn spec_start(
    cfg: ScanConfig,
    body: Seq<u8>,
    messages: Option<Seq<ChatMessage>>,
    tr_id: Seq<char>,
) -> (SpecState, SpecCmd) {
    if body.len() > crate::BODY_LIMIT as int {
        (SpecState::Done(SpecReply::PayloadTooLarge), SpecCmd::Respond(SpecReply::PayloadTooLarge))
    } else {
        let prompt = match messages {
            Some(ms) => extract_spec(ms),
            None => empty_marker(),
        };
        let env = envelope_spec(
            cfg.profile_id@,
            cfg.profile_name@,
            tr_id,
            normalize_spec(prompt),
            empty_marker(),
            empty_marker(),
            empty_marker(),
        );
        (SpecState::AwaitingPreScan(body), SpecCmd::SendScan(env, tr_id))
    }
}

/// The pre-scan verdict arrives: `allow` sends the original body to the
/// backend; any other action responds at once with the synthesized refusal;
/// a scan failure fails closed.
pub open spec fn spec_on_pre_scan(st: SpecState, result: Result<ScanResponse, ScanError>) -> (
    SpecState,
    SpecCmd,
)
    recommends
        st is AwaitingPreScan,
{
    let body = match st {
        SpecState::AwaitingPreScan(b) => b,
        _ => Seq::empty(),
    };
    match result {
        Ok(v) => if is_allow(v) {
            (SpecState::AwaitingBackend(body), SpecCmd::SendBackend(body))
        } else {
            (
                SpecState::Done(SpecReply::Blocked(block_body_spec(v.category@))),
                SpecCmd::Respond(SpecReply::Blocked(block_body_spec(v.category@))),
            )
        },
        Err(_) => (
            SpecState::Done(SpecReply::InternalError),
            SpecCmd::Respond(SpecReply::InternalError),
        ),
    }
}

/// The backend's reply arrives: on success the extracted answer (or the
/// empty marker when none could be parsed) goes out for the post-scan; on
/// failure the gated path fails closed with the fixed internal error.
pub open spec fn spec_on_backend(
    st: SpecState,
    result: Result<Seq<u8>, BackendError>,
    answer: Option<Seq<char>>,
    cfg: ScanConfig,
    tr_id: Seq<char>,
) -> (SpecState, SpecCmd)
    recommends
        st is AwaitingBackend,
{
    match result {
        Ok(backend_body) => {
            let ans = match answer {
                Some(a) => a,
                None => empty_marker(),
            };
            let env = envelope_spec(
                cfg.profile_id@,
                cfg.profile_name@,
                tr_id,
                empty_marker(),
                normalize_spec(ans),
                empty_marker(),
                empty_marker(),
            );
            (SpecState::AwaitingPostScan(backend_body), SpecCmd::SendScan(env, tr_id))
        },
        Err(_) => (
            SpecState::Done(SpecReply::InternalError),
            SpecCmd::Respond(SpecReply::InternalError),
        ),
    }
}

/// The post-scan verdict arrives: `allow` releases the backend's bytes
/// exactly as they came; any other action substitutes the synthesized
/// refusal; a scan failure fails closed.
pub open spec fn spec_on_post_scan(st: SpecState, result: Result<ScanResponse, ScanError>) -> (
    SpecState,
    SpecCmd,
)
    recommends
        st is AwaitingPostScan,
{
    let backend_body = match st {
        SpecState::AwaitingPostScan(b) => b,
        _ => Seq::empty(),
    };
    match result {
        Ok(v) => if is_allow(v) {
            (
                SpecState::Done(SpecReply::Forwarded(backend_body)),
                SpecCmd::Respond(SpecReply::Forwarded(backend_body)),
            )
        } else {
            (
                SpecState::Done(SpecReply::Blocked(block_body_spec(v.category@))),
                SpecCmd::Respond(SpecReply::Blocked(block_body_spec(v.category@))),
            )
        },
        Err(_) => (
            SpecState::Done(SpecReply::InternalError),
            SpecCmd::Respond(SpecReply::InternalError),
        ),
    }
}

/// Byte-for-byte copy, so a body can stand in the next state and in the
/// outgoing command at once.
fn copy_bytes(v: &Vec<u8>) -> (r: Vec<u8>)
    ensures
        r@ == v@,
{
    let mut r: Vec<u8> = Vec::new();
    let mut i: usize = 0;
    while i < v.len()
        invariant
            i <= v.len(),
            r@ == v@.take(i as int),
        decreases v.len() - i,
    {
        r.push(v[i]);
        proof {
            assert(v@.take(i + 1) =~= v@.take(i as int).push(v@[i as int]));
        }
        i = i + 1;
    }
    proof {
        assert(v@.take(v@.len() as int) =~= v@);
    }
    r
}

/// Starts one gated exchange with the given transaction id.
pub fn start_gate_with(
    cfg: &ScanConfig,
    body: Vec<u8>,
    messages: Option<Vec<ChatMessage>>,
    tr_id: String,
) -> (r: (GateState, GateCmd))
    ensures
        (r.0@, r.1@) == spec_start(*cfg, body@, msgs_view(messages), tr_id@),
{
    if !crate::body_within_limit(body.len()) {
        (
            GateState::Done { reply: GateReply::PayloadTooLarge },
            GateCmd::Respond { reply: GateReply::PayloadTooLarge },
        )
    } else {
        let prompt: String = match &messages {
            Some(ms) => extract_user_prompt(ms),
            None => "N/A".to_owned(),
        };
        let content = ScanContent::new(prompt, String::new(), String::new(), String::new());
        let envelope = build_scan_envelope(cfg, tr_id.as_str(), &content);
        proof {
            assert(blank(Seq::<char>::empty()));
            reveal_strlit("N/A");
            assert(!is_space_char(empty_marker()[1]));
            assert(!blank(empty_marker()));
        }
        (GateState::AwaitingPreScan { body }, GateCmd::SendScan { envelope, tr_id })
    }
}

/// Starts one gated exchange, drawing a fresh transaction id for the
/// pre-scan call.
pub fn start_gate(cfg: &ScanConfig, body: Vec<u8>, messages: Option<Vec<ChatMessage>>) -> (r: (
    GateState,
    GateCmd,
))
    ensures
        exists|t: Seq<char>| (r.0@, r.1@) == spec_start(*cfg, body@, msgs_view(messages), t),
{
    let tr_id = fresh_tr_id();
    let ghost t = tr_id@;
    let r = start_gate_with(cfg, body, messages, tr_id);
    proof {
        assert((r.0@, r.1@) == spec_start(*cfg, body@, msgs_view(messages), t));
    }
    r
}

/// Feeds the pre-scan outcome to the machine.
pub fn on_pre_scan(state: GateState, result: Result<ScanResponse, ScanError>) -> (r: (
    GateState,
    GateCmd,
))
    requires
        state is AwaitingPreScan,
    ensures
        (r.0@, r.1@) == spec_on_pre_scan(state@, result),
{
    match state {
        GateState::AwaitingPreScan { body } => match result {
            Ok(v) => {
                if str_eq(v.action.as_str(), "allow") {
                    let body_for_backend = copy_bytes(&body);
                    (
                        GateState::AwaitingBackend { body },
                        GateCmd::SendBackend { body: body_for_backend },
                    )
                } else {
                    let refusal = synthesize_block(&v);
                    let refusal_state = refusal.clone();
                    (
                        GateState::Done { reply: GateReply::Blocked { body: refusal_state } },
                        GateCmd::Respond { reply: GateReply::Blocked { body: refusal } },
                    )
                }
            },
            Err(_) => (
                GateState::Done { reply: GateReply::InternalError },
                GateCmd::Respond { reply: GateReply::InternalError },
            ),
        },
        _ => vstd::pervasive::unreached(),
    }
}

/// Feeds the backend outcome to the machine, with the given transaction id
/// for the post-scan call. `answer` is the assistant content extracted from
/// the backend's reply, or nothing when the reply could not be parsed —
/// which is not fatal: the post-scan then judges the empty marker.
pub fn on_backend_with(
    state: GateState,
    result: Result<Vec<u8>, BackendError>,
    answer: Option<String>,
    cfg: &ScanConfig,
    tr_id: String,
) -> (r: (GateState, GateCmd))
    requires
        state is AwaitingBackend,
    ensures
        (r.0@, r.1@) == spec_on_backend(
            state@,
            backend_result_view(result),
            answer_view(answer),
            *cfg,
            tr_id@,
        ),
{
    match result {
        Ok(backend_body) => {
            let ans: String = match answer {
                Some(a) => a,
                None => "N/A".to_owned(),
            };
            let content = ScanContent::new(String::new(), ans, String::new(), String::new());
            let envelope = build_scan_envelope(cfg, tr_id.as_str(), &content);
            proof {
                assert(blank(Seq::<char>::empty()));
                reveal_strlit("N/A");
                assert(!is_space_char(empty_marker()[1]));
                assert(!blank(empty_marker()));
            }
            (
                GateState::AwaitingPostScan { backend_body },
                GateCmd::SendScan { envelope, tr_id },
            )
        },
        Err(_) => (
            GateState::Done { reply: GateReply::InternalError },
            GateCmd::Respond { reply: GateReply::InternalError },
        ),
    }
}

/// Feeds the backend outcome to the machine, drawing a fresh transaction id
/// for the post-scan call.
pub fn on_backend(
    state: GateState,
    result: Result<Vec<u8>, BackendError>,
    answer: Option<String>,
    cfg: &ScanConfig,
) -> (r: (GateState, GateCmd))
    requires
        state is AwaitingBackend,
    ensures
        exists|t: Seq<char>|
            (r.0@, r.1@) == spec_on_backend(
                state@,
                backend_result_view(result),
                answer_view(answer),
                *cfg,
                t,
            ),
{
    let tr_id = fresh_tr_id();
    let ghost t = tr_id@;
    let ghost st = state@;
    let ghost rv = backend_result_view(result);
    let ghost av = answer_view(answer);
    let r = on_backend_with(state, result, answer, cfg, tr_id);
    proof {
        assert((r.0@, r.1@) == spec_on_backend(st, rv, av, *cfg, t));
    }
    r
}

/// Feeds the post-scan outcome to the machine.
pub fn on_post_scan(state: GateState, result: Result<ScanResponse, ScanError>) -> (r: (
    GateState,
    GateCmd,
))
    requires
        state is AwaitingPostScan,
    ensures
        (r.0@, r.1@) == spec_on_post_scan(state@, result),
{
    match state {
        GateState::AwaitingPostScan { backend_body } => match result {
            Ok(v) => {
                if str_eq(v.action.as_str(), "allow") {
                    let body_for_caller = copy_bytes(&backend_body);
                    (
                        GateState::Done { reply: GateReply::Forwarded { body: backend_body } },
                        GateCmd::Respond { reply: GateReply::Forwarded { body: body_for_caller } },
                    )
                } else {
                    let refusal = synthesize_block(&v);
                    let refusal_state = refusal.clone();
                    (
                        GateState::Done { reply: GateReply::Blocked { body: refusal_state } },
                        GateCmd::Respond { reply: GateReply::Blocked { body: refusal } },
                    )
                }
            },
            Err(_) => (
                GateState::Done { reply: GateReply::InternalError },
                GateCmd::Respond { reply: GateReply::InternalError },
            ),
        },
        _ => vstd::pervasive::unreached(),
    }
}

/// A pre-scan verdict whose action is not `allow` never reaches the
/// backend: the machine's only command is the synthesized refusal, built
/// from that very verdict, and the exchange is over.
pub proof fn lemma_pre_scan_block_never_backend(st: SpecState, v: ScanResponse)
    requires
        st is AwaitingPreScan,
        !is_allow(v),
    ensures
        !(spec_on_pre_scan(st, Ok(v)).1 is SendBackend),
        spec_on_pre_scan(st, Ok(v)).1 == SpecCmd::Respond(
            SpecReply::Blocked(block_body_spec(v.category@)),
        ),
        spec_on_pre_scan(st, Ok(v)).0 is Done,
{
}

/// A failed pre-scan also never reaches the backend: the machine fails
/// closed with the fixed internal error.
pub proof fn lemma_pre_scan_failure_fails_closed(st: SpecState, e: ScanError)
    requires
        st is AwaitingPreScan,
    ensures
        !(spec_on_pre_scan(st, Err(e)).1 is SendBackend),
        spec_on_pre_scan(st, Err(e)).1 == SpecCmd::Respond(SpecReply::InternalError),
{
}

/// A failed backend call ends the exchange with the fixed internal error:
/// no post-scan is ordered and no partial content is returned.
pub proof fn lemma_backend_failure_fails_closed(
    st: SpecState,
    e: BackendError,
    answer: Option<Seq<char>>,
    cfg: ScanConfig,
    t: Seq<char>,
)
    requires
        st is AwaitingBackend,
    ensures
        !(spec_on_backend(st, Err(e), answer, cfg, t).1 is SendScan),
        spec_on_backend(st, Err(e), answer, cfg, t).1 == SpecCmd::Respond(SpecReply::InternalError),
        spec_on_backend(st, Err(e), answer, cfg, t).0 == SpecState::Done(SpecReply::InternalError),
{
}

/// With `allow` on both phases, the caller receives exactly the backend's
/// bytes: the pre-scan releases the original body unchanged to the backend,
/// and the post-scan releases the backend's reply unchanged to the caller.
pub proof fn lemma_allow_allow_passthrough(
    cfg: ScanConfig,
    body: Seq<u8>,
    messages: Option<Seq<ChatMessage>>,
    t1: Seq<char>,
    t2: Seq<char>,
    v1: ScanResponse,
    v2: ScanResponse,
    backend_body: Seq<u8>,
    answer: Option<Seq<char>>,
)
    requires
        body.len() <= crate::BODY_LIMIT as int,
        is_allow(v1),
        is_allow(v2),
    ensures
        ({
            let (s1, c1) = spec_start(cfg, body, messages, t1);
            let (s2, c2) = spec_on_pre_scan(s1, Ok(v1));
            let (s3, c3) = spec_on_backend(s2, Ok(backend_body), answer, cfg, t2);
            let (s4, c4) = spec_on_post_scan(s3, Ok(v2));
            &&& c1 is SendScan
            &&& c2 == SpecCmd::SendBackend(body)
            &&& c3 is SendScan
            &&& c4 == SpecCmd::Respond(SpecReply::Forwarded(backend_body))
            &&& s4 == SpecState::Done(SpecReply::Forwarded(backend_body))
        }),
{
}

/// The backend is contacted only after an `allow` pre-scan verdict, and
/// then with exactly the caller's original bytes.
pub proof fn lemma_backend_only_on_allow(
    st: SpecState,
    result: Result<ScanResponse, ScanError>,
    b: Seq<u8>,
)
    requires
        st is AwaitingPreScan,
        spec_on_pre_scan(st, result).1 == SpecCmd::SendBackend(b),
    ensures
        result matches Ok(v) && is_allow(v),
        st == SpecState::AwaitingPreScan(b),
{
}

/// Real backend content is released to the caller only on an `allow`
/// post-scan verdict, and then it is exactly the held backend body.
pub proof fn lemma_forwarded_only_on_allow(
    st: SpecState,
    result: Result<ScanResponse, ScanError>,
    b: Seq<u8>,
)
    requires
        st is AwaitingPostScan,
        spec_on_post_scan(st, result).1 == SpecCmd::Respond(SpecReply::Forwarded(b)),
    ensures
        result matches Ok(v) && is_allow(v),
        st == SpecState::AwaitingPostScan(b),
{
}

/// An oversized body is rejected before any outbound call: the machine
/// never orders a scan or a backend call for it. A body within the ceiling
/// always goes out to the pre-scan.
pub proof fn lemma_size_ceiling(
    cfg: ScanConfig,
    body: Seq<u8>,
    messages: Option<Seq<ChatMessage>>,
    t: Seq<char>,
)
    ensures
        body.len() > crate::BODY_LIMIT as int ==> spec_start(cfg, body, messages, t).1
            == SpecCmd::Respond(SpecReply::PayloadTooLarge) && spec_start(
            cfg,
            body,
            messages,
            t,
        ).0 == SpecState::Done(SpecReply::PayloadTooLarge),
        body.len() <= crate::BODY_LIMIT as int ==> spec_start(cfg, body, messages, t).1
            is SendScan,
{
}

} // verus!
