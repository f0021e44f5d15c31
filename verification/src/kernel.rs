//! The bridge kernel: the lifecycle of a bridge session (`init`, `submit`, callbacks,
//! `cancel`, `shutdown`) and the host calls that submitted work asks for.
//!
//! Each entry point takes the document the host sent, already read from its JSON text
//! (`Err` carries the reason the text was not JSON), and answers with a document.
use vstd::prelude::*;

use crate::fields::opt_view;
use crate::fields::ExecEnv;
use crate::json::json_str;
use crate::json::members_model;
use crate::json::push_member;
use crate::json::JsonModel;
use crate::json::JsonValue;
use crate::routing::cli_host_call;
use crate::routing::host_call_from_request;
use crate::routing::route_host_call;
use crate::routing::try_host_call_from_cli_payload;
use crate::schema::callback_correlation_id;
use crate::schema::callback_id;
use crate::schema::CallbackShape;
use crate::schema::decode_cancel_request;
use crate::schema::decode_submit_request;
use crate::schema::HostCallModel;
use crate::schema::WasmBridgeCancelRequest;
use crate::schema::WasmBridgeHostCall;
use crate::schema::WasmBridgeSubmitRequest;

verus! {

broadcast use vstd::std_specs::vec::group_vec_axioms;

/// The reason given when a JSON submit document is not a submit request.
pub const NOT_A_SUBMIT_REQUEST: &'static str =
    "expected an object with a string correlation_id, an optional string kind and an optional payload";

// ---------------------------------------------------------------------------------------
// Responses
// ---------------------------------------------------------------------------------------

/// `{ "ok": true }`.
pub open spec fn ok_response() -> JsonModel {
    JsonModel::Object(seq![("ok"@, JsonModel::Bool(true))])
}

/// `{ "correlation_id": id, "status": "accepted" }`.
pub open spec fn accepted_response(correlation_id: Seq<char>) -> JsonModel {
    JsonModel::Object(
        seq![
            ("correlation_id"@, JsonModel::Str(correlation_id)),
            ("status"@, JsonModel::Str("accepted"@)),
        ],
    )
}

/// `{ "correlation_id": id, "error": { "code", "message", "details" } }`, with null details
/// where there are none.
pub open spec fn error_response(
    correlation_id: Seq<char>,
    code: Seq<char>,
    message: Seq<char>,
    details: Option<JsonModel>,
) -> JsonModel {
    JsonModel::Object(
        seq![
            ("correlation_id"@, JsonModel::Str(correlation_id)),
            (
                "error"@,
                JsonModel::Object(
                    seq![
                        ("code"@, JsonModel::Str(code)),
                        ("message"@, JsonModel::Str(message)),
                        (
                            "details"@,
                            match details {
                                Some(d) => d,
                                None => JsonModel::Null,
                            },
                        ),
                    ],
                ),
            ),
        ],
    )
}

/// `{ "parse_error": message }`.
pub open spec fn parse_error_details(message: Seq<char>) -> JsonModel {
    JsonModel::Object(seq![("parse_error"@, JsonModel::Str(message))])
}

pub fn ok_response_json() -> (r: JsonValue)
    ensures
        r@ == ok_response(),
{
    let mut m: Vec<(String, JsonValue)> = Vec::new();
    push_member(&mut m, "ok", JsonValue::Bool(true));
    assert(members_model(m@) =~= seq![("ok"@, JsonModel::Bool(true))]);
    JsonValue::Object(m)
}

pub fn accepted_response_json(correlation_id: &str) -> (r: JsonValue)
    ensures
        r@ == accepted_response(correlation_id@),
{
    let mut m: Vec<(String, JsonValue)> = Vec::new();
    push_member(&mut m, "correlation_id", json_str(correlation_id));
    push_member(&mut m, "status", json_str("accepted"));
    assert(members_model(m@) =~= seq![
        ("correlation_id"@, JsonModel::Str(correlation_id@)),
        ("status"@, JsonModel::Str("accepted"@)),
    ]);
    JsonValue::Object(m)
}

pub fn error_response_json(
    correlation_id: &str,
    code: &str,
    message: &str,
    details: Option<JsonValue>,
) -> (r: JsonValue)
    ensures
        r@ == error_response(correlation_id@, code@, message@, opt_view(details)),
{
    let ghost dm = opt_view(details);
    let mut e: Vec<(String, JsonValue)> = Vec::new();
    push_member(&mut e, "code", json_str(code));
    push_member(&mut e, "message", json_str(message));
    let d = match details {
        Some(d) => d,
        None => JsonValue::Null,
    };
    push_member(&mut e, "details", d);
    let mut m: Vec<(String, JsonValue)> = Vec::new();
    push_member(&mut m, "correlation_id", json_str(correlation_id));
    assert(members_model(e@) =~= seq![
        ("code"@, JsonModel::Str(code@)),
        ("message"@, JsonModel::Str(message@)),
        (
            "details"@,
            match dm {
                Some(d) => d,
                None => JsonModel::Null,
            },
        ),
    ]);
    push_member(&mut m, "error", JsonValue::Object(e));
    assert(members_model(m@) =~= seq![
        ("correlation_id"@, JsonModel::Str(correlation_id@)),
        (
            "error"@,
            JsonModel::Object(
                seq![
                    ("code"@, JsonModel::Str(code@)),
                    ("message"@, JsonModel::Str(message@)),
                    (
                        "details"@,
                        match dm {
                            Some(d) => d,
                            None => JsonModel::Null,
                        },
                    ),
                ],
            ),
        ),
    ]);
    let r = JsonValue::Object(m);
    assert(r@ == error_response(correlation_id@, code@, message@, dm));
    r
}

pub fn parse_error_details_json(message: &str) -> (r: JsonValue)
    ensures
        r@ == parse_error_details(message@),
{
    let mut m: Vec<(String, JsonValue)> = Vec::new();
    push_member(&mut m, "parse_error", json_str(message));
    assert(members_model(m@) =~= seq![("parse_error"@, JsonModel::Str(message@))]);
    JsonValue::Object(m)
}

// ---------------------------------------------------------------------------------------
// Sets of correlation ids
// ---------------------------------------------------------------------------------------

/// The set of ids a list holds.
pub open spec fn id_set(v: Seq<String>) -> Set<Seq<char>> {
    Set::new(|s: Seq<char>| exists|i: int| 0 <= i < v.len() && (#[trigger] v[i])@ == s)
}

fn contains_id(v: &Vec<String>, id: &String) -> (r: bool)
    ensures
        r == id_set(v@).contains(id@),
{
    let mut i: usize = 0;
    while i < v.len()
        invariant
            i <= v@.len(),
            forall|j: int| 0 <= j < i ==> (#[trigger] v@[j])@ != id@,
        decreases v@.len() - i,
    {
        if v[i] == *id {
            assert(id_set(v@).contains(id@));
            return true;
        }
        i = i + 1;
    }
    false
}

fn insert_id(v: &mut Vec<String>, id: &String)
    ensures
        id_set(final(v)@) == id_set(old(v)@).insert(id@),
{
    if contains_id(v, id) {
        assert(id_set(v@) =~= id_set(v@).insert(id@));
    } else {
        let ghost before = v@;
        v.push(id.clone());
        assert forall|s: Seq<char>| id_set(v@).contains(s) == id_set(before).insert(id@).contains(
            s,
        ) by {
            if id_set(before).contains(s) {
                let i = choose|i: int| 0 <= i < before.len() && (#[trigger] before[i])@ == s;
                assert(v@[i] == before[i]);
            }
            if s == id@ {
                assert(v@[before.len() as int]@ == s);
            }
            if id_set(v@).contains(s) {
                let i = choose|i: int| 0 <= i < v@.len() && (#[trigger] v@[i])@ == s;
                if i < before.len() {
                    assert(before[i] == v@[i]);
                }
            }
        }
        assert(id_set(v@) =~= id_set(before).insert(id@));
    }
}

fn remove_id(v: &mut Vec<String>, id: &String)
    ensures
        id_set(final(v)@) == id_set(old(v)@).remove(id@),
{
    let ghost before = v@;
    let mut kept: Vec<String> = Vec::new();
    let mut i: usize = 0;
    while i < v.len()
        invariant
            before == v@,
            i <= v@.len(),
            forall|j: int| 0 <= j < kept@.len() ==> (#[trigger] kept@[j])@ != id@,
            forall|s: Seq<char>|
                id_set(kept@).contains(s) <==> (s != id@ && exists|j: int|
                    0 <= j < i && (#[trigger] v@[j])@ == s),
        decreases v@.len() - i,
    {
        if v[i] != *id {
            let ghost prev = kept@;
            kept.push(v[i].clone());
            assert forall|s: Seq<char>|
                id_set(kept@).contains(s) <==> (s != id@ && exists|j: int|
                    0 <= j < i + 1 && (#[trigger] v@[j])@ == s) by {
                if id_set(kept@).contains(s) {
                    let k = choose|k: int| 0 <= k < kept@.len() && (#[trigger] kept@[k])@ == s;
                    if k < prev.len() {
                        assert(prev[k] == kept@[k]);
                        assert(id_set(prev).contains(s));
                    } else {
                        assert(v@[i as int]@ == s);
                    }
                }
                if s != id@ && exists|j: int| 0 <= j < i + 1 && (#[trigger] v@[j])@ == s {
                    let j = choose|j: int| 0 <= j < i + 1 && (#[trigger] v@[j])@ == s;
                    if j < i {
                        assert(id_set(prev).contains(s));
                        let k = choose|k: int| 0 <= k < prev.len() && (#[trigger] prev[k])@ == s;
                        assert(kept@[k] == prev[k]);
                    } else {
                        assert(kept@[prev.len() as int]@ == s);
                    }
                }
            }
        } else {
            assert forall|s: Seq<char>|
                id_set(kept@).contains(s) <==> (s != id@ && exists|j: int|
                    0 <= j < i + 1 && (#[trigger] v@[j])@ == s) by {
                if s != id@ && exists|j: int| 0 <= j < i + 1 && (#[trigger] v@[j])@ == s {
                    let j = choose|j: int| 0 <= j < i + 1 && (#[trigger] v@[j])@ == s;
                    assert(j < i);
                }
            }
        }
        i = i + 1;
    }
    *v = kept;
    assert(id_set(v@) =~= id_set(before).remove(id@));
}

// ---------------------------------------------------------------------------------------
// The kernel
// ---------------------------------------------------------------------------------------

/// The state of a bridge session.
#[verifier::ext_equal]
pub struct KernelModel {
    pub initialized: bool,
    pub pending: Set<Seq<char>>,
    pub cancelled: Set<Seq<char>>,
    pub host_calls: Seq<HostCallModel>,
    pub delivered: nat,
}

/// The state before `init` and after `shutdown`.
pub open spec fn initial_state() -> KernelModel {
    KernelModel {
        initialized: false,
        pending: Set::empty(),
        cancelled: Set::empty(),
        host_calls: Seq::empty(),
        delivered: 0,
    }
}

/// The model of what the host sent: a document, or the reason its text was not JSON.
pub open spec fn input_model(input: Result<JsonValue, String>) -> Result<JsonModel, Seq<char>> {
    match input {
        Ok(v) => Ok(v@),
        Err(e) => Err(e@),
    }
}

/// What `serde_json` reports of a text that it cannot read as a JSON value: its error
/// message, or `None` where the text is JSON.
pub uninterp spec fn json_text_error(text: Seq<char>) -> Option<Seq<char>>;

/// `serde_json::from_str::<serde_json::Value>(text)`, kept to whether it failed and, if so,
/// the error's message (`to_string`). The message depends on the text alone; nothing more
/// is stated of it, as serde_json's grammar and messages are not written out here.
#[verifier::external_body]
fn json_syntax_error(text: &str) -> (r: Option<String>)
    ensures
        opt_view(r) == json_text_error(text@),
{
    match serde_json::from_str::<serde_json::Value>(text) {
        Ok(_) => None,
        Err(e) => Some(e.to_string()),
    }
}

/// The model of a configuration text: the parser's message where it is not JSON; the
/// document itself plays no part in `init`.
pub open spec fn config_input(text: Seq<char>) -> Result<JsonModel, Seq<char>> {
    match json_text_error(text) {
        Some(message) => Err(message),
        None => Ok(JsonModel::Null),
    }
}

/// `init`: any JSON configuration starts a fresh session; text that is not JSON is refused
/// and changes nothing.
pub open spec fn init_step(st: KernelModel, config: Result<JsonModel, Seq<char>>) -> (
    KernelModel,
    JsonModel,
) {
    match config {
        Err(message) => (
            st,
            error_response(
                "lifecycle"@,
                "internal"@,
                "invalid init config JSON"@,
                Some(parse_error_details(message)),
            ),
        ),
        Ok(_) => (
            KernelModel {
                initialized: true,
                pending: Set::empty(),
                cancelled: Set::empty(),
                host_calls: Seq::empty(),
                delivered: 0,
            },
            ok_response(),
        ),
    }
}

/// An accepted submit: its id becomes pending and its host call, if any, is queued.
pub open spec fn accept(st: KernelModel, correlation_id: Seq<char>, call: Option<HostCallModel>) -> KernelModel {
    KernelModel {
        pending: st.pending.insert(correlation_id),
        host_calls: match call {
            Some(c) => st.host_calls.push(c),
            None => st.host_calls,
        },
        ..st
    }
}

/// `submit`, in a session whose exec environments are read under `rule`.
pub open spec fn submit_step(st: KernelModel, request: Result<JsonModel, Seq<char>>, rule: ExecEnv) -> (
    KernelModel,
    JsonModel,
) {
    let invalid = |message: Seq<char>|
        error_response(
            "unknown"@,
            "internal"@,
            "invalid submit request JSON"@,
            Some(parse_error_details(message)),
        );
    match request {
        Err(message) => (st, invalid(message)),
        Ok(doc) => match decode_submit_request(doc) {
            None => (st, invalid(NOT_A_SUBMIT_REQUEST@)),
            Some(req) => {
                let id = req.correlation_id;
                if !st.initialized {
                    (st, error_response(id, "internal"@, "bridge not initialized"@, None))
                } else if req.kind == Some("cli"@) {
                    match req.payload {
                        None => (
                            st,
                            error_response(
                                id,
                                "invalid_cli"@,
                                "cli submit requires a JSON payload object"@,
                                None,
                            ),
                        ),
                        Some(p) => match cli_host_call(id, p) {
                            Err(message) => (
                                st,
                                error_response(id, "invalid_cli"@, message, None),
                            ),
                            Ok(call) => (accept(st, id, Some(call)), accepted_response(id)),
                        },
                    }
                } else {
                    (accept(st, id, route_host_call(id, req.payload, rule)), accepted_response(id))
                }
            },
        },
    }
}

/// Whether a delivered document is a callback that the kernel counts, read under `shape`.
pub open spec fn counts_as_callback(result: Result<JsonModel, Seq<char>>, shape: CallbackShape) -> bool {
    match result {
        Ok(doc) => callback_id(doc, shape) is Some,
        Err(_) => false,
    }
}

/// A delivered callback (read under `shape`) is counted and settles its request; anything
/// else is ignored.
pub open spec fn callback_step(
    st: KernelModel,
    result: Result<JsonModel, Seq<char>>,
    shape: CallbackShape,
) -> KernelModel {
    match result {
        Ok(doc) => match callback_id(doc, shape) {
            Some(correlation_id) => KernelModel {
                delivered: st.delivered + 1,
                pending: match correlation_id {
                    Some(id) => st.pending.remove(id),
                    None => st.pending,
                },
                ..st
            },
            None => st,
        },
        Err(_) => st,
    }
}

/// A cancel moves its id from the pending requests to the cancelled ones; anything else is
/// ignored.
pub open spec fn cancel_step(st: KernelModel, cancel: Result<JsonModel, Seq<char>>) -> KernelModel {
    match cancel {
        Ok(doc) => match decode_cancel_request(doc) {
            Some(c) => KernelModel {
                pending: st.pending.remove(c.correlation_id),
                cancelled: st.cancelled.insert(c.correlation_id),
                ..st
            },
            None => st,
        },
        Err(_) => st,
    }
}

/// A bridge session. The pending and cancelled correlation ids are each held as a list,
/// viewed as the set of ids it holds (an id is added only when absent): vstd's ordered and
/// hashed sets carry no specification for `String` elements, so a list is what lets their
/// contents be proved.
pub struct WasmBridgeKernel {
    initialized: bool,
    pending_requests: Vec<String>,
    cancelled_requests: Vec<String>,
    pending_host_calls: Vec<WasmBridgeHostCall>,
    delivered_callbacks: usize,
    exec_env: ExecEnv,
    callback_shape: CallbackShape,
}

impl View for WasmBridgeKernel {
    type V = KernelModel;

    closed spec fn view(&self) -> KernelModel {
        KernelModel {
            initialized: self.initialized,
            pending: id_set(self.pending_requests@),
            cancelled: id_set(self.cancelled_requests@),
            host_calls: self.pending_host_calls@.map_values(|c: WasmBridgeHostCall| c@),
            delivered: self.delivered_callbacks as nat,
        }
    }
}

impl WasmBridgeKernel {
    /// Which values the environment of a submitted exec request may hold in this session.
    pub closed spec fn env_rule(&self) -> ExecEnv {
        self.exec_env
    }

    /// How much of a delivered callback this session reads.
    pub closed spec fn callback_rule(&self) -> CallbackShape {
        self.callback_shape
    }

    /// A session that has not been initialized, whose exec environments hold strings only
    /// and which reads whole callback envelopes.
    pub fn new() -> (r: Self)
        ensures
            r@ == initial_state(),
            r.env_rule() == ExecEnv::Strings,
            r.callback_rule() == CallbackShape::Envelope,
    {
        WasmBridgeKernel::with_rules(ExecEnv::Strings, CallbackShape::Envelope)
    }

    /// A session that has not been initialized, whose exec environments are read under
    /// `rule` and its callbacks under `callbacks`.
    pub fn with_rules(rule: ExecEnv, callbacks: CallbackShape) -> (r: Self)
        ensures
            r@ == initial_state(),
            r.env_rule() == rule,
            r.callback_rule() == callbacks,
    {
        let r = WasmBridgeKernel {
            initialized: false,
            pending_requests: Vec::new(),
            cancelled_requests: Vec::new(),
            pending_host_calls: Vec::new(),
            delivered_callbacks: 0,
            exec_env: rule,
            callback_shape: callbacks,
        };
        assert(r@ =~= initial_state());
        r
    }

    /// `init`: starts a fresh session on any JSON configuration text.
    pub fn handle_init_json(&mut self, config_json: &str) -> (r: JsonValue)
        ensures
            final(self)@ == init_step(old(self)@, config_input(config_json@)).0,
            r@ == init_step(old(self)@, config_input(config_json@)).1,
            final(self).env_rule() == old(self).env_rule(),
            final(self).callback_rule() == old(self).callback_rule(),
    {
        match json_syntax_error(config_json) {
            Some(message) => {
                let details = parse_error_details_json(message.as_str());
                error_response_json("lifecycle", "internal", "invalid init config JSON", Some(details))
            },
            None => {
                self.initialized = true;
                self.pending_requests = Vec::new();
                self.cancelled_requests = Vec::new();
                self.pending_host_calls = Vec::new();
                self.delivered_callbacks = 0;
                assert(self@ =~= init_step(old(self)@, config_input(config_json@)).0);
                ok_response_json()
            },
        }
    }

    fn accept_request(&mut self, correlation_id: &String, call: Option<WasmBridgeHostCall>)
        ensures
            final(self)@ == accept(old(self)@, correlation_id@, opt_view(call)),
            final(self).env_rule() == old(self).env_rule(),
            final(self).callback_rule() == old(self).callback_rule(),
    {
        let ghost calls = self.pending_host_calls@;
        match call {
            Some(c) => {
                self.pending_host_calls.push(c);
                assert(self.pending_host_calls@.map_values(|c: WasmBridgeHostCall| c@) =~= calls.map_values(
                    |c: WasmBridgeHostCall| c@,
                ).push(self.pending_host_calls@[calls.len() as int]@));
            },
            None => {},
        }
        insert_id(&mut self.pending_requests, correlation_id);
        assert(self@ =~= accept(old(self)@, correlation_id@, opt_view(call)));
    }

    /// `submit`: accepts work from an initialized session, queueing the host call it asks
    /// for; a `cli` submit must carry a non-empty argv of strings.
    pub fn handle_submit_json(&mut self, request: Result<JsonValue, String>) -> (r: JsonValue)
        ensures
            final(self)@ == submit_step(old(self)@, input_model(request), old(self).env_rule()).0,
            r@ == submit_step(old(self)@, input_model(request), old(self).env_rule()).1,
            final(self).env_rule() == old(self).env_rule(),
            final(self).callback_rule() == old(self).callback_rule(),
    {
        let doc = match request {
            Err(message) => {
                let details = parse_error_details_json(message.as_str());
                return error_response_json(
                    "unknown",
                    "internal",
                    "invalid submit request JSON",
                    Some(details),
                );
            },
            Ok(doc) => doc,
        };
        let req = match WasmBridgeSubmitRequest::from_json(&doc) {
            Some(req) => req,
            None => {
                let details = parse_error_details_json(NOT_A_SUBMIT_REQUEST);
                return error_response_json(
                    "unknown",
                    "internal",
                    "invalid submit request JSON",
                    Some(details),
                );
            },
        };
        if !self.initialized {
            return error_response_json(
                req.correlation_id.as_str(),
                "internal",
                "bridge not initialized",
                None,
            );
        }
        let is_cli = match &req.kind {
            Some(kind) => crate::extension::str_eq(kind.as_str(), "cli"),
            None => false,
        };
        let call = if is_cli {
            match &req.payload {
                None => {
                    return error_response_json(
                        req.correlation_id.as_str(),
                        "invalid_cli",
                        "cli submit requires a JSON payload object",
                        None,
                    );
                },
                Some(payload) => match try_host_call_from_cli_payload(&req.correlation_id, payload) {
                    Ok(call) => Some(call),
                    Err(message) => {
                        return error_response_json(
                            req.correlation_id.as_str(),
                            "invalid_cli",
                            message,
                            None,
                        );
                    },
                },
            }
        } else {
            host_call_from_request(&req, self.exec_env)
        };
        self.accept_request(&req.correlation_id, call);
        accepted_response_json(req.correlation_id.as_str())
    }

    /// A callback from the host: counted, and its request is no longer pending.
    pub fn handle_deliver_callback_json(&mut self, result: Result<JsonValue, String>)
        requires
            counts_as_callback(input_model(result), old(self).callback_rule()) ==> old(self)@.delivered
                < usize::MAX,
        ensures
            final(self)@ == callback_step(old(self)@, input_model(result), old(self).callback_rule()),
            final(self).env_rule() == old(self).env_rule(),
            final(self).callback_rule() == old(self).callback_rule(),
    {
        let doc = match result {
            Err(_) => return ,
            Ok(doc) => doc,
        };
        let correlation_id = match callback_correlation_id(&doc, self.callback_shape) {
            Some(id) => id,
            None => return ,
        };
        self.delivered_callbacks = self.delivered_callbacks + 1;
        match &correlation_id {
            Some(id) => remove_id(&mut self.pending_requests, id),
            None => {},
        }
        assert(self@ =~= callback_step(old(self)@, input_model(result), old(self).callback_rule()));
    }

    /// A best-effort cancel: the request is no longer pending and is recorded as cancelled.
    pub fn handle_cancel_json(&mut self, cancel: Result<JsonValue, String>)
        ensures
            final(self)@ == cancel_step(old(self)@, input_model(cancel)),
            final(self).env_rule() == old(self).env_rule(),
            final(self).callback_rule() == old(self).callback_rule(),
    {
        let doc = match cancel {
            Err(_) => return ,
            Ok(doc) => doc,
        };
        let cancel_request = match WasmBridgeCancelRequest::from_json(&doc) {
            Some(c) => c,
            None => return ,
        };
        remove_id(&mut self.pending_requests, &cancel_request.correlation_id);
        insert_id(&mut self.cancelled_requests, &cancel_request.correlation_id);
        assert(self@ =~= cancel_step(old(self)@, input_model(cancel)));
    }

    /// `shutdown`: back to a session that has not been initialized.
    pub fn handle_shutdown(&mut self)
        ensures
            final(self)@ == initial_state(),
            final(self).env_rule() == old(self).env_rule(),
            final(self).callback_rule() == old(self).callback_rule(),
    {
        *self = WasmBridgeKernel::with_rules(self.exec_env, self.callback_shape);
    }

    /// Hands out the queued host calls, in the order they were queued, and empties the
    /// queue.
    pub fn take_pending_host_calls(&mut self) -> (r: Vec<WasmBridgeHostCall>)
        ensures
            r@.map_values(|c: WasmBridgeHostCall| c@) == old(self)@.host_calls,
            final(self)@ == (KernelModel { host_calls: Seq::empty(), ..old(self)@ }),
            final(self).env_rule() == old(self).env_rule(),
            final(self).callback_rule() == old(self).callback_rule(),
    {
        let mut taken: Vec<WasmBridgeHostCall> = Vec::new();
        std::mem::swap(&mut taken, &mut self.pending_host_calls);
        assert(self@ =~= (KernelModel { host_calls: Seq::empty(), ..old(self)@ }));
        taken
    }

    /// The number of host calls waiting to be taken.
    pub fn pending_host_call_count(&self) -> (r: usize)
        ensures
            r == self@.host_calls.len(),
    {
        self.pending_host_calls.len()
    }

    /// Whether delivering `result` would count a callback in this session.
    pub fn counts_callback(&self, result: &Result<JsonValue, String>) -> (r: bool)
        ensures
            r == counts_as_callback(input_model(*result), self.callback_rule()),
    {
        match result {
            Ok(doc) => match callback_correlation_id(doc, self.callback_shape) {
                Some(_) => true,
                None => false,
            },
            Err(_) => false,
        }
    }

    /// The number of callbacks delivered since the session started.
    pub fn delivered_callback_count(&self) -> (r: usize)
        ensures
            r == self@.delivered,
    {
        self.delivered_callbacks
    }

    /// Whether `id` is a pending request.
    pub fn test_pending_requests_contains(&self, id: &str) -> (r: bool)
        ensures
            r == self@.pending.contains(id@),
    {
        contains_id(&self.pending_requests, &id.to_owned())
    }

    /// Whether `id` was cancelled.
    pub fn test_cancelled_requests_contains(&self, id: &str) -> (r: bool)
        ensures
            r == self@.cancelled.contains(id@),
    {
        contains_id(&self.cancelled_requests, &id.to_owned())
    }
}

impl Default for WasmBridgeKernel {
    fn default() -> (r: Self)
        ensures
            r@ == initial_state(),
            r.env_rule() == ExecEnv::Strings,
            r.callback_rule() == CallbackShape::Envelope,
    {
        WasmBridgeKernel::new()
    }
}

} // verus!
