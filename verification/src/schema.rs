//! The records that the bridge and its host exchange, with the JSON shape of each.
use vstd::prelude::*;

use crate::fields::opt_view;
use crate::fields::ref_model;
use crate::fields::strings_model;
use crate::fields::field_of;
use crate::fields::record_shape;
use crate::fields::dec_string;
use crate::fields::dec_opt_string;
use crate::fields::dec_opt_value;
use crate::fields::dec_string_list;
use crate::fields::dec_opt_env;
use crate::fields::ExecEnv;
use crate::fields::dec_opt_u64;
use crate::fields::dec_u16;
use crate::fields::dec_i32;
use crate::fields::dec_opt_bool;
use crate::fields::dec_bool;
use crate::fields::dec_bool_or_false;
use crate::fields::decode_i32;
use crate::fields::decode_opt_bool;
use crate::fields::decode_bool_or_false;
use crate::fields::field_of_exec;
use crate::fields::record_shape_exec;
use crate::fields::decode_string;
use crate::fields::decode_opt_string;
use crate::fields::decode_opt_value;
use crate::fields::decode_string_list;
use crate::fields::decode_opt_env;
use crate::json::clone_members;
use crate::fields::decode_opt_u64;
use crate::fields::decode_u16;
use crate::json::json_model;
use crate::json::members_model;
use crate::json::items_model;
use crate::json::opt_model;
use crate::json::push_item;
use crate::json::push_member;
use crate::json::JsonModel;
use crate::json::JsonNumber;
use crate::json::JsonValue;
use crate::json::NumberModel;
use crate::json::lookup;
use crate::json::json_str;

verus! {

// ---------------------------------------------------------------------------------------
// Submit requests
// ---------------------------------------------------------------------------------------

/// `{ correlation_id, kind?, payload? }`: work handed to the bridge by `codex_submit`.
#[derive(Debug, Clone, PartialEq)]
pub struct WasmBridgeSubmitRequest {
    pub correlation_id: String,
    pub kind: Option<String>,
    pub payload: Option<JsonValue>,
}

pub struct SubmitRequestModel {
    pub correlation_id: Seq<char>,
    pub kind: Option<Seq<char>>,
    pub payload: Option<JsonModel>,
}

impl View for WasmBridgeSubmitRequest {
    type V = SubmitRequestModel;

    open spec fn view(&self) -> SubmitRequestModel {
        SubmitRequestModel {
            correlation_id: self.correlation_id@,
            kind: opt_view(self.kind),
            payload: opt_model(self.payload),
        }
    }
}

/// The submit request that a document describes, if it describes one.
pub open spec fn decode_submit_request(v: JsonModel) -> Option<SubmitRequestModel> {
    if !record_shape(v, 3) {
        None
    } else {
        match (
            dec_string(field_of(v, 0, "correlation_id"@)),
            dec_opt_string(field_of(v, 1, "kind"@)),
        ) {
            (Some(correlation_id), Some(kind)) => Some(
                SubmitRequestModel {
                    correlation_id,
                    kind,
                    payload: dec_opt_value(field_of(v, 2, "payload"@)),
                },
            ),
            _ => None,
        }
    }
}

impl WasmBridgeSubmitRequest {
    pub fn from_json(v: &JsonValue) -> (r: Option<Self>)
        ensures
            opt_view(r) == decode_submit_request(v@),
    {
        if !record_shape_exec(v, 3) {
            return None;
        }
        let correlation_id = decode_string(field_of_exec(v, 0, "correlation_id"));
        let kind = decode_opt_string(field_of_exec(v, 1, "kind"));
        let payload = decode_opt_value(field_of_exec(v, 2, "payload"));
        match (correlation_id, kind) {
            (Some(correlation_id), Some(kind)) => Some(
                WasmBridgeSubmitRequest { correlation_id, kind, payload },
            ),
            _ => None,
        }
    }
}

// ---------------------------------------------------------------------------------------
// Callbacks
// ---------------------------------------------------------------------------------------

/// `{ correlation_id?, capability?, payload?, error? }`: a result the host delivers.
#[derive(Debug, Clone, PartialEq)]
pub struct WasmBridgeCallbackEnvelope {
    pub correlation_id: Option<String>,
    pub capability: Option<String>,
    pub payload: Option<JsonValue>,
    pub error: Option<JsonValue>,
}

pub struct CallbackEnvelopeModel {
    pub correlation_id: Option<Seq<char>>,
    pub capability: Option<Seq<char>>,
    pub payload: Option<JsonModel>,
    pub error: Option<JsonModel>,
}

impl View for WasmBridgeCallbackEnvelope {
    type V = CallbackEnvelopeModel;

    open spec fn view(&self) -> CallbackEnvelopeModel {
        CallbackEnvelopeModel {
            correlation_id: opt_view(self.correlation_id),
            capability: opt_view(self.capability),
            payload: opt_model(self.payload),
            error: opt_model(self.error),
        }
    }
}

pub open spec fn decode_callback_envelope(v: JsonModel) -> Option<CallbackEnvelopeModel> {
    if !record_shape(v, 4) {
        None
    } else {
        match (
            dec_opt_string(field_of(v, 0, "correlation_id"@)),
            dec_opt_string(field_of(v, 1, "capability"@)),
        ) {
            (Some(correlation_id), Some(capability)) => Some(
                CallbackEnvelopeModel {
                    correlation_id,
                    capability,
                    payload: dec_opt_value(field_of(v, 2, "payload"@)),
                    error: dec_opt_value(field_of(v, 3, "error"@)),
                },
            ),
            _ => None,
        }
    }
}

impl WasmBridgeCallbackEnvelope {
    pub fn from_json(v: &JsonValue) -> (r: Option<Self>)
        ensures
            opt_view(r) == decode_callback_envelope(v@),
    {
        if !record_shape_exec(v, 4) {
            return None;
        }
        let correlation_id = decode_opt_string(field_of_exec(v, 0, "correlation_id"));
        let capability = decode_opt_string(field_of_exec(v, 1, "capability"));
        let payload = decode_opt_value(field_of_exec(v, 2, "payload"));
        let error = decode_opt_value(field_of_exec(v, 3, "error"));
        match (correlation_id, capability) {
            (Some(correlation_id), Some(capability)) => Some(
                WasmBridgeCallbackEnvelope { correlation_id, capability, payload, error },
            ),
            _ => None,
        }
    }
}

/// How much of a delivered callback a session reads.
#[derive(Debug, Clone, Copy, PartialEq, Eq)]
pub enum CallbackShape {
    /// The whole envelope: `correlation_id` and `capability` must each be a string or absent.
    Envelope,
    /// The `correlation_id` alone (a string or absent), in a record of that one field.
    CorrelationId,
}

/// The correlation id (if any) of a delivered callback read under `shape`, or nothing where
/// the document is not such a callback.
pub open spec fn callback_id(v: JsonModel, shape: CallbackShape) -> Option<Option<Seq<char>>> {
    match shape {
        CallbackShape::Envelope => match decode_callback_envelope(v) {
            Some(e) => Some(e.correlation_id),
            None => None,
        },
        CallbackShape::CorrelationId => if record_shape(v, 1) {
            dec_opt_string(field_of(v, 0, "correlation_id"@))
        } else {
            None
        },
    }
}

/// The correlation id of a delivered callback read under `shape`: `Some(id)` for a callback
/// (whose id may be absent), `None` for a document that is not one.
pub fn callback_correlation_id(v: &JsonValue, shape: CallbackShape) -> (r: Option<Option<String>>)
    ensures
        match r {
            Some(o) => callback_id(v@, shape) == Some(opt_view(o)),
            None => callback_id(v@, shape) is None,
        },
{
    match shape {
        CallbackShape::Envelope => match WasmBridgeCallbackEnvelope::from_json(v) {
            Some(e) => Some(e.correlation_id),
            None => None,
        },
        CallbackShape::CorrelationId => {
            if !record_shape_exec(v, 1) {
                return None;
            }
            decode_opt_string(field_of_exec(v, 0, "correlation_id"))
        },
    }
}

// ---------------------------------------------------------------------------------------
// Cancel requests
// ---------------------------------------------------------------------------------------

/// `{ correlation_id, reason? }`: a best-effort cancel.
#[derive(Debug, Clone, PartialEq, Eq)]
pub struct WasmBridgeCancelRequest {
    pub correlation_id: String,
    pub reason: Option<String>,
}

pub struct CancelRequestModel {
    pub correlation_id: Seq<char>,
    pub reason: Option<Seq<char>>,
}

impl View for WasmBridgeCancelRequest {
    type V = CancelRequestModel;

    open spec fn view(&self) -> CancelRequestModel {
        CancelRequestModel { correlation_id: self.correlation_id@, reason: opt_view(self.reason) }
    }
}

pub open spec fn decode_cancel_request(v: JsonModel) -> Option<CancelRequestModel> {
    if !record_shape(v, 2) {
        None
    } else {
        match (
            dec_string(field_of(v, 0, "correlation_id"@)),
            dec_opt_string(field_of(v, 1, "reason"@)),
        ) {
            (Some(correlation_id), Some(reason)) => Some(
                CancelRequestModel { correlation_id, reason },
            ),
            _ => None,
        }
    }
}

/// The document that a cancel request is written as.
pub open spec fn cancel_request_json(c: CancelRequestModel) -> JsonModel {
    JsonModel::Object(
        seq![
            ("correlation_id"@, JsonModel::Str(c.correlation_id)),
            ("reason"@, JsonModel::str_or_null(c.reason)),
        ],
    )
}

/// A string document holding a copy of `s`, or null.
pub fn str_or_null(s: &Option<String>) -> (r: JsonValue)
    ensures
        r@ == JsonModel::str_or_null(opt_view(*s)),
{
    match s {
        Some(t) => JsonValue::String(t.clone()),
        None => JsonValue::Null,
    }
}

impl WasmBridgeCancelRequest {
    pub fn from_json(v: &JsonValue) -> (r: Option<Self>)
        ensures
            opt_view(r) == decode_cancel_request(v@),
    {
        if !record_shape_exec(v, 2) {
            return None;
        }
        let correlation_id = decode_string(field_of_exec(v, 0, "correlation_id"));
        let reason = decode_opt_string(field_of_exec(v, 1, "reason"));
        match (correlation_id, reason) {
            (Some(correlation_id), Some(reason)) => Some(
                WasmBridgeCancelRequest { correlation_id, reason },
            ),
            _ => None,
        }
    }

    pub fn to_json(&self) -> (r: JsonValue)
        ensures
            r@ == cancel_request_json(self@),
    {
        let mut m: Vec<(String, JsonValue)> = Vec::new();
        push_member(&mut m, "correlation_id", JsonValue::String(self.correlation_id.clone()));
        push_member(&mut m, "reason", str_or_null(&self.reason));
        let r = JsonValue::Object(m);
        assert(members_model(m@) =~= seq![
            ("correlation_id"@, JsonModel::Str(self.correlation_id@)),
            ("reason"@, JsonModel::str_or_null(opt_view(self.reason))),
        ]);
        r
    }
}

// ---------------------------------------------------------------------------------------
// Host calls
// ---------------------------------------------------------------------------------------

/// A call of a host capability that the bridge asks the host to make.
#[derive(Debug, Clone, PartialEq)]
pub struct WasmBridgeHostCall {
    pub correlation_id: String,
    pub capability: String,
    pub payload: Option<JsonValue>,
}

pub struct HostCallModel {
    pub correlation_id: Seq<char>,
    pub capability: Seq<char>,
    pub payload: Option<JsonModel>,
}

impl View for WasmBridgeHostCall {
    type V = HostCallModel;

    open spec fn view(&self) -> HostCallModel {
        HostCallModel {
            correlation_id: self.correlation_id@,
            capability: self.capability@,
            payload: opt_model(self.payload),
        }
    }
}

// ---------------------------------------------------------------------------------------
// Exec requests
// ---------------------------------------------------------------------------------------

/// Rows and columns of a terminal.
#[derive(Debug, Clone, Copy, PartialEq, Eq)]
pub struct WasmBridgeExecTerminalSize {
    pub rows: u16,
    pub cols: u16,
}

/// How the host attaches the spawned process: `kind`, `stdin_policy?`, `size?`.
#[derive(Debug, Clone, PartialEq, Eq)]
pub struct WasmBridgeExecTransport {
    pub kind: String,
    pub stdin_policy: Option<String>,
    pub size: Option<WasmBridgeExecTerminalSize>,
}

pub struct ExecTransportModel {
    pub kind: Seq<char>,
    pub stdin_policy: Option<Seq<char>>,
    pub size: Option<WasmBridgeExecTerminalSize>,
}

impl View for WasmBridgeExecTransport {
    type V = ExecTransportModel;

    open spec fn view(&self) -> ExecTransportModel {
        ExecTransportModel {
            kind: self.kind@,
            stdin_policy: opt_view(self.stdin_policy),
            size: self.size,
        }
    }
}

/// A process the host is asked to run. The environment is an object, kept member for
/// member; which values it may hold is the [`ExecEnv`] rule it was read under.
#[derive(Debug, Clone, PartialEq, Eq)]
pub struct WasmBridgeExecRequest {
    pub command: String,
    pub args: Vec<String>,
    pub arg0: Option<String>,
    pub cwd: Option<String>,
    pub env: Option<Vec<(String, JsonValue)>>,
    pub timeout_ms: Option<u64>,
    pub stdin: Option<String>,
    pub transport: Option<WasmBridgeExecTransport>,
}

pub struct ExecRequestModel {
    pub command: Seq<char>,
    pub args: Seq<Seq<char>>,
    pub arg0: Option<Seq<char>>,
    pub cwd: Option<Seq<char>>,
    pub env: Option<Seq<(Seq<char>, JsonModel)>>,
    pub timeout_ms: Option<u64>,
    pub stdin: Option<Seq<char>>,
    pub transport: Option<ExecTransportModel>,
}

pub open spec fn opt_members_model(e: Option<Vec<(String, JsonValue)>>) -> Option<
    Seq<(Seq<char>, JsonModel)>,
> {
    match e {
        Some(v) => Some(members_model(v@)),
        None => None,
    }
}

impl View for WasmBridgeExecRequest {
    type V = ExecRequestModel;

    open spec fn view(&self) -> ExecRequestModel {
        ExecRequestModel {
            command: self.command@,
            args: strings_model(self.args@),
            arg0: opt_view(self.arg0),
            cwd: opt_view(self.cwd),
            env: opt_members_model(self.env),
            timeout_ms: self.timeout_ms,
            stdin: opt_view(self.stdin),
            transport: opt_view(self.transport),
        }
    }
}

pub open spec fn decode_terminal_size(v: JsonModel) -> Option<WasmBridgeExecTerminalSize> {
    if !record_shape(v, 2) {
        None
    } else {
        match (dec_u16(field_of(v, 0, "rows"@)), dec_u16(field_of(v, 1, "cols"@))) {
            (Some(rows), Some(cols)) => Some(WasmBridgeExecTerminalSize { rows, cols }),
            _ => None,
        }
    }
}

pub open spec fn dec_opt_terminal_size(f: Option<JsonModel>) -> Option<
    Option<WasmBridgeExecTerminalSize>,
> {
    match f {
        None => Some(None),
        Some(JsonModel::Null) => Some(None),
        Some(v) => match decode_terminal_size(v) {
            Some(s) => Some(Some(s)),
            None => None,
        },
    }
}

pub open spec fn decode_exec_transport(v: JsonModel) -> Option<ExecTransportModel> {
    if !record_shape(v, 3) {
        None
    } else {
        match (
            dec_string(field_of(v, 0, "kind"@)),
            dec_opt_string(field_of(v, 1, "stdin_policy"@)),
            dec_opt_terminal_size(field_of(v, 2, "size"@)),
        ) {
            (Some(kind), Some(stdin_policy), Some(size)) => Some(
                ExecTransportModel { kind, stdin_policy, size },
            ),
            _ => None,
        }
    }
}

pub open spec fn dec_opt_exec_transport(f: Option<JsonModel>) -> Option<
    Option<ExecTransportModel>,
> {
    match f {
        None => Some(None),
        Some(JsonModel::Null) => Some(None),
        Some(v) => match decode_exec_transport(v) {
            Some(t) => Some(Some(t)),
            None => None,
        },
    }
}

/// The exec request that a document describes, if it describes one, its environment read
/// under `rule`.
pub open spec fn decode_exec_request(v: JsonModel, rule: ExecEnv) -> Option<ExecRequestModel> {
    if !record_shape(v, 8) {
        None
    } else {
        match (
            dec_string(field_of(v, 0, "command"@)),
            dec_string_list(field_of(v, 1, "args"@)),
            dec_opt_string(field_of(v, 2, "arg0"@)),
            dec_opt_string(field_of(v, 3, "cwd"@)),
            dec_opt_env(field_of(v, 4, "env"@), rule),
            dec_opt_u64(field_of(v, 5, "timeout_ms"@)),
            dec_opt_string(field_of(v, 6, "stdin"@)),
            dec_opt_exec_transport(field_of(v, 7, "transport"@)),
        ) {
            (
                Some(command),
                Some(args),
                Some(arg0),
                Some(cwd),
                Some(env),
                Some(timeout_ms),
                Some(stdin),
                Some(transport),
            ) => Some(
                ExecRequestModel { command, args, arg0, cwd, env, timeout_ms, stdin, transport },
            ),
            _ => None,
        }
    }
}

/// `{ rows, cols }`.
pub open spec fn terminal_size_json(s: WasmBridgeExecTerminalSize) -> JsonModel {
    JsonModel::Object(
        seq![
            ("rows"@, JsonModel::Number(NumberModel::PosInt(s.rows as u64))),
            ("cols"@, JsonModel::Number(NumberModel::PosInt(s.cols as u64))),
        ],
    )
}

/// The transport as the host payload carries it: `kind`, then `stdin_policy` and `size`
/// only where they are given.
pub open spec fn exec_transport_json(t: ExecTransportModel) -> JsonModel {
    JsonModel::Object(
        seq![("kind"@, JsonModel::Str(t.kind))] + match t.stdin_policy {
            Some(p) => seq![("stdin_policy"@, JsonModel::Str(p))],
            None => Seq::empty(),
        } + match t.size {
            Some(s) => seq![("size"@, terminal_size_json(s))],
            None => Seq::empty(),
        },
    )
}

/// `[ "a", "b", ... ]`.
pub open spec fn strings_json(s: Seq<Seq<char>>) -> JsonModel {
    JsonModel::Array(s.map_values(|x: Seq<char>| JsonModel::Str(x)))
}

/// The environment as an object, or null.
pub open spec fn env_json(e: Option<Seq<(Seq<char>, JsonModel)>>) -> JsonModel {
    match e {
        Some(members) => JsonModel::Object(members),
        None => JsonModel::Null,
    }
}

pub open spec fn u64_or_null(t: Option<u64>) -> JsonModel {
    match t {
        Some(n) => JsonModel::Number(NumberModel::PosInt(n)),
        None => JsonModel::Null,
    }
}

/// The payload of a `host_exec_request` host call: `command`, `args`, `arg0` only where
/// given, `cwd`, `env`, `timeout_ms` and `stdin` (null where not given), and `transport`
/// only where given.
pub open spec fn exec_payload_json(e: ExecRequestModel) -> JsonModel {
    JsonModel::Object(
        seq![("command"@, JsonModel::Str(e.command)), ("args"@, strings_json(e.args))]
            + match e.arg0 {
            Some(a) => seq![("arg0"@, JsonModel::Str(a))],
            None => Seq::empty(),
        } + seq![
            ("cwd"@, JsonModel::str_or_null(e.cwd)),
            ("env"@, env_json(e.env)),
            ("timeout_ms"@, u64_or_null(e.timeout_ms)),
            ("stdin"@, JsonModel::str_or_null(e.stdin)),
        ] + match e.transport {
            Some(t) => seq![("transport"@, exec_transport_json(t))],
            None => Seq::empty(),
        },
    )
}

impl WasmBridgeExecTerminalSize {
    pub fn from_json(v: &JsonValue) -> (r: Option<Self>)
        ensures
            r == decode_terminal_size(v@),
    {
        if !record_shape_exec(v, 2) {
            return None;
        }
        let rows = decode_u16(field_of_exec(v, 0, "rows"));
        let cols = decode_u16(field_of_exec(v, 1, "cols"));
        match (rows, cols) {
            (Some(rows), Some(cols)) => Some(WasmBridgeExecTerminalSize { rows, cols }),
            _ => None,
        }
    }

    pub fn to_json(&self) -> (r: JsonValue)
        ensures
            r@ == terminal_size_json(*self),
    {
        let mut m: Vec<(String, JsonValue)> = Vec::new();
        push_member(&mut m, "rows", JsonValue::Number(JsonNumber::PosInt(self.rows as u64)));
        push_member(&mut m, "cols", JsonValue::Number(JsonNumber::PosInt(self.cols as u64)));
        let r = JsonValue::Object(m);
        assert(members_model(m@) =~= seq![
            ("rows"@, JsonModel::Number(NumberModel::PosInt(self.rows as u64))),
            ("cols"@, JsonModel::Number(NumberModel::PosInt(self.cols as u64))),
        ]);
        r
    }
}

fn decode_opt_terminal_size(f: Option<&JsonValue>) -> (r: Option<Option<WasmBridgeExecTerminalSize>>)
    ensures
        r == dec_opt_terminal_size(ref_model(f)),
{
    match f {
        None => Some(None),
        Some(JsonValue::Null) => Some(None),
        Some(v) => match WasmBridgeExecTerminalSize::from_json(v) {
            Some(s) => Some(Some(s)),
            None => None,
        },
    }
}

fn decode_opt_exec_transport(f: Option<&JsonValue>) -> (r: Option<Option<WasmBridgeExecTransport>>)
    ensures
        match r {
            Some(o) => dec_opt_exec_transport(ref_model(f)) == Some(opt_view(o)),
            None => dec_opt_exec_transport(ref_model(f)) is None,
        },
{
    match f {
        None => Some(None),
        Some(JsonValue::Null) => Some(None),
        Some(v) => match WasmBridgeExecTransport::from_json(v) {
            Some(t) => Some(Some(t)),
            None => None,
        },
    }
}

impl WasmBridgeExecTransport {
    pub fn from_json(v: &JsonValue) -> (r: Option<Self>)
        ensures
            opt_view(r) == decode_exec_transport(v@),
    {
        if !record_shape_exec(v, 3) {
            return None;
        }
        let kind = decode_string(field_of_exec(v, 0, "kind"));
        let stdin_policy = decode_opt_string(field_of_exec(v, 1, "stdin_policy"));
        let size = decode_opt_terminal_size(field_of_exec(v, 2, "size"));
        match (kind, stdin_policy, size) {
            (Some(kind), Some(stdin_policy), Some(size)) => Some(
                WasmBridgeExecTransport { kind, stdin_policy, size },
            ),
            _ => None,
        }
    }

    /// The transport as the host payload carries it.
    pub fn to_json(&self) -> (r: JsonValue)
        ensures
            r@ == exec_transport_json(self@),
    {
        let mut m: Vec<(String, JsonValue)> = Vec::new();
        push_member(&mut m, "kind", JsonValue::String(self.kind.clone()));
        let ghost first = members_model(m@);
        match &self.stdin_policy {
            Some(p) => push_member(&mut m, "stdin_policy", JsonValue::String(p.clone())),
            None => {},
        }
        let ghost second = members_model(m@);
        match &self.size {
            Some(s) => push_member(&mut m, "size", s.to_json()),
            None => {},
        }
        let r = JsonValue::Object(m);
        assert(members_model(m@) =~= seq![("kind"@, JsonModel::Str(self.kind@))]
            + match self@.stdin_policy {
            Some(p) => seq![("stdin_policy"@, JsonModel::Str(p))],
            None => Seq::empty(),
        } + match self.size {
            Some(s) => seq![("size"@, terminal_size_json(s))],
            None => Seq::empty(),
        });
        r
    }
}

/// `[ "a", "b", ... ]` for a list of strings.
pub fn strings_to_json(v: &Vec<String>) -> (r: JsonValue)
    ensures
        r@ == strings_json(strings_model(v@)),
{
    let mut out: Vec<JsonValue> = Vec::new();
    let mut i: usize = 0;
    while i < v.len()
        invariant
            i <= v@.len(),
            items_model(out@) == strings_model(v@).take(i as int).map_values(
                |x: Seq<char>| JsonModel::Str(x),
            ),
        decreases v@.len() - i,
    {
        let ghost before = items_model(out@);
        push_item(&mut out, JsonValue::String(v[i].clone()));
        assert(strings_model(v@).take(i + 1) =~= strings_model(v@).take(i as int).push(v@[i as int]@));
        assert(items_model(out@) =~= strings_model(v@).take(i + 1).map_values(
            |x: Seq<char>| JsonModel::Str(x),
        ));
        i = i + 1;
    }
    assert(strings_model(v@).take(v@.len() as int) =~= strings_model(v@));
    JsonValue::Array(out)
}

/// The environment as an object, or null.
pub fn env_to_json(e: &Option<Vec<(String, JsonValue)>>) -> (r: JsonValue)
    ensures
        r@ == env_json(opt_members_model(*e)),
{
    match e {
        None => JsonValue::Null,
        Some(members) => JsonValue::Object(clone_members(members)),
    }
}

impl WasmBridgeExecRequest {
    /// The exec request that a document describes, if it describes one, its environment
    /// read under `rule`.
    pub fn from_json(v: &JsonValue, rule: ExecEnv) -> (r: Option<Self>)
        ensures
            opt_view(r) == decode_exec_request(v@, rule),
    {
        if !record_shape_exec(v, 8) {
            return None;
        }
        let command = decode_string(field_of_exec(v, 0, "command"));
        let args = decode_string_list(field_of_exec(v, 1, "args"));
        let arg0 = decode_opt_string(field_of_exec(v, 2, "arg0"));
        let cwd = decode_opt_string(field_of_exec(v, 3, "cwd"));
        let env = decode_opt_env(field_of_exec(v, 4, "env"), rule);
        let timeout_ms = decode_opt_u64(field_of_exec(v, 5, "timeout_ms"));
        let stdin = decode_opt_string(field_of_exec(v, 6, "stdin"));
        let transport = decode_opt_exec_transport(field_of_exec(v, 7, "transport"));
        match (command, args, arg0, cwd, env, timeout_ms, stdin, transport) {
            (
                Some(command),
                Some(args),
                Some(arg0),
                Some(cwd),
                Some(env),
                Some(timeout_ms),
                Some(stdin),
                Some(transport),
            ) => Some(
                WasmBridgeExecRequest { command, args, arg0, cwd, env, timeout_ms, stdin, transport },
            ),
            _ => None,
        }
    }

    /// The payload of the `host_exec_request` host call that runs this request.
    pub fn to_host_payload(&self) -> (r: JsonValue)
        ensures
            r@ == exec_payload_json(self@),
    {
        let mut m: Vec<(String, JsonValue)> = Vec::new();
        push_member(&mut m, "command", JsonValue::String(self.command.clone()));
        push_member(&mut m, "args", strings_to_json(&self.args));
        match &self.arg0 {
            Some(a) => push_member(&mut m, "arg0", JsonValue::String(a.clone())),
            None => {},
        }
        push_member(&mut m, "cwd", str_or_null(&self.cwd));
        push_member(&mut m, "env", env_to_json(&self.env));
        let timeout = match self.timeout_ms {
            Some(t) => JsonValue::Number(JsonNumber::PosInt(t)),
            None => JsonValue::Null,
        };
        push_member(&mut m, "timeout_ms", timeout);
        push_member(&mut m, "stdin", str_or_null(&self.stdin));
        match &self.transport {
            Some(t) => push_member(&mut m, "transport", t.to_json()),
            None => {},
        }
        let ghost e = self@;
        assert(members_model(m@) =~= seq![
            ("command"@, JsonModel::Str(e.command)),
            ("args"@, strings_json(e.args)),
        ] + match e.arg0 {
            Some(a) => seq![("arg0"@, JsonModel::Str(a))],
            None => Seq::empty(),
        } + seq![
            ("cwd"@, JsonModel::str_or_null(e.cwd)),
            ("env"@, env_json(e.env)),
            ("timeout_ms"@, u64_or_null(e.timeout_ms)),
            ("stdin"@, JsonModel::str_or_null(e.stdin)),
        ] + match e.transport {
            Some(t) => seq![("transport"@, exec_transport_json(t))],
            None => Seq::empty(),
        });
        JsonValue::Object(m)
    }
}

// ---------------------------------------------------------------------------------------
// HTTP
// ---------------------------------------------------------------------------------------

/// A host HTTP request routed through `host_http_request`.
#[derive(Debug, Clone, PartialEq)]
pub struct WasmBridgeHttpRequest {
    pub url: String,
    pub method: Option<String>,
    pub headers: Option<JsonValue>,
    pub body: Option<String>,
    pub timeout_ms: Option<u64>,
    /// When true, the host delivers [`WasmBridgeHttpStreamChunk`] callbacks instead of
    /// buffering the whole body into one [`WasmBridgeHttpResponse`].
    pub stream_response: Option<bool>,
}

pub struct HttpRequestModel {
    pub url: Seq<char>,
    pub method: Option<Seq<char>>,
    pub headers: Option<JsonModel>,
    pub body: Option<Seq<char>>,
    pub timeout_ms: Option<u64>,
    pub stream_response: Option<bool>,
}

impl View for WasmBridgeHttpRequest {
    type V = HttpRequestModel;

    open spec fn view(&self) -> HttpRequestModel {
        HttpRequestModel {
            url: self.url@,
            method: opt_view(self.method),
            headers: opt_model(self.headers),
            body: opt_view(self.body),
            timeout_ms: self.timeout_ms,
            stream_response: self.stream_response,
        }
    }
}

pub open spec fn decode_http_request(v: JsonModel) -> Option<HttpRequestModel> {
    if !record_shape(v, 6) {
        None
    } else {
        match (
            dec_string(field_of(v, 0, "url"@)),
            dec_opt_string(field_of(v, 1, "method"@)),
            dec_opt_string(field_of(v, 3, "body"@)),
            dec_opt_u64(field_of(v, 4, "timeout_ms"@)),
            dec_opt_bool(field_of(v, 5, "stream_response"@)),
        ) {
            (Some(url), Some(method), Some(body), Some(timeout_ms), Some(stream_response)) => Some(
                HttpRequestModel {
                    url,
                    method,
                    headers: dec_opt_value(field_of(v, 2, "headers"@)),
                    body,
                    timeout_ms,
                    stream_response,
                },
            ),
            _ => None,
        }
    }
}

impl WasmBridgeHttpRequest {
    /// The HTTP request that a document describes, if it describes one.
    pub fn from_json(v: &JsonValue) -> (r: Option<Self>)
        ensures
            opt_view(r) == decode_http_request(v@),
    {
        if !record_shape_exec(v, 6) {
            return None;
        }
        let url = decode_string(field_of_exec(v, 0, "url"));
        let method = decode_opt_string(field_of_exec(v, 1, "method"));
        let headers = decode_opt_value(field_of_exec(v, 2, "headers"));
        let body = decode_opt_string(field_of_exec(v, 3, "body"));
        let timeout_ms = decode_opt_u64(field_of_exec(v, 4, "timeout_ms"));
        let stream_response = decode_opt_bool(field_of_exec(v, 5, "stream_response"));
        match (url, method, body, timeout_ms, stream_response) {
            (Some(url), Some(method), Some(body), Some(timeout_ms), Some(stream_response)) => Some(
                WasmBridgeHttpRequest { url, method, headers, body, timeout_ms, stream_response },
            ),
            _ => None,
        }
    }
}

/// A buffered HTTP response (the non-streaming path).
#[derive(Debug, Clone, PartialEq)]
pub struct WasmBridgeHttpResponse {
    pub correlation_id: String,
    pub status: u16,
    pub headers: JsonValue,
    pub body: String,
}

/// One chunk of a streamed HTTP response; `done` marks the last one.
#[derive(Debug, Clone, PartialEq, Eq)]
pub struct WasmBridgeHttpStreamChunk {
    pub correlation_id: String,
    pub chunk: String,
    pub done: bool,
}

// ---------------------------------------------------------------------------------------
// Exec events
// ---------------------------------------------------------------------------------------

/// The `payload` of a `capability: "exec"` callback, tagged by `kind`
/// (`exec_chunk` or `exec_exit`).
#[derive(Debug, Clone, PartialEq)]
pub enum WasmBridgeExecHostEvent {
    ExecChunk { correlation_id: String, stream: String, data: String },
    ExecExit { correlation_id: String, exit_code: i32, signal: Option<JsonValue>, cancelled: bool },
}

pub enum ExecHostEventModel {
    ExecChunk { correlation_id: Seq<char>, stream: Seq<char>, data: Seq<char> },
    ExecExit {
        correlation_id: Seq<char>,
        exit_code: i32,
        signal: Option<JsonModel>,
        cancelled: bool,
    },
}

impl View for WasmBridgeExecHostEvent {
    type V = ExecHostEventModel;

    open spec fn view(&self) -> ExecHostEventModel {
        match self {
            WasmBridgeExecHostEvent::ExecChunk { correlation_id, stream, data } => {
                ExecHostEventModel::ExecChunk {
                    correlation_id: correlation_id@,
                    stream: stream@,
                    data: data@,
                }
            },
            WasmBridgeExecHostEvent::ExecExit { correlation_id, exit_code, signal, cancelled } => {
                ExecHostEventModel::ExecExit {
                    correlation_id: correlation_id@,
                    exit_code: *exit_code,
                    signal: opt_model(*signal),
                    cancelled: *cancelled,
                }
            },
        }
    }
}

/// The number document of a 32-bit integer.
pub open spec fn i32_json(n: i32) -> JsonModel {
    if n >= 0 {
        JsonModel::Number(NumberModel::PosInt(n as u64))
    } else {
        JsonModel::Number(NumberModel::NegInt(n as i64))
    }
}

/// The document an exec event is written as: `kind` first, then the variant's fields, with
/// a null `signal` where there is none.
pub open spec fn exec_host_event_json(e: ExecHostEventModel) -> JsonModel {
    match e {
        ExecHostEventModel::ExecChunk { correlation_id, stream, data } => JsonModel::Object(
            seq![
                ("kind"@, JsonModel::Str("exec_chunk"@)),
                ("correlation_id"@, JsonModel::Str(correlation_id)),
                ("stream"@, JsonModel::Str(stream)),
                ("data"@, JsonModel::Str(data)),
            ],
        ),
        ExecHostEventModel::ExecExit { correlation_id, exit_code, signal, cancelled } => {
            JsonModel::Object(
                seq![
                    ("kind"@, JsonModel::Str("exec_exit"@)),
                    ("correlation_id"@, JsonModel::Str(correlation_id)),
                    ("exit_code"@, i32_json(exit_code)),
                    (
                        "signal"@,
                        match signal {
                            Some(s) => s,
                            None => JsonModel::Null,
                        },
                    ),
                    ("cancelled"@, JsonModel::Bool(cancelled)),
                ],
            )
        },
    }
}

/// The exec event that an object tagged by `kind` describes, if it describes one.
pub open spec fn decode_exec_host_event(v: JsonModel) -> Option<ExecHostEventModel> {
    match v {
        JsonModel::Object(m) => match lookup(m, "kind"@) {
            Some(JsonModel::Str(kind)) => if kind == "exec_chunk"@ {
                match (
                    dec_string(lookup(m, "correlation_id"@)),
                    dec_string(lookup(m, "stream"@)),
                    dec_string(lookup(m, "data"@)),
                ) {
                    (Some(correlation_id), Some(stream), Some(data)) => Some(
                        ExecHostEventModel::ExecChunk { correlation_id, stream, data },
                    ),
                    _ => None,
                }
            } else if kind == "exec_exit"@ {
                match (
                    dec_string(lookup(m, "correlation_id"@)),
                    dec_i32(lookup(m, "exit_code"@)),
                    dec_bool_or_false(lookup(m, "cancelled"@)),
                ) {
                    (Some(correlation_id), Some(exit_code), Some(cancelled)) => Some(
                        ExecHostEventModel::ExecExit {
                            correlation_id,
                            exit_code,
                            signal: dec_opt_value(lookup(m, "signal"@)),
                            cancelled,
                        },
                    ),
                    _ => None,
                }
            } else {
                None
            },
            _ => None,
        },
        _ => None,
    }
}

fn exec_chunk_json(correlation_id: &String, stream: &String, data: &String) -> (r: JsonValue)
    ensures
        r@ == exec_host_event_json(
            ExecHostEventModel::ExecChunk {
                correlation_id: correlation_id@,
                stream: stream@,
                data: data@,
            },
        ),
{
    let mut m: Vec<(String, JsonValue)> = Vec::new();
    push_member(&mut m, "kind", json_str("exec_chunk"));
    push_member(&mut m, "correlation_id", JsonValue::String(correlation_id.clone()));
    push_member(&mut m, "stream", JsonValue::String(stream.clone()));
    push_member(&mut m, "data", JsonValue::String(data.clone()));
    assert(members_model(m@) =~= seq![
        ("kind"@, JsonModel::Str("exec_chunk"@)),
        ("correlation_id"@, JsonModel::Str(correlation_id@)),
        ("stream"@, JsonModel::Str(stream@)),
        ("data"@, JsonModel::Str(data@)),
    ]);
    JsonValue::Object(m)
}

fn exec_exit_json(correlation_id: &String, exit_code: i32, signal: &Option<JsonValue>, cancelled: bool) -> (r: JsonValue)
    ensures
        r@ == exec_host_event_json(
            ExecHostEventModel::ExecExit {
                correlation_id: correlation_id@,
                exit_code,
                signal: opt_model(*signal),
                cancelled,
            },
        ),
{
    let mut m: Vec<(String, JsonValue)> = Vec::new();
    push_member(&mut m, "kind", json_str("exec_exit"));
    push_member(&mut m, "correlation_id", JsonValue::String(correlation_id.clone()));
    let code = if exit_code >= 0 {
        JsonValue::Number(JsonNumber::PosInt(exit_code as u64))
    } else {
        JsonValue::Number(JsonNumber::NegInt(exit_code as i64))
    };
    push_member(&mut m, "exit_code", code);
    let sig = match signal {
        Some(s) => s.deep_clone(),
        None => JsonValue::Null,
    };
    push_member(&mut m, "signal", sig);
    push_member(&mut m, "cancelled", JsonValue::Bool(cancelled));
    assert(members_model(m@) =~= seq![
        ("kind"@, JsonModel::Str("exec_exit"@)),
        ("correlation_id"@, JsonModel::Str(correlation_id@)),
        ("exit_code"@, i32_json(exit_code)),
        (
            "signal"@,
            match opt_model(*signal) {
                Some(s) => s,
                None => JsonModel::Null,
            },
        ),
        ("cancelled"@, JsonModel::Bool(cancelled)),
    ]);
    let ghost expect = seq![
        ("kind"@, JsonModel::Str("exec_exit"@)),
        ("correlation_id"@, JsonModel::Str(correlation_id@)),
        ("exit_code"@, i32_json(exit_code)),
        (
            "signal"@,
            match opt_model(*signal) {
                Some(s) => s,
                None => JsonModel::Null,
            },
        ),
        ("cancelled"@, JsonModel::Bool(cancelled)),
    ];
    assert(exec_host_event_json(ExecHostEventModel::ExecExit {
                correlation_id: correlation_id@,
                exit_code,
                signal: opt_model(*signal),
                cancelled,
            })->Object_0 =~= expect);
    JsonValue::Object(m)
}

impl WasmBridgeExecHostEvent {
    pub fn to_json(&self) -> (r: JsonValue)
        ensures
            r@ == exec_host_event_json(self@),
    {
        match self {
            WasmBridgeExecHostEvent::ExecChunk { correlation_id, stream, data } => {
                exec_chunk_json(correlation_id, stream, data)
            },
            WasmBridgeExecHostEvent::ExecExit { correlation_id, exit_code, signal, cancelled } => {
                exec_exit_json(correlation_id, *exit_code, signal, *cancelled)
            },
        }
    }

    /// The exec event that a document describes, if it describes one.
    pub fn from_json(v: &JsonValue) -> (r: Option<Self>)
        ensures
            opt_view(r) == decode_exec_host_event(v@),
    {
        match v {
            JsonValue::Object(_) => {},
            _ => return None,
        }
        let kind = match v.get("kind") {
            Some(JsonValue::String(k)) => k,
            _ => return None,
        };
        if crate::extension::str_eq(kind.as_str(), "exec_chunk") {
            let correlation_id = decode_string(v.get("correlation_id"));
            let stream = decode_string(v.get("stream"));
            let data = decode_string(v.get("data"));
            match (correlation_id, stream, data) {
                (Some(correlation_id), Some(stream), Some(data)) => Some(
                    WasmBridgeExecHostEvent::ExecChunk { correlation_id, stream, data },
                ),
                _ => None,
            }
        } else if crate::extension::str_eq(kind.as_str(), "exec_exit") {
            let correlation_id = decode_string(v.get("correlation_id"));
            let exit_code = decode_i32(v.get("exit_code"));
            let cancelled = decode_bool_or_false(v.get("cancelled"));
            let signal = decode_opt_value(v.get("signal"));
            match (correlation_id, exit_code, cancelled) {
                (Some(correlation_id), Some(exit_code), Some(cancelled)) => Some(
                    WasmBridgeExecHostEvent::ExecExit { correlation_id, exit_code, signal, cancelled },
                ),
                _ => None,
            }
        } else {
            None
        }
    }
}

} // verus!
