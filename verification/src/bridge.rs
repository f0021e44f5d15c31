//! The bridge's exported entry points (`codex_init`, `codex_submit`,
//! `codex_deliver_callback`, `codex_cancel`, `codex_shutdown`) over one kernel session, and
//! the hand-off of host calls to the host's imports.
//!
//! Where no host import serves a capability, the bridge answers the call itself with a
//! `missing_capability` callback.
use vstd::prelude::*;

use crate::extension::str_eq;
use crate::fields::opt_view;
use crate::json::json_str;
use crate::json::lookup;
use crate::json::members_model;
use crate::json::opt_model;
use crate::json::push_member;
use crate::json::JsonModel;
use crate::json::JsonValue;
use crate::kernel::callback_step;
use crate::kernel::config_input;
use crate::kernel::cancel_step;
use crate::kernel::counts_as_callback;
use crate::kernel::error_response;
use crate::kernel::error_response_json;
use crate::kernel::init_step;
use crate::kernel::initial_state;
use crate::kernel::input_model;
use crate::kernel::submit_step;
use crate::kernel::KernelModel;
use crate::kernel::WasmBridgeKernel;
use crate::schema::decode_callback_envelope;
use crate::schema::callback_id;
use crate::schema::CallbackShape;
use crate::schema::CallbackEnvelopeModel;
use crate::schema::HostCallModel;
use crate::schema::WasmBridgeHostCall;

verus! {

broadcast use vstd::std_specs::vec::group_vec_axioms;

/// The callback with which the bridge answers a host call that no host import serves.
pub open spec fn missing_capability_callback(correlation_id: Seq<char>, capability: Seq<char>) -> JsonModel {
    error_response(
        correlation_id,
        "missing_capability"@,
        "host capability is not available in this runtime"@,
        Some(JsonModel::Object(seq![("capability"@, JsonModel::Str(capability))])),
    )
}

pub fn missing_capability_callback_json(correlation_id: &str, capability: &str) -> (r: JsonValue)
    ensures
        r@ == missing_capability_callback(correlation_id@, capability@),
{
    let mut d: Vec<(String, JsonValue)> = Vec::new();
    push_member(&mut d, "capability", json_str(capability));
    assert(members_model(d@) =~= seq![("capability"@, JsonModel::Str(capability@))]);
    error_response_json(
        correlation_id,
        "missing_capability",
        "host capability is not available in this runtime",
        Some(JsonValue::Object(d)),
    )
}

/// The `missing_capability` callback is a callback envelope for the call's request, and
/// under either callback shape it is a callback naming that request.
pub proof fn lemma_missing_capability_is_a_callback(correlation_id: Seq<char>, capability: Seq<char>)
    ensures
        forall|shape: CallbackShape|
            #[trigger] callback_id(missing_capability_callback(correlation_id, capability), shape)
                == Some(Some(correlation_id)),
        decode_callback_envelope(missing_capability_callback(correlation_id, capability))
            == Some(
            CallbackEnvelopeModel {
                correlation_id: Some(correlation_id),
                capability: None,
                payload: None,
                error: missing_capability_callback(correlation_id, capability).get("error"@),
            },
        ),
        missing_capability_callback(correlation_id, capability).get("error"@) is Some,
{
    reveal_strlit("correlation_id");
    reveal_strlit("capability");
    reveal_strlit("payload");
    reveal_strlit("error");
    let v = missing_capability_callback(correlation_id, capability);
    let m = match v {
        JsonModel::Object(m) => m,
        _ => Seq::empty(),
    };
    assert(m.len() == 2);
    assert(m[0].0 == "correlation_id"@);
    assert(m[1].0 == "error"@);
    assert("capability"@ != "correlation_id"@);
    assert("capability"@ != "error"@);
    assert("payload"@ != "correlation_id"@);
    assert("payload"@ != "error"@);
    assert("error"@ != "correlation_id"@);
    assert(m.drop_first().drop_first().len() == 0);
    assert(lookup(m, "correlation_id"@) == Some(JsonModel::Str(correlation_id)));
    assert(lookup(m.drop_first(), "capability"@) == lookup(m.drop_first().drop_first(), "capability"@));
    assert(lookup(m, "capability"@) is None);
    assert(lookup(m.drop_first(), "payload"@) == lookup(m.drop_first().drop_first(), "payload"@));
    assert(lookup(m, "payload"@) is None);
    assert(lookup(m.drop_first(), "error"@) == Some(m[1].1));
    assert(lookup(m, "error"@) == Some(m[1].1));
}

/// The ids of a sequence of host calls.
pub open spec fn call_ids(calls: Seq<HostCallModel>) -> Set<Seq<char>> {
    Set::new(|id: Seq<char>| exists|i: int| 0 <= i < calls.len() && (#[trigger] calls[i]).correlation_id == id)
}

/// The session after each of `calls` was answered with a `missing_capability` callback:
/// every one is counted, and none of their requests is pending any more.
pub open spec fn after_missing_capability(st: KernelModel, calls: Seq<HostCallModel>) -> KernelModel {
    KernelModel {
        delivered: st.delivered + calls.len(),
        pending: st.pending.difference(call_ids(calls)),
        ..st
    }
}

/// Answers each host call with a `missing_capability` callback delivered to the session.
pub fn dispatch_pending_host_calls(kernel: &mut WasmBridgeKernel, host_calls: Vec<WasmBridgeHostCall>)
    requires
        old(kernel)@.delivered + host_calls@.len() <= usize::MAX,
    ensures
        final(kernel)@ == after_missing_capability(
            old(kernel)@,
            host_calls@.map_values(|c: WasmBridgeHostCall| c@),
        ),
{
    let ghost calls = host_calls@.map_values(|c: WasmBridgeHostCall| c@);
    let ghost start = kernel@;
    let mut i: usize = 0;
    assert(after_missing_capability(start, calls.take(0)) =~= start) by {
        assert(call_ids(calls.take(0)) =~= Set::empty());
    }
    while i < host_calls.len()
        invariant
            calls == host_calls@.map_values(|c: WasmBridgeHostCall| c@),
            start.delivered + calls.len() <= usize::MAX,
            i <= host_calls@.len(),
            kernel@ == after_missing_capability(start, calls.take(i as int)),
        decreases host_calls@.len() - i,
    {
        let call = &host_calls[i];
        let callback = missing_capability_callback_json(
            call.correlation_id.as_str(),
            call.capability.as_str(),
        );
        proof {
            lemma_missing_capability_is_a_callback(call.correlation_id@, call.capability@);
        }
        kernel.handle_deliver_callback_json(Ok(callback));
        proof {
            let prev = calls.take(i as int);
            let next = calls.take(i + 1);
            assert(next =~= prev.push(calls[i as int]));
            assert(call_ids(next) =~= call_ids(prev).insert(call.correlation_id@)) by {
                assert forall|id: Seq<char>| call_ids(next).contains(id) implies call_ids(
                    prev,
                ).insert(call.correlation_id@).contains(id) by {
                    let j = choose|j: int| 0 <= j < next.len() && (#[trigger] next[j]).correlation_id == id;
                    if j < prev.len() {
                        assert(prev[j] == next[j]);
                    }
                }
                assert forall|id: Seq<char>| call_ids(prev).insert(call.correlation_id@).contains(id) implies call_ids(
                    next,
                ).contains(id) by {
                    if call_ids(prev).contains(id) {
                        let j = choose|j: int| 0 <= j < prev.len() && (#[trigger] prev[j]).correlation_id == id;
                        assert(next[j] == prev[j]);
                    } else {
                        assert(next[i as int].correlation_id == id);
                    }
                }
            }
            assert(kernel@ =~= after_missing_capability(start, next));
        }
        i = i + 1;
    }
    assert(calls.take(host_calls@.len() as int) =~= calls);
}

/// `codex_init`.
pub fn codex_init(kernel: &mut WasmBridgeKernel, config_json: &str) -> (r: JsonValue)
    ensures
        final(kernel)@ == init_step(old(kernel)@, config_input(config_json@)).0,
        r@ == init_step(old(kernel)@, config_input(config_json@)).1,
{
    kernel.handle_init_json(config_json)
}

/// `codex_submit`: submits the request, then answers each host call it queued with a
/// `missing_capability` callback.
pub fn codex_submit(kernel: &mut WasmBridgeKernel, request_json: Result<JsonValue, String>) -> (r: JsonValue)
    requires
        old(kernel)@.delivered + old(kernel)@.host_calls.len() + 1 <= usize::MAX,
    ensures
        r@ == submit_step(old(kernel)@, input_model(request_json), old(kernel).env_rule()).1,
        final(kernel)@ == after_missing_capability(
            KernelModel {
                host_calls: Seq::empty(),
                ..submit_step(old(kernel)@, input_model(request_json), old(kernel).env_rule()).0
            },
            submit_step(old(kernel)@, input_model(request_json), old(kernel).env_rule()).0.host_calls,
        ),
        final(kernel)@.host_calls.len() == 0,
{
    let response = kernel.handle_submit_json(request_json);
    let pending = kernel.take_pending_host_calls();
    dispatch_pending_host_calls(kernel, pending);
    response
}

/// `codex_deliver_callback`.
pub fn codex_deliver_callback(kernel: &mut WasmBridgeKernel, result_json: Result<JsonValue, String>)
    requires
        counts_as_callback(input_model(result_json), old(kernel).callback_rule())
            ==> old(kernel)@.delivered < usize::MAX,
    ensures
        final(kernel)@ == callback_step(
            old(kernel)@,
            input_model(result_json),
            old(kernel).callback_rule(),
        ),
{
    kernel.handle_deliver_callback_json(result_json);
}

/// `codex_cancel`.
pub fn codex_cancel(kernel: &mut WasmBridgeKernel, cancel_json: Result<JsonValue, String>)
    ensures
        final(kernel)@ == cancel_step(old(kernel)@, input_model(cancel_json)),
{
    kernel.handle_cancel_json(cancel_json);
}

/// `codex_shutdown`.
pub fn codex_shutdown(kernel: &mut WasmBridgeKernel)
    ensures
        final(kernel)@ == initial_state(),
{
    kernel.handle_shutdown();
}

// ---------------------------------------------------------------------------------------
// Hand-off to the host's imports
// ---------------------------------------------------------------------------------------

/// The host imports through which the bridge hands a host call to the host.
#[derive(Debug, Clone, Copy, PartialEq, Eq)]
pub enum HostImport {
    ExecRequest,
    HttpRequest,
    FsRead,
    FsWrite,
    FsList,
    FsStat,
    FsRemove,
    SecretGet,
    SecretSet,
    SandboxApply,
    WebsocketRequest,
    TcpSocket,
    AppServerRpc,
}

/// The import names, in the order of [`HostImport`]'s variants.
pub open spec fn import_names() -> Seq<Seq<char>> {
    seq![
        "host_exec_request"@,
        "host_http_request"@,
        "host_fs_read"@,
        "host_fs_write"@,
        "host_fs_list"@,
        "host_fs_stat"@,
        "host_fs_remove"@,
        "host_secret_get"@,
        "host_secret_set"@,
        "host_sandbox_apply"@,
        "host_websocket_request"@,
        "host_tcp_socket"@,
        "host_app_server_rpc"@,
    ]
}

impl HostImport {
    pub open spec fn index(self) -> int {
        match self {
            HostImport::ExecRequest => 0,
            HostImport::HttpRequest => 1,
            HostImport::FsRead => 2,
            HostImport::FsWrite => 3,
            HostImport::FsList => 4,
            HostImport::FsStat => 5,
            HostImport::FsRemove => 6,
            HostImport::SecretGet => 7,
            HostImport::SecretSet => 8,
            HostImport::SandboxApply => 9,
            HostImport::WebsocketRequest => 10,
            HostImport::TcpSocket => 11,
            HostImport::AppServerRpc => 12,
        }
    }

    /// The name under which the host provides this import.
    pub fn name(&self) -> (r: &'static str)
        ensures
            r@ == import_names()[self.index()],
    {
        match self {
            HostImport::ExecRequest => "host_exec_request",
            HostImport::HttpRequest => "host_http_request",
            HostImport::FsRead => "host_fs_read",
            HostImport::FsWrite => "host_fs_write",
            HostImport::FsList => "host_fs_list",
            HostImport::FsStat => "host_fs_stat",
            HostImport::FsRemove => "host_fs_remove",
            HostImport::SecretGet => "host_secret_get",
            HostImport::SecretSet => "host_secret_set",
            HostImport::SandboxApply => "host_sandbox_apply",
            HostImport::WebsocketRequest => "host_websocket_request",
            HostImport::TcpSocket => "host_tcp_socket",
            HostImport::AppServerRpc => "host_app_server_rpc",
        }
    }

    fn at(index: usize) -> (r: HostImport)
        requires
            index < 13,
        ensures
            r.index() == index,
    {
        match index {
            0 => HostImport::ExecRequest,
            1 => HostImport::HttpRequest,
            2 => HostImport::FsRead,
            3 => HostImport::FsWrite,
            4 => HostImport::FsList,
            5 => HostImport::FsStat,
            6 => HostImport::FsRemove,
            7 => HostImport::SecretGet,
            8 => HostImport::SecretSet,
            9 => HostImport::SandboxApply,
            10 => HostImport::WebsocketRequest,
            11 => HostImport::TcpSocket,
            _ => HostImport::AppServerRpc,
        }
    }
}

/// `map` with `key` set to `value`: the first member named `key` takes the value, or the
/// member is appended when there is none.
pub open spec fn object_insert(
    m: Seq<(Seq<char>, JsonModel)>,
    key: Seq<char>,
    value: JsonModel,
) -> Seq<(Seq<char>, JsonModel)>
    decreases m.len(),
{
    if m.len() == 0 {
        seq![(key, value)]
    } else if m[0].0 == key {
        m.update(0, (key, value))
    } else {
        seq![m[0]] + object_insert(m.drop_first(), key, value)
    }
}

/// The request document handed to a host import: the call's payload object (or
/// `{ "payload": payload }` for a payload that is not an object, or `{}` for none), with
/// `correlation_id` set to the call's id.
pub open spec fn host_call_request(call: HostCallModel) -> JsonModel {
    let id = JsonModel::Str(call.correlation_id);
    match call.payload {
        Some(JsonModel::Object(m)) => JsonModel::Object(object_insert(m, "correlation_id"@, id)),
        Some(p) => JsonModel::Object(seq![("payload"@, p), ("correlation_id"@, id)]),
        None => JsonModel::Object(seq![("correlation_id"@, id)]),
    }
}

/// The request document handed to the host import for a host call.
pub fn host_call_request_json(host_call: &WasmBridgeHostCall) -> (r: JsonValue)
    ensures
        r@ == host_call_request(host_call@),
{
    let id = JsonValue::String(host_call.correlation_id.clone());
    match &host_call.payload {
        Some(JsonValue::Object(members)) => {
            let ghost mm = members_model(members@);
            let mut out: Vec<(String, JsonValue)> = Vec::new();
            let mut i: usize = 0;
            let key = "correlation_id".to_owned();
            while i < members.len()
                invariant
                    mm == members_model(members@),
                    opt_model(host_call.payload) == Some(JsonModel::Object(mm)),
                    id@ == JsonModel::Str(host_call.correlation_id@),
                    key@ == "correlation_id"@,
                    i <= members@.len(),
                    members_model(out@) == mm.take(i as int),
                    forall|j: int| 0 <= j < i ==> mm[j].0 != "correlation_id"@,
                decreases members@.len() - i,
            {
                if members[i].0 == key {
                    let mut rest_out = out;
                    let ghost head = members_model(rest_out@);
                    push_member(&mut rest_out, "correlation_id", id);
                    let mut k: usize = i + 1;
                    assert(members_model(rest_out@) =~= mm.update(i as int, ("correlation_id"@, JsonModel::Str(host_call.correlation_id@))).take(i + 1));
                    while k < members.len()
                        invariant
                            mm == members_model(members@),
                            i < k <= members@.len(),
                            members_model(rest_out@) == mm.update(i as int, ("correlation_id"@, JsonModel::Str(host_call.correlation_id@))).take(k as int),
                        decreases members@.len() - k,
                    {
                        let name = members[k].0.clone();
                        let value = members[k].1.deep_clone();
                        let ghost prev = rest_out@;
                        rest_out.push((name, value));
                        assert(members_model(rest_out@) =~= members_model(prev).push(mm[k as int]));
                        assert(mm.update(i as int, ("correlation_id"@, JsonModel::Str(host_call.correlation_id@))).take(k + 1)
                            =~= mm.update(i as int, ("correlation_id"@, JsonModel::Str(host_call.correlation_id@))).take(k as int).push(mm[k as int]));
                        k = k + 1;
                    }
                    proof {
                        lemma_object_insert_at(mm, "correlation_id"@, JsonModel::Str(host_call.correlation_id@), i as int);
                        assert(mm.update(i as int, ("correlation_id"@, JsonModel::Str(host_call.correlation_id@))).take(members@.len() as int)
                            =~= mm.update(i as int, ("correlation_id"@, JsonModel::Str(host_call.correlation_id@))));
                    }
                    return JsonValue::Object(rest_out);
                }
                let name = members[i].0.clone();
                let value = members[i].1.deep_clone();
                let ghost prev = out@;
                out.push((name, value));
                assert(members_model(out@) =~= members_model(prev).push(mm[i as int]));
                assert(mm.take(i + 1) =~= mm.take(i as int).push(mm[i as int]));
                i = i + 1;
            }
            push_member(&mut out, "correlation_id", id);
            proof {
                lemma_object_insert_absent(mm, "correlation_id"@, JsonModel::Str(host_call.correlation_id@));
                assert(mm.take(members@.len() as int) =~= mm);
            }
            JsonValue::Object(out)
        },
        Some(p) => {
            let mut out: Vec<(String, JsonValue)> = Vec::new();
            push_member(&mut out, "payload", p.deep_clone());
            push_member(&mut out, "correlation_id", id);
            assert(members_model(out@) =~= seq![("payload"@, p@), ("correlation_id"@, JsonModel::Str(host_call.correlation_id@))]);
            JsonValue::Object(out)
        },
        None => {
            let mut out: Vec<(String, JsonValue)> = Vec::new();
            push_member(&mut out, "correlation_id", id);
            assert(members_model(out@) =~= seq![("correlation_id"@, JsonModel::Str(host_call.correlation_id@))]);
            JsonValue::Object(out)
        },
    }
}

/// Setting a key that no member has appends it.
pub proof fn lemma_object_insert_absent(m: Seq<(Seq<char>, JsonModel)>, key: Seq<char>, value: JsonModel)
    requires
        forall|j: int| 0 <= j < m.len() ==> m[j].0 != key,
    ensures
        object_insert(m, key, value) == m.push((key, value)),
    decreases m.len(),
{
    if m.len() > 0 {
        lemma_object_insert_absent(m.drop_first(), key, value);
        assert(seq![m[0]] + m.drop_first().push((key, value)) =~= m.push((key, value)));
    } else {
        assert(seq![(key, value)] =~= m.push((key, value)));
    }
}

/// Setting a key whose first member is at `i` replaces that member's value.
pub proof fn lemma_object_insert_at(m: Seq<(Seq<char>, JsonModel)>, key: Seq<char>, value: JsonModel, i: int)
    requires
        0 <= i < m.len(),
        m[i].0 == key,
        forall|j: int| 0 <= j < i ==> m[j].0 != key,
    ensures
        object_insert(m, key, value) == m.update(i, (key, value)),
    decreases m.len(),
{
    if i > 0 {
        lemma_object_insert_at(m.drop_first(), key, value, i - 1);
        assert(seq![m[0]] + m.drop_first().update(i - 1, (key, value)) =~= m.update(i, (key, value)));
    }
}

/// What the bridge does with a host call: hand it to a host import with its request
/// document, or answer it with a `missing_capability` callback.
pub enum HostDispatch {
    Import(HostImport, JsonValue),
    MissingCapability(JsonValue),
}

/// Decides how a host call is handed to the host: a capability that names a host import
/// goes to that import; any other is answered with `missing_capability`.
pub fn dispatch_host_call(host_call: &WasmBridgeHostCall) -> (r: HostDispatch)
    ensures
        match r {
            HostDispatch::Import(import, request) => import_names()[import.index()]
                == host_call.capability@ && request@ == host_call_request(host_call@),
            HostDispatch::MissingCapability(callback) => !import_names().contains(
                host_call.capability@,
            ) && callback@ == missing_capability_callback(
                host_call.correlation_id@,
                host_call.capability@,
            ),
        },
{
    let mut i: usize = 0;
    while i < 13
        invariant
            i <= 13,
            import_names().len() == 13,
            forall|j: int| 0 <= j < i ==> import_names()[j] != host_call.capability@,
        decreases 13 - i,
    {
        let import = HostImport::at(i);
        if str_eq(import.name(), host_call.capability.as_str()) {
            return HostDispatch::Import(import, host_call_request_json(host_call));
        }
        i = i + 1;
    }
    HostDispatch::MissingCapability(
        missing_capability_callback_json(
            host_call.correlation_id.as_str(),
            host_call.capability.as_str(),
        ),
    )
}

} // verus!
