//! Which host capability a submitted request calls, and with what payload.
use vstd::prelude::*;

use crate::extension::HOST_APP_SERVER_RPC;
use crate::extension::HOST_TCP_SOCKET;
use crate::extension::HOST_WEBSOCKET_REQUEST;
use crate::extension::SUBMIT_KEY_APP_SERVER_RPC;
use crate::extension::SUBMIT_KEY_TCP;
use crate::extension::SUBMIT_KEY_WEBSOCKET;
use crate::fields::all_strings;
use crate::fields::ExecEnv;
use crate::fields::opt_view;
use crate::fields::strings_model;
use crate::fields::text_of;
use crate::json::items_model;
use crate::json::json_model;
use crate::json::opt_model;
use crate::json::JsonModel;
use crate::json::JsonValue;
use crate::schema::decode_exec_request;
use crate::schema::exec_payload_json;
use crate::schema::ExecRequestModel;
use crate::schema::HostCallModel;
use crate::schema::WasmBridgeExecRequest;
use crate::schema::WasmBridgeHostCall;
use crate::schema::WasmBridgeSubmitRequest;

verus! {

broadcast use vstd::std_specs::vec::group_vec_axioms;

/// The capability of the exec host call.
pub const HOST_EXEC_REQUEST: &'static str = "host_exec_request";

/// The structured payload keys and the capabilities they are routed to, in the order in
/// which they are tried.
pub open spec fn structured_routes() -> Seq<(Seq<char>, Seq<char>)> {
    seq![
        ("http"@, "host_http_request"@),
        (SUBMIT_KEY_WEBSOCKET@, HOST_WEBSOCKET_REQUEST@),
        (SUBMIT_KEY_TCP@, HOST_TCP_SOCKET@),
        (SUBMIT_KEY_APP_SERVER_RPC@, HOST_APP_SERVER_RPC@),
        ("fs_read"@, "host_fs_read"@),
        ("fs_write"@, "host_fs_write"@),
        ("fs_list"@, "host_fs_list"@),
        ("fs_stat"@, "host_fs_stat"@),
        ("fs_remove"@, "host_fs_remove"@),
        ("secret_get"@, "host_secret_get"@),
        ("secret_set"@, "host_secret_set"@),
        ("sandbox_apply"@, "host_sandbox_apply"@),
    ]
}

/// The first structured route, from position `from` on, whose key the payload has: its
/// capability and the member's value.
pub open spec fn first_structured(p: JsonModel, from: nat) -> Option<(Seq<char>, JsonModel)>
    decreases structured_routes().len() - from,
{
    if from >= structured_routes().len() {
        None
    } else {
        match p.get(structured_routes()[from as int].0) {
            Some(v) => Some((structured_routes()[from as int].1, v)),
            None => first_structured(p, from + 1),
        }
    }
}

/// The host call a submitted payload asks for, outside the `cli` kind:
/// an explicit `host_call` (whose `capability` must be a string), else a well-formed `exec`
/// request (its environment read under `rule`), else the first structured key present.
pub open spec fn route_host_call(
    correlation_id: Seq<char>,
    payload: Option<JsonModel>,
    rule: ExecEnv,
) -> Option<
    HostCallModel,
> {
    match payload {
        None => None,
        Some(p) => match p.get("host_call"@) {
            Some(hc) => match hc.get("capability"@) {
                Some(JsonModel::Str(capability)) => Some(
                    HostCallModel { correlation_id, capability, payload: hc.get("payload"@) },
                ),
                _ => None,
            },
            None => match exec_of(p, rule) {
                Some(e) => Some(
                    HostCallModel {
                        correlation_id,
                        capability: HOST_EXEC_REQUEST@,
                        payload: Some(exec_payload_json(e)),
                    },
                ),
                None => match first_structured(p, 0) {
                    Some(route) => Some(
                        HostCallModel { correlation_id, capability: route.0, payload: Some(route.1) },
                    ),
                    None => None,
                },
            },
        },
    }
}

/// The exec request in `payload.exec`, if there is a well-formed one.
pub open spec fn exec_of(p: JsonModel, rule: ExecEnv) -> Option<ExecRequestModel> {
    match p.get("exec"@) {
        Some(ev) => decode_exec_request(ev, rule),
        None => None,
    }
}

/// The exec request that a `cli` argv stands for: the program is the first argument,
/// the rest are its arguments, and the working directory is `cwd` when it is a string.
pub open spec fn cli_exec_request(argv: Seq<Seq<char>>, payload: JsonModel) -> ExecRequestModel {
    ExecRequestModel {
        command: argv[0],
        args: argv.drop_first(),
        arg0: None,
        cwd: match payload.get("cwd"@) {
            Some(JsonModel::Str(s)) => Some(s),
            _ => None,
        },
        env: None,
        timeout_ms: None,
        stdin: None,
        transport: None,
    }
}

/// The host call that a `cli` submit payload `{ args, cwd? }` stands for, or the reason it
/// is refused.
pub open spec fn cli_host_call(correlation_id: Seq<char>, payload: JsonModel) -> Result<
    HostCallModel,
    Seq<char>,
> {
    match payload.get("args"@) {
        None => Err("cli payload requires an args array"@),
        Some(JsonModel::Array(items)) => if items.len() == 0 {
            Err("cli.args must be non-empty"@)
        } else if !all_strings(items) {
            Err("cli.args elements must be JSON strings"@)
        } else {
            Ok(
                HostCallModel {
                    correlation_id,
                    capability: HOST_EXEC_REQUEST@,
                    payload: Some(
                        exec_payload_json(
                            cli_exec_request(items.map_values(|x: JsonModel| text_of(x)), payload),
                        ),
                    ),
                },
            )
        },
        Some(_) => Err("cli.args must be a JSON array"@),
    }
}

/// The structured route at `index` (of twelve).
fn structured_route(index: usize) -> (r: (&'static str, &'static str))
    requires
        index < 12,
    ensures
        (r.0@, r.1@) == structured_routes()[index as int],
{
    match index {
        0 => ("http", "host_http_request"),
        1 => (SUBMIT_KEY_WEBSOCKET, HOST_WEBSOCKET_REQUEST),
        2 => (SUBMIT_KEY_TCP, HOST_TCP_SOCKET),
        3 => (SUBMIT_KEY_APP_SERVER_RPC, HOST_APP_SERVER_RPC),
        4 => ("fs_read", "host_fs_read"),
        5 => ("fs_write", "host_fs_write"),
        6 => ("fs_list", "host_fs_list"),
        7 => ("fs_stat", "host_fs_stat"),
        8 => ("fs_remove", "host_fs_remove"),
        9 => ("secret_get", "host_secret_get"),
        10 => ("secret_set", "host_secret_set"),
        _ => ("sandbox_apply", "host_sandbox_apply"),
    }
}

/// Maps the payload of a submit request to the host capability it calls, including the
/// extension transports (`ws`, `tcp`, `app_server_rpc`).
pub fn host_call_from_request(request: &WasmBridgeSubmitRequest, rule: ExecEnv) -> (r: Option<
    WasmBridgeHostCall,
>)
    ensures
        opt_view(r) == route_host_call(request.correlation_id@, opt_model(request.payload), rule),
{
    let payload = match &request.payload {
        Some(p) => p,
        None => return None,
    };
    match payload.get("host_call") {
        Some(host_call) => {
            let capability = match host_call.get("capability") {
                Some(c) => match c.as_str() {
                    Some(s) => s.clone(),
                    None => return None,
                },
                None => return None,
            };
            let call_payload = match host_call.get("payload") {
                Some(v) => Some(v.deep_clone()),
                None => None,
            };
            return Some(
                WasmBridgeHostCall {
                    correlation_id: request.correlation_id.clone(),
                    capability,
                    payload: call_payload,
                },
            );
        },
        None => {},
    }
    match payload.get("exec") {
        Some(exec_value) => match WasmBridgeExecRequest::from_json(exec_value, rule) {
            Some(exec) => {
                return Some(
                    WasmBridgeHostCall {
                        correlation_id: request.correlation_id.clone(),
                        capability: HOST_EXEC_REQUEST.to_owned(),
                        payload: Some(exec.to_host_payload()),
                    },
                );
            },
            None => {},
        },
        None => {},
    }
    let ghost p = json_model(*payload);
    let mut i: usize = 0;
    while i < 12
        invariant
            i <= 12,
            p == json_model(*payload),
            opt_model(request.payload) == Some(p),
            p.get("host_call"@) is None,
            exec_of(p, rule) is None,
            first_structured(p, 0) == first_structured(p, i as nat),
        decreases 12 - i,
    {
        let (key, capability) = structured_route(i);
        match payload.get(key) {
            Some(value) => {
                return Some(
                    WasmBridgeHostCall {
                        correlation_id: request.correlation_id.clone(),
                        capability: capability.to_owned(),
                        payload: Some(value.deep_clone()),
                    },
                );
            },
            None => {},
        }
        i = i + 1;
    }
    None
}

/// Maps a `cli` submit payload `{ args, cwd? }` to a single `host_exec_request`: the program
/// is `args[0]` and the remaining elements are its arguments. Every element of `args` must be
/// a JSON string.
pub fn try_host_call_from_cli_payload(correlation_id: &String, payload: &JsonValue) -> (r: Result<
    WasmBridgeHostCall,
    &'static str,
>)
    ensures
        match r {
            Ok(call) => cli_host_call(correlation_id@, payload@) == Ok::<HostCallModel, Seq<char>>(
                call@,
            ),
            Err(message) => cli_host_call(correlation_id@, payload@) == Err::<
                HostCallModel,
                Seq<char>,
            >(message@),
        },
{
    let args = match payload.get("args") {
        Some(a) => a,
        None => return Err("cli payload requires an args array"),
    };
    let items = match args {
        JsonValue::Array(items) => items,
        _ => return Err("cli.args must be a JSON array"),
    };
    if items.len() == 0 {
        return Err("cli.args must be non-empty");
    }
    let ghost im = items_model(items@);
    let mut strings: Vec<String> = Vec::new();
    let mut i: usize = 0;
    while i < items.len()
        invariant
            im == items_model(items@),
            payload@.get("args"@) == Some(JsonModel::Array(im)),
            i <= items@.len(),
            strings@.len() == i,
            forall|j: int| 0 <= j < i ==> im[j] is Str,
            forall|j: int| 0 <= j < i ==> (#[trigger] strings@[j])@ == text_of(im[j]),
        decreases items@.len() - i,
    {
        match &items[i] {
            JsonValue::String(s) => {
                strings.push(s.clone());
            },
            _ => {
                assert(!(im[i as int] is Str));
                return Err("cli.args elements must be JSON strings");
            },
        }
        i = i + 1;
    }
    let ghost argv = im.map_values(|x: JsonModel| text_of(x));
    assert(strings_model(strings@) =~= argv);
    let command = strings[0].clone();
    let mut rest: Vec<String> = Vec::new();
    let mut k: usize = 1;
    while k < strings.len()
        invariant
            1 <= k <= strings@.len(),
            strings_model(rest@) =~= strings_model(strings@).subrange(1, k as int),
        decreases strings@.len() - k,
    {
        let ghost before = rest@;
        rest.push(strings[k].clone());
        assert(strings_model(rest@) =~= strings_model(before).push(strings@[k as int]@));
        assert(strings_model(strings@).subrange(1, k + 1) =~= strings_model(strings@).subrange(
            1,
            k as int,
        ).push(strings@[k as int]@));
        k = k + 1;
    }
    assert(strings_model(rest@) =~= argv.drop_first());
    let cwd = match payload.get("cwd") {
        Some(v) => match v.as_str() {
            Some(s) => Some(s.clone()),
            None => None,
        },
        None => None,
    };
    let exec = WasmBridgeExecRequest {
        command,
        args: rest,
        arg0: None,
        cwd,
        env: None,
        timeout_ms: None,
        stdin: None,
        transport: None,
    };
    assert(exec@ == cli_exec_request(argv, payload@));
    Ok(
        WasmBridgeHostCall {
            correlation_id: correlation_id.clone(),
            capability: HOST_EXEC_REQUEST.to_owned(),
            payload: Some(exec.to_host_payload()),
        },
    )
}

} // verus!
