use codex_wasm_bridge::bridge::codex_cancel;
use codex_wasm_bridge::bridge::codex_deliver_callback;
use codex_wasm_bridge::bridge::codex_init;
use codex_wasm_bridge::bridge::codex_shutdown;
use codex_wasm_bridge::bridge::dispatch_host_call;
use codex_wasm_bridge::bridge::host_call_request_json;
use codex_wasm_bridge::bridge::missing_capability_callback_json;
use codex_wasm_bridge::bridge::HostDispatch;
use codex_wasm_bridge::bridge::HostImport;
use codex_wasm_bridge::json::JsonNumber;
use codex_wasm_bridge::json::JsonValue;
use codex_wasm_bridge::kernel::WasmBridgeKernel;
use codex_wasm_bridge::schema::WasmBridgeHostCall;
use serde_json::Value;

fn from_serde(v: &Value) -> JsonValue {
    match v {
        Value::Null => JsonValue::Null,
        Value::Bool(b) => JsonValue::Bool(*b),
        Value::Number(n) => match (n.as_u64(), n.as_i64()) {
            (Some(u), _) => JsonValue::Number(JsonNumber::PosInt(u)),
            (None, Some(i)) => JsonValue::Number(JsonNumber::NegInt(i)),
            _ => JsonValue::Number(JsonNumber::Float(n.to_string())),
        },
        Value::String(s) => JsonValue::String(s.clone()),
        Value::Array(items) => JsonValue::Array(items.iter().map(from_serde).collect()),
        Value::Object(m) => {
            JsonValue::Object(m.iter().map(|(k, v)| (k.clone(), from_serde(v))).collect())
        }
    }
}

fn to_serde(v: &JsonValue) -> Value {
    match v {
        JsonValue::Null => Value::Null,
        JsonValue::Bool(b) => Value::Bool(*b),
        JsonValue::Number(JsonNumber::PosInt(u)) => Value::from(*u),
        JsonValue::Number(JsonNumber::NegInt(i)) => Value::from(*i),
        JsonValue::Number(JsonNumber::Float(t)) => Value::Number(t.parse().unwrap()),
        JsonValue::String(s) => Value::String(s.clone()),
        JsonValue::Array(items) => Value::Array(items.iter().map(to_serde).collect()),
        JsonValue::Object(m) => {
            Value::Object(m.iter().map(|(k, v)| (k.clone(), to_serde(v))).collect())
        }
    }
}

fn input(text: &str) -> Result<JsonValue, String> {
    serde_json::from_str::<Value>(text)
        .map(|v| from_serde(&v))
        .map_err(|e| e.to_string())
}

fn json(input: &str) -> Value {
    match serde_json::from_str(input) {
        Ok(value) => value,
        Err(err) => panic!("test responses must be valid JSON: {err}"),
    }
}

/// A host that answers exec calls with a chunk and an exit, network calls with a
/// response, and anything else with `missing_capability`.
fn mock_host(kernel: &mut WasmBridgeKernel, host_calls: Vec<WasmBridgeHostCall>) {
    for host_call in host_calls {
        let cid = host_call.correlation_id.clone();
        if host_call.capability == "host_exec_request" {
            let chunk = format!(
                r#"{{"correlation_id":"{cid}","capability":"exec","payload":{{"kind":"exec_chunk","correlation_id":"{cid}","stream":"stdout","data":"mock-out"}}}}"#
            );
            codex_deliver_callback(kernel, input(&chunk));
            let exit = format!(
                r#"{{"correlation_id":"{cid}","capability":"exec","payload":{{"kind":"exec_exit","correlation_id":"{cid}","exit_code":0,"signal":null,"cancelled":false}}}}"#
            );
            codex_deliver_callback(kernel, input(&exit));
        } else if matches!(
            host_call.capability.as_str(),
            "host_http_request" | "host_websocket_request" | "host_tcp_socket" | "host_app_server_rpc"
        ) {
            let body = match host_call.capability.as_str() {
                "host_http_request" => r#"{\"mock\":\"http\"}"#,
                "host_websocket_request" => r#"{\"mock\":\"ws\"}"#,
                "host_tcp_socket" => r#"{\"mock\":\"tcp\"}"#,
                _ => r#"{\"mock\":\"rpc\"}"#,
            };
            let cb = format!(
                r#"{{"correlation_id":"{cid}","capability":"network","payload":{{"kind":"http_response","correlation_id":"{cid}","status":200,"headers":{{}},"body":"{body}"}}}}"#
            );
            codex_deliver_callback(kernel, input(&cb));
        } else {
            codex_deliver_callback(
                kernel,
                Ok(missing_capability_callback_json(&host_call.correlation_id, &host_call.capability)),
            );
        }
    }
}

/// `codex_submit` against the mock host.
fn codex_submit(kernel: &mut WasmBridgeKernel, request_json: &str) -> String {
    let response = kernel.handle_submit_json(input(request_json));
    let pending = kernel.take_pending_host_calls();
    mock_host(kernel, pending);
    to_serde(&response).to_string()
}

#[test]
fn wasm_bridge_contract_tests_submit_requires_init() {
    let mut kernel = WasmBridgeKernel::default();
    codex_shutdown(&mut kernel);

    let response = codex_submit(
        &mut kernel,
        r#"{"correlation_id":"req-1","kind":"prompt","payload":{"text":"hello"}}"#,
    );

    assert_eq!(
        json(&response),
        json(
            r#"{"correlation_id":"req-1","error":{"code":"internal","message":"bridge not initialized","details":null}}"#
        )
    );
}

#[test]
fn init_and_submit_return_expected_json_shapes() {
    let mut kernel = WasmBridgeKernel::default();
    codex_shutdown(&mut kernel);
    let init_response = codex_init(&mut kernel, r#"{"runtime":"node"}"#);
    let submit_response = codex_submit(
        &mut kernel,
        r#"{"correlation_id":"req-2","kind":"prompt","payload":{"text":"hello"}}"#,
    );

    assert_eq!(to_serde(&init_response), json(r#"{"ok":true}"#));
    assert_eq!(
        json(&submit_response),
        json(r#"{"correlation_id":"req-2","status":"accepted"}"#)
    );
}

#[test]
fn exec_payloads_are_accepted_through_host_call_seam() {
    let mut kernel = WasmBridgeKernel::default();
    codex_shutdown(&mut kernel);
    codex_init(&mut kernel, r#"{"runtime":"node"}"#);
    assert_eq!(kernel.delivered_callback_count(), 0);

    let submit_response = codex_submit(
        &mut kernel,
        r#"{"correlation_id":"req-exec","kind":"exec","payload":{"exec":{"command":"bash","args":["-lc","echo hi"],"cwd":"/tmp/demo","env":{"TERM":"xterm-256color"},"timeout_ms":5000,"stdin":"echo from wasm\n"}}}"#,
    );

    assert_eq!(
        json(&submit_response),
        json(r#"{"correlation_id":"req-exec","status":"accepted"}"#)
    );
    assert_eq!(
        kernel.delivered_callback_count(),
        2,
        "test mock host must deliver exec_chunk + exec_exit"
    );
}

#[test]
fn cli_empty_argv_is_rejected_with_invalid_cli() {
    let mut kernel = WasmBridgeKernel::default();
    codex_shutdown(&mut kernel);
    codex_init(&mut kernel, r#"{"runtime":"node"}"#);

    let response = codex_submit(
        &mut kernel,
        r#"{"correlation_id":"bad-cli","kind":"cli","payload":{"args":[],"cwd":"/"}}"#,
    );

    assert_eq!(
        json(&response),
        json(
            r#"{"correlation_id":"bad-cli","error":{"code":"invalid_cli","message":"cli.args must be non-empty","details":null}}"#
        )
    );
}

#[test]
fn http_stream_submit_is_accepted_for_phase3_seam() {
    let mut kernel = WasmBridgeKernel::default();
    codex_shutdown(&mut kernel);
    codex_init(&mut kernel, r#"{"runtime":"node"}"#);

    let submit_response = codex_submit(
        &mut kernel,
        r#"{"correlation_id":"req-hstream","kind":"tool","payload":{"http":{"url":"https://example.com/s","method":"GET","stream_response":true}}}"#,
    );

    assert_eq!(
        json(&submit_response),
        json(r#"{"correlation_id":"req-hstream","status":"accepted"}"#)
    );
}

#[test]
fn cli_kind_with_argv_maps_to_exec_host_call_seam() {
    let mut kernel = WasmBridgeKernel::default();
    codex_shutdown(&mut kernel);
    codex_init(&mut kernel, r#"{"runtime":"node"}"#);

    let submit_response = codex_submit(
        &mut kernel,
        r#"{"correlation_id":"req-cli","kind":"cli","payload":{"args":["echo","from-cli"],"cwd":"/tmp"}}"#,
    );

    assert_eq!(
        json(&submit_response),
        json(r#"{"correlation_id":"req-cli","status":"accepted"}"#)
    );
    assert_eq!(
        kernel.delivered_callback_count(),
        2,
        "cli argv maps to host_exec_request; mock host completes exec"
    );
}

#[test]
fn callback_and_cancel_keep_lifecycle_calls_valid() {
    let mut kernel = WasmBridgeKernel::default();
    codex_shutdown(&mut kernel);
    codex_init(&mut kernel, r#"{"runtime":"node"}"#);
    let accepted = codex_submit(
        &mut kernel,
        r#"{"correlation_id":"req-3","kind":"prompt","payload":{"text":"hello"}}"#,
    );

    codex_deliver_callback(
        &mut kernel,
        input(r#"{"correlation_id":"req-3","capability":"host_http_request","payload":{"status":200}}"#),
    );
    codex_cancel(&mut kernel, input(r#"{"correlation_id":"req-3","reason":"test"}"#));
    codex_shutdown(&mut kernel);

    assert_eq!(
        json(&accepted),
        json(r#"{"correlation_id":"req-3","status":"accepted"}"#)
    );
    assert_eq!(
        json(&codex_submit(
            &mut kernel,
            r#"{"correlation_id":"req-4","kind":"prompt","payload":{"text":"hello"}}"#,
        )),
        json(
            r#"{"correlation_id":"req-4","error":{"code":"internal","message":"bridge not initialized","details":null}}"#
        )
    );
}

#[test]
fn native_submit_answers_host_calls_with_missing_capability() {
    let mut kernel = WasmBridgeKernel::default();
    codex_init(&mut kernel, r#"{"runtime":"node"}"#);
    let response = codex_wasm_bridge::bridge::codex_submit(
        &mut kernel,
        input(r#"{"correlation_id":"req-5","kind":"tool","payload":{"fs_read":{"path":"/a"}}}"#),
    );
    assert_eq!(
        to_serde(&response),
        json(r#"{"correlation_id":"req-5","status":"accepted"}"#)
    );
    assert_eq!(kernel.delivered_callback_count(), 1);
    assert!(!kernel.test_pending_requests_contains("req-5"));
    assert!(kernel.take_pending_host_calls().is_empty());
}

#[test]
fn native_submit_without_host_call_keeps_request_pending() {
    let mut kernel = WasmBridgeKernel::default();
    codex_init(&mut kernel, r#"{"runtime":"node"}"#);
    codex_wasm_bridge::bridge::codex_submit(
        &mut kernel,
        input(r#"{"correlation_id":"req-6","kind":"prompt","payload":{"text":"hi"}}"#),
    );
    assert_eq!(kernel.delivered_callback_count(), 0);
    assert!(kernel.test_pending_requests_contains("req-6"));
}

#[test]
fn missing_capability_callback_has_expected_shape() {
    let callback = missing_capability_callback_json("c9", "host_gpu");
    assert_eq!(
        to_serde(&callback),
        json(
            r#"{"correlation_id":"c9","error":{"code":"missing_capability","message":"host capability is not available in this runtime","details":{"capability":"host_gpu"}}}"#
        )
    );
}

#[test]
fn host_call_request_merges_correlation_id_into_payload() {
    let call = WasmBridgeHostCall {
        correlation_id: "r1".to_string(),
        capability: "host_fs_read".to_string(),
        payload: Some(input(r#"{"path":"/x","correlation_id":"old"}"#).unwrap()),
    };
    assert_eq!(
        to_serde(&host_call_request_json(&call)),
        json(r#"{"path":"/x","correlation_id":"r1"}"#)
    );

    let call = WasmBridgeHostCall {
        correlation_id: "r2".to_string(),
        capability: "host_fs_read".to_string(),
        payload: Some(input(r#"[1,2]"#).unwrap()),
    };
    assert_eq!(
        to_serde(&host_call_request_json(&call)),
        json(r#"{"payload":[1,2],"correlation_id":"r2"}"#)
    );

    let call = WasmBridgeHostCall {
        correlation_id: "r3".to_string(),
        capability: "host_fs_read".to_string(),
        payload: None,
    };
    assert_eq!(
        to_serde(&host_call_request_json(&call)),
        json(r#"{"correlation_id":"r3"}"#)
    );
}

#[test]
fn dispatch_picks_the_host_import_or_missing_capability() {
    let call = WasmBridgeHostCall {
        correlation_id: "d1".to_string(),
        capability: "host_tcp_socket".to_string(),
        payload: Some(input(r#"{"host":"h","port":1}"#).unwrap()),
    };
    match dispatch_host_call(&call) {
        HostDispatch::Import(import, request) => {
            assert_eq!(import, HostImport::TcpSocket);
            assert_eq!(import.name(), "host_tcp_socket");
            assert_eq!(
                to_serde(&request),
                json(r#"{"host":"h","port":1,"correlation_id":"d1"}"#)
            );
        }
        HostDispatch::MissingCapability(_) => panic!("host_tcp_socket is a host import"),
    }

    let call = WasmBridgeHostCall {
        correlation_id: "d2".to_string(),
        capability: "host_gpu".to_string(),
        payload: None,
    };
    match dispatch_host_call(&call) {
        HostDispatch::Import(..) => panic!("host_gpu is no host import"),
        HostDispatch::MissingCapability(callback) => assert_eq!(
            to_serde(&callback),
            json(
                r#"{"correlation_id":"d2","error":{"code":"missing_capability","message":"host capability is not available in this runtime","details":{"capability":"host_gpu"}}}"#
            )
        ),
    }
}
