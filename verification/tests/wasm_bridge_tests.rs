use codex_wasm_bridge::json::JsonNumber;
use codex_wasm_bridge::json::JsonValue;
use codex_wasm_bridge::kernel::WasmBridgeKernel;
use codex_wasm_bridge::fields::ExecEnv;
use codex_wasm_bridge::schema::CallbackShape;
use codex_wasm_bridge::extension::HOST_APP_SERVER_RPC;
use codex_wasm_bridge::extension::HOST_TCP_SOCKET;
use codex_wasm_bridge::extension::HOST_WEBSOCKET_REQUEST;
use codex_wasm_bridge::schema::WasmBridgeCancelRequest;
use codex_wasm_bridge::schema::WasmBridgeExecHostEvent;
use codex_wasm_bridge::schema::WasmBridgeHostCall;
use codex_wasm_bridge::schema::WasmBridgeHttpRequest;
use serde_json::Value;

fn from_serde(v: &Value) -> JsonValue {
    match v {
        Value::Null => JsonValue::Null,
        Value::Bool(b) => JsonValue::Bool(*b),
        Value::Number(n) => match (n.as_u64(), n.as_i64()) {
            (Some(u), _) => JsonValue::Number(JsonNumber::PosInt(u)),
            (None, Some(i)) => JsonValue::Number(JsonNumber::NegInt(i)),
            _ => JsonValue::Number(JsonNumber::Float(n.to_string())),
        },
        Value::String(s) => JsonValue::String(s.clone()),
        Value::Array(items) => JsonValue::Array(items.iter().map(from_serde).collect()),
        Value::Object(m) => {
            JsonValue::Object(m.iter().map(|(k, v)| (k.clone(), from_serde(v))).collect())
        }
    }
}

fn to_serde(v: &JsonValue) -> Value {
    match v {
        JsonValue::Null => Value::Null,
        JsonValue::Bool(b) => Value::Bool(*b),
        JsonValue::Number(JsonNumber::PosInt(u)) => Value::from(*u),
        JsonValue::Number(JsonNumber::NegInt(i)) => Value::from(*i),
        JsonValue::Number(JsonNumber::Float(t)) => Value::Number(t.parse().unwrap()),
        JsonValue::String(s) => Value::String(s.clone()),
        JsonValue::Array(items) => Value::Array(items.iter().map(to_serde).collect()),
        JsonValue::Object(m) => {
            Value::Object(m.iter().map(|(k, v)| (k.clone(), to_serde(v))).collect())
        }
    }
}

/// The host's JSON text as the bridge receives it.
fn input(text: &str) -> Result<JsonValue, String> {
    serde_json::from_str::<Value>(text)
        .map(|v| from_serde(&v))
        .map_err(|e| e.to_string())
}

fn json(input: &str) -> Value {
    match serde_json::from_str(input) {
        Ok(value) => value,
        Err(err) => panic!("expected valid JSON in test: {err}"),
    }
}

fn rows(calls: &[WasmBridgeHostCall]) -> Vec<(String, String, Option<Value>)> {
    calls
        .iter()
        .map(|c| {
            (
                c.correlation_id.clone(),
                c.capability.clone(),
                c.payload.as_ref().map(to_serde),
            )
        })
        .collect()
}

fn row(correlation_id: &str, capability: &str, payload: &str) -> (String, String, Option<Value>) {
    (correlation_id.to_string(), capability.to_string(), Some(json(payload)))
}

#[test]
fn wasm_bridge_tests_submit_requires_init() {
    let mut kernel = WasmBridgeKernel::default();

    let response = kernel.handle_submit_json(input(
        r#"{"correlation_id":"req-1","kind":"prompt","payload":{"text":"hello"}}"#,
    ));

    assert_eq!(
        to_serde(&response),
        json(
            r#"{"correlation_id":"req-1","error":{"code":"internal","message":"bridge not initialized","details":null}}"#
        )
    );
}

#[test]
fn cancel_clears_pending_and_records_cancelled() {
    let mut kernel = WasmBridgeKernel::default();
    kernel.handle_init_json(r#"{"runtime":"node"}"#);
    kernel.handle_submit_json(input(
        r#"{"correlation_id":"cx1","kind":"tool","payload":{"http":{"url":"https://example.com"}}}"#,
    ));
    assert!(kernel.test_pending_requests_contains("cx1"));
    assert!(!kernel.test_cancelled_requests_contains("cx1"));

    kernel.handle_cancel_json(input(r#"{"correlation_id":"cx1","reason":"user"}"#));

    assert!(
        !kernel.test_pending_requests_contains("cx1"),
        "cancel should remove correlation_id from pending set"
    );
    assert!(kernel.test_cancelled_requests_contains("cx1"));
}

#[test]
fn submit_queues_host_call_from_payload() {
    let mut kernel = WasmBridgeKernel::default();
    let init_response = kernel.handle_init_json(r#"{"runtime":"node"}"#);
    let submit_response = kernel.handle_submit_json(input(
        r#"{"correlation_id":"req-2","kind":"prompt","payload":{"host_call":{"capability":"host_http_request","payload":{"url":"https://example.com"}}}}"#,
    ));

    assert_eq!(to_serde(&init_response), json(r#"{"ok":true}"#));
    assert_eq!(
        to_serde(&submit_response),
        json(r#"{"correlation_id":"req-2","status":"accepted"}"#)
    );
    assert_eq!(
        rows(&kernel.take_pending_host_calls()),
        vec![row("req-2", "host_http_request", r#"{"url":"https://example.com"}"#)]
    );
}

#[test]
fn submit_cli_empty_args_returns_invalid_cli() {
    let mut kernel = WasmBridgeKernel::default();
    kernel.handle_init_json(r#"{"runtime":"node"}"#);

    let response = kernel.handle_submit_json(input(
        r#"{"correlation_id":"bad-cli","kind":"cli","payload":{"args":[],"cwd":"/"}}"#,
    ));

    assert_eq!(
        to_serde(&response),
        json(
            r#"{"correlation_id":"bad-cli","error":{"code":"invalid_cli","message":"cli.args must be non-empty","details":null}}"#
        )
    );
}

#[test]
fn submit_cli_non_string_arg_returns_invalid_cli() {
    let mut kernel = WasmBridgeKernel::default();
    kernel.handle_init_json(r#"{"runtime":"node"}"#);

    let response = kernel.handle_submit_json(input(
        r#"{"correlation_id":"bad-cli2","kind":"cli","payload":{"args":[1,"b"]}}"#,
    ));

    assert_eq!(
        to_serde(&response),
        json(
            r#"{"correlation_id":"bad-cli2","error":{"code":"invalid_cli","message":"cli.args elements must be JSON strings","details":null}}"#
        )
    );
}

#[test]
fn wasm_bridge_exec_host_event_roundtrips_json() {
    let chunk = WasmBridgeExecHostEvent::ExecChunk {
        correlation_id: "c1".to_string(),
        stream: "stdout".to_string(),
        data: "hello".to_string(),
    };
    let value = chunk.to_json();
    let back = WasmBridgeExecHostEvent::from_json(&value).unwrap();
    assert_eq!(chunk, back);

    let exit = WasmBridgeExecHostEvent::ExecExit {
        correlation_id: "c1".to_string(),
        exit_code: 42,
        signal: None,
        cancelled: false,
    };
    let value = exit.to_json();
    let back = WasmBridgeExecHostEvent::from_json(&value).unwrap();
    assert_eq!(exit, back);
}

#[test]
fn cancel_payload_roundtrips_json() {
    let cancel = WasmBridgeCancelRequest {
        correlation_id: "cx".to_string(),
        reason: Some("user".to_string()),
    };
    let s = to_serde(&cancel.to_json()).to_string();
    let back = WasmBridgeCancelRequest::from_json(&input(&s).unwrap()).unwrap();
    assert_eq!(cancel, back);
}

#[test]
fn exec_lifecycle_with_typed_host_callbacks() {
    let mut kernel = WasmBridgeKernel::default();
    kernel.handle_init_json("{}");

    let submit_response = kernel.handle_submit_json(input(
        r#"{"correlation_id":"e2e","kind":"exec","payload":{"exec":{"command":"sh","args":["-c","true"]}}}"#,
    ));
    assert_eq!(
        to_serde(&submit_response),
        json(r#"{"correlation_id":"e2e","status":"accepted"}"#)
    );

    let _calls = kernel.take_pending_host_calls();

    let chunk_payload = to_serde(
        &WasmBridgeExecHostEvent::ExecChunk {
            correlation_id: "e2e".to_string(),
            stream: "stdout".to_string(),
            data: "mock".to_string(),
        }
        .to_json(),
    );
    let mut envelope = serde_json::Map::new();
    envelope.insert("correlation_id".to_string(), Value::from("e2e"));
    envelope.insert("capability".to_string(), Value::from("exec"));
    envelope.insert("payload".to_string(), chunk_payload);
    kernel.handle_deliver_callback_json(input(&Value::Object(envelope).to_string()));

    let exit_payload = to_serde(
        &WasmBridgeExecHostEvent::ExecExit {
            correlation_id: "e2e".to_string(),
            exit_code: 0,
            signal: None,
            cancelled: false,
        }
        .to_json(),
    );
    let mut envelope = serde_json::Map::new();
    envelope.insert("correlation_id".to_string(), Value::from("e2e"));
    envelope.insert("capability".to_string(), Value::from("exec"));
    envelope.insert("payload".to_string(), exit_payload);
    kernel.handle_deliver_callback_json(input(&Value::Object(envelope).to_string()));

    assert_eq!(kernel.delivered_callback_count(), 2);
}

#[test]
fn submit_cli_kind_queues_exec_host_call_when_args_non_empty() {
    let mut kernel = WasmBridgeKernel::default();
    kernel.handle_init_json(r#"{"runtime":"node"}"#);

    let submit_response = kernel.handle_submit_json(input(
        r#"{"correlation_id":"req-cli","kind":"cli","payload":{"args":["echo","wasm-cli"],"cwd":"/tmp"}}"#,
    ));

    assert_eq!(
        to_serde(&submit_response),
        json(r#"{"correlation_id":"req-cli","status":"accepted"}"#)
    );
    assert_eq!(
        rows(&kernel.take_pending_host_calls()),
        vec![row(
            "req-cli",
            "host_exec_request",
            r#"{"command":"echo","args":["wasm-cli"],"cwd":"/tmp","env":null,"timeout_ms":null,"stdin":null}"#,
        )]
    );
}

#[test]
fn submit_http_stream_flag_is_visible_on_host_payload() {
    let mut kernel = WasmBridgeKernel::default();
    kernel.handle_init_json(r#"{"runtime":"node"}"#);

    let submit_response = kernel.handle_submit_json(input(
        r#"{"correlation_id":"req-stream","kind":"tool","payload":{"http":{"url":"https://example.com/stream","method":"GET","stream_response":true}}}"#,
    ));

    assert_eq!(
        to_serde(&submit_response),
        json(r#"{"correlation_id":"req-stream","status":"accepted"}"#)
    );
    let calls = kernel.take_pending_host_calls();
    assert_eq!(calls.len(), 1);
    assert_eq!(calls[0].capability, "host_http_request");
    let payload = calls[0].payload.as_ref().unwrap();
    assert_eq!(
        payload.get("stream_response").map(to_serde),
        Some(Value::Bool(true))
    );
    assert_eq!(
        WasmBridgeHttpRequest::from_json(payload).unwrap(),
        WasmBridgeHttpRequest {
            url: "https://example.com/stream".to_string(),
            method: Some("GET".to_string()),
            headers: None,
            body: None,
            timeout_ms: None,
            stream_response: Some(true),
        }
    );
}

#[test]
fn submit_structured_http_queues_host_call() {
    let mut kernel = WasmBridgeKernel::default();
    kernel.handle_init_json(r#"{"runtime":"node"}"#);

    let submit_response = kernel.handle_submit_json(input(
        r#"{"correlation_id":"req-http","kind":"tool","payload":{"http":{"url":"https://example.com","method":"GET"}}}"#,
    ));

    assert_eq!(
        to_serde(&submit_response),
        json(r#"{"correlation_id":"req-http","status":"accepted"}"#)
    );
    assert_eq!(
        rows(&kernel.take_pending_host_calls()),
        vec![row(
            "req-http",
            "host_http_request",
            r#"{"url":"https://example.com","method":"GET"}"#,
        )]
    );
}

#[test]
fn submit_structured_extension_keys_queue_expected_host_calls() {
    let mut kernel = WasmBridgeKernel::default();
    kernel.handle_init_json(r#"{"runtime":"node"}"#);

    let submit_response = kernel.handle_submit_json(input(
        r#"{"correlation_id":"req-ws","kind":"tool","payload":{"ws":{"url":"wss://example.com/w"}}}"#,
    ));
    assert_eq!(
        to_serde(&submit_response),
        json(r#"{"correlation_id":"req-ws","status":"accepted"}"#)
    );
    assert_eq!(
        rows(&kernel.take_pending_host_calls()),
        vec![row("req-ws", HOST_WEBSOCKET_REQUEST, r#"{"url":"wss://example.com/w"}"#)]
    );

    let submit_response = kernel.handle_submit_json(input(
        r#"{"correlation_id":"req-tcp","kind":"tool","payload":{"tcp":{"host":"127.0.0.1","port":9}}}"#,
    ));
    assert_eq!(
        to_serde(&submit_response),
        json(r#"{"correlation_id":"req-tcp","status":"accepted"}"#)
    );
    assert_eq!(
        rows(&kernel.take_pending_host_calls()),
        vec![row("req-tcp", HOST_TCP_SOCKET, r#"{"host":"127.0.0.1","port":9}"#)]
    );

    let submit_response = kernel.handle_submit_json(input(
        r#"{"correlation_id":"req-rpc","kind":"tool","payload":{"app_server_rpc":{"method":"thread/read","params":{}}}}"#,
    ));
    assert_eq!(
        to_serde(&submit_response),
        json(r#"{"correlation_id":"req-rpc","status":"accepted"}"#)
    );
    assert_eq!(
        rows(&kernel.take_pending_host_calls()),
        vec![row(
            "req-rpc",
            HOST_APP_SERVER_RPC,
            r#"{"method":"thread/read","params":{}}"#,
        )]
    );
}

#[test]
fn submit_queues_exec_host_call_from_payload() {
    let mut kernel = WasmBridgeKernel::default();
    kernel.handle_init_json(r#"{"runtime":"node"}"#);

    let submit_response = kernel.handle_submit_json(input(
        r#"{"correlation_id":"req-exec","kind":"exec","payload":{"exec":{"command":"bash","args":["-lc","echo hi"],"cwd":"/tmp/demo","env":{"TERM":"xterm-256color"},"timeout_ms":5000,"stdin":"echo from wasm\n"}}}"#,
    ));

    assert_eq!(
        to_serde(&submit_response),
        json(r#"{"correlation_id":"req-exec","status":"accepted"}"#)
    );
    assert_eq!(
        rows(&kernel.take_pending_host_calls()),
        vec![row(
            "req-exec",
            "host_exec_request",
            r#"{"command":"bash","args":["-lc","echo hi"],"cwd":"/tmp/demo","env":{"TERM":"xterm-256color"},"timeout_ms":5000,"stdin":"echo from wasm\n"}"#,
        )]
    );
}

#[test]
fn callback_delivery_clears_pending_request() {
    let mut kernel = WasmBridgeKernel::default();
    kernel.handle_init_json(r#"{"runtime":"node"}"#);
    kernel.handle_submit_json(input(
        r#"{"correlation_id":"req-3","kind":"prompt","payload":{"text":"hello"}}"#,
    ));

    kernel.handle_deliver_callback_json(input(
        r#"{"correlation_id":"req-3","capability":"host_exec_request","payload":{"exit_code":0}}"#,
    ));
    kernel.handle_cancel_json(input(r#"{"correlation_id":"req-3","reason":"late"}"#));

    assert_eq!(kernel.delivered_callback_count(), 1);
    assert_eq!(kernel.take_pending_host_calls(), Vec::new());
}

#[test]
fn init_refuses_text_that_is_not_json() {
    let mut kernel = WasmBridgeKernel::default();
    let message = serde_json::from_str::<Value>("runtime=node").unwrap_err().to_string();
    let response = kernel.handle_init_json("runtime=node");
    let mut expected = json(
        r#"{"correlation_id":"lifecycle","error":{"code":"internal","message":"invalid init config JSON","details":{"parse_error":""}}}"#,
    );
    expected["error"]["details"]["parse_error"] = Value::from(message);
    assert_eq!(to_serde(&response), expected);
    let response = kernel.handle_submit_json(input(r#"{"correlation_id":"a"}"#));
    assert_eq!(
        to_serde(&response)["error"]["message"],
        Value::from("bridge not initialized")
    );
}

#[test]
fn submit_refuses_text_that_is_not_json_and_non_requests() {
    let mut kernel = WasmBridgeKernel::default();
    kernel.handle_init_json("{}");
    let response = kernel.handle_submit_json(input("{not json"));
    let value = to_serde(&response);
    assert_eq!(value["correlation_id"], Value::from("unknown"));
    assert_eq!(value["error"]["code"], Value::from("internal"));
    assert_eq!(value["error"]["message"], Value::from("invalid submit request JSON"));
    assert!(value["error"]["details"]["parse_error"].is_string());

    for text in [r#"{"kind":"prompt"}"#, r#"{"correlation_id":5}"#, r#""text""#, r#"{"correlation_id":"a","kind":3}"#] {
        let value = to_serde(&kernel.handle_submit_json(input(text)));
        assert_eq!(value["correlation_id"], Value::from("unknown"), "{text}");
        assert_eq!(value["error"]["message"], Value::from("invalid submit request JSON"));
    }
    assert!(!kernel.test_pending_requests_contains("a"));
}

#[test]
fn submit_accepts_a_request_written_as_an_array() {
    let mut kernel = WasmBridgeKernel::default();
    kernel.handle_init_json("{}");
    let response = kernel.handle_submit_json(input(r#"["arr-1","tool",{"fs_stat":{"path":"/"}}]"#));
    assert_eq!(
        to_serde(&response),
        json(r#"{"correlation_id":"arr-1","status":"accepted"}"#)
    );
    assert_eq!(
        rows(&kernel.take_pending_host_calls()),
        vec![row("arr-1", "host_fs_stat", r#"{"path":"/"}"#)]
    );
    let response = kernel.handle_submit_json(input(r#"["arr-2","tool",null,"extra"]"#));
    assert_eq!(to_serde(&response)["correlation_id"], Value::from("unknown"));
}

#[test]
fn cli_submits_are_checked() {
    let mut kernel = WasmBridgeKernel::default();
    kernel.handle_init_json("{}");
    let cases = [
        (r#"{"correlation_id":"c1","kind":"cli"}"#, "cli submit requires a JSON payload object"),
        (r#"{"correlation_id":"c2","kind":"cli","payload":null}"#, "cli submit requires a JSON payload object"),
        (r#"{"correlation_id":"c3","kind":"cli","payload":{"cwd":"/"}}"#, "cli payload requires an args array"),
        (r#"{"correlation_id":"c4","kind":"cli","payload":{"args":"ls"}}"#, "cli.args must be a JSON array"),
        (r#"{"correlation_id":"c5","kind":"cli","payload":[1]}"#, "cli payload requires an args array"),
    ];
    for (text, message) in cases {
        let value = to_serde(&kernel.handle_submit_json(input(text)));
        assert_eq!(value["error"]["code"], Value::from("invalid_cli"), "{text}");
        assert_eq!(value["error"]["message"], Value::from(message), "{text}");
    }
    assert!(kernel.take_pending_host_calls().is_empty());
    assert!(!kernel.test_pending_requests_contains("c1"));

    kernel.handle_submit_json(input(
        r#"{"correlation_id":"c6","kind":"cli","payload":{"args":["ls"],"cwd":7}}"#,
    ));
    assert_eq!(
        rows(&kernel.take_pending_host_calls()),
        vec![row(
            "c6",
            "host_exec_request",
            r#"{"command":"ls","args":[],"cwd":null,"env":null,"timeout_ms":null,"stdin":null}"#,
        )]
    );
}

#[test]
fn routing_prefers_host_call_then_exec_then_structured_keys() {
    let mut kernel = WasmBridgeKernel::default();
    kernel.handle_init_json("{}");

    kernel.handle_submit_json(input(
        r#"{"correlation_id":"p1","payload":{"http":{"url":"u"},"host_call":{"capability":"host_fs_read","payload":null},"exec":{"command":"ls"}}}"#,
    ));
    kernel.handle_submit_json(input(
        r#"{"correlation_id":"p2","payload":{"fs_write":{"path":"/a"},"exec":{"command":"ls","transport":{"kind":"pty","size":{"rows":24,"cols":80}}}}}"#,
    ));
    kernel.handle_submit_json(input(
        r#"{"correlation_id":"p3","payload":{"exec":{"args":["no command"]},"secret_get":{"name":"k"},"fs_list":{"path":"/"}}}"#,
    ));
    kernel.handle_submit_json(input(
        r#"{"correlation_id":"p4","payload":{"host_call":{"payload":{}},"http":{"url":"u"}}}"#,
    ));
    kernel.handle_submit_json(input(r#"{"correlation_id":"p5","payload":{"text":"hi"}}"#));

    assert_eq!(
        rows(&kernel.take_pending_host_calls()),
        vec![
            (String::from("p1"), String::from("host_fs_read"), Some(Value::Null)),
            row(
                "p2",
                "host_exec_request",
                r#"{"command":"ls","args":[],"cwd":null,"env":null,"timeout_ms":null,"stdin":null,"transport":{"kind":"pty","size":{"rows":24,"cols":80}}}"#,
            ),
            row("p3", "host_fs_list", r#"{"path":"/"}"#),
        ]
    );
    for id in ["p1", "p2", "p3", "p4", "p5"] {
        assert!(kernel.test_pending_requests_contains(id), "{id}");
    }
}

#[test]
fn callbacks_and_cancels_that_are_not_well_formed_are_ignored() {
    let mut kernel = WasmBridgeKernel::default();
    kernel.handle_init_json("{}");
    kernel.handle_submit_json(input(r#"{"correlation_id":"q1"}"#));

    kernel.handle_deliver_callback_json(input("{oops"));
    kernel.handle_deliver_callback_json(input(r#"{"correlation_id":1}"#));
    kernel.handle_deliver_callback_json(input(r#"7"#));
    assert_eq!(kernel.delivered_callback_count(), 0);

    kernel.handle_deliver_callback_json(input(r#"{"capability":"exec"}"#));
    assert_eq!(kernel.delivered_callback_count(), 1);
    assert!(kernel.test_pending_requests_contains("q1"));

    kernel.handle_cancel_json(input(r#"{"reason":"no id"}"#));
    kernel.handle_cancel_json(input("]"));
    assert!(kernel.test_pending_requests_contains("q1"));

    kernel.handle_cancel_json(input(r#"{"correlation_id":"never-submitted"}"#));
    assert!(kernel.test_cancelled_requests_contains("never-submitted"));

    kernel.handle_deliver_callback_json(input(r#"{"correlation_id":"q1","error":{"code":"x"}}"#));
    assert_eq!(kernel.delivered_callback_count(), 2);
    assert!(!kernel.test_pending_requests_contains("q1"));
}

#[test]
fn init_and_shutdown_reset_the_session() {
    let mut kernel = WasmBridgeKernel::default();
    kernel.handle_init_json("{}");
    kernel.handle_submit_json(input(r#"{"correlation_id":"r1","payload":{"http":{}}}"#));
    kernel.handle_cancel_json(input(r#"{"correlation_id":"r0"}"#));
    kernel.handle_deliver_callback_json(input(r#"{}"#));
    assert_eq!(kernel.pending_host_call_count(), 1);

    kernel.handle_init_json(r#"{"version":"0.1.0"}"#);
    assert_eq!(kernel.delivered_callback_count(), 0);
    assert_eq!(kernel.pending_host_call_count(), 0);
    assert!(!kernel.test_pending_requests_contains("r1"));
    assert!(!kernel.test_cancelled_requests_contains("r0"));

    kernel.handle_submit_json(input(r#"{"correlation_id":"r2","payload":{"http":{}}}"#));
    kernel.handle_shutdown();
    assert!(!kernel.test_pending_requests_contains("r2"));
    assert_eq!(kernel.take_pending_host_calls(), Vec::new());
    let response = kernel.handle_submit_json(input(r#"{"correlation_id":"r3"}"#));
    assert_eq!(to_serde(&response)["error"]["message"], Value::from("bridge not initialized"));
}

#[test]
fn taking_host_calls_twice_gives_nothing_the_second_time() {
    let mut kernel = WasmBridgeKernel::default();
    kernel.handle_init_json("{}");
    kernel.handle_submit_json(input(r#"{"correlation_id":"t1","payload":{"fs_read":{"path":"a"}}}"#));
    kernel.handle_submit_json(input(r#"{"correlation_id":"t2","payload":{"fs_remove":{"path":"b"}}}"#));
    assert_eq!(
        rows(&kernel.take_pending_host_calls()),
        vec![
            row("t1", "host_fs_read", r#"{"path":"a"}"#),
            row("t2", "host_fs_remove", r#"{"path":"b"}"#),
        ]
    );
    assert!(kernel.take_pending_host_calls().is_empty());
}

#[test]
fn exec_events_with_negative_codes_and_signals_round_trip() {
    let exit = WasmBridgeExecHostEvent::ExecExit {
        correlation_id: "c2".to_string(),
        exit_code: -15,
        signal: Some(input(r#""SIGTERM""#).unwrap()),
        cancelled: true,
    };
    let value = exit.to_json();
    assert_eq!(
        to_serde(&value),
        json(r#"{"kind":"exec_exit","correlation_id":"c2","exit_code":-15,"signal":"SIGTERM","cancelled":true}"#)
    );
    assert_eq!(WasmBridgeExecHostEvent::from_json(&value), Some(exit));
    assert_eq!(
        WasmBridgeExecHostEvent::from_json(&input(r#"{"kind":"exec_exit","correlation_id":"c"}"#).unwrap()),
        None
    );
    assert_eq!(
        WasmBridgeExecHostEvent::from_json(&input(r#"{"kind":"other","correlation_id":"c"}"#).unwrap()),
        None
    );
}

#[test]
fn exec_env_with_non_string_values_follows_the_session_rule() {
    let request = r#"{"correlation_id":"req-env","payload":{"exec":{"command":"ls","env":{"DEPTH":2,"TERM":"xterm"}}}}"#;

    let mut strings_only = WasmBridgeKernel::default();
    strings_only.handle_init_json("{}");
    let response = strings_only.handle_submit_json(input(request));
    assert_eq!(
        to_serde(&response),
        json(r#"{"correlation_id":"req-env","status":"accepted"}"#)
    );
    assert_eq!(strings_only.take_pending_host_calls(), Vec::new());

    let mut any_values = WasmBridgeKernel::with_rules(ExecEnv::AnyValues, CallbackShape::CorrelationId);
    any_values.handle_init_json("{}");
    let response = any_values.handle_submit_json(input(request));
    assert_eq!(
        to_serde(&response),
        json(r#"{"correlation_id":"req-env","status":"accepted"}"#)
    );
    assert_eq!(
        rows(&any_values.take_pending_host_calls()),
        vec![row(
            "req-env",
            "host_exec_request",
            r#"{"command":"ls","args":[],"cwd":null,"env":{"DEPTH":2,"TERM":"xterm"},"timeout_ms":null,"stdin":null}"#,
        )]
    );
    any_values.handle_shutdown();
    any_values.handle_init_json("{}");
    any_values.handle_submit_json(input(request));
    assert_eq!(any_values.take_pending_host_calls().len(), 1);
}

#[test]
fn callbacks_are_read_under_the_session_shape() {
    let mut envelope = WasmBridgeKernel::default();
    let mut id_only = WasmBridgeKernel::with_rules(ExecEnv::AnyValues, CallbackShape::CorrelationId);
    for kernel in [&mut envelope, &mut id_only] {
        kernel.handle_init_json("{}");
        kernel.handle_submit_json(input(r#"{"correlation_id":"a","kind":"prompt"}"#));
        kernel.handle_submit_json(input(r#"{"correlation_id":"b","kind":"prompt"}"#));
    }

    // A numeric capability: not an envelope, but a callback for its id alone.
    let numeric = r#"{"correlation_id":"a","capability":3}"#;
    assert!(!envelope.counts_callback(&input(numeric)));
    envelope.handle_deliver_callback_json(input(numeric));
    assert_eq!(envelope.delivered_callback_count(), 0);
    assert!(envelope.test_pending_requests_contains("a"));
    assert!(id_only.counts_callback(&input(numeric)));
    id_only.handle_deliver_callback_json(input(numeric));
    assert_eq!(id_only.delivered_callback_count(), 1);
    assert!(!id_only.test_pending_requests_contains("a"));

    // Two positional fields: an envelope, but too many for the id alone.
    let positional = r#"["b","exec"]"#;
    envelope.handle_deliver_callback_json(input(positional));
    assert_eq!(envelope.delivered_callback_count(), 1);
    assert!(!envelope.test_pending_requests_contains("b"));
    id_only.handle_deliver_callback_json(input(positional));
    assert_eq!(id_only.delivered_callback_count(), 1);
    assert!(id_only.test_pending_requests_contains("b"));

    // One positional field counts under both.
    id_only.handle_deliver_callback_json(input(r#"["b"]"#));
    assert_eq!(id_only.delivered_callback_count(), 2);
    assert!(!id_only.test_pending_requests_contains("b"));

    // Shutdown keeps the session's shape.
    id_only.handle_shutdown();
    id_only.handle_deliver_callback_json(input(numeric));
    assert_eq!(id_only.delivered_callback_count(), 1);
}
