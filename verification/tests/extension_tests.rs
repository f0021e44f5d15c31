use codex_wasm_bridge::extension::structured_key_to_capability;
use codex_wasm_bridge::extension::HOST_APP_SERVER_RPC;
use codex_wasm_bridge::extension::HOST_TCP_SOCKET;
use codex_wasm_bridge::extension::HOST_WEBSOCKET_REQUEST;
use codex_wasm_bridge::extension::SUBMIT_KEY_APP_SERVER_RPC;
use codex_wasm_bridge::extension::SUBMIT_KEY_TCP;
use codex_wasm_bridge::extension::SUBMIT_KEY_WEBSOCKET;

#[test]
fn structured_key_routes_match_constants() {
    assert_eq!(
        structured_key_to_capability(SUBMIT_KEY_WEBSOCKET),
        Some(HOST_WEBSOCKET_REQUEST)
    );
    assert_eq!(
        structured_key_to_capability(SUBMIT_KEY_TCP),
        Some(HOST_TCP_SOCKET)
    );
    assert_eq!(
        structured_key_to_capability(SUBMIT_KEY_APP_SERVER_RPC),
        Some(HOST_APP_SERVER_RPC)
    );
}

#[test]
fn extension_capability_ids_match_codex_core() {
    assert_eq!(HOST_WEBSOCKET_REQUEST, "host_websocket_request");
    assert_eq!(HOST_TCP_SOCKET, "host_tcp_socket");
    assert_eq!(HOST_APP_SERVER_RPC, "host_app_server_rpc");
    assert_eq!(SUBMIT_KEY_WEBSOCKET, "ws");
    assert_eq!(SUBMIT_KEY_TCP, "tcp");
    assert_eq!(SUBMIT_KEY_APP_SERVER_RPC, "app_server_rpc");
}

#[test]
fn unknown_structured_keys_route_nowhere() {
    assert_eq!(structured_key_to_capability("http"), None);
    assert_eq!(structured_key_to_capability("WS"), None);
    assert_eq!(structured_key_to_capability(""), None);
    assert_eq!(structured_key_to_capability("host_tcp_socket"), None);
}
