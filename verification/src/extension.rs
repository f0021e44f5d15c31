//! Capability names and `codex_submit` payload keys reserved for the extension transports
//! (WebSocket, raw TCP, app-server RPC), and the shapes of their payloads.
//!
//! A host that does not implement a capability answers with `missing_capability`.
use vstd::prelude::*;

use crate::json::JsonValue;

verus! {

/// WebSocket proxy: connect, send frames, receive asynchronous callbacks.
pub const HOST_WEBSOCKET_REQUEST: &'static str = "host_websocket_request";

/// TCP socket: connect, read and write bytes, close (browsers may omit it).
pub const HOST_TCP_SOCKET: &'static str = "host_tcp_socket";

/// Forward an app-server JSON-RPC envelope to the host.
pub const HOST_APP_SERVER_RPC: &'static str = "host_app_server_rpc";

/// `payload.ws` of a submit request.
pub const SUBMIT_KEY_WEBSOCKET: &'static str = "ws";

/// `payload.tcp` of a submit request.
pub const SUBMIT_KEY_TCP: &'static str = "tcp";

/// `payload.app_server_rpc` of a submit request.
pub const SUBMIT_KEY_APP_SERVER_RPC: &'static str = "app_server_rpc";

/// The host opens (or reuses) a WebSocket.
#[derive(Debug, Clone, PartialEq, Eq)]
pub struct WasmBridgeWebSocketHandshake {
    pub url: String,
    pub protocols: Vec<String>,
    pub headers: Option<JsonValue>,
    pub timeout_ms: Option<u64>,
}

/// One logical TCP connection, identified by its correlation id across host calls.
#[derive(Debug, Clone, PartialEq, Eq)]
pub struct WasmBridgeTcpConnect {
    pub host: String,
    pub port: u16,
    pub timeout_ms: Option<u64>,
    pub tls: Option<bool>,
}

/// An app-server JSON-RPC request (`thread/read`, ...) forwarded through the host.
#[derive(Debug, Clone, PartialEq, Eq)]
pub struct WasmBridgeAppServerRpcEnvelope {
    pub method: String,
    pub params: Option<JsonValue>,
    pub id: Option<JsonValue>,
}

/// The capability that a structured extension key of a submit payload is routed to.
pub open spec fn structured_capability(key: Seq<char>) -> Option<Seq<char>> {
    if key == SUBMIT_KEY_WEBSOCKET@ {
        Some(HOST_WEBSOCKET_REQUEST@)
    } else if key == SUBMIT_KEY_TCP@ {
        Some(HOST_TCP_SOCKET@)
    } else if key == SUBMIT_KEY_APP_SERVER_RPC@ {
        Some(HOST_APP_SERVER_RPC@)
    } else {
        None
    }
}

/// Whether two strings have the same contents.
pub fn str_eq(a: &str, b: &str) -> (r: bool)
    ensures
        r == (a@ == b@),
{
    let x = a.to_owned();
    let y = b.to_owned();
    x == y
}

/// Maps `ws`, `tcp` and `app_server_rpc` to the host capabilities they are routed to.
pub fn structured_key_to_capability(key: &str) -> (r: Option<&'static str>)
    ensures
        match r {
            Some(c) => structured_capability(key@) == Some(c@),
            None => structured_capability(key@) is None,
        },
{
    if str_eq(key, SUBMIT_KEY_WEBSOCKET) {
        Some(HOST_WEBSOCKET_REQUEST)
    } else if str_eq(key, SUBMIT_KEY_TCP) {
        Some(HOST_TCP_SOCKET)
    } else if str_eq(key, SUBMIT_KEY_APP_SERVER_RPC) {
        Some(HOST_APP_SERVER_RPC)
    } else {
        None
    }
}

/// Each extension submit key routes to the capability of the same transport, and the
/// three keys and the three capabilities are distinct.
pub proof fn lemma_structured_keys_route_to_their_capabilities()
    ensures
        structured_capability(SUBMIT_KEY_WEBSOCKET@) == Some(HOST_WEBSOCKET_REQUEST@),
        structured_capability(SUBMIT_KEY_TCP@) == Some(HOST_TCP_SOCKET@),
        structured_capability(SUBMIT_KEY_APP_SERVER_RPC@) == Some(HOST_APP_SERVER_RPC@),
        HOST_WEBSOCKET_REQUEST@ != HOST_TCP_SOCKET@,
        HOST_TCP_SOCKET@ != HOST_APP_SERVER_RPC@,
        HOST_WEBSOCKET_REQUEST@ != HOST_APP_SERVER_RPC@,
{
    reveal_strlit("ws");
    reveal_strlit("tcp");
    reveal_strlit("app_server_rpc");
    reveal_strlit("host_websocket_request");
    reveal_strlit("host_tcp_socket");
    reveal_strlit("host_app_server_rpc");
    assert(SUBMIT_KEY_TCP@.len() != SUBMIT_KEY_WEBSOCKET@.len());
    assert(SUBMIT_KEY_APP_SERVER_RPC@.len() != SUBMIT_KEY_WEBSOCKET@.len());
    assert(SUBMIT_KEY_APP_SERVER_RPC@.len() != SUBMIT_KEY_TCP@.len());
    assert(HOST_WEBSOCKET_REQUEST@.len() != HOST_TCP_SOCKET@.len());
    assert(HOST_TCP_SOCKET@.len() != HOST_APP_SERVER_RPC@.len());
    assert(HOST_WEBSOCKET_REQUEST@[5] != HOST_APP_SERVER_RPC@[5]);
}

} // verus!
