//! What holds of a bridge session across its operations.
use vstd::prelude::*;

use crate::json::JsonModel;
use crate::kernel::accept;
use crate::kernel::accepted_response;
use crate::kernel::callback_step;
use crate::kernel::cancel_step;
use crate::kernel::error_response;
use crate::kernel::init_step;
use crate::kernel::initial_state;
use crate::kernel::ok_response;
use crate::kernel::submit_step;
use crate::kernel::KernelModel;
use crate::routing::cli_host_call;
use crate::routing::route_host_call;
use crate::schema::cancel_request_json;
use crate::schema::callback_id;
use crate::schema::CallbackShape;
use crate::schema::decode_cancel_request;
use crate::schema::decode_exec_host_event;
use crate::schema::decode_submit_request;
use crate::schema::exec_host_event_json;
use crate::schema::i32_json;
use crate::schema::CancelRequestModel;
use crate::schema::ExecHostEventModel;
use crate::schema::HostCallModel;
use crate::json::lookup;
use crate::fields::field_of;
use crate::fields::all_strings;
use crate::fields::env_admits;
use crate::fields::ExecEnv;
use crate::fields::text_of;
use crate::schema::decode_exec_request;
use crate::schema::decode_exec_transport;
use crate::schema::decode_terminal_size;
use crate::schema::exec_payload_json;
use crate::schema::exec_transport_json;
use crate::schema::terminal_size_json;
use crate::schema::strings_json;
use crate::schema::env_json;
use crate::schema::ExecRequestModel;
use crate::schema::ExecTransportModel;
use crate::schema::WasmBridgeExecTerminalSize;
use crate::routing::cli_exec_request;
use crate::routing::first_structured;
use crate::routing::structured_routes;
use crate::bridge::import_names;
use crate::bridge::HostImport;

verus! {

/// The session that `init` starts.
pub open spec fn fresh_session() -> KernelModel {
    KernelModel {
        initialized: true,
        pending: Set::empty(),
        cancelled: Set::empty(),
        host_calls: Seq::empty(),
        delivered: 0,
    }
}

/// `init` with any JSON configuration answers `{ "ok": true }` and starts a fresh session,
/// whatever the session held before.
pub proof fn lemma_init_starts_fresh_session(st: KernelModel, config: JsonModel)
    ensures
        init_step(st, Ok(config)).0 == fresh_session(),
        init_step(st, Ok(config)).1 == ok_response(),
{
}

/// `init` with text that is not JSON leaves the session as it was.
pub proof fn lemma_init_refusal_changes_nothing(st: KernelModel, message: Seq<char>)
    ensures
        init_step(st, Err(message)).0 == st,
{
}

/// An error response is never an acceptance.
pub proof fn lemma_error_is_not_accepted(
    correlation_id: Seq<char>,
    code: Seq<char>,
    message: Seq<char>,
    details: Option<JsonModel>,
    id: Seq<char>,
)
    ensures
        error_response(correlation_id, code, message, details) != accepted_response(id),
{
    reveal_strlit("error");
    reveal_strlit("status");
    let e = error_response(correlation_id, code, message, details);
    let a = accepted_response(id);
    assert(e->Object_0[1].0 == "error"@);
    assert(a->Object_0[1].0 == "status"@);
    assert("error"@.len() != "status"@.len());
}

/// In a session that was not initialized (or was shut down), every submit is refused and
/// the session is left as it was; a well-formed one is answered "bridge not initialized"
/// under its own correlation id.
pub proof fn lemma_submit_requires_init(st: KernelModel, doc: JsonModel, rule: ExecEnv)
    requires
        !st.initialized,
    ensures
        submit_step(st, Ok(doc), rule).0 == st,
        decode_submit_request(doc) matches Some(req) ==> submit_step(st, Ok(doc), rule).1
            == error_response(req.correlation_id, "internal"@, "bridge not initialized"@, None),
{
}

/// After `shutdown`, no further submit is accepted.
pub proof fn lemma_no_submit_after_shutdown(doc: JsonModel, rule: ExecEnv)
    ensures
        submit_step(initial_state(), Ok(doc), rule).0 == initial_state(),
        decode_submit_request(doc) matches Some(req) ==> submit_step(initial_state(), Ok(doc), rule).1
            != accepted_response(req.correlation_id),
{
    if let Some(req) = decode_submit_request(doc) {
        lemma_error_is_not_accepted(
            req.correlation_id,
            "internal"@,
            "bridge not initialized"@,
            None,
            req.correlation_id,
        );
    }
}

/// The correlation id a submit document carries (empty when it is not a submit request).
pub open spec fn submitted_id(request: Result<JsonModel, Seq<char>>) -> Seq<char> {
    match request {
        Ok(doc) => match decode_submit_request(doc) {
            Some(req) => req.correlation_id,
            None => Seq::empty(),
        },
        Err(_) => Seq::empty(),
    }
}

/// What an accepted submit does to a session: the session is initialized, the request is
/// pending, nothing else changes but that at most one host call is queued, and that call
/// carries the request's correlation id.
pub open spec fn accepted_effect(st: KernelModel, after: KernelModel, id: Seq<char>) -> bool {
    &&& after.initialized
    &&& after.pending == st.pending.insert(id)
    &&& after.cancelled == st.cancelled
    &&& after.delivered == st.delivered
    &&& after.host_calls == st.host_calls || (after.host_calls.len() == st.host_calls.len() + 1
        && after.host_calls.drop_last() == st.host_calls && after.host_calls.last().correlation_id
        == id)
}

/// A submit either is accepted under its own correlation id, with the effect above, or is
/// refused and leaves the session as it was.
pub proof fn lemma_submit_accepts_or_changes_nothing(
    st: KernelModel,
    request: Result<JsonModel, Seq<char>>,
    rule: ExecEnv,
)
    ensures
        submit_step(st, request, rule).1 == accepted_response(submitted_id(request))
            ==> accepted_effect(st, submit_step(st, request, rule).0, submitted_id(request)),
        submit_step(st, request, rule).1 != accepted_response(submitted_id(request))
            ==> submit_step(st, request, rule).0 == st,
{
    let id = submitted_id(request);
    match request {
        Err(message) => {
            lemma_error_is_not_accepted(
                "unknown"@,
                "internal"@,
                "invalid submit request JSON"@,
                Some(crate::kernel::parse_error_details(message)),
                id,
            );
        },
        Ok(doc) => match decode_submit_request(doc) {
            None => {
                lemma_error_is_not_accepted(
                    "unknown"@,
                    "internal"@,
                    "invalid submit request JSON"@,
                    Some(crate::kernel::parse_error_details(crate::kernel::NOT_A_SUBMIT_REQUEST@)),
                    id,
                );
            },
            Some(req) => {
                if !st.initialized {
                    lemma_error_is_not_accepted(id, "internal"@, "bridge not initialized"@, None, id);
                } else if req.kind == Some("cli"@) {
                    match req.payload {
                        None => {
                            lemma_error_is_not_accepted(
                                id,
                                "invalid_cli"@,
                                "cli submit requires a JSON payload object"@,
                                None,
                                id,
                            );
                        },
                        Some(p) => match cli_host_call(id, p) {
                            Err(message) => {
                                lemma_error_is_not_accepted(id, "invalid_cli"@, message, None, id);
                            },
                            Ok(call) => {
                                let after = accept(st, id, Some(call));
                                assert(after.host_calls.drop_last() =~= st.host_calls);
                            },
                        },
                    }
                } else {
                    let after = accept(st, id, route_host_call(id, req.payload, rule));
                    if route_host_call(id, req.payload, rule) is Some {
                        assert(after.host_calls.drop_last() =~= st.host_calls);
                    }
                }
            },
        },
    }
}

/// A cancel takes its request out of the pending ones and records it as cancelled, and
/// changes nothing else.
pub proof fn lemma_cancel_settles_request(st: KernelModel, doc: JsonModel)
    requires
        decode_cancel_request(doc) is Some,
    ensures
        ({
            let id = decode_cancel_request(doc)->Some_0.correlation_id;
            let after = cancel_step(st, Ok(doc));
            &&& !after.pending.contains(id)
            &&& after.cancelled.contains(id)
            &&& after.cancelled == st.cancelled.insert(id)
            &&& after.pending == st.pending.remove(id)
            &&& after.initialized == st.initialized
            &&& after.host_calls == st.host_calls
            &&& after.delivered == st.delivered
        }),
{
}

/// A delivered callback is counted once and its request (if it names one) is no longer
/// pending; nothing else changes.
pub proof fn lemma_callback_counts_and_settles(st: KernelModel, doc: JsonModel, shape: CallbackShape)
    requires
        callback_id(doc, shape) is Some,
    ensures
        ({
            let correlation_id = callback_id(doc, shape)->Some_0;
            let after = callback_step(st, Ok(doc), shape);
            &&& after.delivered == st.delivered + 1
            &&& (correlation_id matches Some(id) ==> !after.pending.contains(id))
            &&& after.cancelled == st.cancelled
            &&& after.initialized == st.initialized
            &&& after.host_calls == st.host_calls
        }),
{
}

/// A cancel request reads back as itself from the document it is written as.
pub proof fn lemma_cancel_request_round_trip(c: CancelRequestModel)
    ensures
        decode_cancel_request(cancel_request_json(c)) == Some(c),
{
    reveal_strlit("correlation_id");
    reveal_strlit("reason");
    let m = cancel_request_json(c)->Object_0;
    assert("reason"@.len() != "correlation_id"@.len());
    assert(lookup(m, "correlation_id"@) == Some(m[0].1));
    assert(lookup(m.drop_first(), "reason"@) == Some(m[1].1));
    assert(field_of(cancel_request_json(c), 1, "reason"@) == Some(m[1].1));
}

/// An exec event reads back as itself from the document it is written as, unless its
/// `signal` is a JSON null (which reads back as no signal).
pub proof fn lemma_exec_host_event_round_trip(e: ExecHostEventModel)
    requires
        !(e matches ExecHostEventModel::ExecExit { signal, .. } && signal == Some(JsonModel::Null)),
    ensures
        decode_exec_host_event(exec_host_event_json(e)) == Some(e),
{
    reveal_strlit("kind");
    reveal_strlit("exec_chunk");
    reveal_strlit("exec_exit");
    reveal_strlit("correlation_id");
    reveal_strlit("stream");
    reveal_strlit("data");
    reveal_strlit("exit_code");
    reveal_strlit("signal");
    reveal_strlit("cancelled");
    let m = exec_host_event_json(e)->Object_0;
    assert(lookup(m, "kind"@) == Some(m[0].1));
    assert("exec_chunk"@.len() != "exec_exit"@.len());
    match e {
        ExecHostEventModel::ExecChunk { correlation_id, stream, data } => {
            let m1 = m.drop_first();
            let m2 = m1.drop_first();
            let m3 = m2.drop_first();
            assert(m.len() == 4);
            assert(m[0].0 == "kind"@);
            assert(m[1].0 == "correlation_id"@);
            assert(m[2].0 == "stream"@);
            assert(m[3].0 == "data"@);
            assert(m1[0] == m[1]);
            assert(m2[0] == m[2]);
            assert(m3[0] == m[3]);
            assert("kind"@.len() != "correlation_id"@.len());
            assert("kind"@.len() != "stream"@.len());
            assert("kind"@[0] != "data"@[0]);
            assert("stream"@.len() != "correlation_id"@.len());
            assert("data"@.len() != "correlation_id"@.len());
            assert("data"@[0] != "stream"@[0]);
            assert(lookup(m1, "correlation_id"@) == Some(m[1].1));
            assert(lookup(m, "correlation_id"@) == Some(m[1].1));
            assert(lookup(m2, "stream"@) == Some(m[2].1));
            assert(lookup(m1, "stream"@) == Some(m[2].1));
            assert(lookup(m, "stream"@) == Some(m[2].1));
            assert(lookup(m3, "data"@) == Some(m[3].1));
            assert(lookup(m2, "data"@) == Some(m[3].1));
            assert(lookup(m1, "data"@) == Some(m[3].1));
            assert(lookup(m, "data"@) == Some(m[3].1));
        },
        ExecHostEventModel::ExecExit { correlation_id, exit_code, signal, cancelled } => {
            let m1 = m.drop_first();
            let m2 = m1.drop_first();
            let m3 = m2.drop_first();
            let m4 = m3.drop_first();
            assert(m.len() == 5);
            assert(m[0].0 == "kind"@);
            assert(m[1].0 == "correlation_id"@);
            assert(m[2].0 == "exit_code"@);
            assert(m[3].0 == "signal"@);
            assert(m[4].0 == "cancelled"@);
            assert(m1[0] == m[1]);
            assert(m2[0] == m[2]);
            assert(m3[0] == m[3]);
            assert(m4[0] == m[4]);
            assert("kind"@.len() != "correlation_id"@.len());
            assert("kind"@.len() != "exit_code"@.len());
            assert("kind"@.len() != "signal"@.len());
            assert("kind"@.len() != "cancelled"@.len());
            assert("exit_code"@.len() != "correlation_id"@.len());
            assert("signal"@.len() != "correlation_id"@.len());
            assert("signal"@.len() != "exit_code"@.len());
            assert("cancelled"@.len() != "correlation_id"@.len());
            assert("cancelled"@[0] != "exit_code"@[0]);
            assert("cancelled"@.len() != "signal"@.len());
            assert(lookup(m1, "correlation_id"@) == Some(m[1].1));
            assert(lookup(m, "correlation_id"@) == Some(m[1].1));
            assert(lookup(m2, "exit_code"@) == Some(m[2].1));
            assert(lookup(m1, "exit_code"@) == Some(m[2].1));
            assert(lookup(m, "exit_code"@) == Some(m[2].1));
            assert(lookup(m3, "signal"@) == Some(m[3].1));
            assert(lookup(m2, "signal"@) == Some(m[3].1));
            assert(lookup(m1, "signal"@) == Some(m[3].1));
            assert(lookup(m, "signal"@) == Some(m[3].1));
            assert(lookup(m4, "cancelled"@) == Some(m[4].1));
            assert(lookup(m3, "cancelled"@) == Some(m[4].1));
            assert(lookup(m2, "cancelled"@) == Some(m[4].1));
            assert(lookup(m1, "cancelled"@) == Some(m[4].1));
            assert(lookup(m, "cancelled"@) == Some(m[4].1));
            assert(m[2].1 == i32_json(exit_code));
        },
    }
}

/// The first member named `key` is the one at `i`.
pub proof fn lemma_lookup_at(m: Seq<(Seq<char>, JsonModel)>, key: Seq<char>, i: int)
    requires
        0 <= i < m.len(),
        m[i].0 == key,
        forall|j: int| 0 <= j < i ==> m[j].0 != key,
    ensures
        lookup(m, key) == Some(m[i].1),
    decreases i,
{
    if i > 0 {
        lemma_lookup_at(m.drop_first(), key, i - 1);
    }
}

/// No member is named `key`.
pub proof fn lemma_lookup_absent(m: Seq<(Seq<char>, JsonModel)>, key: Seq<char>)
    requires
        forall|j: int| 0 <= j < m.len() ==> m[j].0 != key,
    ensures
        lookup(m, key) is None,
    decreases m.len(),
{
    if m.len() > 0 {
        lemma_lookup_absent(m.drop_first(), key);
    }
}

/// A terminal size reads back as itself.
pub proof fn lemma_terminal_size_round_trip(s: WasmBridgeExecTerminalSize)
    ensures
        decode_terminal_size(terminal_size_json(s)) == Some(s),
{
    reveal_strlit("rows");
    reveal_strlit("cols");
    let m = terminal_size_json(s)->Object_0;
    assert(m[0].0 == "rows"@);
    assert(m[1].0 == "cols"@);
    assert("rows"@[0] != "cols"@[0]);
    lemma_lookup_at(m, "rows"@, 0);
    lemma_lookup_at(m, "cols"@, 1);
}

/// A transport reads back as itself from the host payload's `transport` member.
pub proof fn lemma_exec_transport_round_trip(t: ExecTransportModel)
    ensures
        decode_exec_transport(exec_transport_json(t)) == Some(t),
{
    reveal_strlit("kind");
    reveal_strlit("stdin_policy");
    reveal_strlit("size");
    let m = exec_transport_json(t)->Object_0;
    assert(m[0].0 == "kind"@);
    assert("kind"@.len() != "stdin_policy"@.len());
    assert("kind"@[0] != "size"@[0]);
    assert("stdin_policy"@.len() != "size"@.len());
    lemma_lookup_at(m, "kind"@, 0);
    match t.stdin_policy {
        Some(p) => {
            assert(m[1].0 == "stdin_policy"@);
            lemma_lookup_at(m, "stdin_policy"@, 1);
            match t.size {
                Some(sz) => {
                    assert(m[2].0 == "size"@);
                    lemma_lookup_at(m, "size"@, 2);
                    lemma_terminal_size_round_trip(sz);
                },
                None => {
                    assert(m.len() == 2);
                    lemma_lookup_absent(m, "size"@);
                },
            }
        },
        None => {
            match t.size {
                Some(sz) => {
                    assert(m.len() == 2);
                    assert(m[1].0 == "size"@);
                    lemma_lookup_at(m, "size"@, 1);
                    lemma_lookup_absent(m, "stdin_policy"@);
                    lemma_terminal_size_round_trip(sz);
                },
                None => {
                    assert(m.len() == 1);
                    lemma_lookup_absent(m, "size"@);
                    lemma_lookup_absent(m, "stdin_policy"@);
                },
            }
        },
    }
}

/// The payload of a `host_exec_request` reads back as the exec request it was made from,
/// under any rule that admits its environment.
pub proof fn lemma_exec_payload_round_trip(e: ExecRequestModel, rule: ExecEnv)
    requires
        e.env matches Some(members) ==> env_admits(rule, members),
    ensures
        decode_exec_request(exec_payload_json(e), rule) == Some(e),
{
    reveal_strlit("command");
    reveal_strlit("args");
    reveal_strlit("arg0");
    reveal_strlit("cwd");
    reveal_strlit("env");
    reveal_strlit("timeout_ms");
    reveal_strlit("stdin");
    reveal_strlit("transport");
    let m = exec_payload_json(e)->Object_0;
    let a: int = if e.arg0 is Some { 1 } else { 0 };
    assert(m[0].0 == "command"@);
    assert(m[1].0 == "args"@);
    if e.arg0 is Some {
        assert(m[2].0 == "arg0"@);
    }
    assert(m[2 + a].0 == "cwd"@);
    assert(m[3 + a].0 == "env"@);
    assert(m[4 + a].0 == "timeout_ms"@);
    assert(m[5 + a].0 == "stdin"@);
    if e.transport is Some {
        assert(m.len() == 7 + a);
        assert(m[6 + a].0 == "transport"@);
    } else {
        assert(m.len() == 6 + a);
    }
    let keys = seq!["command"@, "args"@, "arg0"@, "cwd"@, "env"@, "timeout_ms"@, "stdin"@, "transport"@];
    assert("args"@[3] != "arg0"@[3]);
    assert("cwd"@[0] != "env"@[0]);
    assert(forall|x: int, y: int| 0 <= x < y < 8 ==> #[trigger] keys[x] != #[trigger] keys[y]);
    assert(forall|j: int| 0 <= j < m.len() ==> (#[trigger] m[j]).0 == (if j < 2 { keys[j] } else if j < 2 + a { keys[2] } else { keys[j + 1 - a] }));
    lemma_lookup_at(m, "command"@, 0);
    lemma_lookup_at(m, "args"@, 1);
    if e.arg0 is Some {
        lemma_lookup_at(m, "arg0"@, 2);
    } else {
        lemma_lookup_absent(m, "arg0"@);
    }
    lemma_lookup_at(m, "cwd"@, 2 + a);
    lemma_lookup_at(m, "env"@, 3 + a);
    lemma_lookup_at(m, "timeout_ms"@, 4 + a);
    lemma_lookup_at(m, "stdin"@, 5 + a);
    if e.transport is Some {
        lemma_lookup_at(m, "transport"@, 6 + a);
        lemma_exec_transport_round_trip(e.transport->Some_0);
    } else {
        lemma_lookup_absent(m, "transport"@);
    }
    let items = strings_json(e.args)->Array_0;
    assert(all_strings(items));
    assert(items.map_values(|x: JsonModel| text_of(x)) =~= e.args);
}

/// A `cli` argv reaches the host as an exec request whose program is the first argument and
/// whose arguments are the rest.
pub proof fn lemma_cli_argv_reaches_host(correlation_id: Seq<char>, payload: JsonModel)
    requires
        cli_host_call(correlation_id, payload) is Ok,
    ensures
        ({
            let call = cli_host_call(correlation_id, payload)->Ok_0;
            let items = payload.get("args"@)->Some_0->Array_0;
            let argv = items.map_values(|x: JsonModel| text_of(x));
            &&& call.correlation_id == correlation_id
            &&& call.capability == "host_exec_request"@
            &&& call.payload matches Some(p) && decode_exec_request(p, ExecEnv::Strings) matches Some(exec)
                && exec.command == argv[0] && exec.args == argv.drop_first()
        }),
{
    let items = payload.get("args"@)->Some_0->Array_0;
    let argv = items.map_values(|x: JsonModel| text_of(x));
    lemma_exec_payload_round_trip(cli_exec_request(argv, payload), ExecEnv::Strings);
}

/// Cancels accumulate: after two cancels every id cancelled before is still cancelled, and
/// so are both new ones; neither request is pending any more.
pub proof fn lemma_cancels_accumulate(st: KernelModel, first: JsonModel, second: JsonModel)
    requires
        decode_cancel_request(first) is Some,
        decode_cancel_request(second) is Some,
    ensures
        ({
            let a = decode_cancel_request(first)->Some_0.correlation_id;
            let b = decode_cancel_request(second)->Some_0.correlation_id;
            let after = cancel_step(cancel_step(st, Ok(first)), Ok(second));
            &&& st.cancelled.subset_of(after.cancelled)
            &&& after.cancelled.contains(a)
            &&& after.cancelled.contains(b)
            &&& !after.pending.contains(a)
            &&& !after.pending.contains(b)
        }),
{
}

// ---------------------------------------------------------------------------------------
// Where structured payload keys are routed
// ---------------------------------------------------------------------------------------

/// The one-member object `{ k: v }` has `v` under `k` and nothing under any other name.
proof fn lemma_single_member_get(k: Seq<char>, v: JsonModel, x: Seq<char>)
    ensures
        JsonModel::Object(seq![(k, v)]).get(x) == (if x == k {
            Some(v)
        } else {
            None::<JsonModel>
        }),
{
    let m = seq![(k, v)];
    if x != k {
        assert(m.drop_first().len() == 0);
        assert(lookup(m.drop_first(), x) is None);
    }
}

/// The first structured route found from `i` on is the one at `j`, when the payload has
/// `j`'s key and none of the keys in between.
proof fn lemma_first_structured_from(p: JsonModel, i: nat, j: nat)
    requires
        i <= j < 12,
        structured_routes().len() == 12,
        p.get(structured_routes()[j as int].0) is Some,
        forall|q: int| i <= q < j ==> p.get(#[trigger] structured_routes()[q].0) is None,
    ensures
        first_structured(p, i) == Some(
            (structured_routes()[j as int].1, p.get(structured_routes()[j as int].0)->Some_0),
        ),
    decreases j - i,
{
    if i < j {
        lemma_first_structured_from(p, i + 1, j);
    }
}

/// A payload whose only member is the structured key at `j` (a key that is neither
/// `host_call`, `exec`, nor an earlier structured key) is routed to `j`'s capability, with
/// the member's value as the call's payload.
proof fn lemma_route_single_key(
    id: Seq<char>,
    k: Seq<char>,
    v: JsonModel,
    rule: ExecEnv,
    j: nat,
)
    requires
        j < 12,
        structured_routes().len() == 12,
        structured_routes()[j as int].0 == k,
        forall|q: int| 0 <= q < j ==> (#[trigger] structured_routes()[q]).0 != k,
        k != "host_call"@,
        k != "exec"@,
    ensures
        route_host_call(id, Some(JsonModel::Object(seq![(k, v)])), rule) == Some(
            HostCallModel {
                correlation_id: id,
                capability: structured_routes()[j as int].1,
                payload: Some(v),
            },
        ),
{
    let p = JsonModel::Object(seq![(k, v)]);
    lemma_single_member_get(k, v, "host_call"@);
    lemma_single_member_get(k, v, "exec"@);
    lemma_single_member_get(k, v, k);
    assert forall|q: int| 0 <= q < j implies p.get(#[trigger] structured_routes()[q].0) is None by {
        lemma_single_member_get(k, v, structured_routes()[q].0);
    }
    lemma_first_structured_from(p, 0, j);
}

/// Each structured payload key is sent to the host under its own capability: a payload
/// holding only that key becomes one host call to that capability, carrying the key's value,
/// under the request's correlation id. No two keys share a capability.
pub proof fn lemma_structured_keys_route_to_named_capabilities(
    id: Seq<char>,
    v: JsonModel,
    rule: ExecEnv,
)
    ensures
        route_host_call(id, Some(JsonModel::Object(seq![("http"@, v)])), rule) == Some(
            HostCallModel { correlation_id: id, capability: "host_http_request"@, payload: Some(v) },
        ),
        route_host_call(id, Some(JsonModel::Object(seq![("ws"@, v)])), rule) == Some(
            HostCallModel {
                correlation_id: id,
                capability: "host_websocket_request"@,
                payload: Some(v),
            },
        ),
        route_host_call(id, Some(JsonModel::Object(seq![("tcp"@, v)])), rule) == Some(
            HostCallModel { correlation_id: id, capability: "host_tcp_socket"@, payload: Some(v) },
        ),
        route_host_call(id, Some(JsonModel::Object(seq![("app_server_rpc"@, v)])), rule) == Some(
            HostCallModel {
                correlation_id: id,
                capability: "host_app_server_rpc"@,
                payload: Some(v),
            },
        ),
        route_host_call(id, Some(JsonModel::Object(seq![("fs_read"@, v)])), rule) == Some(
            HostCallModel { correlation_id: id, capability: "host_fs_read"@, payload: Some(v) },
        ),
        route_host_call(id, Some(JsonModel::Object(seq![("fs_write"@, v)])), rule) == Some(
            HostCallModel { correlation_id: id, capability: "host_fs_write"@, payload: Some(v) },
        ),
        route_host_call(id, Some(JsonModel::Object(seq![("fs_list"@, v)])), rule) == Some(
            HostCallModel { correlation_id: id, capability: "host_fs_list"@, payload: Some(v) },
        ),
        route_host_call(id, Some(JsonModel::Object(seq![("fs_stat"@, v)])), rule) == Some(
            HostCallModel { correlation_id: id, capability: "host_fs_stat"@, payload: Some(v) },
        ),
        route_host_call(id, Some(JsonModel::Object(seq![("fs_remove"@, v)])), rule) == Some(
            HostCallModel { correlation_id: id, capability: "host_fs_remove"@, payload: Some(v) },
        ),
        route_host_call(id, Some(JsonModel::Object(seq![("secret_get"@, v)])), rule) == Some(
            HostCallModel { correlation_id: id, capability: "host_secret_get"@, payload: Some(v) },
        ),
        route_host_call(id, Some(JsonModel::Object(seq![("secret_set"@, v)])), rule) == Some(
            HostCallModel { correlation_id: id, capability: "host_secret_set"@, payload: Some(v) },
        ),
        route_host_call(id, Some(JsonModel::Object(seq![("sandbox_apply"@, v)])), rule) == Some(
            HostCallModel {
                correlation_id: id,
                capability: "host_sandbox_apply"@,
                payload: Some(v),
            },
        ),
        forall|x: int, y: int|
            0 <= x < y < 12 ==> (#[trigger] structured_routes()[x]).1 != (
            #[trigger] structured_routes()[y]).1,
{
    reveal_strlit("http");
    reveal_strlit("ws");
    reveal_strlit("tcp");
    reveal_strlit("app_server_rpc");
    reveal_strlit("fs_read");
    reveal_strlit("fs_write");
    reveal_strlit("fs_list");
    reveal_strlit("fs_stat");
    reveal_strlit("fs_remove");
    reveal_strlit("secret_get");
    reveal_strlit("secret_set");
    reveal_strlit("sandbox_apply");
    reveal_strlit("host_call");
    reveal_strlit("exec");
    reveal_strlit("host_http_request");
    reveal_strlit("host_websocket_request");
    reveal_strlit("host_tcp_socket");
    reveal_strlit("host_app_server_rpc");
    reveal_strlit("host_fs_read");
    reveal_strlit("host_fs_write");
    reveal_strlit("host_fs_list");
    reveal_strlit("host_fs_stat");
    reveal_strlit("host_fs_remove");
    reveal_strlit("host_secret_get");
    reveal_strlit("host_secret_set");
    reveal_strlit("host_sandbox_apply");
    let r = structured_routes();
    assert(r.len() == 12);
    let keys = seq![
        "http"@,
        "ws"@,
        "tcp"@,
        "app_server_rpc"@,
        "fs_read"@,
        "fs_write"@,
        "fs_list"@,
        "fs_stat"@,
        "fs_remove"@,
        "secret_get"@,
        "secret_set"@,
        "sandbox_apply"@,
    ];
    let caps = seq![
        "host_http_request"@,
        "host_websocket_request"@,
        "host_tcp_socket"@,
        "host_app_server_rpc"@,
        "host_fs_read"@,
        "host_fs_write"@,
        "host_fs_list"@,
        "host_fs_stat"@,
        "host_fs_remove"@,
        "host_secret_get"@,
        "host_secret_set"@,
        "host_sandbox_apply"@,
    ];
    assert forall|q: int| 0 <= q < 12 implies (#[trigger] r[q]).0 == keys[q] && r[q].1 == caps[q] by {}
    // Keys of equal length differ at a position.
    assert("http"@[0] != "exec"@[0]);
    assert("fs_read"@[3] != "fs_list"@[3]);
    assert("fs_read"@[3] != "fs_stat"@[3]);
    assert("fs_list"@[3] != "fs_stat"@[3]);
    assert("fs_remove"@[0] != "host_call"@[0]);
    assert("secret_get"@[7] != "secret_set"@[7]);
    assert forall|x: int, y: int| 0 <= x < y < 12 implies #[trigger] keys[x] != #[trigger] keys[y] by {
        if keys[x].len() == keys[y].len() {
            if x == 4 && y == 6 {
                assert(keys[x][3] != keys[y][3]);
            } else if x == 4 && y == 7 {
                assert(keys[x][3] != keys[y][3]);
            } else if x == 6 && y == 7 {
                assert(keys[x][3] != keys[y][3]);
            } else if x == 9 && y == 10 {
                assert(keys[x][7] != keys[y][7]);
            }
        }
    }
    assert forall|q: int| 0 <= q < 12 implies #[trigger] keys[q] != "host_call"@ && keys[q] != "exec"@ by {
        if q == 0 {
            assert(keys[q][0] != "exec"@[0]);
            assert(keys[q].len() != "host_call"@.len());
        } else if q == 8 {
            assert(keys[q][0] != "host_call"@[0]);
            assert(keys[q].len() != "exec"@.len());
        } else {
            assert(keys[q].len() != "host_call"@.len());
            assert(keys[q].len() != "exec"@.len());
        }
    }
    // Capabilities of equal length differ at a position.
    assert forall|x: int, y: int| 0 <= x < y < 12 implies #[trigger] caps[x] != #[trigger] caps[y] by {
        if caps[x].len() == caps[y].len() {
            if (x == 4 || x == 6) && y <= 7 {
                assert(caps[x][8] != caps[y][8]);
            } else if x == 2 {
                assert(caps[x][5] != caps[y][5]);
            } else if x == 9 && y == 10 {
                assert(caps[x][12] != caps[y][12]);
            }
        }
    }
    assert forall|q: int, x: int| 0 <= q < x < 12 implies (#[trigger] r[q]).0 != #[trigger] keys[x] by {
        assert(keys[q] != keys[x]);
    }
    lemma_route_single_key(id, keys[0], v, rule, 0);
    lemma_route_single_key(id, keys[1], v, rule, 1);
    lemma_route_single_key(id, keys[2], v, rule, 2);
    lemma_route_single_key(id, keys[3], v, rule, 3);
    lemma_route_single_key(id, keys[4], v, rule, 4);
    lemma_route_single_key(id, keys[5], v, rule, 5);
    lemma_route_single_key(id, keys[6], v, rule, 6);
    lemma_route_single_key(id, keys[7], v, rule, 7);
    lemma_route_single_key(id, keys[8], v, rule, 8);
    lemma_route_single_key(id, keys[9], v, rule, 9);
    lemma_route_single_key(id, keys[10], v, rule, 10);
    lemma_route_single_key(id, keys[11], v, rule, 11);
    assert(keys[0] == "http"@);
    assert(keys[5] == "fs_write"@);
    assert(route_host_call(id, Some(JsonModel::Object(seq![(keys[0], v)])), rule) == Some(
        HostCallModel { correlation_id: id, capability: caps[0], payload: Some(v) },
    ));
    assert(route_host_call(id, Some(JsonModel::Object(seq![(keys[1], v)])), rule) == Some(
        HostCallModel { correlation_id: id, capability: caps[1], payload: Some(v) },
    ));
    assert(route_host_call(id, Some(JsonModel::Object(seq![(keys[2], v)])), rule) == Some(
        HostCallModel { correlation_id: id, capability: caps[2], payload: Some(v) },
    ));
    assert(route_host_call(id, Some(JsonModel::Object(seq![(keys[3], v)])), rule) == Some(
        HostCallModel { correlation_id: id, capability: caps[3], payload: Some(v) },
    ));
    assert(route_host_call(id, Some(JsonModel::Object(seq![(keys[4], v)])), rule) == Some(
        HostCallModel { correlation_id: id, capability: caps[4], payload: Some(v) },
    ));
    assert(route_host_call(id, Some(JsonModel::Object(seq![(keys[5], v)])), rule) == Some(
        HostCallModel { correlation_id: id, capability: caps[5], payload: Some(v) },
    ));
    assert(route_host_call(id, Some(JsonModel::Object(seq![(keys[6], v)])), rule) == Some(
        HostCallModel { correlation_id: id, capability: caps[6], payload: Some(v) },
    ));
    assert(route_host_call(id, Some(JsonModel::Object(seq![(keys[7], v)])), rule) == Some(
        HostCallModel { correlation_id: id, capability: caps[7], payload: Some(v) },
    ));
    assert(route_host_call(id, Some(JsonModel::Object(seq![(keys[8], v)])), rule) == Some(
        HostCallModel { correlation_id: id, capability: caps[8], payload: Some(v) },
    ));
    assert(route_host_call(id, Some(JsonModel::Object(seq![(keys[9], v)])), rule) == Some(
        HostCallModel { correlation_id: id, capability: caps[9], payload: Some(v) },
    ));
    assert(route_host_call(id, Some(JsonModel::Object(seq![(keys[10], v)])), rule) == Some(
        HostCallModel { correlation_id: id, capability: caps[10], payload: Some(v) },
    ));
    assert(route_host_call(id, Some(JsonModel::Object(seq![(keys[11], v)])), rule) == Some(
        HostCallModel { correlation_id: id, capability: caps[11], payload: Some(v) },
    ));
}

// ---------------------------------------------------------------------------------------
// Which host import a capability reaches
// ---------------------------------------------------------------------------------------

/// Each host import is named after the capability it serves, and no two imports share a
/// name; so a host call whose capability is `host_X` is handed to the import `X` and to no
/// other (`dispatch_host_call` picks the import whose name is the call's capability).
pub proof fn lemma_host_imports_are_named_for_their_capabilities()
    ensures
        import_names()[HostImport::ExecRequest.index()] == "host_exec_request"@,
        import_names()[HostImport::HttpRequest.index()] == "host_http_request"@,
        import_names()[HostImport::FsRead.index()] == "host_fs_read"@,
        import_names()[HostImport::FsWrite.index()] == "host_fs_write"@,
        import_names()[HostImport::FsList.index()] == "host_fs_list"@,
        import_names()[HostImport::FsStat.index()] == "host_fs_stat"@,
        import_names()[HostImport::FsRemove.index()] == "host_fs_remove"@,
        import_names()[HostImport::SecretGet.index()] == "host_secret_get"@,
        import_names()[HostImport::SecretSet.index()] == "host_secret_set"@,
        import_names()[HostImport::SandboxApply.index()] == "host_sandbox_apply"@,
        import_names()[HostImport::WebsocketRequest.index()] == "host_websocket_request"@,
        import_names()[HostImport::TcpSocket.index()] == "host_tcp_socket"@,
        import_names()[HostImport::AppServerRpc.index()] == "host_app_server_rpc"@,
        forall|a: HostImport, b: HostImport|
            #[trigger] import_names()[a.index()] == #[trigger] import_names()[b.index()] ==> a == b,
{
    reveal_strlit("host_exec_request");
    reveal_strlit("host_http_request");
    reveal_strlit("host_fs_read");
    reveal_strlit("host_fs_write");
    reveal_strlit("host_fs_list");
    reveal_strlit("host_fs_stat");
    reveal_strlit("host_fs_remove");
    reveal_strlit("host_secret_get");
    reveal_strlit("host_secret_set");
    reveal_strlit("host_sandbox_apply");
    reveal_strlit("host_websocket_request");
    reveal_strlit("host_tcp_socket");
    reveal_strlit("host_app_server_rpc");
    let n = import_names();
    assert(n.len() == 13);
    assert forall|x: int, y: int| 0 <= x < y < 13 implies #[trigger] n[x] != #[trigger] n[y] by {
        if n[x].len() == n[y].len() {
            if x == 0 && y == 1 {
                assert(n[x][5] != n[y][5]);
            } else if (x == 2 || x == 4) && y <= 5 {
                assert(n[x][8] != n[y][8]);
            } else if x == 7 && y == 8 {
                assert(n[x][12] != n[y][12]);
            } else if (x == 7 || x == 8) && y == 11 {
                assert(n[x][5] != n[y][5]);
            }
        }
    }
    assert forall|a: HostImport, b: HostImport|
        #[trigger] import_names()[a.index()] == #[trigger] import_names()[b.index()] implies a == b by {
        assert(0 <= a.index() < 13 && 0 <= b.index() < 13);
        if a.index() != b.index() {
            if a.index() < b.index() {
                assert(n[a.index()] != n[b.index()]);
            } else {
                assert(n[b.index()] != n[a.index()]);
            }
        }
    }
}

// ---------------------------------------------------------------------------------------
// Exec events against their documents
// ---------------------------------------------------------------------------------------

/// An `exec_chunk` document reads as the chunk whose correlation id, stream and data are
/// the document's members of those names.
pub proof fn lemma_exec_chunk_reads_its_members(
    doc: JsonModel,
    correlation_id: Seq<char>,
    stream: Seq<char>,
    data: Seq<char>,
)
    requires
        doc.get("kind"@) == Some(JsonModel::Str("exec_chunk"@)),
        doc.get("correlation_id"@) == Some(JsonModel::Str(correlation_id)),
        doc.get("stream"@) == Some(JsonModel::Str(stream)),
        doc.get("data"@) == Some(JsonModel::Str(data)),
    ensures
        decode_exec_host_event(doc) == Some(
            ExecHostEventModel::ExecChunk { correlation_id, stream, data },
        ),
{
}

/// An `exec_exit` document reads as the exit whose correlation id, exit code, signal and
/// cancelled flag are the document's members of those names (a missing or null signal is
/// none; a missing `cancelled` is false).
pub proof fn lemma_exec_exit_reads_its_members(
    doc: JsonModel,
    correlation_id: Seq<char>,
    exit_code: i32,
    cancelled: bool,
)
    requires
        doc.get("kind"@) == Some(JsonModel::Str("exec_exit"@)),
        doc.get("correlation_id"@) == Some(JsonModel::Str(correlation_id)),
        doc.get("exit_code"@) == Some(i32_json(exit_code)),
        doc.get("cancelled"@) == Some(JsonModel::Bool(cancelled)),
    ensures
        decode_exec_host_event(doc) == Some(
            ExecHostEventModel::ExecExit {
                correlation_id,
                exit_code,
                signal: match doc.get("signal"@) {
                    Some(JsonModel::Null) => None,
                    other => other,
                },
                cancelled,
            },
        ),
{
    reveal_strlit("exec_chunk");
    reveal_strlit("exec_exit");
    assert("exec_chunk"@.len() != "exec_exit"@.len());
}

/// The document of an exec event carries each of the event's fields under its own name,
/// and its `kind` names the event.
pub proof fn lemma_exec_event_writes_its_members(e: ExecHostEventModel)
    ensures
        match e {
            ExecHostEventModel::ExecChunk { correlation_id, stream, data } => {
                let d = exec_host_event_json(e);
                &&& d.get("kind"@) == Some(JsonModel::Str("exec_chunk"@))
                &&& d.get("correlation_id"@) == Some(JsonModel::Str(correlation_id))
                &&& d.get("stream"@) == Some(JsonModel::Str(stream))
                &&& d.get("data"@) == Some(JsonModel::Str(data))
            },
            ExecHostEventModel::ExecExit { correlation_id, exit_code, signal, cancelled } => {
                let d = exec_host_event_json(e);
                &&& d.get("kind"@) == Some(JsonModel::Str("exec_exit"@))
                &&& d.get("correlation_id"@) == Some(JsonModel::Str(correlation_id))
                &&& d.get("exit_code"@) == Some(i32_json(exit_code))
                &&& d.get("signal"@) == Some(
                    match signal {
                        Some(s) => s,
                        None => JsonModel::Null,
                    },
                )
                &&& d.get("cancelled"@) == Some(JsonModel::Bool(cancelled))
            },
        },
{
    reveal_strlit("kind");
    reveal_strlit("correlation_id");
    reveal_strlit("stream");
    reveal_strlit("data");
    reveal_strlit("exit_code");
    reveal_strlit("signal");
    reveal_strlit("cancelled");
    let m = exec_host_event_json(e)->Object_0;
    match e {
        ExecHostEventModel::ExecChunk { .. } => {
            assert("kind"@.len() != "correlation_id"@.len());
            assert("kind"@.len() != "stream"@.len());
            assert("kind"@[0] != "data"@[0]);
            assert("stream"@.len() != "correlation_id"@.len());
            assert("data"@.len() != "correlation_id"@.len());
            assert("data"@[0] != "stream"@[0]);
            lemma_lookup_at(m, "kind"@, 0);
            lemma_lookup_at(m, "correlation_id"@, 1);
            lemma_lookup_at(m, "stream"@, 2);
            lemma_lookup_at(m, "data"@, 3);
        },
        ExecHostEventModel::ExecExit { .. } => {
            assert("kind"@.len() != "correlation_id"@.len());
            assert("kind"@.len() != "exit_code"@.len());
            assert("kind"@.len() != "signal"@.len());
            assert("kind"@.len() != "cancelled"@.len());
            assert("exit_code"@.len() != "correlation_id"@.len());
            assert("signal"@.len() != "correlation_id"@.len());
            assert("cancelled"@.len() != "correlation_id"@.len());
            assert("signal"@.len() != "exit_code"@.len());
            assert("cancelled"@[0] != "exit_code"@[0]);
            assert("cancelled"@.len() != "signal"@.len());
            lemma_lookup_at(m, "kind"@, 0);
            lemma_lookup_at(m, "correlation_id"@, 1);
            lemma_lookup_at(m, "exit_code"@, 2);
            lemma_lookup_at(m, "signal"@, 3);
            lemma_lookup_at(m, "cancelled"@, 4);
        },
    }
}

} // verus!
