use codex_wasm_bridge::terminal::acquire_failure;
use codex_wasm_bridge::terminal::lease_outcome;
use codex_wasm_bridge::terminal::owner_drop_clears_route;
use codex_wasm_bridge::terminal::OwnerSlot;
use codex_wasm_bridge::terminal::AcquireStage;
use codex_wasm_bridge::terminal::InteractiveTerminalAcquireError;
use codex_wasm_bridge::terminal::ReadyReply;

#[test]
fn acquire_error_messages() {
    assert_eq!(
        InteractiveTerminalAcquireError::NoLocalOwner.message(),
        "interactive hooks require the embedded Codex TUI; no local terminal owner is registered"
    );
    assert_eq!(
        InteractiveTerminalAcquireError::OwnerDisconnected.message(),
        "the embedded Codex TUI disconnected before accepting the terminal lease"
    );
    assert_eq!(
        InteractiveTerminalAcquireError::Rejected("busy".to_string()).message(),
        "the embedded Codex TUI rejected the terminal lease: busy"
    );
}

#[test]
fn lease_requests_fail_or_succeed_as_the_owner_answers() {
    assert_eq!(acquire_failure(AcquireStage::Owner), InteractiveTerminalAcquireError::NoLocalOwner);
    assert_eq!(acquire_failure(AcquireStage::Permit), InteractiveTerminalAcquireError::OwnerDisconnected);
    assert_eq!(acquire_failure(AcquireStage::Send), InteractiveTerminalAcquireError::OwnerDisconnected);
    assert_eq!(lease_outcome(ReadyReply::Ready), Ok(()));
    assert_eq!(
        lease_outcome(ReadyReply::Refused("no".to_string())),
        Err(InteractiveTerminalAcquireError::Rejected("no".to_string()))
    );
    assert_eq!(
        lease_outcome(ReadyReply::Dropped),
        Err(InteractiveTerminalAcquireError::OwnerDisconnected)
    );
}

#[test]
fn only_the_registering_owner_clears_the_route() {
    assert!(owner_drop_clears_route(Some(5), 5));
    assert!(!owner_drop_clears_route(Some(6), 5));
    assert!(!owner_drop_clears_route(None, 5));
}

#[test]
fn dropping_an_older_owner_keeps_the_newer_route() {
    let mut slot: OwnerSlot<&str> = OwnerSlot::new();
    assert_eq!(slot.current(), None);
    slot.register(1, "first");
    slot.register(2, "second");
    slot.release(1);
    assert_eq!(slot.current(), Some(&"second"));
    slot.release(2);
    assert_eq!(slot.current(), None);
}
