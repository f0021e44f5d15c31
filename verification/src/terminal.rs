//! The hand-off of the controlling terminal between the embedded TUI and an interactive
//! hook: what a lease request comes to at each of its steps, and when the owner's route
//! is cleared.
use vstd::prelude::*;

use crate::text::concat;

verus! {

/// Why a terminal lease could not be had.
#[derive(Debug, Clone, PartialEq, Eq)]
pub enum InteractiveTerminalAcquireError {
    /// No terminal owner is registered.
    NoLocalOwner,
    /// The owner went away before it accepted the lease.
    OwnerDisconnected,
    /// The owner refused the lease, for this reason.
    Rejected(String),
}

pub enum AcquireErrorModel {
    NoLocalOwner,
    OwnerDisconnected,
    Rejected(Seq<char>),
}

impl View for InteractiveTerminalAcquireError {
    type V = AcquireErrorModel;

    open spec fn view(&self) -> AcquireErrorModel {
        match self {
            InteractiveTerminalAcquireError::NoLocalOwner => AcquireErrorModel::NoLocalOwner,
            InteractiveTerminalAcquireError::OwnerDisconnected => AcquireErrorModel::OwnerDisconnected,
            InteractiveTerminalAcquireError::Rejected(r) => AcquireErrorModel::Rejected(r@),
        }
    }
}

/// The message of each error.
pub open spec fn acquire_error_message(e: AcquireErrorModel) -> Seq<char> {
    match e {
        AcquireErrorModel::NoLocalOwner => "interactive hooks require the embedded Codex TUI; no local terminal owner is registered"@,
        AcquireErrorModel::OwnerDisconnected => "the embedded Codex TUI disconnected before accepting the terminal lease"@,
        AcquireErrorModel::Rejected(reason) => "the embedded Codex TUI rejected the terminal lease: "@ + reason,
    }
}

impl InteractiveTerminalAcquireError {
    /// The error's message.
    pub fn message(&self) -> (r: String)
        ensures
            r@ == acquire_error_message(self@),
    {
        match self {
            InteractiveTerminalAcquireError::NoLocalOwner => {
                "interactive hooks require the embedded Codex TUI; no local terminal owner is registered".to_owned()
            },
            InteractiveTerminalAcquireError::OwnerDisconnected => {
                "the embedded Codex TUI disconnected before accepting the terminal lease".to_owned()
            },
            InteractiveTerminalAcquireError::Rejected(reason) => concat(
                "the embedded Codex TUI rejected the terminal lease: ",
                reason.as_str(),
            ),
        }
    }
}

/// What the owner answered to a lease request.
#[derive(Debug, Clone, PartialEq, Eq)]
pub enum ReadyReply {
    /// The owner stopped using the terminal.
    Ready,
    /// The owner refused, for this reason.
    Refused(String),
    /// The owner dropped the request without answering.
    Dropped,
}

/// How far a lease request got before it failed.
#[derive(Debug, Clone, Copy, PartialEq, Eq)]
pub enum AcquireStage {
    /// Waiting for the lease permit, which was closed.
    Permit,
    /// Looking up the owner, of which there is none.
    Owner,
    /// Sending the request, which the owner no longer receives.
    Send,
}

/// The error for a request that failed before the owner answered.
pub fn acquire_failure(stage: AcquireStage) -> (r: InteractiveTerminalAcquireError)
    ensures
        r@ == match stage {
            AcquireStage::Owner => AcquireErrorModel::NoLocalOwner,
            _ => AcquireErrorModel::OwnerDisconnected,
        },
{
    match stage {
        AcquireStage::Owner => InteractiveTerminalAcquireError::NoLocalOwner,
        _ => InteractiveTerminalAcquireError::OwnerDisconnected,
    }
}

/// What the owner's answer comes to: the lease is granted only on `Ready`.
pub fn lease_outcome(reply: ReadyReply) -> (r: Result<(), InteractiveTerminalAcquireError>)
    ensures
        match reply {
            ReadyReply::Ready => r is Ok,
            ReadyReply::Refused(reason) => r matches Err(e) && e@ == AcquireErrorModel::Rejected(
                reason@,
            ),
            ReadyReply::Dropped => r matches Err(e) && e@ == AcquireErrorModel::OwnerDisconnected,
        },
{
    match reply {
        ReadyReply::Ready => Ok(()),
        ReadyReply::Refused(reason) => Err(InteractiveTerminalAcquireError::Rejected(reason)),
        ReadyReply::Dropped => Err(InteractiveTerminalAcquireError::OwnerDisconnected),
    }
}

/// Whether dropping the owner of generation `owner` clears the registered route: only the
/// route that owner registered, so a newer owner's route survives an older owner's drop.
pub fn owner_drop_clears_route(registered: Option<u128>, owner: u128) -> (r: bool)
    ensures
        r == (registered == Some(owner)),
{
    match registered {
        Some(g) => g == owner,
        None => false,
    }
}

/// The route to the registered terminal owner: the generation that owner was registered
/// under, and what reaches it.
pub struct OwnerSlot<S> {
    route: Option<(u128, S)>,
}

/// The generation of the registered owner, if any.
pub open spec fn slot_generation<S>(route: Option<(u128, S)>) -> Option<u128> {
    match route {
        Some(r) => Some(r.0),
        None => None,
    }
}

/// Registering an owner makes its generation the registered one, whatever was before.
pub open spec fn after_register(registered: Option<u128>, generation: u128) -> Option<u128> {
    Some(generation)
}

/// Dropping the owner of `generation` clears the route only if that owner is the
/// registered one.
pub open spec fn after_drop(registered: Option<u128>, generation: u128) -> Option<u128> {
    if registered == Some(generation) {
        None
    } else {
        registered
    }
}

impl<S> OwnerSlot<S> {
    /// The generation of the registered owner, if any.
    pub closed spec fn registered(&self) -> Option<u128> {
        slot_generation(self.route)
    }

    /// What reaches the registered owner, if any.
    pub closed spec fn sender(&self) -> Option<S> {
        match self.route {
            Some(r) => Some(r.1),
            None => None,
        }
    }

    /// A slot with no owner.
    pub fn new() -> (r: Self)
        ensures
            r.registered() == None::<u128>,
            r.sender() == None::<S>,
    {
        OwnerSlot { route: None }
    }

    /// Registers the owner of `generation`, reached through `sender`, in place of any
    /// earlier one.
    pub fn register(&mut self, generation: u128, sender: S)
        ensures
            final(self).registered() == after_register(old(self).registered(), generation),
            final(self).sender() == Some(sender),
    {
        self.route = Some((generation, sender));
    }

    /// The owner of `generation` goes away: the route is cleared if it is that owner's.
    pub fn release(&mut self, generation: u128)
        ensures
            final(self).registered() == after_drop(old(self).registered(), generation),
            final(self).registered() == old(self).registered() ==> final(self).sender()
                == old(self).sender(),
            final(self).registered() is None ==> final(self).sender() is None,
    {
        let registered = match &self.route {
            Some(r) => Some(r.0),
            None => None,
        };
        if owner_drop_clears_route(registered, generation) {
            self.route = None;
        }
    }

    /// What reaches the registered owner, if any.
    pub fn current(&self) -> (r: Option<&S>)
        ensures
            match r {
                Some(s) => self.sender() == Some(*s),
                None => self.sender() is None,
            },
    {
        match &self.route {
            Some(r) => Some(&r.1),
            None => None,
        }
    }
}

/// Of two owners registered one after the other under different generations, dropping the
/// older leaves the newer one's route in place, and dropping the newer one clears it; so
/// only the owner that is registered can take the route away.
pub proof fn lemma_older_owner_drop_keeps_newer_route(start: Option<u128>, older: u128, newer: u128)
    requires
        older != newer,
    ensures
        after_drop(after_register(after_register(start, older), newer), older) == Some(newer),
        after_drop(after_register(after_register(start, older), newer), newer) == None::<u128>,
        after_drop(after_drop(after_register(after_register(start, older), newer), older), newer)
            == None::<u128>,
{
}

} // verus!
