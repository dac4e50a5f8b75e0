//! Recognising that the host has enumerated the gadget, from the `state`
//! attributes of the USB device controllers.

use vstd::prelude::*;
use vstd::string::*;
use crate::text::{
    all_white_space, lemma_trim_ignores_surrounding_white_space, text_eq, trim_white_space, trimmed,
};

verus! {

broadcast use vstd::string::group_string_axioms;

/// Time, in seconds, that the setup waits for the host to enumerate the
/// gadget.
pub const ENUMERATION_TIMEOUT_SECS: u64 = 10;

/// Pause, in milliseconds, between two readings of the controller states.
pub const ENUMERATION_POLL_MS: u64 = 100;

/// Pause, in milliseconds, after binding the gadget, before its device nodes
/// are looked up.
pub const DEVICE_NODE_SETTLE_MS: u64 = 100;

/// A controller state reports a finished enumeration: once white space is
/// trimmed it reads `configured`.
pub open spec fn state_is_configured(state: Seq<char>) -> bool {
    trimmed(state) == "configured"@
}

/// Whether the text of a controller's `state` attribute says that the host
/// has configured the gadget.
pub fn is_configured_state(state: &str) -> (r: bool)
    ensures
        r == state_is_configured(state@),
{
    text_eq(trim_white_space(state), "configured")
}


/// What one step of the wait for enumeration learned.
#[derive(Debug)]
pub enum PollEvent {
    /// The controllers' state files could not be listed.
    ListingFailed,
    /// A listed state file could not be read.
    StateUnreadable,
    /// A state file was read; this is its text.
    StateRead(String),
    /// Every state file listed in this pass has been looked at.
    PassDone,
}

/// What the wait for enumeration does next.
#[derive(Debug, Clone, Copy, PartialEq, Eq, Structural)]
pub enum PollAction {
    /// The host has configured the gadget: the wait is over.
    Enumerated,
    /// Go on with the next listed state file.
    NextState,
    /// Pause for `ENUMERATION_POLL_MS`, then list the state files again.
    Pause,
}

/// The action that follows an event of the wait.
pub open spec fn poll_action(event: PollEvent) -> PollAction {
    match event {
        PollEvent::ListingFailed => PollAction::Pause,
        PollEvent::StateUnreadable => PollAction::NextState,
        PollEvent::StateRead(text) => if state_is_configured(text@) {
            PollAction::Enumerated
        } else {
            PollAction::NextState
        },
        PollEvent::PassDone => PollAction::Pause,
    }
}

/// One decision of the wait for enumeration: a state file that reads
/// `configured` ends it, an unreadable or other state file is passed over,
/// and a failed listing or the end of a pass leads to a pause before the next
/// pass. The time limit is kept by the caller.
pub fn poll_step(event: &PollEvent) -> (action: PollAction)
    ensures
        action == poll_action(*event),
{
    match event {
        PollEvent::ListingFailed => PollAction::Pause,
        PollEvent::StateUnreadable => PollAction::NextState,
        PollEvent::StateRead(text) => if is_configured_state(text.as_str()) {
            PollAction::Enumerated
        } else {
            PollAction::NextState
        },
        PollEvent::PassDone => PollAction::Pause,
    }
}

/// A controller state reads the same whatever white space surrounds it,
/// such as the newline that ends the attribute file.
pub proof fn lemma_configured_ignores_surrounding_white_space(
    pre: Seq<char>,
    state: Seq<char>,
    post: Seq<char>,
)
    requires
        all_white_space(pre),
        all_white_space(post),
    ensures
        state_is_configured(pre + state + post) == state_is_configured(state),
{
    lemma_trim_ignores_surrounding_white_space(pre, state, post);
}

/// A state file that was read ends the wait exactly when its text, with
/// white space trimmed, is `configured`; any other text moves on to the next
/// state file. An unreadable file never ends the wait.
pub proof fn lemma_poll_ends_only_on_configured(text: String)
    ensures
        (poll_action(PollEvent::StateRead(text)) == PollAction::Enumerated) <==> (trimmed(text@)
            =~= "configured"@),
        (poll_action(PollEvent::StateRead(text)) == PollAction::NextState) <==> !(trimmed(text@)
            =~= "configured"@),
        poll_action(PollEvent::StateUnreadable) == PollAction::NextState,
        poll_action(PollEvent::ListingFailed) == PollAction::Pause,
        poll_action(PollEvent::PassDone) == PollAction::Pause,
{
}

} // verus!
