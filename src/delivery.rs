//! The decisions of clipboard delivery.
//!
//! Delivery goes in two tiers. The primary backend is asked to set the
//! clipboard, then to read it back; from those two reports and from whether
//! the process runs in a remote session, [`needs_fallback`] decides whether the
//! primary attempt was inconclusive. If it was, the fallback backend is asked
//! to set the clipboard once, and its report settles the outcome.
//!
//! [`Delivery`] holds these decisions as a state machine: the caller performs
//! the [`Action`] it asks for and hands the backend's report back as an
//! [`Event`], until the action is [`Action::Finish`].
use vstd::prelude::*;

verus! {

/// How a delivery ended.
#[derive(Clone, Copy, Debug, PartialEq, Eq, Structural)]
pub enum DeliveryOutcome {
    /// The primary backend set the clipboard and nothing cast doubt on it.
    Delivered,
    /// The fallback backend reported that it set the clipboard; nothing read
    /// it back.
    DeliveredUnconfirmed,
    /// No backend could place the content.
    Failed,
}

/// Both the set and the read-back of the primary backend failed.
pub open spec fn unresponsive(set_ok: bool, read_back: Option<String>) -> bool {
    !set_ok && read_back is None
}

/// The read-back failed in a local session, where it should work.
pub open spec fn local_get_mismatch(remote_session: bool, read_back: Option<String>) -> bool {
    !remote_session && read_back is None
}

/// The read-back worked and found the clipboard empty.
pub open spec fn empty_after_set(read_back: Option<String>) -> bool {
    read_back matches Some(s) && s@.len() == 0
}

/// Whether the primary attempt was inconclusive or failed.
pub open spec fn primary_inconclusive(
    set_ok: bool,
    read_back: Option<String>,
    remote_session: bool,
) -> bool {
    unresponsive(set_ok, read_back) || local_get_mismatch(remote_session, read_back)
        || empty_after_set(read_back)
}

/// Decides from the primary backend's two reports whether the fallback backend
/// must be tried. `read_back` is what the read-back returned, or `None` where
/// it failed.
pub fn needs_fallback(set_ok: bool, read_back: &Option<String>, remote_session: bool) -> (r: bool)
    ensures
        r == primary_inconclusive(set_ok, *read_back, remote_session),
{
    let get_failed = read_back.is_none();
    let clipboard_unresponsive = !set_ok && get_failed;
    let local_clipboard_get_err = !remote_session && get_failed;
    let clipboard_not_populated = match read_back {
        Some(s) => s.as_str().is_empty(),
        None => false,
    };
    clipboard_unresponsive || local_clipboard_get_err || clipboard_not_populated
}

impl DeliveryOutcome {
    /// The warning shown when the clipboard could not be populated, and `None`
    /// for the other outcomes.
    pub fn warning(&self) -> (r: Option<String>)
        ensures
            r is Some <==> *self == DeliveryOutcome::Failed,
            r matches Some(w) ==> w@ == "Warning: clipboard could not be populated"@,
    {
        match self {
            DeliveryOutcome::Failed => Some(String::from_str("Warning: clipboard could not be populated")),
            _ => None,
        }
    }
}

/// Where a delivery stands.
#[derive(Clone, Copy, Debug, PartialEq, Eq, Structural)]
pub enum Phase {
    /// Nothing tried yet.
    Start,
    /// The primary attempt was inconclusive; the fallback is owed.
    Ambiguous,
    /// The delivery ended.
    Done(DeliveryOutcome),
}

/// What a backend reported, handed back by the caller.
pub enum Event {
    /// The primary backend's set succeeded or not (`set_ok`), and its
    /// read-back returned `read_back`, or `None` where it failed.
    Primary { set_ok: bool, read_back: Option<String> },
    /// The fallback backend set the clipboard without error (`true`); `false`
    /// where it failed, or its context could not even be built.
    Fallback { ok: bool },
}

/// What the caller must do next.
#[derive(Debug)]
pub enum Action {
    /// Set the clipboard to this content through the primary backend, then read
    /// it back through the same backend, both whatever the other reports.
    TryPrimary(String),
    /// Set the clipboard to this content through the fallback backend.
    TryFallback(String),
    /// The delivery ended with this outcome.
    Finish(DeliveryOutcome),
}

/// The phase that follows `phase` on `event`. A report that does not answer
/// the action owed in `phase` changes nothing.
pub open spec fn next_phase(phase: Phase, event: Event, remote_session: bool) -> Phase {
    match (phase, event) {
        (Phase::Start, Event::Primary { set_ok, read_back }) => {
            if primary_inconclusive(set_ok, read_back, remote_session) {
                Phase::Ambiguous
            } else {
                Phase::Done(DeliveryOutcome::Delivered)
            }
        },
        (Phase::Ambiguous, Event::Fallback { ok }) => {
            if ok {
                Phase::Done(DeliveryOutcome::DeliveredUnconfirmed)
            } else {
                Phase::Done(DeliveryOutcome::Failed)
            }
        },
        _ => phase,
    }
}

/// The action owed in `phase` when delivering `content`.
pub open spec fn action_for(phase: Phase, content: String) -> Action {
    match phase {
        Phase::Start => Action::TryPrimary(content),
        Phase::Ambiguous => Action::TryFallback(content),
        Phase::Done(outcome) => Action::Finish(outcome),
    }
}

/// One delivery of a string to the clipboard.
pub struct Delivery {
    content: String,
    remote_session: bool,
    phase: Phase,
}

impl Delivery {
    /// The string being delivered.
    pub closed spec fn spec_content(&self) -> String {
        self.content
    }

    /// Whether the process runs in a remote session.
    pub closed spec fn spec_remote_session(&self) -> bool {
        self.remote_session
    }

    /// Where this delivery stands.
    pub closed spec fn spec_phase(&self) -> Phase {
        self.phase
    }

    /// A delivery of `content` that has tried nothing yet. `remote_session`
    /// tells whether the process runs in a remote session, where the primary
    /// backend's read-back is not expected to work.
    pub fn new(content: String, remote_session: bool) -> (r: Delivery)
        ensures
            r.spec_content() == content,
            r.spec_remote_session() == remote_session,
            r.spec_phase() == Phase::Start,
    {
        Delivery { content, remote_session, phase: Phase::Start }
    }

    /// Where this delivery stands.
    pub fn phase(&self) -> (r: Phase)
        ensures
            r == self.spec_phase(),
    {
        self.phase
    }

    /// What the caller must do next.
    pub fn next_action(&self) -> (r: Action)
        ensures
            r == action_for(self.spec_phase(), self.spec_content()),
    {
        match self.phase {
            Phase::Start => Action::TryPrimary(self.content.clone()),
            Phase::Ambiguous => Action::TryFallback(self.content.clone()),
            Phase::Done(outcome) => Action::Finish(outcome),
        }
    }

    /// Takes in what a backend reported.
    pub fn handle(&mut self, event: Event)
        ensures
            final(self).spec_content() == old(self).spec_content(),
            final(self).spec_remote_session() == old(self).spec_remote_session(),
            final(self).spec_phase() == next_phase(
                old(self).spec_phase(),
                event,
                old(self).spec_remote_session(),
            ),
    {
        match (self.phase, event) {
            (Phase::Start, Event::Primary { set_ok, read_back }) => {
                if needs_fallback(set_ok, &read_back, self.remote_session) {
                    self.phase = Phase::Ambiguous;
                } else {
                    self.phase = Phase::Done(DeliveryOutcome::Delivered);
                }
            },
            (Phase::Ambiguous, Event::Fallback { ok }) => {
                if ok {
                    self.phase = Phase::Done(DeliveryOutcome::DeliveredUnconfirmed);
                } else {
                    self.phase = Phase::Done(DeliveryOutcome::Failed);
                }
            },
            _ => {},
        }
    }
}

} // verus!
