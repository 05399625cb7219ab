//! Notification sessions.
//!
//! A characteristic with function-mode notify support runs at most one
//! notification session at a time.  The session is a small state machine:
//! it starts when the daemon asks for notifications, emits value changes,
//! and — when the indication mechanism is in use — blocks each emission
//! until the receiving device confirms it.  The daemon's `Confirm` and
//! `StopNotify` calls and the emission itself are the machine's events;
//! the embedding layer performs the bus signal and the actual waiting, and
//! feeds every event through the transitions below, so the protocol rules
//! (flushing stale confirmations, failing instead of hanging on stop) are
//! all verified here.

use vstd::prelude::*;
use crate::error::Error;

verus! {

/// What happens to a `notify` call at the moment it is made.
#[derive(Clone, Copy, Debug, PartialEq, Eq, Structural)]
pub enum NotifyStep {
    /// The session was already stopped; the call fails at once.
    Stopped,
    /// The value is emitted and the call completes at once.
    Sent,
    /// The value is emitted and the call blocks until a confirmation
    /// arrives or the session stops.
    AwaitingConfirm,
}

/// The outcome handed to the embedding layer: the step taken, carrying the
/// value to emit where one is emitted.
#[derive(Clone, Debug, PartialEq, Eq)]
pub enum NotifyOutcome {
    /// The session was already stopped: the call fails with
    /// [`Error::NotificationSessionStopped`] and nothing is emitted.
    Stopped,
    /// Emit this value; the call then completes successfully.
    Sent(Vec<u8>),
    /// Emit this value; the call then waits for a confirmation.
    AwaitingConfirm(Vec<u8>),
}

/// One notification session, as observed in event order.
///
/// The same value models both ends of the session: the notifier held by
/// the user's handler and the per-characteristic state kept for the
/// daemon's `Confirm` / `StopNotify` calls.
#[derive(Clone, Copy, Debug, PartialEq, Eq, Structural)]
pub struct CharacteristicNotifier {
    /// Each emission must be confirmed by the receiving device.  This is
    /// the case exactly when the indication mechanism is in use.
    pub confirming: bool,
    /// The receiving device has ended the session.
    pub stopped: bool,
    /// Confirmation tokens received while no emission was pending.  They
    /// are stale: the next emission flushes them rather than being woken
    /// by one.
    pub pending_confirms: u64,
    /// An emission is blocked awaiting its confirmation.
    pub awaiting_confirm: bool,
}

impl CharacteristicNotifier {
    /// The states a session can actually be in.
    pub open spec fn wf(self) -> bool {
        &&& self.awaiting_confirm ==> self.confirming && !self.stopped
        &&& self.pending_confirms > 0 ==> self.confirming
    }

    /// A freshly started session.
    pub open spec fn spec_fresh(confirming: bool) -> CharacteristicNotifier {
        CharacteristicNotifier {
            confirming,
            stopped: false,
            pending_confirms: 0,
            awaiting_confirm: false,
        }
    }

    /// The step a `notify` call takes in state `self`.
    pub open spec fn spec_notify_step(self) -> NotifyStep {
        if self.stopped {
            NotifyStep::Stopped
        } else if self.confirming {
            NotifyStep::AwaitingConfirm
        } else {
            NotifyStep::Sent
        }
    }

    /// The state after a `notify` call made in state `self`.  Emitting
    /// under indication first flushes every stale confirmation token, then
    /// blocks the call.
    pub open spec fn spec_notify_state(self) -> CharacteristicNotifier {
        if self.stopped || !self.confirming {
            self
        } else {
            CharacteristicNotifier { pending_confirms: 0, awaiting_confirm: true, ..self }
        }
    }

    /// Whether a `Confirm` event in state `self` wakes a blocked emission.
    pub open spec fn spec_confirm_wakes(self) -> bool {
        !self.stopped && self.confirming && self.awaiting_confirm
    }

    /// The state after a `Confirm` event.  A confirmation on a live
    /// indication session either wakes the blocked emission or is queued
    /// as stale; anywhere else it is meaningless and changes nothing.
    pub open spec fn spec_confirm(self) -> CharacteristicNotifier {
        if self.stopped || !self.confirming {
            self
        } else if self.awaiting_confirm {
            CharacteristicNotifier { awaiting_confirm: false, ..self }
        } else if self.pending_confirms < u64::MAX {
            CharacteristicNotifier { pending_confirms: (self.pending_confirms + 1) as u64, ..self }
        } else {
            self
        }
    }

    /// The state after the session stops (the daemon's `StopNotify`, or
    /// teardown of the characteristic).
    pub open spec fn spec_stop(self) -> CharacteristicNotifier {
        CharacteristicNotifier { stopped: true, awaiting_confirm: false, ..self }
    }

    /// Starts a session.  `confirming` is true exactly when the indication
    /// mechanism is in use.
    pub fn new(confirming: bool) -> (r: Self)
        ensures
            r == Self::spec_fresh(confirming),
            r.wf(),
    {
        CharacteristicNotifier {
            confirming,
            stopped: false,
            pending_confirms: 0,
            awaiting_confirm: false,
        }
    }

    /// True if each emission is confirmed by the receiving device, which
    /// is the case when the indication mechanism is used.
    pub fn confirming(&self) -> (r: bool)
        ensures
            r == self.confirming,
    {
        self.confirming
    }

    /// True if the notification session has been stopped by the receiving
    /// device.
    pub fn is_stopped(&self) -> (r: bool)
        ensures
            r == self.stopped,
    {
        self.stopped
    }

    /// Sends a notification or indication carrying `value`.
    ///
    /// On a stopped session the call fails at once with
    /// [`Error::NotificationSessionStopped`] and nothing is emitted.
    /// Otherwise the value is emitted; under indication the call first
    /// flushes every stale confirmation token and then blocks until a
    /// fresh confirmation arrives ([`Self::confirm`]) or the session stops
    /// ([`Self::stop`]).
    pub fn notify(&mut self, value: Vec<u8>) -> (r: NotifyOutcome)
        requires
            old(self).wf(),
            !old(self).awaiting_confirm,
        ensures
            final(self).wf(),
            *final(self) == old(self).spec_notify_state(),
            (match r {
                NotifyOutcome::Stopped => old(self).spec_notify_step() is Stopped,
                NotifyOutcome::Sent(v) => old(self).spec_notify_step() is Sent && v@ == value@,
                NotifyOutcome::AwaitingConfirm(v) => old(self).spec_notify_step()
                    is AwaitingConfirm && v@ == value@,
            }),
    {
        if self.stopped {
            NotifyOutcome::Stopped
        } else if self.confirming {
            self.pending_confirms = 0;
            self.awaiting_confirm = true;
            NotifyOutcome::AwaitingConfirm(value)
        } else {
            NotifyOutcome::Sent(value)
        }
    }

    /// The daemon confirmed an indication.  Returns true when a blocked
    /// emission is woken and completes successfully; a confirmation with
    /// no emission pending is queued as stale, to be flushed by the next
    /// emission rather than waking it.
    pub fn confirm(&mut self) -> (woke: bool)
        requires
            old(self).wf(),
        ensures
            final(self).wf(),
            *final(self) == old(self).spec_confirm(),
            woke == old(self).spec_confirm_wakes(),
    {
        if self.stopped || !self.confirming {
            false
        } else if self.awaiting_confirm {
            self.awaiting_confirm = false;
            true
        } else {
            if self.pending_confirms < u64::MAX {
                self.pending_confirms = self.pending_confirms + 1;
            }
            false
        }
    }

    /// The receiving device stopped the session.  A blocked emission is
    /// released and fails with the returned error rather than hanging.
    pub fn stop(&mut self) -> (interrupted: Option<Error>)
        requires
            old(self).wf(),
        ensures
            final(self).wf(),
            *final(self) == old(self).spec_stop(),
            interrupted == (if old(self).awaiting_confirm {
                Some(Error::IndicationUnconfirmed)
            } else {
                None::<Error>
            }),
    {
        let interrupted = if self.awaiting_confirm {
            Some(Error::IndicationUnconfirmed)
        } else {
            None
        };
        self.stopped = true;
        self.awaiting_confirm = false;
        interrupted
    }
}

/// Law: under plain notification (no indication), an emission on a live
/// session completes at once; no confirmation is ever required, and the
/// session state is unchanged.
pub proof fn lemma_notify_completes_without_confirmation(s: CharacteristicNotifier)
    requires
        s.wf(),
        !s.stopped,
        !s.confirming,
    ensures
        s.spec_notify_step() is Sent,
        s.spec_notify_state() == s,
{
}

/// Law: under indication, an emission on a live session blocks, and then
/// completes one way or the other, never hanging: a confirmation wakes it
/// (success), and a stop releases it with the unconfirmed-indication error.
pub proof fn lemma_indication_blocks_until_confirm_or_stop(s: CharacteristicNotifier)
    requires
        s.wf(),
        !s.stopped,
        s.confirming,
        !s.awaiting_confirm,
    ensures
        s.spec_notify_step() is AwaitingConfirm,
        s.spec_notify_state().spec_confirm_wakes(),
        !s.spec_notify_state().spec_confirm().awaiting_confirm,
        !s.spec_notify_state().spec_stop().awaiting_confirm,
{
}

/// Law: a confirmation that arrives while no emission is pending is
/// stale.  The next emission flushes it and still blocks awaiting a fresh
/// confirmation; it does not complete at once on the stale token.
pub proof fn lemma_stale_confirmation_is_flushed(s: CharacteristicNotifier)
    requires
        s.wf(),
        !s.stopped,
        s.confirming,
        !s.awaiting_confirm,
    ensures
        s.spec_confirm().spec_notify_step() is AwaitingConfirm,
        s.spec_confirm().spec_notify_state().pending_confirms == 0,
        s.spec_confirm().spec_notify_state().awaiting_confirm,
{
}

} // verus!
