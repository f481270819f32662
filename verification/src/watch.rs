//! The watch loop: one tick of check, optional probe and notify, then sleep.
//!
//! The loop itself is a state machine. The surrounding process performs one
//! piece of outside work at a time (refresh, probe, publish, pause) and hands
//! the result back as an [`Event`]; [`WatchLoop::step`] decides the next
//! state, the next piece of outside work and the line for the log. Every
//! recoverable failure leads to `Sleeping`, so no tick failure ever leaves
//! the loop; a notification is requested exactly once per detected change,
//! and never after a failed probe.

use vstd::prelude::*;
use crate::check::Updated;
use crate::errors::CheckError;
use crate::errors::NotifyError;
use crate::errors::ProbeError;
use crate::notify::notify_message;
use crate::notify::spec_notification;

verus! {

/// Seconds in the fixed pause between ticks: one day.
pub const TICK_INTERVAL_SECS: u64 = 24 * 60 * 60;

/// Where the loop stands inside the current tick.
#[derive(Clone, Copy, Debug, PartialEq, Eq, Structural)]
pub enum Phase {
    /// Waiting for the tick to begin.
    Idle,
    /// The refresh action is running.
    Checking,
    /// The version probe is running.
    Probing,
    /// The publish call is running.
    Notifying,
    /// The pause between ticks is running.
    Sleeping,
}

/// What the surrounding process reports back to the loop.
pub enum Event {
    /// A new tick begins.
    Tick,
    /// The refresh action finished.
    Checked(Result<Updated, CheckError>),
    /// The version probe finished.
    Probed(Result<String, ProbeError>),
    /// The publish call finished.
    Notified(Result<(), NotifyError>),
    /// The pause between ticks elapsed.
    Woke,
}

/// The single piece of outside work the loop asks the process for next.
pub enum Action {
    /// Run the refresh action of the version source.
    Check,
    /// Read the version identifier from the version source.
    Probe,
    /// Publish this message.
    Notify(String),
    /// Pause for `TICK_INTERVAL_SECS` seconds.
    Sleep,
}

/// Spec-level image of an [`Action`], the message as a character sequence.
pub enum ActionView {
    Check,
    Probe,
    Notify(Seq<char>),
    Sleep,
}

impl View for Action {
    type V = ActionView;

    open spec fn view(&self) -> ActionView {
        match self {
            Action::Check => ActionView::Check,
            Action::Probe => ActionView::Probe,
            Action::Notify(m) => ActionView::Notify(m@),
            Action::Sleep => ActionView::Sleep,
        }
    }
}

/// One step's output: the next piece of outside work, and a line to log.
pub struct Directive {
    /// What the process performs next, if anything.
    pub action: Option<Action>,
    /// What the process appends to the log, if anything.
    pub log: Option<String>,
}

impl Directive {
    /// Spec-level image of the action.
    pub open spec fn action_view(self) -> Option<ActionView> {
        match self.action {
            Some(a) => Some(a@),
            None => None,
        }
    }

    /// Spec-level image of the log line.
    pub open spec fn log_view(self) -> Option<Seq<char>> {
        match self.log {
            Some(l) => Some(l@),
            None => None,
        }
    }
}

/// The log line for a tick whose refresh reported no change.
pub open spec fn spec_no_update_line(last: Option<String>) -> Seq<char> {
    match last {
        Some(v) => "No update for "@ + v@,
        None => "No update; no version has been observed yet"@,
    }
}

/// Build the log line for a tick whose refresh reported no change.
pub fn no_update_line(last: &Option<String>) -> (r: String)
    ensures
        r@ == spec_no_update_line(*last),
{
    match last {
        Some(v) => {
            let mut m = String::new();
            m.append("No update for ");
            m.append(v.as_str());
            proof {
                assert(m@ =~= "No update for "@ + v@);
            }
            m
        },
        None => "No update; no version has been observed yet".to_owned(),
    }
}

/// The watch-detect-notify state machine. It owns the last successfully
/// observed version; the version probed in the current tick is held apart
/// until its notification succeeds, so a failed tick never disturbs what is
/// already known.
pub struct WatchLoop {
    /// Where the loop stands inside the current tick.
    pub phase: Phase,
    /// The version captured on the last successful notification, or the
    /// initial reading the loop was started with.
    pub last_version: Option<String>,
    /// The version probed in the current tick, awaiting its notification.
    pub pending: Option<String>,
}

impl WatchLoop {
    /// Internal consistency: a probed version is held exactly while the
    /// notification for it is under way.
    pub open spec fn wf(self) -> bool {
        self.pending is Some <==> self.phase is Notifying
    }

    /// Which events can arrive in which phase.
    pub open spec fn fits(self, e: Event) -> bool {
        match (self.phase, e) {
            (Phase::Idle, Event::Tick) => true,
            (Phase::Checking, Event::Checked(_)) => true,
            (Phase::Probing, Event::Probed(_)) => true,
            (Phase::Notifying, Event::Notified(_)) => true,
            (Phase::Sleeping, Event::Woke) => true,
            _ => false,
        }
    }

    /// The successor state: the transition rules of one tick.
    ///
    /// A tick runs `Idle → Checking`, then either `→ Sleeping` (no change,
    /// or a failure) or `→ Probing → Notifying → Sleeping`; waking returns
    /// to `Idle`. The last known version advances only on a successful
    /// notification; a failure anywhere abandons the tick and leaves it.
    pub open spec fn next_state(self, e: Event) -> WatchLoop {
        match (self.phase, e) {
            (Phase::Idle, Event::Tick) => WatchLoop { phase: Phase::Checking, ..self },
            (Phase::Checking, Event::Checked(res)) => match res {
                Ok(Updated::Yes) => WatchLoop { phase: Phase::Probing, ..self },
                Ok(Updated::No) => WatchLoop { phase: Phase::Sleeping, ..self },
                Err(_) => WatchLoop { phase: Phase::Sleeping, ..self },
            },
            (Phase::Probing, Event::Probed(res)) => match res {
                Ok(v) => WatchLoop { phase: Phase::Notifying, pending: Some(v), ..self },
                Err(_) => WatchLoop { phase: Phase::Sleeping, ..self },
            },
            (Phase::Notifying, Event::Notified(res)) => match res {
                Ok(_) => WatchLoop {
                    phase: Phase::Sleeping,
                    last_version: self.pending,
                    pending: None,
                },
                Err(_) => WatchLoop { phase: Phase::Sleeping, pending: None, ..self },
            },
            (Phase::Sleeping, Event::Woke) => WatchLoop { phase: Phase::Idle, ..self },
            _ => self,
        }
    }

    /// The outside work requested by the step on event `e`. A notification
    /// is requested only on a successful probe, and it carries exactly the
    /// message built from the probed version.
    pub open spec fn next_action(self, e: Event) -> Option<ActionView> {
        match (self.phase, e) {
            (Phase::Idle, Event::Tick) => Some(ActionView::Check),
            (Phase::Checking, Event::Checked(res)) => match res {
                Ok(Updated::Yes) => Some(ActionView::Probe),
                _ => Some(ActionView::Sleep),
            },
            (Phase::Probing, Event::Probed(res)) => match res {
                Ok(v) => Some(ActionView::Notify(spec_notification(v@))),
                Err(_) => Some(ActionView::Sleep),
            },
            (Phase::Notifying, Event::Notified(_)) => Some(ActionView::Sleep),
            _ => None,
        }
    }

    /// The log line emitted by the step on event `e`: every failure is
    /// logged with its message, a quiet tick records the last known version,
    /// a successful notification records its confirmation.
    pub open spec fn next_log(self, e: Event) -> Option<Seq<char>> {
        match (self.phase, e) {
            (Phase::Checking, Event::Checked(res)) => match res {
                Ok(Updated::Yes) => None,
                Ok(Updated::No) => Some(spec_no_update_line(self.last_version)),
                Err(er) => Some(er.spec_message()),
            },
            (Phase::Probing, Event::Probed(res)) => match res {
                Ok(_) => None,
                Err(er) => Some(er.spec_message()),
            },
            (Phase::Notifying, Event::Notified(res)) => match res {
                Ok(_) => Some("New update posted"@),
                Err(er) => Some(er.spec_message()),
            },
            _ => None,
        }
    }

    /// A fresh loop in `Idle`, remembering `initial` as the last known
    /// version (the initial reading, where one could be taken).
    pub fn new(initial: Option<String>) -> (r: WatchLoop)
        ensures
            r.wf(),
            r.phase is Idle,
            r.last_version == initial,
            r.pending is None,
    {
        WatchLoop { phase: Phase::Idle, last_version: initial, pending: None }
    }

    /// Advance by one event. The new state, the requested outside work and
    /// the log line are exactly those of the transition rules.
    pub fn step(&mut self, e: Event) -> (d: Directive)
        requires
            old(self).wf(),
            old(self).fits(e),
        ensures
            final(self).wf(),
            *final(self) == old(self).next_state(e),
            d.action_view() == old(self).next_action(e),
            d.log_view() == old(self).next_log(e),
    {
        match e {
            Event::Tick => {
                self.phase = Phase::Checking;
                Directive { action: Some(Action::Check), log: None }
            },
            Event::Checked(res) => match res {
                Ok(Updated::Yes) => {
                    self.phase = Phase::Probing;
                    Directive { action: Some(Action::Probe), log: None }
                },
                Ok(Updated::No) => {
                    self.phase = Phase::Sleeping;
                    let line = no_update_line(&self.last_version);
                    Directive { action: Some(Action::Sleep), log: Some(line) }
                },
                Err(er) => {
                    self.phase = Phase::Sleeping;
                    Directive { action: Some(Action::Sleep), log: Some(er.message()) }
                },
            },
            Event::Probed(res) => match res {
                Ok(v) => {
                    self.phase = Phase::Notifying;
                    let msg = notify_message(v.as_str());
                    self.pending = Some(v);
                    Directive { action: Some(Action::Notify(msg)), log: None }
                },
                Err(er) => {
                    self.phase = Phase::Sleeping;
                    Directive { action: Some(Action::Sleep), log: Some(er.message()) }
                },
            },
            Event::Notified(res) => match res {
                Ok(_) => {
                    self.phase = Phase::Sleeping;
                    let v = self.pending.take();
                    self.last_version = v;
                    Directive {
                        action: Some(Action::Sleep),
                        log: Some("New update posted".to_owned()),
                    }
                },
                Err(er) => {
                    self.phase = Phase::Sleeping;
                    self.pending = None;
                    Directive { action: Some(Action::Sleep), log: Some(er.message()) }
                },
            },
            Event::Woke => {
                self.phase = Phase::Idle;
                Directive { action: None, log: None }
            },
        }
    }
}

/// Whether `e` reports a recoverable failure of the tick's outside work.
pub open spec fn is_failure(e: Event) -> bool {
    ||| e matches Event::Checked(Err(_))
    ||| e matches Event::Probed(Err(_))
    ||| e matches Event::Notified(Err(_))
}

/// Exactly-once notification: in a tick where the check reports a change and
/// both the probe and the notification succeed, exactly one of the four
/// steps requests a publish — the one answering the probe — and it carries
/// the message built from the newly probed version, which the loop then
/// records as the last known version.
pub proof fn lemma_notify_exactly_once(s0: WatchLoop, v: String)
    requires
        s0.wf(),
        s0.phase is Idle,
    ensures
        ({
            let s1 = s0.next_state(Event::Tick);
            let s2 = s1.next_state(Event::Checked(Ok(Updated::Yes)));
            let s3 = s2.next_state(Event::Probed(Ok(v)));
            let s4 = s3.next_state(Event::Notified(Ok(())));
            &&& s0.next_action(Event::Tick) == Some(ActionView::Check)
            &&& s1.next_action(Event::Checked(Ok(Updated::Yes))) == Some(ActionView::Probe)
            &&& s2.next_action(Event::Probed(Ok(v))) == Some(
                ActionView::Notify(spec_notification(v@)),
            )
            &&& s3.next_action(Event::Notified(Ok(()))) == Some(ActionView::Sleep)
            &&& s4.phase is Sleeping
            &&& s4.last_version == Some(v)
            &&& s4.wf()
        }),
{
}

/// No notification on failure: if the probe fails after a change was
/// detected, no step of the tick requests a publish, the failure is logged,
/// and the last known version is left as it was.
pub proof fn lemma_no_notify_on_probe_failure(s0: WatchLoop, er: ProbeError)
    requires
        s0.wf(),
        s0.phase is Idle,
    ensures
        ({
            let s1 = s0.next_state(Event::Tick);
            let s2 = s1.next_state(Event::Checked(Ok(Updated::Yes)));
            let s3 = s2.next_state(Event::Probed(Err(er)));
            &&& s0.next_action(Event::Tick) == Some(ActionView::Check)
            &&& s1.next_action(Event::Checked(Ok(Updated::Yes))) == Some(ActionView::Probe)
            &&& s2.next_action(Event::Probed(Err(er))) == Some(ActionView::Sleep)
            &&& s2.next_log(Event::Probed(Err(er))) == Some(er.spec_message())
            &&& s3.phase is Sleeping
            &&& s3.last_version == s0.last_version
            &&& s3.wf()
        }),
{
}

/// Tick isolation: any recoverable failure sends the loop to `Sleeping`
/// with a plain `Sleep` request — never out of the loop — and the next tick
/// runs untouched: waking returns to `Idle`, whose step requests a check.
pub proof fn lemma_tick_isolation(s: WatchLoop, e: Event)
    requires
        s.wf(),
        s.fits(e),
        is_failure(e),
    ensures
        ({
            let s1 = s.next_state(e);
            let s2 = s1.next_state(Event::Woke);
            &&& s1.phase is Sleeping
            &&& s1.wf()
            &&& s.next_action(e) == Some(ActionView::Sleep)
            &&& s2.phase is Idle
            &&& s2.wf()
            &&& s2.next_action(Event::Tick) == Some(ActionView::Check)
            &&& s2.next_state(Event::Tick).phase is Checking
        }),
{
}

} // verus!
