//! The per-connection watch loop as a state machine: it is handed what the
//! outside world did (a notification, a look at the file, a read, a send)
//! and answers with the next thing to do.
use vstd::prelude::*;
use crate::detector::{is_significant, significant, Notification};
use crate::render::{html_of, mark_cmrk};

verus! {

/// Consecutive notification errors after which the watch gives up.
pub const MAX_NOTIFY_FAILURES: u64 = 3;

/// Why a watch loop ended.
#[derive(Clone, Copy, Debug, PartialEq, Eq)]
pub enum Termination {
    /// The client disconnected; a send found the connection closed.
    PeerClosed,
    /// The stream of notifications ran dry.
    NotificationsEnded,
    /// The notification source kept reporting errors.
    NotificationSourceFailed,
}

/// Where the loop stands.
#[derive(Clone, Copy, Debug, PartialEq, Eq)]
pub enum Phase {
    /// Waiting for the next filesystem notification.
    Waiting,
    /// Waiting for the watched file's modification time.
    Checking,
    /// Waiting for the file's content, read because it was modified at `stamp`.
    Reading { stamp: u128 },
    /// Waiting for the outcome of sending the payload rendered for `stamp`.
    Sending { stamp: u128 },
    /// Done; nothing more is processed.
    Terminated { reason: Termination },
}

/// What the outside world reports back to the loop.
#[derive(Clone, Debug, PartialEq, Eq)]
pub enum Input {
    /// The next notification of the watcher.
    Notified(Notification),
    /// The watcher's notification stream has ended.
    NotificationsEnded,
    /// The watched file's modification time, in nanoseconds since the Unix
    /// epoch; `None` when the file does not exist.
    Metadata(Option<u128>),
    /// The file's full content; `None` when the read failed.
    Content(Option<String>),
    /// The payload reached the client.
    Delivered,
    /// The client's connection is closed.
    PeerClosed,
}

/// What the loop asks the outside world to do next.
#[derive(Clone, Debug, PartialEq, Eq)]
pub enum Action {
    /// Wait for the next notification.
    AwaitNotification,
    /// Look up the watched file's modification time.
    ReadMetadata,
    /// Read the watched file's content.
    ReadContent,
    /// Send this markup to the client as one text frame.
    Send { payload: String },
    /// Release the watch and end the loop.
    Stop { reason: Termination },
}

/// One connection's watch: the watermark (modification time of the last
/// payload delivered, or the baseline taken at start), the count of
/// consecutive notification errors, and the phase.
#[derive(Clone, Copy, Debug, PartialEq, Eq)]
pub struct WatchSupervisor {
    pub watermark: Option<u128>,
    pub failures: u64,
    pub phase: Phase,
}

/// The inputs that a phase waits for. A terminated loop takes any input.
pub open spec fn accepts(phase: Phase, input: Input) -> bool {
    match phase {
        Phase::Waiting => input is Notified || input is NotificationsEnded,
        Phase::Checking => input is Metadata,
        Phase::Reading { .. } => input is Content,
        Phase::Sending { .. } => input is Delivered || input is PeerClosed,
        Phase::Terminated { .. } => true,
    }
}

/// `post` and `act` are a permitted outcome of feeding `input` to `pre`.
/// Non-empty content read for a significant change is sent as exactly its
/// rendering; empty content and failed reads send nothing and leave the
/// watermark where it was, so the next change retries.
pub open spec fn step_allowed(pre: WatchSupervisor, input: Input, post: WatchSupervisor, act: Action) -> bool {
    let idle = WatchSupervisor { phase: Phase::Waiting, ..pre };
    match pre.phase {
        Phase::Terminated { reason } => post == pre && act == (Action::Stop { reason }),
        Phase::Waiting => match input {
            Input::Notified(Notification::Changed) => post == (WatchSupervisor {
                failures: 0,
                phase: Phase::Checking,
                ..pre
            }) && act == Action::ReadMetadata,
            Input::Notified(Notification::Failed) => if pre.failures + 1 >= MAX_NOTIFY_FAILURES {
                post == (WatchSupervisor {
                    phase: Phase::Terminated { reason: Termination::NotificationSourceFailed },
                    ..pre
                }) && act == (Action::Stop { reason: Termination::NotificationSourceFailed })
            } else {
                post == (WatchSupervisor { failures: (pre.failures + 1) as u64, ..pre })
                    && act == Action::AwaitNotification
            },
            Input::NotificationsEnded => post == (WatchSupervisor {
                phase: Phase::Terminated { reason: Termination::NotificationsEnded },
                ..pre
            }) && act == (Action::Stop { reason: Termination::NotificationsEnded }),
            _ => false,
        },
        Phase::Checking => match input {
            Input::Metadata(modified) => if significant(modified, pre.watermark) {
                post == (WatchSupervisor {
                    phase: Phase::Reading { stamp: modified->Some_0 },
                    ..pre
                }) && act == Action::ReadContent
            } else {
                post == idle && act == Action::AwaitNotification
            },
            _ => false,
        },
        Phase::Reading { stamp } => match input {
            Input::Content(Some(text)) if text@.len() > 0 => {
                post == (WatchSupervisor { phase: Phase::Sending { stamp }, ..pre })
                    && (act matches Action::Send { payload } && payload@ == html_of(text@))
            },
            Input::Content(_) => post == idle && act == Action::AwaitNotification,
            _ => false,
        },
        Phase::Sending { stamp } => match input {
            Input::Delivered => post == (WatchSupervisor {
                watermark: Some(stamp),
                phase: Phase::Waiting,
                ..pre
            }) && act == Action::AwaitNotification,
            Input::PeerClosed => post == (WatchSupervisor {
                phase: Phase::Terminated { reason: Termination::PeerClosed },
                ..pre
            }) && act == (Action::Stop { reason: Termination::PeerClosed }),
            _ => false,
        },
    }
}

impl WatchSupervisor {
    /// Starts watching. `baseline` is the file's modification time when the
    /// connection opened, `None` when the file did not exist yet: then the
    /// first time it is seen counts as a change.
    pub fn new(baseline: Option<u128>) -> (r: WatchSupervisor)
        ensures
            r.watermark == baseline,
            r.failures == 0,
            r.phase == Phase::Waiting,
    {
        WatchSupervisor { watermark: baseline, failures: 0, phase: Phase::Waiting }
    }

    /// The loop has ended.
    pub fn is_terminated(&self) -> (r: bool)
        ensures
            r == (self.phase is Terminated),
    {
        match self.phase {
            Phase::Terminated { .. } => true,
            _ => false,
        }
    }

    /// The current phase waits for `input`.
    pub fn accepts(&self, input: &Input) -> (r: bool)
        ensures
            r == accepts(self.phase, *input),
    {
        match self.phase {
            Phase::Waiting => match input {
                Input::Notified(_) | Input::NotificationsEnded => true,
                _ => false,
            },
            Phase::Checking => match input {
                Input::Metadata(_) => true,
                _ => false,
            },
            Phase::Reading { .. } => match input {
                Input::Content(_) => true,
                _ => false,
            },
            Phase::Sending { .. } => match input {
                Input::Delivered | Input::PeerClosed => true,
                _ => false,
            },
            Phase::Terminated { .. } => true,
        }
    }

    /// Feeds one input to the loop and returns what to do next.
    pub fn step(&mut self, input: Input) -> (act: Action)
        requires
            accepts(old(self).phase, input),
        ensures
            step_allowed(*old(self), input, *final(self), act),
    {
        let idle = WatchSupervisor { phase: Phase::Waiting, ..*self };
        match self.phase {
            Phase::Terminated { reason } => Action::Stop { reason },
            Phase::Waiting => match input {
                Input::Notified(Notification::Changed) => {
                    self.failures = 0;
                    self.phase = Phase::Checking;
                    Action::ReadMetadata
                },
                Input::Notified(Notification::Failed) => {
                    if self.failures >= MAX_NOTIFY_FAILURES - 1 {
                        self.phase = Phase::Terminated {
                            reason: Termination::NotificationSourceFailed,
                        };
                        Action::Stop { reason: Termination::NotificationSourceFailed }
                    } else {
                        self.failures = self.failures + 1;
                        Action::AwaitNotification
                    }
                },
                _ => {
                    self.phase = Phase::Terminated { reason: Termination::NotificationsEnded };
                    Action::Stop { reason: Termination::NotificationsEnded }
                },
            },
            Phase::Checking => match input {
                Input::Metadata(modified) => {
                    if is_significant(modified, self.watermark) {
                        self.phase = Phase::Reading { stamp: modified.unwrap() };
                        Action::ReadContent
                    } else {
                        *self = idle;
                        Action::AwaitNotification
                    }
                },
                _ => Action::AwaitNotification,
            },
            Phase::Reading { stamp } => match input {
                Input::Content(Some(text)) => {
                    if text.as_str().is_empty() {
                        *self = idle;
                        Action::AwaitNotification
                    } else {
                        self.phase = Phase::Sending { stamp };
                        Action::Send { payload: mark_cmrk(text.as_str()) }
                    }
                },
                _ => {
                    *self = idle;
                    Action::AwaitNotification
                },
            },
            Phase::Sending { stamp } => match input {
                Input::Delivered => {
                    self.watermark = Some(stamp);
                    self.phase = Phase::Waiting;
                    Action::AwaitNotification
                },
                _ => {
                    self.phase = Phase::Terminated { reason: Termination::PeerClosed };
                    Action::Stop { reason: Termination::PeerClosed }
                },
            },
        }
    }
}

} // verus!
