//! The reconnection supervisor: a state machine that drives session
//! establishment and the update monitor in a loop, applies exponential
//! backoff to transient failures, propagates fatal ones, and shuts down
//! cooperatively. The embedding process performs each returned action
//! (connect, run the monitor, sleep, clean up) and reports the outcome
//! back as the next event; every decision in between is made here.

use vstd::prelude::*;
use crate::backoff::{RetryState, BASE_DELAY_SECS};
use crate::classify::{is_disconnection_error, is_transient_error_text};

verus! {

/// The supervisor's states.
#[derive(Debug, Clone, Copy, PartialEq, Eq, Structural)]
pub enum SupervisorState {
    /// Not started yet.
    Idle,
    /// A session is being established.
    Connecting,
    /// The update monitor runs on a live session.
    Monitoring,
    /// Waiting out the backoff delay after a transient failure.
    Retrying,
    /// Shutdown was observed with a live session; cleanup is running.
    ShuttingDown,
    /// Final state: nothing more will be done.
    Terminated,
}

/// What the embedding process reports back to the supervisor.
#[derive(Debug)]
pub enum SupervisorEvent {
    /// Ready for the next step: loop start, or cleanup finished.
    Tick,
    /// The session establisher returned a live session.
    Connected,
    /// The session establisher failed, with the error's description.
    ConnectFailed(String),
    /// The update monitor returned, with the terminal error's
    /// description; the notification stream ending counts as one.
    MonitorFailed(String),
    /// The backoff sleep finished (or was cut short by shutdown).
    SleepElapsed,
}

/// What the embedding process must do next.
#[derive(Debug)]
pub enum SupervisorAction {
    /// Establish a session.
    Connect,
    /// Run the update monitor on the session just established.
    RunMonitor,
    /// Sleep this many seconds, watching the shutdown flag meanwhile.
    Sleep(u64),
    /// Stop the remote client, best effort, over its own connection.
    CleanupSession,
    /// Final teardown: set the liveness gauge down and exit cleanly.
    AnnounceDown,
    /// Final teardown after a fatal error: set the liveness gauge down
    /// and propagate the description.
    Fail(String),
    /// Nothing to do (already terminated, or an event that does not
    /// belong to the current state).
    NoOp,
}

/// The supervisor: its state, the retry bookkeeping, and what it has
/// last instructed the sink to show on the liveness gauge.
#[derive(Debug)]
pub struct Supervisor {
    pub state: SupervisorState,
    pub retry: RetryState,
    pub up: bool,
}

/// The transition function. The shutdown flag is sampled at every step;
/// once it is set, no step starts a new connection, monitor run or
/// sleep: states with a live session move to cleanup, all others
/// terminate at once.
pub open spec fn spec_step(s: Supervisor, ev: SupervisorEvent, shutdown: bool) -> (
    Supervisor,
    SupervisorAction,
) {
    match s.state {
        SupervisorState::Terminated => (s, SupervisorAction::NoOp),
        SupervisorState::Idle => {
            if shutdown {
                (
                    Supervisor { state: SupervisorState::Terminated, up: false, ..s },
                    SupervisorAction::AnnounceDown,
                )
            } else {
                match ev {
                    SupervisorEvent::Tick => (
                        Supervisor { state: SupervisorState::Connecting, ..s },
                        SupervisorAction::Connect,
                    ),
                    _ => (s, SupervisorAction::NoOp),
                }
            }
        },
        SupervisorState::Connecting => {
            match ev {
                SupervisorEvent::Connected => {
                    if shutdown {
                        (
                            Supervisor { state: SupervisorState::ShuttingDown, ..s },
                            SupervisorAction::CleanupSession,
                        )
                    } else {
                        (
                            Supervisor {
                                state: SupervisorState::Monitoring,
                                retry: RetryState { attempt: 0, delay_secs: BASE_DELAY_SECS },
                                ..s
                            },
                            SupervisorAction::RunMonitor,
                        )
                    }
                },
                SupervisorEvent::ConnectFailed(e) => {
                    if shutdown {
                        (
                            Supervisor { state: SupervisorState::Terminated, up: false, ..s },
                            SupervisorAction::AnnounceDown,
                        )
                    } else if is_transient_error_text(e@) {
                        (
                            Supervisor { state: SupervisorState::Retrying, ..s },
                            SupervisorAction::Sleep(s.retry.delay_secs),
                        )
                    } else {
                        (
                            Supervisor { state: SupervisorState::Terminated, up: false, ..s },
                            SupervisorAction::Fail(e),
                        )
                    }
                },
                _ => {
                    if shutdown {
                        (
                            Supervisor { state: SupervisorState::Terminated, up: false, ..s },
                            SupervisorAction::AnnounceDown,
                        )
                    } else {
                        (s, SupervisorAction::NoOp)
                    }
                },
            }
        },
        SupervisorState::Monitoring => {
            if shutdown {
                (
                    Supervisor { state: SupervisorState::ShuttingDown, ..s },
                    SupervisorAction::CleanupSession,
                )
            } else {
                match ev {
                    SupervisorEvent::MonitorFailed(e) => {
                        if is_transient_error_text(e@) {
                            (
                                Supervisor { state: SupervisorState::Retrying, ..s },
                                SupervisorAction::Sleep(s.retry.delay_secs),
                            )
                        } else {
                            (
                                Supervisor { state: SupervisorState::Terminated, up: false, ..s },
                                SupervisorAction::Fail(e),
                            )
                        }
                    },
                    _ => (s, SupervisorAction::NoOp),
                }
            }
        },
        SupervisorState::Retrying => {
            if shutdown {
                (
                    Supervisor { state: SupervisorState::Terminated, up: false, ..s },
                    SupervisorAction::AnnounceDown,
                )
            } else {
                match ev {
                    SupervisorEvent::SleepElapsed => (
                        Supervisor {
                            state: SupervisorState::Connecting,
                            retry: RetryState {
                                attempt: if s.retry.attempt < u32::MAX {
                                    (s.retry.attempt + 1) as u32
                                } else {
                                    s.retry.attempt
                                },
                                delay_secs: crate::backoff::spec_delay(
                                    if s.retry.attempt < u32::MAX {
                                        (s.retry.attempt + 1) as nat
                                    } else {
                                        s.retry.attempt as nat
                                    },
                                ) as u64,
                            },
                            ..s
                        },
                        SupervisorAction::Connect,
                    ),
                    _ => (s, SupervisorAction::NoOp),
                }
            }
        },
        SupervisorState::ShuttingDown => (
            Supervisor { state: SupervisorState::Terminated, up: false, ..s },
            SupervisorAction::AnnounceDown,
        ),
    }
}

/// What always holds of a supervisor: the retry delay matches the
/// failure count; the liveness gauge is up exactly while not terminated
/// (so "up" and "shutdown complete" never show together); and while the
/// monitor runs the failure count is zero, because every successful
/// establishment reset it.
pub open spec fn spec_invariant(s: Supervisor) -> bool {
    &&& s.retry.well_formed()
    &&& (s.up <==> !(s.state is Terminated))
    &&& (s.state is Monitoring ==> s.retry.attempt == 0)
}

impl Supervisor {
    /// A supervisor about to start its loop: the liveness gauge has been
    /// announced up, no failures counted.
    pub fn new() -> (r: Supervisor)
        ensures
            r.state is Idle,
            r.retry.attempt == 0,
            r.up,
            spec_invariant(r),
    {
        Supervisor { state: SupervisorState::Idle, retry: RetryState::new(), up: true }
    }

    /// Performs one transition: consumes the event reported by the
    /// embedding process and the sampled shutdown flag, and returns the
    /// action to perform next.
    pub fn step(&mut self, ev: SupervisorEvent, shutdown: bool) -> (a: SupervisorAction)
        ensures
            (*final(self), a) == spec_step(*old(self), ev, shutdown),
    {
        match self.state {
            SupervisorState::Terminated => SupervisorAction::NoOp,
            SupervisorState::Idle => {
                if shutdown {
                    self.state = SupervisorState::Terminated;
                    self.up = false;
                    SupervisorAction::AnnounceDown
                } else {
                    match ev {
                        SupervisorEvent::Tick => {
                            self.state = SupervisorState::Connecting;
                            SupervisorAction::Connect
                        },
                        _ => SupervisorAction::NoOp,
                    }
                }
            },
            SupervisorState::Connecting => {
                match ev {
                    SupervisorEvent::Connected => {
                        if shutdown {
                            self.state = SupervisorState::ShuttingDown;
                            SupervisorAction::CleanupSession
                        } else {
                            self.state = SupervisorState::Monitoring;
                            self.retry.reset();
                            SupervisorAction::RunMonitor
                        }
                    },
                    SupervisorEvent::ConnectFailed(e) => {
                        if shutdown {
                            self.state = SupervisorState::Terminated;
                            self.up = false;
                            SupervisorAction::AnnounceDown
                        } else if is_disconnection_error(e.as_str()) {
                            self.state = SupervisorState::Retrying;
                            SupervisorAction::Sleep(self.retry.delay_secs)
                        } else {
                            self.state = SupervisorState::Terminated;
                            self.up = false;
                            SupervisorAction::Fail(e)
                        }
                    },
                    _ => {
                        if shutdown {
                            self.state = SupervisorState::Terminated;
                            self.up = false;
                            SupervisorAction::AnnounceDown
                        } else {
                            SupervisorAction::NoOp
                        }
                    },
                }
            },
            SupervisorState::Monitoring => {
                if shutdown {
                    self.state = SupervisorState::ShuttingDown;
                    SupervisorAction::CleanupSession
                } else {
                    match ev {
                        SupervisorEvent::MonitorFailed(e) => {
                            if is_disconnection_error(e.as_str()) {
                                self.state = SupervisorState::Retrying;
                                SupervisorAction::Sleep(self.retry.delay_secs)
                            } else {
                                self.state = SupervisorState::Terminated;
                                self.up = false;
                                SupervisorAction::Fail(e)
                            }
                        },
                        _ => SupervisorAction::NoOp,
                    }
                }
            },
            SupervisorState::Retrying => {
                if shutdown {
                    self.state = SupervisorState::Terminated;
                    self.up = false;
                    SupervisorAction::AnnounceDown
                } else {
                    match ev {
                        SupervisorEvent::SleepElapsed => {
                            self.state = SupervisorState::Connecting;
                            self.retry.advance();
                            SupervisorAction::Connect
                        },
                        _ => SupervisorAction::NoOp,
                    }
                }
            },
            SupervisorState::ShuttingDown => {
                self.state = SupervisorState::Terminated;
                self.up = false;
                SupervisorAction::AnnounceDown
            },
        }
    }
}

/// Every step preserves the supervisor invariant.
pub proof fn lemma_step_preserves_invariant(s: Supervisor, ev: SupervisorEvent, shutdown: bool)
    requires
        spec_invariant(s),
    ensures
        spec_invariant(spec_step(s, ev, shutdown).0),
{
}

/// A successful establishment resets the failure count to zero, no
/// matter how many transient failures came before.
pub proof fn lemma_success_resets_retry(s: Supervisor)
    requires
        s.state is Connecting,
    ensures
        spec_step(s, SupervisorEvent::Connected, false).0.retry.attempt == 0,
{
}

/// The supervisor after a whole sequence of events, each paired with
/// the shutdown flag as sampled at that step.
pub open spec fn spec_run(s: Supervisor, evs: Seq<(SupervisorEvent, bool)>) -> Supervisor
    decreases evs.len(),
{
    if evs.len() == 0 {
        s
    } else {
        spec_run(spec_step(s, evs[0].0, evs[0].1).0, evs.skip(1))
    }
}

/// The invariant holds along every run. In particular, however many
/// transient failures a run contains, whenever it ends with the monitor
/// running the failure count is back at zero.
pub proof fn lemma_run_preserves_invariant(s: Supervisor, evs: Seq<(SupervisorEvent, bool)>)
    requires
        spec_invariant(s),
    ensures
        spec_invariant(spec_run(s, evs)),
    decreases evs.len(),
{
    if evs.len() > 0 {
        lemma_step_preserves_invariant(s, evs[0].0, evs[0].1);
        lemma_run_preserves_invariant(spec_step(s, evs[0].0, evs[0].1).0, evs.skip(1));
    }
}

/// Once the shutdown flag is set, a step never starts connecting,
/// monitoring or sleeping; it lands in ShuttingDown (cleanup of a live
/// session) or Terminated, and whatever happens next it is Terminated
/// one step later.
pub proof fn lemma_shutdown_reaches_terminated(s: Supervisor, ev: SupervisorEvent)
    ensures
        !(spec_step(s, ev, true).1 is Connect),
        !(spec_step(s, ev, true).1 is RunMonitor),
        !(spec_step(s, ev, true).1 is Sleep),
        spec_step(s, ev, true).0.state is ShuttingDown || spec_step(s, ev, true).0.state
            is Terminated,
        forall|ev2: SupervisorEvent|
            spec_step(#[trigger] spec_step(s, ev, true).0, ev2, true).0.state is Terminated,
{
}

} // verus!
