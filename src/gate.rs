//! The readiness gate: the start-up state machine that waits for the
//! companion process and its control surface before the bridge may start.
//!
//! The machine never sleeps, prompts or probes by itself. Each step takes what
//! the caller observed and returns the next thing to do; the caller does it
//! (after its poll interval, where the action is a poll) and feeds back the
//! result.

use vstd::prelude::*;

verus! {

/// Default liveness timeout, in poll intervals.
pub const DEFAULT_COMPANION_POLLS: u32 = 1;

/// Default number of reachability probes before the control surface is
/// declared unreachable.
pub const DEFAULT_PROBE_ATTEMPTS: u32 = 10;

/// Fixed parameters of one gate run.
#[derive(Clone, Copy, Debug, PartialEq, Eq, Structural)]
pub struct GateConfig {
    /// Liveness timeout in poll intervals: after the first poll, this many
    /// more (one per interval) may fail; the next failure brings the start
    /// prompt.
    pub companion_polls: u32,
    /// Reachability probes before giving up.
    pub probe_attempts: u32,
    /// Whether this process was launched by the companion; only then may the
    /// user continue without the control surface.
    pub launched_by_companion: bool,
}

/// Where the machine stands.
#[derive(Clone, Copy, Debug, PartialEq, Eq, Structural)]
pub enum GateState {
    /// Polling the companion's liveness; `polls` failed so far this round.
    CheckingCompanion { polls: u32 },
    /// The start prompt is open; liveness polls go on.
    CompanionPrompt,
    /// Looking for the control-surface enablement marker.
    CheckingControlSurface,
    /// The enable prompt is open; marker checks go on. `create_attempted`
    /// once the user chose to enable.
    ControlPrompt { create_attempted: bool },
    /// Waiting for the companion to accept the close request.
    RestartClosing,
    /// Waiting out the grace period after the close request.
    RestartWaiting,
    /// Waiting for the companion to accept the reopen request.
    RestartOpening,
    /// Probing the control surface; `attempts` failed so far.
    ProbingControl { attempts: u32 },
    /// Everything is in place.
    Ready,
    /// The user chose to go on without the control surface.
    DegradedContinue,
    /// The user declined, or a prerequisite is missing: the process quits.
    Aborted,
    /// A terminal condition was reported; the machine waits for a manual
    /// restart and never finishes.
    Suspended,
}

/// The user's choice on the enable prompt.
#[derive(Clone, Copy, Debug, PartialEq, Eq, Structural)]
pub enum ControlChoice {
    Enable,
    ContinueWithout,
    Quit,
}

/// What the caller observed.
#[derive(Clone, Copy, Debug, PartialEq, Eq, Structural)]
pub enum GateEvent {
    /// Result of one liveness poll.
    CompanionPolled { running: bool },
    /// Answer to the start prompt.
    CompanionAnswer { start: bool },
    /// Result of one marker check.
    MarkerChecked { present: bool },
    /// Answer to the enable prompt.
    ControlAnswer { choice: ControlChoice },
    /// Whether writing the marker succeeded.
    MarkerCreated { ok: bool },
    /// Whether the close request could be sent.
    CloseRequested { ok: bool },
    /// The grace period is over.
    GraceElapsed,
    /// Whether the reopen request could be sent.
    OpenRequested { ok: bool },
    /// Result of one reachability probe.
    ProbeResult { reachable: bool },
}

/// Terminal conditions that are reported to the user.
#[derive(Clone, Copy, Debug, PartialEq, Eq, Structural)]
pub enum GateFailure {
    /// The companion's install directory was not found.
    CompanionNotFound,
    /// The enablement marker could not be written.
    MarkerNotCreated,
    /// The companion could not be restarted.
    RestartFailed,
    /// The marker is present but the control surface never answered.
    Unreachable,
}

/// What the caller does next.
#[derive(Clone, Copy, Debug, PartialEq, Eq, Structural)]
pub enum GateAction {
    /// Wait one interval, then poll liveness.
    PollCompanion,
    /// Push the "start companion now?" prompt.
    PushCompanionPrompt,
    /// Launch the companion, then poll liveness after an interval.
    LaunchCompanion,
    /// Check for the enablement marker (after an interval when repeating).
    CheckMarker,
    /// Push the enable prompt; "continue without" is offered only when
    /// `offer_continue`.
    PushControlPrompt { offer_continue: bool },
    /// Write the enablement marker.
    CreateMarker,
    /// Ask the companion to close.
    RequestClose,
    /// Wait the fixed grace period.
    WaitGrace,
    /// Ask the companion to open again.
    RequestOpen,
    /// Probe the control surface.
    Probe,
    /// Tell the user about a terminal condition.
    ReportFailure { failure: GateFailure },
    /// Wake the other loops to terminate.
    Quit,
    /// Start the bridge loop, without the control surface when `degraded`.
    Start { degraded: bool },
    /// Nothing to do until the next event.
    Wait,
}

/// The machine's first state and action: polling when the companion is
/// installed, otherwise a report and an abort.
pub open spec fn gate_start(companion_found: bool) -> (GateState, GateAction) {
    if companion_found {
        (GateState::CheckingCompanion { polls: 0 }, GateAction::PollCompanion)
    } else {
        (GateState::Aborted, GateAction::ReportFailure { failure: GateFailure::CompanionNotFound })
    }
}

/// What the caller observes next, when the last action asked for no
/// particular observation: liveness while waiting on the companion, the
/// marker while waiting on the control surface, nothing otherwise.
#[derive(Clone, Copy, Debug, PartialEq, Eq, Structural)]
pub enum Observation {
    Liveness,
    Marker,
    Nothing,
}

/// The observation that state `s` waits on.
pub open spec fn observation_of(s: GateState) -> Observation {
    match s {
        GateState::CheckingCompanion { .. } | GateState::CompanionPrompt => Observation::Liveness,
        GateState::CheckingControlSurface | GateState::ControlPrompt { .. } => Observation::Marker,
        _ => Observation::Nothing,
    }
}

/// The transition table.
pub open spec fn gate_next(cfg: GateConfig, s: GateState, e: GateEvent) -> (GateState, GateAction) {
    match (s, e) {
        (GateState::CheckingCompanion { polls }, GateEvent::CompanionPolled { running }) => {
            if running {
                (GateState::CheckingControlSurface, GateAction::CheckMarker)
            } else if polls >= cfg.companion_polls {
                (GateState::CompanionPrompt, GateAction::PushCompanionPrompt)
            } else {
                (GateState::CheckingCompanion { polls: (polls + 1) as u32 }, GateAction::PollCompanion)
            }
        },
        (GateState::CompanionPrompt, GateEvent::CompanionPolled { running }) => {
            if running {
                (GateState::CheckingControlSurface, GateAction::CheckMarker)
            } else {
                (GateState::CompanionPrompt, GateAction::PollCompanion)
            }
        },
        (GateState::CompanionPrompt, GateEvent::CompanionAnswer { start }) => {
            if start {
                (GateState::CheckingCompanion { polls: 0 }, GateAction::LaunchCompanion)
            } else {
                (GateState::Aborted, GateAction::Quit)
            }
        },
        (GateState::CheckingControlSurface, GateEvent::MarkerChecked { present }) => {
            if present {
                (GateState::ProbingControl { attempts: 0 }, GateAction::Probe)
            } else {
                (
                    GateState::ControlPrompt { create_attempted: false },
                    GateAction::PushControlPrompt { offer_continue: cfg.launched_by_companion },
                )
            }
        },
        (GateState::ControlPrompt { create_attempted }, GateEvent::MarkerChecked { present }) => {
            if !present {
                (s, GateAction::CheckMarker)
            } else if create_attempted {
                (GateState::RestartClosing, GateAction::RequestClose)
            } else {
                (GateState::ProbingControl { attempts: 0 }, GateAction::Probe)
            }
        },
        (GateState::ControlPrompt { create_attempted: _ }, GateEvent::ControlAnswer { choice }) => {
            match choice {
                ControlChoice::Enable => (
                    GateState::ControlPrompt { create_attempted: true },
                    GateAction::CreateMarker,
                ),
                ControlChoice::ContinueWithout => if cfg.launched_by_companion {
                    (GateState::DegradedContinue, GateAction::Start { degraded: true })
                } else {
                    (GateState::Aborted, GateAction::Quit)
                },
                ControlChoice::Quit => (GateState::Aborted, GateAction::Quit),
            }
        },
        (GateState::ControlPrompt { create_attempted: true }, GateEvent::MarkerCreated { ok }) => {
            if ok {
                (GateState::RestartClosing, GateAction::RequestClose)
            } else {
                (
                    GateState::Aborted,
                    GateAction::ReportFailure { failure: GateFailure::MarkerNotCreated },
                )
            }
        },
        (GateState::RestartClosing, GateEvent::CloseRequested { ok }) => {
            if ok {
                (GateState::RestartWaiting, GateAction::WaitGrace)
            } else {
                (
                    GateState::Suspended,
                    GateAction::ReportFailure { failure: GateFailure::RestartFailed },
                )
            }
        },
        (GateState::RestartWaiting, GateEvent::GraceElapsed) => {
            (GateState::RestartOpening, GateAction::RequestOpen)
        },
        (GateState::RestartOpening, GateEvent::OpenRequested { ok }) => {
            if ok {
                (GateState::CheckingControlSurface, GateAction::CheckMarker)
            } else {
                (
                    GateState::Suspended,
                    GateAction::ReportFailure { failure: GateFailure::RestartFailed },
                )
            }
        },
        (GateState::ProbingControl { attempts }, GateEvent::ProbeResult { reachable }) => {
            if reachable {
                (GateState::Ready, GateAction::Start { degraded: false })
            } else if attempts as int + 1 >= cfg.probe_attempts {
                (
                    GateState::Suspended,
                    GateAction::ReportFailure { failure: GateFailure::Unreachable },
                )
            } else {
                (GateState::ProbingControl { attempts: (attempts + 1) as u32 }, GateAction::Probe)
            }
        },
        _ => (s, GateAction::Wait),
    }
}

/// The machine fed `es` from `s`: the state reached and every action, in order.
pub open spec fn run_gate(cfg: GateConfig, s: GateState, es: Seq<GateEvent>) -> (
    GateState,
    Seq<GateAction>,
)
    decreases es.len(),
{
    if es.len() == 0 {
        (s, Seq::empty())
    } else {
        let prev = run_gate(cfg, s, es.drop_last());
        let next = gate_next(cfg, prev.0, es.last());
        (next.0, prev.1.push(next.1))
    }
}

/// `n` liveness polls that find the companion down.
pub open spec fn failed_polls(n: nat) -> Seq<GateEvent> {
    Seq::new(n, |i: int| GateEvent::CompanionPolled { running: false })
}

/// How many start prompts `acts` pushes.
pub open spec fn prompt_count(acts: Seq<GateAction>) -> nat
    decreases acts.len(),
{
    if acts.len() == 0 {
        0
    } else {
        prompt_count(acts.drop_last()) + if acts.last() == GateAction::PushCompanionPrompt {
            1nat
        } else {
            0nat
        }
    }
}

/// After `k` failed polls from the start: still polling with `k` misses
/// up to the timeout, then one prompt and the prompt state.
proof fn lemma_failed_polls(cfg: GateConfig, k: nat)
    ensures
        ({
            let out = run_gate(cfg, GateState::CheckingCompanion { polls: 0 }, failed_polls(k));
            if k > cfg.companion_polls {
                out.0 == GateState::CompanionPrompt && prompt_count(out.1) == 1
            } else {
                out.0 == GateState::CheckingCompanion { polls: k as u32 } && prompt_count(out.1) == 0
            }
        }),
    decreases k,
{
    if k > 0 {
        lemma_failed_polls(cfg, (k - 1) as nat);
        assert(failed_polls(k).drop_last() =~= failed_polls((k - 1) as nat));
        let out = run_gate(cfg, GateState::CheckingCompanion { polls: 0 }, failed_polls(k));
        assert(out.1.drop_last() =~= run_gate(
            cfg,
            GateState::CheckingCompanion { polls: 0 },
            failed_polls((k - 1) as nat),
        ).1);
    }
}

/// A liveness predicate that fails `n` times and then holds moves the machine
/// to the control-surface check exactly once: no earlier state is that
/// check, the poll after the `n` failures reaches it, and at most one start
/// prompt is pushed on the way, none when the failures stay within the
/// timeout.
pub proof fn lemma_liveness_gate(cfg: GateConfig, n: nat)
    ensures
        forall|k: nat|
            k <= n ==> (#[trigger] run_gate(
                cfg,
                GateState::CheckingCompanion { polls: 0 },
                failed_polls(k),
            )).0 != GateState::CheckingControlSurface,
        ({
            let out = run_gate(
                cfg,
                GateState::CheckingCompanion { polls: 0 },
                failed_polls(n).push(GateEvent::CompanionPolled { running: true }),
            );
            &&& out.0 == GateState::CheckingControlSurface
            &&& out.1.last() == GateAction::CheckMarker
            &&& prompt_count(out.1) <= 1
            &&& n <= cfg.companion_polls ==> prompt_count(out.1) == 0
        }),
{
    assert forall|k: nat|
        k <= n implies (#[trigger] run_gate(
        cfg,
        GateState::CheckingCompanion { polls: 0 },
        failed_polls(k),
    )).0 != GateState::CheckingControlSurface by {
        lemma_failed_polls(cfg, k);
    }
    lemma_failed_polls(cfg, n);
    let es = failed_polls(n).push(GateEvent::CompanionPolled { running: true });
    assert(es.drop_last() =~= failed_polls(n));
    let out = run_gate(cfg, GateState::CheckingCompanion { polls: 0 }, es);
    assert(out.1.drop_last() =~= run_gate(
        cfg,
        GateState::CheckingCompanion { polls: 0 },
        failed_polls(n),
    ).1);
}

/// The readiness gate of one start-up.
#[derive(Clone, Copy, Debug)]
pub struct ReadinessGate {
    pub config: GateConfig,
    pub state: GateState,
}

impl ReadinessGate {
    /// A gate with `config`; `companion_found` tells whether the companion's
    /// install directory exists. Returns the machine and its first action.
    pub fn start(config: GateConfig, companion_found: bool) -> (r: (ReadinessGate, GateAction))
        ensures
            r.0.config == config,
            (r.0.state, r.1) == gate_start(companion_found),
    {
        if companion_found {
            (
                ReadinessGate { config, state: GateState::CheckingCompanion { polls: 0 } },
                GateAction::PollCompanion,
            )
        } else {
            (
                ReadinessGate { config, state: GateState::Aborted },
                GateAction::ReportFailure { failure: GateFailure::CompanionNotFound },
            )
        }
    }

    /// The observation the current state waits on.
    pub fn observation(&self) -> (r: Observation)
        ensures
            r == observation_of(self.state),
    {
        match self.state {
            GateState::CheckingCompanion { .. } | GateState::CompanionPrompt => Observation::Liveness,
            GateState::CheckingControlSurface | GateState::ControlPrompt { .. } => Observation::Marker,
            _ => Observation::Nothing,
        }
    }

    /// Takes one observation and returns the next action.
    pub fn step(&mut self, event: GateEvent) -> (r: GateAction)
        ensures
            final(self).config == old(self).config,
            (final(self).state, r) == gate_next(old(self).config, old(self).state, event),
    {
        let cfg = self.config;
        let (next, action) = match (self.state, event) {
            (GateState::CheckingCompanion { polls }, GateEvent::CompanionPolled { running }) => {
                if running {
                    (GateState::CheckingControlSurface, GateAction::CheckMarker)
                } else if polls >= cfg.companion_polls {
                    (GateState::CompanionPrompt, GateAction::PushCompanionPrompt)
                } else {
                    (GateState::CheckingCompanion { polls: polls + 1 }, GateAction::PollCompanion)
                }
            },
            (GateState::CompanionPrompt, GateEvent::CompanionPolled { running }) => {
                if running {
                    (GateState::CheckingControlSurface, GateAction::CheckMarker)
                } else {
                    (GateState::CompanionPrompt, GateAction::PollCompanion)
                }
            },
            (GateState::CompanionPrompt, GateEvent::CompanionAnswer { start }) => {
                if start {
                    (GateState::CheckingCompanion { polls: 0 }, GateAction::LaunchCompanion)
                } else {
                    (GateState::Aborted, GateAction::Quit)
                }
            },
            (GateState::CheckingControlSurface, GateEvent::MarkerChecked { present }) => {
                if present {
                    (GateState::ProbingControl { attempts: 0 }, GateAction::Probe)
                } else {
                    (
                        GateState::ControlPrompt { create_attempted: false },
                        GateAction::PushControlPrompt { offer_continue: cfg.launched_by_companion },
                    )
                }
            },
            (GateState::ControlPrompt { create_attempted }, GateEvent::MarkerChecked { present }) => {
                if !present {
                    (self.state, GateAction::CheckMarker)
                } else if create_attempted {
                    (GateState::RestartClosing, GateAction::RequestClose)
                } else {
                    (GateState::ProbingControl { attempts: 0 }, GateAction::Probe)
                }
            },
            (GateState::ControlPrompt { create_attempted: _ }, GateEvent::ControlAnswer { choice }) => {
                match choice {
                    ControlChoice::Enable => (
                        GateState::ControlPrompt { create_attempted: true },
                        GateAction::CreateMarker,
                    ),
                    ControlChoice::ContinueWithout => if cfg.launched_by_companion {
                        (GateState::DegradedContinue, GateAction::Start { degraded: true })
                    } else {
                        (GateState::Aborted, GateAction::Quit)
                    },
                    ControlChoice::Quit => (GateState::Aborted, GateAction::Quit),
                }
            },
            (GateState::ControlPrompt { create_attempted: true }, GateEvent::MarkerCreated { ok }) => {
                if ok {
                    (GateState::RestartClosing, GateAction::RequestClose)
                } else {
                    (
                        GateState::Aborted,
                        GateAction::ReportFailure { failure: GateFailure::MarkerNotCreated },
                    )
                }
            },
            (GateState::RestartClosing, GateEvent::CloseRequested { ok }) => {
                if ok {
                    (GateState::RestartWaiting, GateAction::WaitGrace)
                } else {
                    (
                        GateState::Suspended,
                        GateAction::ReportFailure { failure: GateFailure::RestartFailed },
                    )
                }
            },
            (GateState::RestartWaiting, GateEvent::GraceElapsed) => {
                (GateState::RestartOpening, GateAction::RequestOpen)
            },
            (GateState::RestartOpening, GateEvent::OpenRequested { ok }) => {
                if ok {
                    (GateState::CheckingControlSurface, GateAction::CheckMarker)
                } else {
                    (
                        GateState::Suspended,
                        GateAction::ReportFailure { failure: GateFailure::RestartFailed },
                    )
                }
            },
            (GateState::ProbingControl { attempts }, GateEvent::ProbeResult { reachable }) => {
                if reachable {
                    (GateState::Ready, GateAction::Start { degraded: false })
                } else if attempts >= cfg.probe_attempts || cfg.probe_attempts - attempts <= 1 {
                    (
                        GateState::Suspended,
                        GateAction::ReportFailure { failure: GateFailure::Unreachable },
                    )
                } else {
                    (GateState::ProbingControl { attempts: attempts + 1 }, GateAction::Probe)
                }
            },
            _ => (self.state, GateAction::Wait),
        };
        self.state = next;
        action
    }
}

} // verus!
