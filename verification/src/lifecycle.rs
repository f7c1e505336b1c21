//! The service lifecycle controller.
//!
//! A running service instance lives between two concurrent contexts: the OS
//! service dispatcher, which delivers control events to a callback, and a
//! worker thread hosting the periodic scheduler.  The controller owns the
//! status reported to the Service Control Manager and the root cancellation
//! signal that bridges the two contexts.  The surrounding binary registers
//! the callback, spawns and joins the worker, and pushes each returned
//! status report to the OS; every decision is made here.

use vstd::prelude::*;

verus! {

/// The controller failed to bring up the async runtime for the worker.
pub const EXIT_CODE_RUNTIME_INIT: u32 = 2;

/// The worker thread ended in a panic, caught at the join boundary.
pub const EXIT_CODE_WORKER_PANIC: u32 = 1;

/// Observable state of a service as the Service Control Manager keeps it.
#[derive(Clone, Copy, PartialEq, Eq, Structural, Debug)]
pub enum ServiceState {
    Stopped,
    StartPending,
    StopPending,
    Running,
    ContinuePending,
    PausePending,
    Paused,
}

/// Exit code carried in a status report: an OS code or a service-specific
/// one.
#[derive(Clone, Copy, PartialEq, Eq, Structural, Debug)]
pub enum ExitCode {
    Win32(u32),
    ServiceSpecific(u32),
}

/// One-way status report pushed to the Service Control Manager; never read
/// back within the process.
#[derive(Clone, Copy, PartialEq, Eq, Structural, Debug)]
pub struct ServiceStatusReport {
    /// The service runs in its own process.
    pub own_process: bool,
    pub current_state: ServiceState,
    /// Whether the service accepts the stop control.
    pub accepts_stop: bool,
    pub exit_code: ExitCode,
    pub checkpoint: u32,
    pub wait_hint_ms: u64,
}

impl ServiceStatusReport {
    /// The report for a healthy running service: accepts stop, success exit
    /// code.
    pub fn running() -> (r: ServiceStatusReport)
        ensures
            r == (ServiceStatusReport {
                own_process: true,
                current_state: ServiceState::Running,
                accepts_stop: true,
                exit_code: ExitCode::Win32(0),
                checkpoint: 0,
                wait_hint_ms: 0,
            }),
    {
        ServiceStatusReport {
            own_process: true,
            current_state: ServiceState::Running,
            accepts_stop: true,
            exit_code: ExitCode::Win32(0),
            checkpoint: 0,
            wait_hint_ms: 0,
        }
    }

    /// The report for a cleanly stopped service: accepts no controls,
    /// success exit code.
    pub fn stopped() -> (r: ServiceStatusReport)
        ensures
            r == (ServiceStatusReport {
                current_state: ServiceState::Stopped,
                accepts_stop: false,
                ..Self::running_spec()
            }),
    {
        ServiceStatusReport {
            current_state: ServiceState::Stopped,
            accepts_stop: false,
            ..Self::running()
        }
    }

    /// The report for a service stopped by a failure, carrying the
    /// service-specific exit code.
    pub fn stopped_with_error(code: u32) -> (r: ServiceStatusReport)
        ensures
            r == (ServiceStatusReport {
                exit_code: ExitCode::ServiceSpecific(code),
                ..Self::stopped_spec()
            }),
    {
        ServiceStatusReport { exit_code: ExitCode::ServiceSpecific(code), ..Self::stopped() }
    }

    /// The running report, for use in contracts.
    pub open spec fn running_spec() -> ServiceStatusReport {
        ServiceStatusReport {
            own_process: true,
            current_state: ServiceState::Running,
            accepts_stop: true,
            exit_code: ExitCode::Win32(0),
            checkpoint: 0,
            wait_hint_ms: 0,
        }
    }

    /// The stopped report, for use in contracts.
    pub open spec fn stopped_spec() -> ServiceStatusReport {
        ServiceStatusReport {
            current_state: ServiceState::Stopped,
            accepts_stop: false,
            ..Self::running_spec()
        }
    }

    /// The stopped-with-error report, for use in contracts.
    pub open spec fn stopped_with_error_spec(code: u32) -> ServiceStatusReport {
        ServiceStatusReport { exit_code: ExitCode::ServiceSpecific(code), ..Self::stopped_spec() }
    }
}

/// The root cancellation signal: a write-once broadcast flag.  Derived child
/// signals share it, so an observation by any child reads this flag; once
/// set it is never unset for the life of the process.
#[derive(Clone, Copy, PartialEq, Eq, Structural, Debug)]
pub struct CancelSignal {
    pub cancelled: bool,
}

impl CancelSignal {
    pub fn new() -> (r: CancelSignal)
        ensures
            !r.cancelled,
    {
        CancelSignal { cancelled: false }
    }

    /// Set the signal.  Setting is irreversible: no method of this type
    /// clears the flag.
    pub fn cancel(&mut self)
        ensures
            final(self).cancelled,
    {
        self.cancelled = true;
    }

    /// What any signal derived from this root observes.
    pub fn child_observes(&self) -> (r: bool)
        ensures
            r == self.cancelled,
    {
        self.cancelled
    }
}

/// Phase of the lifecycle controller.
#[derive(Clone, Copy, PartialEq, Eq, Structural, Debug)]
pub enum LifecyclePhase {
    /// Registering the control callback with the OS dispatcher.
    Starting,
    /// Registered and reported running; the worker drives the scheduler.
    Running,
    /// A stop control arrived; waiting for the worker to wind down.
    StopPending,
    /// Terminal: worker joined cleanly.
    Stopped,
    /// Terminal: stopped after a failure, with a service-specific code.
    StoppedWithError(u32),
}

/// Control events delivered by the OS dispatcher.
#[derive(Clone, Copy, PartialEq, Eq, Structural, Debug)]
pub enum ControlEvent {
    /// Report current status; no state change.
    Interrogate,
    /// Shut the service down.
    Stop,
    /// Any control this service does not implement.
    Other,
}

/// Acknowledgement returned to the OS dispatcher for a control event.
#[derive(Clone, Copy, PartialEq, Eq, Structural, Debug)]
pub enum HandlerAck {
    NoError,
    NotImplemented,
}

/// The lifecycle controller: the one status owner and the root of the
/// cancellation signal tree.
#[derive(Clone, Copy, PartialEq, Eq, Structural, Debug)]
pub struct Controller {
    pub phase: LifecyclePhase,
    pub signal: CancelSignal,
}

/// The controller after one control event: `Interrogate` and unimplemented
/// controls change nothing; `Stop` sets the cancellation signal and moves a
/// running controller to `StopPending`.
pub open spec fn step_control(c: Controller, ev: ControlEvent) -> Controller {
    match ev {
        ControlEvent::Stop => Controller {
            phase: if c.phase == LifecyclePhase::Running {
                LifecyclePhase::StopPending
            } else {
                c.phase
            },
            signal: CancelSignal { cancelled: true },
        },
        _ => c,
    }
}

/// The acknowledgement for one control event.
pub open spec fn control_ack(ev: ControlEvent) -> HandlerAck {
    match ev {
        ControlEvent::Other => HandlerAck::NotImplemented,
        _ => HandlerAck::NoError,
    }
}

/// The controller after the worker thread was joined.
pub open spec fn step_worker_join(c: Controller, panicked: bool) -> Controller {
    Controller {
        phase: if panicked {
            LifecyclePhase::StoppedWithError(EXIT_CODE_WORKER_PANIC)
        } else {
            LifecyclePhase::Stopped
        },
        signal: c.signal,
    }
}

/// The controller folded over a sequence of control events.
pub open spec fn run_events(c: Controller, evs: Seq<ControlEvent>) -> Controller
    decreases evs.len(),
{
    if evs.len() == 0 {
        c
    } else {
        run_events(step_control(c, evs[0]), evs.drop_first())
    }
}

impl Controller {
    /// A fresh controller: about to register with the OS dispatcher, signal
    /// unset.
    pub fn new() -> (r: Controller)
        ensures
            r.phase == LifecyclePhase::Starting,
            !r.signal.cancelled,
    {
        Controller { phase: LifecyclePhase::Starting, signal: CancelSignal::new() }
    }

    /// Registration with the OS dispatcher succeeded: report running.
    /// Registration failure is fatal and handled by the caller — the
    /// controller is dropped and the process exits without a report.
    pub fn on_registered(&mut self) -> (report: ServiceStatusReport)
        requires
            old(self).phase == LifecyclePhase::Starting,
        ensures
            final(self).phase == LifecyclePhase::Running,
            final(self).signal == old(self).signal,
            report == ServiceStatusReport::running_spec(),
    {
        self.phase = LifecyclePhase::Running;
        ServiceStatusReport::running()
    }

    /// Handle one OS control event on the dispatcher thread.
    pub fn handle_control(&mut self, ev: ControlEvent) -> (ack: HandlerAck)
        ensures
            *final(self) == step_control(*old(self), ev),
            ack == control_ack(ev),
    {
        match ev {
            ControlEvent::Interrogate => HandlerAck::NoError,
            ControlEvent::Stop => {
                self.signal.cancel();
                if self.phase == LifecyclePhase::Running {
                    self.phase = LifecyclePhase::StopPending;
                }
                HandlerAck::NoError
            },
            ControlEvent::Other => HandlerAck::NotImplemented,
        }
    }

    /// The async runtime could not be brought up: terminal, reported with
    /// the runtime-init exit code, without the worker ever starting.
    pub fn on_runtime_init_failed(&mut self) -> (report: ServiceStatusReport)
        requires
            old(self).phase == LifecyclePhase::Starting || old(self).phase
                == LifecyclePhase::Running,
        ensures
            final(self).phase == LifecyclePhase::StoppedWithError(EXIT_CODE_RUNTIME_INIT),
            final(self).signal == old(self).signal,
            report == ServiceStatusReport::stopped_with_error_spec(EXIT_CODE_RUNTIME_INIT),
    {
        self.phase = LifecyclePhase::StoppedWithError(EXIT_CODE_RUNTIME_INIT);
        ServiceStatusReport::stopped_with_error(EXIT_CODE_RUNTIME_INIT)
    }

    /// The worker thread was joined.  A clean join ends in `Stopped` with a
    /// success report; a panic propagated from the thread ends in
    /// `StoppedWithError` with the worker-panic exit code.  Either way a
    /// final report is produced for the caller to push.
    pub fn on_worker_joined(&mut self, panicked: bool) -> (report: ServiceStatusReport)
        requires
            old(self).phase == LifecyclePhase::Running || old(self).phase
                == LifecyclePhase::StopPending,
        ensures
            *final(self) == step_worker_join(*old(self), panicked),
            !panicked ==> report == ServiceStatusReport::stopped_spec(),
            panicked ==> report == ServiceStatusReport::stopped_with_error_spec(
                EXIT_CODE_WORKER_PANIC,
            ),
    {
        if panicked {
            self.phase = LifecyclePhase::StoppedWithError(EXIT_CODE_WORKER_PANIC);
            ServiceStatusReport::stopped_with_error(EXIT_CODE_WORKER_PANIC)
        } else {
            self.phase = LifecyclePhase::Stopped;
            ServiceStatusReport::stopped()
        }
    }

    /// Whether the controller can take no further transition.
    pub open spec fn is_terminal(self) -> bool {
        self.phase == LifecyclePhase::Stopped || (self.phase matches LifecyclePhase::StoppedWithError(
            _,
        ))
    }
}

/// The cancellation signal is monotone under control events: once set it
/// stays set, whatever arrives.
pub proof fn lemma_signal_monotone(c: Controller, evs: Seq<ControlEvent>)
    ensures
        c.signal.cancelled ==> run_events(c, evs).signal.cancelled,
    decreases evs.len(),
{
    if evs.len() > 0 {
        lemma_signal_monotone(step_control(c, evs[0]), evs.drop_first());
    }
}

/// Law: for any control-event sequence of zero or more `Interrogate`
/// events followed by exactly one `Stop`, a running controller is left
/// untouched by every event before the `Stop` (so it observes `Running`
/// with the signal unset there), moves `Running -> StopPending` exactly
/// once, at the `Stop`, with the cancellation signal set — so every derived
/// child thereafter observes it set — and the subsequent clean worker join
/// moves it to `Stopped`.
pub proof fn lemma_interrogates_then_stop(c: Controller, evs: Seq<ControlEvent>)
    requires
        c.phase == LifecyclePhase::Running,
        !c.signal.cancelled,
        evs.len() >= 1,
        forall|i: int| 0 <= i < evs.len() - 1 ==> evs[i] == ControlEvent::Interrogate,
        evs.last() == ControlEvent::Stop,
    ensures
        forall|i: int| 0 <= i < evs.len() ==> #[trigger] run_events(c, evs.take(i)) == c,
        run_events(c, evs).phase == LifecyclePhase::StopPending,
        run_events(c, evs).signal.cancelled,
        step_worker_join(run_events(c, evs), false).phase == LifecyclePhase::Stopped,
        step_worker_join(run_events(c, evs), false).signal.cancelled,
    decreases evs.len(),
{
    assert forall|i: int| 0 <= i < evs.len() implies #[trigger] run_events(c, evs.take(i)) == c by {
        lemma_interrogates_fixpoint(c, evs, i);
    }
    lemma_run_events_snoc(c, evs.drop_last(), evs.last());
    assert(evs.drop_last().push(evs.last()) =~= evs);
    lemma_interrogates_fixpoint(c, evs, evs.len() - 1);
    assert(evs.take(evs.len() - 1) =~= evs.drop_last());
}

/// A prefix of `Interrogate` events leaves the controller exactly as it
/// was.
proof fn lemma_interrogates_fixpoint(c: Controller, evs: Seq<ControlEvent>, n: int)
    requires
        0 <= n < evs.len(),
        forall|i: int| 0 <= i < evs.len() - 1 ==> evs[i] == ControlEvent::Interrogate,
    ensures
        run_events(c, evs.take(n)) == c,
    decreases n,
{
    if n > 0 {
        lemma_run_events_snoc(c, evs.take(n).drop_last(), evs.take(n).last());
        assert(evs.take(n).drop_last() =~= evs.take(n - 1));
        assert(evs.take(n).drop_last().push(evs.take(n).last()) =~= evs.take(n));
        lemma_interrogates_fixpoint(c, evs, n - 1);
        assert(evs.take(n).last() == evs[n - 1]);
        assert(evs[n - 1] == ControlEvent::Interrogate);
    } else {
        assert(evs.take(0) =~= Seq::<ControlEvent>::empty());
    }
}

/// Running one more event at the end equals one more step.
pub proof fn lemma_run_events_snoc(c: Controller, evs: Seq<ControlEvent>, ev: ControlEvent)
    ensures
        run_events(c, evs.push(ev)) == step_control(run_events(c, evs), ev),
    decreases evs.len(),
{
    if evs.len() == 0 {
        assert(evs.push(ev)[0] == ev);
        assert(evs.push(ev).drop_first() =~= Seq::<ControlEvent>::empty());
        assert(run_events(c, evs.push(ev)) == run_events(
            step_control(c, ev),
            evs.push(ev).drop_first(),
        ));
    } else {
        assert(evs.push(ev)[0] == evs[0]);
        assert(evs.push(ev).drop_first() =~= evs.drop_first().push(ev));
        assert(run_events(c, evs.push(ev)) == run_events(
            step_control(c, evs[0]),
            evs.drop_first().push(ev),
        ));
        lemma_run_events_snoc(step_control(c, evs[0]), evs.drop_first(), ev);
    }
}

} // verus!
