use crate::signal::StopSignal;
use vstd::prelude::*;

verus! {

/// The user-defined control code that asks for a stop, like `Stop` itself.
pub const RESERVED_STOP_CODE: u32 = 130;

/// Exit code carried by a status report for a clean stop or a task that
/// ended on its own.
pub const EXIT_CLEAN: u32 = 0;

/// Exit code carried by a status report when the managed task failed.
pub const EXIT_FAILED: u32 = 1;

/// Process exit code after a clean shutdown.
pub const PROCESS_EXIT_OK: i32 = 0;

/// Process exit code after a fatal startup error.
pub const PROCESS_EXIT_STARTUP_FAILURE: i32 = 1;

/// A control notification delivered by the hosting platform.
#[derive(Clone, Copy, Debug, PartialEq, Eq, Structural)]
pub enum ControlEvent {
    /// A status query.
    Interrogate,
    /// A request to stop.
    Stop,
    /// A user-defined control code.
    UserEvent(u32),
    /// Any control this service does not handle.
    Unrecognized,
}

/// What the control handler answers the platform.
#[derive(Clone, Copy, Debug, PartialEq, Eq, Structural)]
pub enum HandlerResult {
    /// The control was handled.
    NoError,
    /// The control is explicitly declined.
    NotImplemented,
}

/// The lifecycle state reported to the hosting platform.
#[derive(Clone, Copy, Debug, PartialEq, Eq, Structural)]
pub enum ServiceState {
    Starting,
    Running,
    StopPending,
    Stopped,
}

/// One status report: the state, whether a stop control is accepted, and the
/// exit code.
#[derive(Clone, Copy, Debug, PartialEq, Eq, Structural)]
pub struct StatusReport {
    pub state: ServiceState,
    pub accepts_stop: bool,
    pub exit_code: u32,
}

/// How the managed task ended.
#[derive(Clone, Copy, Debug, PartialEq, Eq, Structural)]
pub enum TaskOutcome {
    Completed,
    Failed,
}

/// Where the controller stands in its lifecycle.
#[derive(Clone, Copy, Debug, PartialEq, Eq, Structural)]
pub enum Phase {
    /// The control handler is not registered yet.
    Init,
    /// The handler is registered; the managed task is binding its listener.
    Starting,
    /// Running was reported; the task races the stop signal.
    Running,
    /// Stopped was reported.
    Stopped,
    /// Registration failed: nothing was ever reported.
    Aborted,
}

/// An input to the controller, in the order it was observed.
#[derive(Clone, Copy, Debug, PartialEq, Eq, Structural)]
pub enum Event {
    /// The control handler's registration succeeded or failed.
    Registered(bool),
    /// The managed task's listener was bound, or binding failed.
    Bound(bool),
    /// The platform delivered a control notification.
    Control(ControlEvent),
    /// The managed task returned.
    TaskFinished(TaskOutcome),
}

/// The controller: its phase and its stop signal.
#[derive(Clone, Copy, Debug, PartialEq, Eq, Structural)]
pub struct Controller {
    pub phase: Phase,
    pub signal: StopSignal,
}

/// What one step hands back: the answer to a control notification, the
/// status reports to send in order, and the process exit code once the
/// lifecycle is over.
pub struct StepResult {
    pub reply: Option<HandlerResult>,
    pub reports: Vec<StatusReport>,
    pub exit: Option<i32>,
}

pub open spec fn is_stop_control(ce: ControlEvent) -> bool {
    match ce {
        ControlEvent::Stop => true,
        ControlEvent::UserEvent(code) => code == RESERVED_STOP_CODE,
        _ => false,
    }
}

pub open spec fn reply_spec(ce: ControlEvent) -> HandlerResult {
    match ce {
        ControlEvent::Interrogate => HandlerResult::NoError,
        _ => if is_stop_control(ce) {
            HandlerResult::NoError
        } else {
            HandlerResult::NotImplemented
        },
    }
}

pub open spec fn running_report() -> StatusReport {
    StatusReport { state: ServiceState::Running, accepts_stop: true, exit_code: EXIT_CLEAN }
}

pub open spec fn stopped_report(exit_code: u32) -> StatusReport {
    StatusReport { state: ServiceState::Stopped, accepts_stop: false, exit_code }
}

pub open spec fn outcome_exit_code(o: TaskOutcome) -> u32 {
    match o {
        TaskOutcome::Completed => EXIT_CLEAN,
        TaskOutcome::Failed => EXIT_FAILED,
    }
}

pub open spec fn is_terminal(p: Phase) -> bool {
    p == Phase::Stopped || p == Phase::Aborted
}

/// One step of the lifecycle: the next controller, the reply to a control
/// notification, the reports sent, and the process exit code if it ends here.
pub open spec fn step_spec(c: Controller, e: Event) -> (Controller, Option<HandlerResult>, Seq<
    StatusReport,
>, Option<i32>) {
    let fired = StopSignal { fired: true };
    match e {
        Event::Control(ce) => {
            let reply = Some(reply_spec(ce));
            if !is_stop_control(ce) || is_terminal(c.phase) {
                (c, reply, seq![], None)
            } else if c.phase == Phase::Running && !c.signal.fired {
                (
                    Controller { phase: Phase::Stopped, signal: fired },
                    reply,
                    seq![stopped_report(EXIT_CLEAN)],
                    Some(PROCESS_EXIT_OK),
                )
            } else {
                (Controller { phase: c.phase, signal: fired }, reply, seq![], None)
            }
        },
        Event::Registered(ok) => {
            if c.phase != Phase::Init {
                (c, None, seq![], None)
            } else if ok {
                (Controller { phase: Phase::Starting, signal: c.signal }, None, seq![], None)
            } else {
                (
                    Controller { phase: Phase::Aborted, signal: c.signal },
                    None,
                    seq![],
                    Some(PROCESS_EXIT_STARTUP_FAILURE),
                )
            }
        },
        Event::Bound(ok) => {
            if c.phase != Phase::Starting {
                (c, None, seq![], None)
            } else if !ok {
                (
                    Controller { phase: Phase::Stopped, signal: c.signal },
                    None,
                    seq![stopped_report(EXIT_FAILED)],
                    Some(PROCESS_EXIT_STARTUP_FAILURE),
                )
            } else if c.signal.fired {
                (
                    Controller { phase: Phase::Stopped, signal: c.signal },
                    None,
                    seq![running_report(), stopped_report(EXIT_CLEAN)],
                    Some(PROCESS_EXIT_OK),
                )
            } else {
                (
                    Controller { phase: Phase::Running, signal: c.signal },
                    None,
                    seq![running_report()],
                    None,
                )
            }
        },
        Event::TaskFinished(o) => {
            if c.phase != Phase::Running {
                (c, None, seq![], None)
            } else {
                (
                    Controller { phase: Phase::Stopped, signal: c.signal },
                    None,
                    seq![stopped_report(outcome_exit_code(o))],
                    Some(PROCESS_EXIT_OK),
                )
            }
        },
    }
}

/// Whether a stop control is a stop request: `Stop`, or the reserved
/// user-defined code.
pub fn is_stop_request(ce: ControlEvent) -> (r: bool)
    ensures
        r == is_stop_control(ce),
{
    match ce {
        ControlEvent::Stop => true,
        ControlEvent::UserEvent(code) => code == RESERVED_STOP_CODE,
        _ => false,
    }
}

/// The handler's answer to a control notification: handled for a status
/// query or a stop request, declined for anything else.
pub fn reply_for(ce: ControlEvent) -> (r: HandlerResult)
    ensures
        r == reply_spec(ce),
{
    match ce {
        ControlEvent::Interrogate => HandlerResult::NoError,
        _ => if is_stop_request(ce) {
            HandlerResult::NoError
        } else {
            HandlerResult::NotImplemented
        },
    }
}

fn stopped_report_exec(exit_code: u32) -> (r: StatusReport)
    ensures
        r == stopped_report(exit_code),
{
    StatusReport { state: ServiceState::Stopped, accepts_stop: false, exit_code }
}

fn running_report_exec() -> (r: StatusReport)
    ensures
        r == running_report(),
{
    StatusReport { state: ServiceState::Running, accepts_stop: true, exit_code: EXIT_CLEAN }
}

impl Controller {
    /// A controller before registration, with its stop signal not fired.
    pub fn new() -> (r: Controller)
        ensures
            r.phase == Phase::Init,
            !r.signal.fired,
    {
        Controller { phase: Phase::Init, signal: StopSignal::new() }
    }

    /// The controller's phase.
    pub fn phase(&self) -> (r: Phase)
        ensures
            r == self.phase,
    {
        self.phase
    }

    /// Whether the lifecycle is over: Stopped was reported, or startup was
    /// aborted.
    pub fn is_finished(&self) -> (r: bool)
        ensures
            r == is_terminal(self.phase),
    {
        match self.phase {
            Phase::Stopped | Phase::Aborted => true,
            _ => false,
        }
    }

    /// Takes one event and says what to answer, what to report and whether
    /// the process exits.
    pub fn step(&mut self, e: Event) -> (r: StepResult)
        ensures
            (*final(self), r.reply, r.reports@, r.exit) == step_spec(*old(self), e),
    {
        let mut reports: Vec<StatusReport> = Vec::new();
        match e {
            Event::Control(ce) => {
                let reply = Some(reply_for(ce));
                if !is_stop_request(ce) || self.is_finished() {
                    return StepResult { reply, reports, exit: None };
                }
                let running = match self.phase {
                    Phase::Running => true,
                    _ => false,
                };
                let effective = self.signal.fire();
                if running && effective {
                    self.phase = Phase::Stopped;
                    reports.push(stopped_report_exec(EXIT_CLEAN));
                    StepResult { reply, reports, exit: Some(PROCESS_EXIT_OK) }
                } else {
                    StepResult { reply, reports, exit: None }
                }
            },
            Event::Registered(ok) => {
                match self.phase {
                    Phase::Init => {},
                    _ => {
                        return StepResult { reply: None, reports, exit: None };
                    },
                }
                if ok {
                    self.phase = Phase::Starting;
                    StepResult { reply: None, reports, exit: None }
                } else {
                    self.phase = Phase::Aborted;
                    StepResult { reply: None, reports, exit: Some(PROCESS_EXIT_STARTUP_FAILURE) }
                }
            },
            Event::Bound(ok) => {
                match self.phase {
                    Phase::Starting => {},
                    _ => {
                        return StepResult { reply: None, reports, exit: None };
                    },
                }
                if !ok {
                    self.phase = Phase::Stopped;
                    reports.push(stopped_report_exec(EXIT_FAILED));
                    StepResult { reply: None, reports, exit: Some(PROCESS_EXIT_STARTUP_FAILURE) }
                } else if self.signal.is_fired() {
                    self.phase = Phase::Stopped;
                    reports.push(running_report_exec());
                    reports.push(stopped_report_exec(EXIT_CLEAN));
                    StepResult { reply: None, reports, exit: Some(PROCESS_EXIT_OK) }
                } else {
                    self.phase = Phase::Running;
                    reports.push(running_report_exec());
                    StepResult { reply: None, reports, exit: None }
                }
            },
            Event::TaskFinished(o) => {
                match self.phase {
                    Phase::Running => {},
                    _ => {
                        return StepResult { reply: None, reports, exit: None };
                    },
                }
                self.phase = Phase::Stopped;
                let code = match o {
                    TaskOutcome::Completed => EXIT_CLEAN,
                    TaskOutcome::Failed => EXIT_FAILED,
                };
                reports.push(stopped_report_exec(code));
                StepResult { reply: None, reports, exit: Some(PROCESS_EXIT_OK) }
            },
        }
    }
}

} // verus!
