//! The supervisor's decisions: what each external control event gets back,
//! when the stop signal fires, and which status the external manager is told
//! at each step of the lifecycle. Registering with the manager and carrying
//! the signal are the caller's work.

use vstd::prelude::*;
use vstd::string::*;

verus! {

/// A control event delivered by the external service manager.
#[derive(Clone, Copy, PartialEq, Eq, Structural, Debug)]
pub enum ControlEvent {
    /// The manager asks the process to stop.
    Stop,
    /// The manager probes whether the process is alive; acknowledged as a
    /// no-op.
    Interrogate,
    /// Any other control command; none is accepted.
    Other,
}

/// What the control handler answers the manager.
#[derive(Clone, Copy, PartialEq, Eq, Structural, Debug)]
pub enum ControlResponse {
    NoError,
    NotImplemented,
}

/// Everything one control event causes.
pub struct ControlDecision {
    /// The answer returned to the manager.
    pub response: ControlResponse,
    /// Whether the one-shot stop signal is sent to the main loop.
    pub stop_requested: bool,
    /// The line logged, if any.
    pub log_line: Option<String>,
}

/// Decide one control event: a stop is logged, signalled and acknowledged;
/// an interrogate is acknowledged and nothing more; everything else is
/// refused as not implemented.
pub fn handle_control(event: ControlEvent) -> (r: ControlDecision)
    ensures
        event == ControlEvent::Stop ==> r.response == ControlResponse::NoError
            && r.stop_requested && (r.log_line matches Some(line) && line@
            == "Received stop control event. Shutting down."@),
        event == ControlEvent::Interrogate ==> r.response == ControlResponse::NoError
            && !r.stop_requested && r.log_line is None,
        event == ControlEvent::Other ==> r.response == ControlResponse::NotImplemented
            && !r.stop_requested && r.log_line is None,
{
    match event {
        ControlEvent::Stop => ControlDecision {
            response: ControlResponse::NoError,
            stop_requested: true,
            log_line: Some("Received stop control event. Shutting down.".to_owned()),
        },
        ControlEvent::Interrogate => ControlDecision {
            response: ControlResponse::NoError,
            stop_requested: false,
            log_line: None,
        },
        ControlEvent::Other => ControlDecision {
            response: ControlResponse::NotImplemented,
            stop_requested: false,
            log_line: None,
        },
    }
}

/// Where the process stands in its lifecycle.
#[derive(Clone, Copy, PartialEq, Eq, Structural, Debug)]
pub enum RunState {
    Running,
    Stopped,
}

/// The status the external manager is told.
#[derive(Clone, Copy, PartialEq, Eq, Structural, Debug)]
pub struct StatusReport {
    pub state: RunState,
    /// Whether further stop commands are accepted.
    pub accepts_stop: bool,
    /// Exit code reported alongside; always clean.
    pub exit_code: u32,
}

/// Owns the lifecycle: started once, stopped once by the stop signal.
pub struct Supervisor {
    pub state: RunState,
}

impl Supervisor {
    /// Enter the running state; the returned status goes to the manager.
    pub fn start() -> (r: (Supervisor, StatusReport))
        ensures
            r.0.state == RunState::Running,
            r.1.state == RunState::Running,
            r.1.accepts_stop,
            r.1.exit_code == 0,
    {
        (
            Supervisor { state: RunState::Running },
            StatusReport { state: RunState::Running, accepts_stop: true, exit_code: 0 },
        )
    }

    /// Take the stop signal: the lifecycle ends and the terminal status goes
    /// to the manager, which accepts no further stop.
    pub fn on_stop(&mut self) -> (r: StatusReport)
        ensures
            final(self).state == RunState::Stopped,
            r.state == RunState::Stopped,
            !r.accepts_stop,
            r.exit_code == 0,
    {
        self.state = RunState::Stopped;
        StatusReport { state: RunState::Stopped, accepts_stop: false, exit_code: 0 }
    }
}

} // verus!
