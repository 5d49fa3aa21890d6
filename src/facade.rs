//! The controller façades: non-blocking entry points that queue a command for a
//! device actor, record the expected result in the device's cache at once, and
//! serve reads from the cache. Mock controllers apply the same transitions as a
//! device that always answers.
use std::sync::Arc;
use tokio::sync::mpsc::error::TrySendError;
use tokio::sync::mpsc::Sender;
use vstd::prelude::*;

use crate::actor::{Plan, QueueError};
use crate::cache::StateCache;
use crate::motion::{motion_plan, DuetCommand, DuetState, MotionEvent};
use crate::pressure::{pressure_plan, ArduinoCommand, ArduinoState, PressureEvent};
use crate::print::ControlAction;
use crate::rf::{rf_plan, MicrowaveCommand, MicrowaveState, RfEvent};
use crate::text::owned;

verus! {

#[verifier::external_type_specification]
#[verifier::external_body]
#[verifier::reject_recursive_types(T)]
pub struct ExSender<T>(Sender<T>);

/// Relies on tokio's `Sender::try_send`: it never waits; it either queues the
/// message or reports a full queue or a closed channel. Which one depends on
/// the queue, so nothing is promised of the outcome.
#[verifier::external_body]
fn try_enqueue<T>(tx: &Sender<T>, msg: T) -> (r: Result<(), QueueError>) {
    match tx.try_send(msg) {
        Ok(()) => Ok(()),
        Err(TrySendError::Full(_)) => Err(QueueError::Full),
        Err(TrySendError::Closed(_)) => Err(QueueError::Closed),
    }
}

/// Operations on the motion stage.
pub trait DuetController {
    fn connect(&self);

    fn disconnect(&self);

    /// Submits a motion code.
    fn send_gcode(&self, gcode: &str);

    /// A copy of the cached state.
    fn state(&self) -> DuetState;

    /// Submits an auxiliary machine command.
    fn send_m_cmd(&self, m_cmd: &str);
}

/// Operations on the RF source. Power is in milliwatts.
pub trait MicrowaveController {
    fn connect(&self);

    fn disconnect(&self);

    fn set_power(&self, watts: i64);

    fn set_frequency(&self, hz: i32);

    fn rf_on(&self);

    fn rf_off(&self);

    fn state(&self) -> MicrowaveState;
}

/// Operations on the pressure regulator. Pressures are in thousandths of a PSI.
pub trait ArduinoController {
    fn connect(&self);

    fn disconnect(&self);

    fn enable(&self, enable: bool);

    fn set_pressure_setpoint(&self, psi: i64);

    fn state(&self) -> ArduinoState;
}

/// The motion stage's façade over its actor's queue.
pub struct DuetClient {
    cmd_tx: Sender<DuetCommand>,
    state: Arc<StateCache<DuetState>>,
}

impl DuetClient {
    pub fn new(cmd_tx: Sender<DuetCommand>, state: Arc<StateCache<DuetState>>) -> (r: DuetClient) {
        DuetClient { cmd_tx, state }
    }

    /// The cache this façade shares with its actor.
    pub fn state_handle(&self) -> (r: Arc<StateCache<DuetState>>) {
        self.state.clone()
    }

    fn submit(&self, cmd: DuetCommand, copy: DuetCommand) {
        let sent = try_enqueue(&self.cmd_tx, copy);
        self.state.apply(MotionEvent::Queued(cmd, sent));
    }
}

impl DuetController for DuetClient {
    fn connect(&self) {
        self.submit(DuetCommand::Connect, DuetCommand::Connect);
    }

    fn disconnect(&self) {
        self.submit(DuetCommand::Disconnect, DuetCommand::Disconnect);
    }

    fn send_gcode(&self, gcode: &str) {
        self.submit(DuetCommand::SendGcode(owned(gcode)), DuetCommand::SendGcode(owned(gcode)));
    }

    fn state(&self) -> DuetState {
        self.state.read()
    }

    fn send_m_cmd(&self, m_cmd: &str) {
        self.submit(
            DuetCommand::SendMCommand(owned(m_cmd)),
            DuetCommand::SendMCommand(owned(m_cmd)),
        );
    }
}

/// The RF source's façade over its actor's queue.
pub struct MicrowaveClient {
    cmd_tx: Sender<MicrowaveCommand>,
    state: Arc<StateCache<MicrowaveState>>,
}

impl MicrowaveClient {
    pub fn new(cmd_tx: Sender<MicrowaveCommand>, state: Arc<StateCache<MicrowaveState>>) -> (r:
        MicrowaveClient) {
        MicrowaveClient { cmd_tx, state }
    }

    /// The cache this façade shares with its actor.
    pub fn state_handle(&self) -> (r: Arc<StateCache<MicrowaveState>>) {
        self.state.clone()
    }

    fn submit(&self, cmd: MicrowaveCommand) {
        let sent = try_enqueue(&self.cmd_tx, cmd);
        self.state.apply(RfEvent::Queued(cmd, sent));
    }
}

impl MicrowaveController for MicrowaveClient {
    fn connect(&self) {
        self.submit(MicrowaveCommand::Connect);
    }

    fn disconnect(&self) {
        self.submit(MicrowaveCommand::Disconnect);
    }

    fn set_power(&self, watts: i64) {
        self.submit(MicrowaveCommand::SetPowerWatts(watts));
    }

    fn set_frequency(&self, hz: i32) {
        self.submit(MicrowaveCommand::SetFrequencyHz(hz));
    }

    fn rf_on(&self) {
        self.submit(MicrowaveCommand::RfOn);
    }

    fn rf_off(&self) {
        self.submit(MicrowaveCommand::RfOff);
    }

    fn state(&self) -> MicrowaveState {
        self.state.read()
    }
}

/// The pressure regulator's façade over its actor's queue.
pub struct ArduinoClient {
    cmd_tx: Sender<ArduinoCommand>,
    state: Arc<StateCache<ArduinoState>>,
}

impl ArduinoClient {
    pub fn new(cmd_tx: Sender<ArduinoCommand>, state: Arc<StateCache<ArduinoState>>) -> (r:
        ArduinoClient) {
        ArduinoClient { cmd_tx, state }
    }

    /// The cache this façade shares with its actor.
    pub fn state_handle(&self) -> (r: Arc<StateCache<ArduinoState>>) {
        self.state.clone()
    }

    fn submit(&self, cmd: ArduinoCommand) {
        let sent = try_enqueue(&self.cmd_tx, cmd);
        self.state.apply(PressureEvent::Queued(cmd, sent));
    }
}

impl ArduinoController for ArduinoClient {
    fn connect(&self) {
        self.submit(ArduinoCommand::Connect);
    }

    fn disconnect(&self) {
        self.submit(ArduinoCommand::Disconnect);
    }

    fn enable(&self, enable: bool) {
        self.submit(ArduinoCommand::Enable(enable));
    }

    fn set_pressure_setpoint(&self, psi: i64) {
        self.submit(ArduinoCommand::SetPressureSetpoint(psi));
    }

    fn state(&self) -> ArduinoState {
        self.state.read()
    }
}

/// A motion stage that answers every command at once, as a connected device
/// whose writes always succeed would.
pub struct MockDuet {
    state: StateCache<DuetState>,
}

impl MockDuet {
    pub fn new() -> (r: MockDuet) {
        MockDuet { state: StateCache::new(DuetState::new()) }
    }

    fn run(&self, cmd: DuetCommand) {
        let s = self.state.read();
        match motion_plan(&s, &cmd) {
            Plan::Open => self.state.apply(MotionEvent::Opened(Ok(()))),
            Plan::Close => self.state.apply(MotionEvent::Closed),
            Plan::Refuse => self.state.apply(MotionEvent::Refused),
            _ => self.state.apply(MotionEvent::Written(cmd, Ok(()))),
        }
    }
}

impl DuetController for MockDuet {
    fn connect(&self) {
        self.run(DuetCommand::Connect);
    }

    fn disconnect(&self) {
        self.run(DuetCommand::Disconnect);
    }

    fn send_gcode(&self, gcode: &str) {
        self.run(DuetCommand::SendGcode(owned(gcode)));
    }

    fn state(&self) -> DuetState {
        self.state.read()
    }

    fn send_m_cmd(&self, m_cmd: &str) {
        self.run(DuetCommand::SendMCommand(owned(m_cmd)));
    }
}

/// An RF source that answers every command at once.
pub struct MockMicrowave {
    state: StateCache<MicrowaveState>,
}

impl MockMicrowave {
    pub fn new() -> (r: MockMicrowave) {
        MockMicrowave { state: StateCache::new(MicrowaveState::new()) }
    }

    fn run(&self, cmd: MicrowaveCommand) {
        let s = self.state.read();
        match rf_plan(&s, cmd) {
            Plan::Open => self.state.apply(RfEvent::Opened(Ok(()))),
            Plan::Close => self.state.apply(RfEvent::Closed),
            Plan::Refuse => self.state.apply(RfEvent::Refused(cmd)),
            _ => self.state.apply(RfEvent::Written(cmd, Ok(()))),
        }
    }
}

impl MicrowaveController for MockMicrowave {
    fn connect(&self) {
        self.run(MicrowaveCommand::Connect);
    }

    fn disconnect(&self) {
        self.run(MicrowaveCommand::Disconnect);
    }

    fn set_power(&self, watts: i64) {
        self.run(MicrowaveCommand::SetPowerWatts(watts));
    }

    fn set_frequency(&self, hz: i32) {
        self.run(MicrowaveCommand::SetFrequencyHz(hz));
    }

    fn rf_on(&self) {
        self.run(MicrowaveCommand::RfOn);
    }

    fn rf_off(&self) {
        self.run(MicrowaveCommand::RfOff);
    }

    fn state(&self) -> MicrowaveState {
        self.state.read()
    }
}

/// A pressure regulator that answers every command at once.
pub struct MockArduino {
    state: StateCache<ArduinoState>,
}

impl MockArduino {
    pub fn new() -> (r: MockArduino) {
        MockArduino { state: StateCache::new(ArduinoState::new()) }
    }

    fn run(&self, cmd: ArduinoCommand) {
        let s = self.state.read();
        match pressure_plan(&s, cmd) {
            Plan::Open => self.state.apply(PressureEvent::Opened(Ok(()))),
            Plan::Close => self.state.apply(PressureEvent::Closed),
            Plan::Refuse => self.state.apply(PressureEvent::Refused(cmd)),
            Plan::Keep => self.state.apply(PressureEvent::Kept(cmd)),
            Plan::Send(_) => self.state.apply(PressureEvent::Written(cmd, Ok(()))),
        }
    }
}

impl ArduinoController for MockArduino {
    fn connect(&self) {
        self.run(ArduinoCommand::Connect);
    }

    fn disconnect(&self) {
        self.run(ArduinoCommand::Disconnect);
    }

    fn enable(&self, enable: bool) {
        self.run(ArduinoCommand::Enable(enable));
    }

    fn set_pressure_setpoint(&self, psi: i64) {
        self.run(ArduinoCommand::SetPressureSetpoint(psi));
    }

    fn state(&self) -> ArduinoState {
        self.state.read()
    }
}

/// Performs the orchestrator's actions, in order, on the RF and pressure controllers.
pub fn dispatch<M: MicrowaveController, A: ArduinoController>(
    actions: &Vec<ControlAction>,
    rf: &M,
    pressure: &A,
) {
    let mut i: usize = 0;
    while i < actions.len()
        invariant
            i <= actions.len(),
        decreases actions.len() - i,
    {
        match actions[i] {
            ControlAction::RfSetPower(w) => rf.set_power(w),
            ControlAction::RfOn => rf.rf_on(),
            ControlAction::RfOff => rf.rf_off(),
            ControlAction::PressureEnable(on) => pressure.enable(on),
            ControlAction::PressureSetpoint(p) => pressure.set_pressure_setpoint(p),
        }
        i = i + 1;
    }
}

} // verus!
