//! Jobs and the print orchestrator: the state machine that plays a job back
//! step by step and says which controller actions each transition fires.
use std::sync::Arc;
use vstd::prelude::*;
use vstd::string::*;

use crate::decimal::{fixed_text, push_fixed};
use crate::job::{Job, Step};
use crate::text::{copy_text, owned, text_of};

verus! {

#[derive(Clone, Copy, Debug, PartialEq, Eq, Structural)]
pub enum PrintStatus {
    Idle,
    Printing,
    Paused,
}

/// A request to the orchestrator.
#[derive(Debug)]
pub enum PrintCommand {
    Start(Arc<Job>),
    Pause,
    Resume,
    Abort,
}

/// What the orchestrator shows its callers.
#[derive(Debug)]
pub struct PrintState {
    pub status: PrintStatus,
    /// Index into the job's steps.
    pub current_index: usize,
    /// Number of steps of the active job.
    pub total_steps: usize,
    /// The motion code issued last.
    pub last_gcode: Option<String>,
    pub last_error: Option<String>,
}

impl Default for PrintState {
    fn default() -> (r: Self)
        ensures
            r.status == PrintStatus::Idle,
            r.current_index == 0,
            r.total_steps == 0,
            r.last_gcode is None,
            r.last_error is None,
    {
        PrintState {
            status: PrintStatus::Idle,
            current_index: 0,
            total_steps: 0,
            last_gcode: None,
            last_error: None,
        }
    }
}

impl View for PrintState {
    type V = PrintState;

    open spec fn view(&self) -> PrintState {
        *self
    }
}

impl PrintState {
    /// An independent copy of the state.
    pub fn snapshot(&self) -> (r: PrintState)
        ensures
            r.status == self.status,
            r.current_index == self.current_index,
            r.total_steps == self.total_steps,
            r.last_gcode == self.last_gcode,
            r.last_error == self.last_error,
    {
        PrintState {
            status: self.status,
            current_index: self.current_index,
            total_steps: self.total_steps,
            last_gcode: copy_text(&self.last_gcode),
            last_error: copy_text(&self.last_error),
        }
    }
}

/// A call the orchestrator makes on the RF or pressure façade.
#[derive(Clone, Copy, Debug, PartialEq, Eq, Structural)]
pub enum ControlAction {
    /// Set the RF power, in milliwatts.
    RfSetPower(i64),
    RfOn,
    RfOff,
    /// Turn pressure regulation on or off.
    PressureEnable(bool),
    /// Set the pressure setpoint, in thousandths of a PSI.
    PressureSetpoint(i64),
}

/// The setpoints held for the job by the front end.
#[derive(Clone, Copy, Debug, PartialEq, Eq, Structural)]
pub struct HeldSetpoints {
    /// RF power, in milliwatts.
    pub rf_power: i64,
    /// Pressure, in thousandths of a PSI.
    pub pressure: i64,
}

/// The orchestrator: the shown state, the active job and the next step to issue.
#[derive(Debug)]
pub struct PrintEngine {
    /// The state shown to callers.
    pub state: PrintState,
    /// The active job, held from `Start` until it completes or is aborted.
    pub job: Option<Arc<Job>>,
    /// Index of the next step to issue.
    pub index: usize,
}

/// The orchestrator as the contracts see it.
pub struct EngineView {
    pub status: PrintStatus,
    pub current_index: nat,
    pub total_steps: nat,
    pub last_gcode: Option<Seq<char>>,
    pub last_error: Option<Seq<char>>,
    /// Steps of the active job.
    pub job: Option<Seq<Step>>,
    /// Next step to issue.
    pub index: nat,
}

impl View for PrintEngine {
    type V = EngineView;

    open spec fn view(&self) -> EngineView {
        EngineView {
            status: self.state.status,
            current_index: self.state.current_index as nat,
            total_steps: self.state.total_steps as nat,
            last_gcode: text_of(self.state.last_gcode),
            last_error: text_of(self.state.last_error),
            job: match self.job {
                Some(j) => Some(j.steps@),
                None => None,
            },
            index: self.index as nat,
        }
    }
}

/// The motion code that moves to a waypoint: `G1 X<x> Y<y> Z<z>`, three decimals each.
pub open spec fn move_text(s: Step) -> Seq<char> {
    "G1 X"@ + fixed_text(s.x_um as int, 3) + " Y"@ + fixed_text(s.y_um as int, 3) + " Z"@
        + fixed_text(s.z_um as int, 3)
}

/// Actions that switch the RF output and pressure regulation off.
pub open spec fn stop_actions() -> Seq<ControlAction> {
    seq![ControlAction::RfOff, ControlAction::PressureSetpoint(0), ControlAction::PressureEnable(false)]
}

/// Actions that resume output at the RF power `rf` and pressure `p`.
pub open spec fn run_actions(rf: i64, p: i64) -> Seq<ControlAction> {
    seq![
        ControlAction::RfSetPower(rf),
        ControlAction::RfOn,
        ControlAction::PressureEnable(true),
        ControlAction::PressureSetpoint(p),
    ]
}

/// The engine after a request, with the actions it fires and the held setpoints after it.
pub open spec fn engine_next(e: EngineView, cmd: PrintCommand, held: HeldSetpoints) -> (
    EngineView,
    Seq<ControlAction>,
    HeldSetpoints,
) {
    match cmd {
        PrintCommand::Start(job) => if e.status == PrintStatus::Idle {
            (
                EngineView {
                    status: PrintStatus::Printing,
                    current_index: 0,
                    total_steps: job.steps@.len(),
                    last_error: None,
                    job: Some(job.steps@),
                    index: 0,
                    ..e
                },
                run_actions(0, held.pressure),
                HeldSetpoints { rf_power: 0, ..held },
            )
        } else {
            (e, seq![], held)
        },
        PrintCommand::Pause => if e.status == PrintStatus::Printing {
            (EngineView { status: PrintStatus::Paused, ..e }, stop_actions(), held)
        } else {
            (e, seq![], held)
        },
        PrintCommand::Resume => if e.status == PrintStatus::Paused {
            (
                EngineView { status: PrintStatus::Printing, ..e },
                run_actions(held.rf_power, held.pressure),
                held,
            )
        } else {
            (e, seq![], held)
        },
        PrintCommand::Abort => (
            EngineView {
                status: PrintStatus::Idle,
                current_index: 0,
                total_steps: 0,
                last_gcode: None,
                job: None,
                index: 0,
                ..e
            },
            stop_actions(),
            held,
        ),
    }
}

/// The engine after one tick, with the motion code it issues.
pub open spec fn tick_next(e: EngineView) -> (EngineView, Option<Seq<char>>) {
    if e.status == PrintStatus::Printing && e.job is Some {
        let steps = e.job->0;
        if e.index < steps.len() {
            let i = e.index;
            let code = move_text(steps[i as int]);
            if i + 1 >= steps.len() {
                (
                    EngineView {
                        status: PrintStatus::Idle,
                        current_index: i + 1,
                        last_gcode: Some(code),
                        job: None,
                        index: i + 1,
                        ..e
                    },
                    Some(code),
                )
            } else {
                (
                    EngineView { current_index: i, last_gcode: Some(code), index: i + 1, ..e },
                    Some(code),
                )
            }
        } else {
            (EngineView { status: PrintStatus::Idle, current_index: e.index, job: None, ..e }, None)
        }
    } else {
        (e, None)
    }
}

/// The engine after `n` ticks.
pub open spec fn ticks(e: EngineView, n: nat) -> EngineView
    decreases n,
{
    if n == 0 {
        e
    } else {
        tick_next(ticks(e, (n - 1) as nat)).0
    }
}

proof fn lemma_ticks_while_printing(e: EngineView, steps: Seq<Step>, k: nat)
    requires
        e.status == PrintStatus::Printing,
        e.job == Some(steps),
        e.index == 0,
        k < steps.len(),
    ensures
        ticks(e, k).status == PrintStatus::Printing,
        ticks(e, k).job == Some(steps),
        ticks(e, k).index == k,
    decreases k,
{
    if k > 0 {
        lemma_ticks_while_printing(e, steps, (k - 1) as nat);
    }
}

/// Starting a job of `n >= 1` waypoints from idle sets the engine printing; it
/// stays printing for the first `n - 1` ticks, and after `n` ticks it is idle
/// with `current_index == n`.
pub proof fn lemma_job_runs_to_completion(e: EngineView, job: Arc<Job>, held: HeldSetpoints)
    requires
        e.status == PrintStatus::Idle,
        job.steps@.len() >= 1,
    ensures
        ({
            let n = job.steps@.len();
            let s = engine_next(e, PrintCommand::Start(job), held).0;
            &&& s.status == PrintStatus::Printing
            &&& forall|k: nat| k < n ==> (#[trigger] ticks(s, k)).status == PrintStatus::Printing
            &&& ticks(s, n).status == PrintStatus::Idle
            &&& ticks(s, n).current_index == n
        }),
{
    let n = job.steps@.len();
    let s = engine_next(e, PrintCommand::Start(job), held).0;
    assert forall|k: nat| k < n implies (#[trigger] ticks(s, k)).status == PrintStatus::Printing by {
        lemma_ticks_while_printing(s, job.steps@, k);
    }
    lemma_ticks_while_printing(s, job.steps@, (n - 1) as nat);
}

/// Abort leaves the engine idle with no steps and the index at zero, and keeps
/// the error it held before.
pub proof fn lemma_abort_resets_and_keeps_error(e: EngineView, held: HeldSetpoints)
    ensures
        ({
            let a = engine_next(e, PrintCommand::Abort, held).0;
            &&& a.status == PrintStatus::Idle
            &&& a.total_steps == 0
            &&& a.current_index == 0
            &&& a.last_error == e.last_error
        }),
{
}

/// Pause while idle changes nothing and fires no controller action.
pub proof fn lemma_pause_while_idle(e: EngineView, held: HeldSetpoints)
    requires
        e.status == PrintStatus::Idle,
    ensures
        engine_next(e, PrintCommand::Pause, held) == (e, Seq::<ControlAction>::empty(), held),
{
}

/// Formats the motion code for a waypoint.
pub fn move_code(s: Step) -> (r: String)
    ensures
        r@ == move_text(s),
{
    let mut t = owned("G1 X");
    push_fixed(&mut t, s.x_um, 3);
    t.append(" Y");
    push_fixed(&mut t, s.y_um, 3);
    t.append(" Z");
    push_fixed(&mut t, s.z_um, 3);
    t
}

fn stop_list() -> (r: Vec<ControlAction>)
    ensures
        r@ == stop_actions(),
{
    let mut r: Vec<ControlAction> = Vec::new();
    r.push(ControlAction::RfOff);
    r.push(ControlAction::PressureSetpoint(0));
    r.push(ControlAction::PressureEnable(false));
    assert(r@ =~= stop_actions());
    r
}

fn run_list(rf: i64, p: i64) -> (r: Vec<ControlAction>)
    ensures
        r@ == run_actions(rf, p),
{
    let mut r: Vec<ControlAction> = Vec::new();
    r.push(ControlAction::RfSetPower(rf));
    r.push(ControlAction::RfOn);
    r.push(ControlAction::PressureEnable(true));
    r.push(ControlAction::PressureSetpoint(p));
    assert(r@ =~= run_actions(rf, p));
    r
}

impl PrintEngine {
    /// An idle engine with no job.
    pub fn new() -> (r: PrintEngine)
        ensures
            r@ == (EngineView {
                status: PrintStatus::Idle,
                current_index: 0,
                total_steps: 0,
                last_gcode: None,
                last_error: None,
                job: None,
                index: 0,
            }),
    {
        PrintEngine { state: PrintState::default(), job: None, index: 0 }
    }

    /// Takes a request: returns the controller actions it fires, in order, and
    /// updates the held setpoints. `Start` is taken only while idle, `Pause` only
    /// while printing, `Resume` only while paused; `Abort` always.
    pub fn handle(&mut self, cmd: PrintCommand, held: &mut HeldSetpoints) -> (r: Vec<
        ControlAction,
    >)
        ensures
            (final(self)@, r@, *final(held)) == engine_next(old(self)@, cmd, *old(held)),
    {
        match cmd {
            PrintCommand::Start(job) => {
                if self.state.status == PrintStatus::Idle {
                    let total = job.steps.len();
                    held.rf_power = 0;
                    let actions = run_list(0, held.pressure);
                    self.state.status = PrintStatus::Printing;
                    self.state.current_index = 0;
                    self.state.total_steps = total;
                    self.state.last_error = None;
                    self.job = Some(job);
                    self.index = 0;
                    actions
                } else {
                    Vec::new()
                }
            },
            PrintCommand::Pause => {
                if self.state.status == PrintStatus::Printing {
                    self.state.status = PrintStatus::Paused;
                    stop_list()
                } else {
                    Vec::new()
                }
            },
            PrintCommand::Resume => {
                if self.state.status == PrintStatus::Paused {
                    self.state.status = PrintStatus::Printing;
                    run_list(held.rf_power, held.pressure)
                } else {
                    Vec::new()
                }
            },
            PrintCommand::Abort => {
                self.job = None;
                self.index = 0;
                self.state.status = PrintStatus::Idle;
                self.state.current_index = 0;
                self.state.total_steps = 0;
                self.state.last_gcode = None;
                stop_list()
            },
        }
    }

    /// One step of playback: while printing, issues the next waypoint's motion
    /// code and advances; after the last one the job is dropped and the engine is idle.
    pub fn tick(&mut self) -> (r: Option<String>)
        ensures
            (final(self)@, text_of(r)) == tick_next(old(self)@),
    {
        if self.state.status != PrintStatus::Printing {
            return None;
        }
        let len = match &self.job {
            Some(job) => job.steps.len(),
            None => {
                return None;
            },
        };
        if self.index >= len {
            self.state.status = PrintStatus::Idle;
            self.state.current_index = self.index;
            self.job = None;
            return None;
        }
        let i = self.index;
        let code = match &self.job {
            Some(job) => move_code(job.steps[i]),
            None => {
                return None;
            },
        };
        self.state.last_gcode = Some(code.clone());
        self.index = i + 1;
        if i + 1 >= len {
            self.state.status = PrintStatus::Idle;
            self.state.current_index = i + 1;
            self.job = None;
        } else {
            self.state.current_index = i;
        }
        Some(code)
    }

    /// A copy of the state shown to callers.
    pub fn state(&self) -> (r: PrintState)
        ensures
            r.status == self.state.status,
            r.current_index == self.state.current_index,
            r.total_steps == self.state.total_steps,
            r.last_gcode == self.state.last_gcode,
            r.last_error == self.state.last_error,
    {
        self.state.snapshot()
    }
}

} // verus!
