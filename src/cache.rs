//! The device state cache: one record behind a lock. Writers replace the whole
//! record in one critical section; readers take an independent copy.
use vstd::prelude::*;
use vstd::rwlock::{RwLock, RwLockPredicate};

use crate::motion::{motion_next, motion_step, DuetState, MotionEvent, MotionView};
use crate::pressure::{pressure_next, pressure_step, ArduinoState, PressureEvent, PressureView};
use crate::print::PrintState;
use crate::rf::{rf_next, rf_step, MicrowaveState, RfEvent, RfView};

verus! {

/// A record that a cache can hold: a view, the transitions that change it, a
/// copy, and the executable transition that follows the view's.
pub trait Record: Sized + View {
    type Event;

    /// The view after one transition.
    spec fn next_view(v: Self::V, ev: Self::Event) -> Self::V;

    fn copy_record(&self) -> (r: Self)
        ensures
            r@ == self@,
    ;

    fn apply(self, ev: Self::Event) -> (r: Self)
        ensures
            r@ == Self::next_view(self@, ev),
    ;
}

/// The view after each event of `evs` in turn.
pub open spec fn run<S: Record>(v: S::V, evs: Seq<S::Event>) -> S::V
    decreases evs.len(),
{
    if evs.len() == 0 {
        v
    } else {
        run::<S>(S::next_view(v, evs[0]), evs.skip(1))
    }
}

pub proof fn lemma_run_push<S: Record>(v: S::V, evs: Seq<S::Event>, ev: S::Event)
    ensures
        run::<S>(v, evs.push(ev)) == S::next_view(run::<S>(v, evs), ev),
    decreases evs.len(),
{
    if evs.len() == 0 {
        assert(evs.push(ev)[0] == ev);
        assert(evs.push(ev).skip(1) =~= Seq::<S::Event>::empty());
        assert(run::<S>(S::next_view(v, ev), Seq::<S::Event>::empty()) == S::next_view(v, ev));
    } else {
        assert(evs.push(ev)[0] == evs[0]);
        assert(evs.push(ev).skip(1) =~= evs.skip(1).push(ev));
        lemma_run_push::<S>(S::next_view(v, evs[0]), evs.skip(1), ev);
    }
}

/// The lock's invariant: the record it holds is what some sequence of whole
/// transitions made of the initial record.
pub struct Reachable<S: Record> {
    pub init: S::V,
}

impl<S: Record> RwLockPredicate<S> for Reachable<S> {
    open spec fn inv(self, v: S) -> bool {
        exists|evs: Seq<S::Event>| #[trigger] run::<S>(self.init, evs) == v@
    }
}

/// A record shared between its writers and any number of readers.
pub struct StateCache<S: Record> {
    lock: RwLock<S, Reachable<S>>,
}

impl<S: Record> StateCache<S> {
    /// The record the cache was created with.
    pub closed spec fn initial(&self) -> S::V {
        self.lock.pred().init
    }

    pub fn new(init: S) -> (r: StateCache<S>)
        ensures
            r.initial() == init@,
    {
        let ghost pred = Reachable::<S> { init: init@ };
        assert(run::<S>(pred.init, Seq::<S::Event>::empty()) == init@);
        assert(pred.inv(init));
        StateCache { lock: RwLock::new(init, Ghost(pred)) }
    }

    /// A copy of the record: never a mix of two writes, but what a whole number
    /// of complete transitions made of the initial record.
    pub fn read(&self) -> (r: S)
        ensures
            exists|evs: Seq<S::Event>| #[trigger] run::<S>(self.initial(), evs) == r@,
    {
        let handle = self.lock.acquire_read();
        let r = handle.borrow().copy_record();
        let ghost evs = choose|evs: Seq<S::Event>| #[trigger] run::<S>(self.initial(), evs) == handle.view()@;
        assert(run::<S>(self.initial(), evs) == r@);
        handle.release_read();
        r
    }

    /// Applies one transition to the record, within a single critical section.
    pub fn apply(&self, ev: S::Event) {
        let (s, handle) = self.lock.acquire_write();
        let ghost evs = choose|evs: Seq<S::Event>| #[trigger] run::<S>(self.initial(), evs) == s@;
        let next = s.apply(ev);
        proof {
            lemma_run_push::<S>(self.initial(), evs, ev);
            assert(run::<S>(self.initial(), evs.push(ev)) == next@);
        }
        handle.release_write(next);
    }
}

impl Record for DuetState {
    type Event = MotionEvent;

    open spec fn next_view(v: MotionView, ev: MotionEvent) -> MotionView {
        motion_next(v, ev)
    }

    fn copy_record(&self) -> (r: Self) {
        self.snapshot()
    }

    fn apply(self, ev: MotionEvent) -> (r: Self) {
        motion_step(self, ev)
    }
}

impl Record for ArduinoState {
    type Event = PressureEvent;

    open spec fn next_view(v: PressureView, ev: PressureEvent) -> PressureView {
        pressure_next(v, ev)
    }

    fn copy_record(&self) -> (r: Self) {
        self.snapshot()
    }

    fn apply(self, ev: PressureEvent) -> (r: Self) {
        pressure_step(self, ev)
    }
}

impl Record for MicrowaveState {
    type Event = RfEvent;

    open spec fn next_view(v: RfView, ev: RfEvent) -> RfView {
        rf_next(v, ev)
    }

    fn copy_record(&self) -> (r: Self) {
        self.snapshot()
    }

    fn apply(self, ev: RfEvent) -> (r: Self) {
        rf_step(self, ev)
    }
}

/// The print state is published whole: each write replaces it.
impl Record for PrintState {
    type Event = PrintState;

    open spec fn next_view(v: PrintState, ev: PrintState) -> PrintState {
        ev
    }

    fn copy_record(&self) -> (r: Self) {
        self.snapshot()
    }

    fn apply(self, ev: PrintState) -> (r: Self) {
        ev
    }
}

/// Whatever commands, replies and failures reach the regulator's record, and in
/// whatever order, every record they make of a well-formed one is well formed:
/// no read of a cache that started well formed sees regulation on while the
/// regulator is disconnected.
pub proof fn lemma_pressure_runs_stay_well_formed(s: PressureView, evs: Seq<PressureEvent>)
    requires
        s.wf(),
    ensures
        run::<ArduinoState>(s, evs).wf(),
    decreases evs.len(),
{
    if evs.len() > 0 {
        lemma_pressure_runs_stay_well_formed(pressure_next(s, evs[0]), evs.skip(1));
    }
}

/// Whatever commands, replies and failures reach the RF record, and in whatever
/// order, every record they make of a well-formed one is well formed: no read of
/// a cache that started well formed sees RF output on while the source is
/// disconnected.
pub proof fn lemma_rf_runs_stay_well_formed(s: RfView, evs: Seq<RfEvent>)
    requires
        s.wf(),
    ensures
        run::<MicrowaveState>(s, evs).wf(),
    decreases evs.len(),
{
    if evs.len() > 0 {
        lemma_rf_runs_stay_well_formed(rf_next(s, evs[0]), evs.skip(1));
    }
}

} // verus!
