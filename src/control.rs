//! The scan-and-report loop as a state machine. The caller performs each
//! action (drive a line, wait for a timer, sample columns, talk to the HID
//! interface) and hands back what happened; the machine decides what comes
//! next and assembles the pressed snapshot.
use vstd::prelude::*;
use usb_device::UsbError;
use usbd_human_interface_device::page::Keyboard;
use usbd_human_interface_device::UsbHidError;
use crate::keymap::{KeyMapping, LINES};
use crate::scan::{empty_snapshot, is_silent, record_line, recorded, sampled, scanned, SLOTS};

verus! {

/// Where the loop stands within one cycle.
#[derive(Debug, Clone, Copy, PartialEq, Eq, Structural)]
pub enum Phase {
    /// Assert the line (drive it low).
    DriveLow(usize),
    /// Let the asserted line settle for one tick.
    Settle(usize),
    /// Sample every column of the asserted line.
    Sample(usize),
    /// Release the line (drive it high).
    DriveHigh(usize),
    /// Wait for the report cadence boundary.
    AwaitInput,
    /// Submit the snapshot as a report.
    Submit,
    /// Wait one tick before the interface's maintenance call.
    AwaitTick,
    /// Run the interface's maintenance call.
    Maintain,
    /// Poll the device for bus activity.
    Poll,
    /// Read an inbound report from the host.
    Read,
    /// A fatal transport error stopped the loop for good.
    Halted,
}

/// What the caller must do next.
#[derive(Debug)]
pub enum Action {
    /// Drive the line low, asserting it.
    DriveLow(usize),
    /// Block until the tick timer reaches its boundary.
    WaitTick,
    /// Read every column while the line is asserted.
    SampleColumns(usize),
    /// Drive the line high, releasing it.
    DriveHigh(usize),
    /// Block until the input timer reaches its boundary.
    WaitInput,
    /// Submit these usages, one per matrix slot, as a keyboard report.
    WriteReport([Keyboard; 36]),
    /// Run the HID interface's periodic maintenance call.
    Maintain,
    /// Poll the USB device for bus activity.
    PollBus,
    /// Read an inbound report (the host's LED state).
    ReadReport,
    /// Stop: nothing more is to be done.
    Halt,
}

/// What the caller observed while performing an action.
#[derive(Debug)]
pub enum Event {
    /// A line was driven low or high.
    LineDriven,
    /// The tick timer reached its boundary.
    TickElapsed,
    /// The input timer reached its boundary.
    InputElapsed,
    /// The columns of the asserted line: `true` where a key is down.
    Columns([bool; 6]),
    /// The outcome of submitting a report.
    Written(Result<(), UsbHidError>),
    /// The outcome of the maintenance call.
    Ticked(Result<(), UsbHidError>),
    /// Whether polling found bus activity.
    Polled(bool),
    /// The outcome of reading an inbound report.
    Read(Result<(), UsbError>),
}

/// Whether a report submission outcome lets the loop go on: success, a
/// transport that would block, or a report identical to the last one.
pub open spec fn write_tolerated(r: Result<(), UsbHidError>) -> bool {
    match r {
        Ok(_) => true,
        Err(UsbHidError::WouldBlock) => true,
        Err(UsbHidError::Duplicate) => true,
        Err(_) => false,
    }
}

/// Whether a maintenance call outcome lets the loop go on: success or a
/// transport that would block.
pub open spec fn tick_tolerated(r: Result<(), UsbHidError>) -> bool {
    match r {
        Ok(_) => true,
        Err(UsbHidError::WouldBlock) => true,
        Err(_) => false,
    }
}

/// The abstract state of the loop.
pub struct LoopState {
    /// The mapping that sampled positions resolve through; it never changes.
    pub mapping: KeyMapping,
    pub phase: Phase,
    /// One usage per matrix slot, for the cycle under way.
    pub snapshot: Seq<Keyboard>,
}

impl LoopState {
    /// A full snapshot, and a line index in range wherever the phase has one.
    pub open spec fn wf(self) -> bool {
        &&& self.snapshot.len() == SLOTS
        &&& match self.phase {
            Phase::DriveLow(l) => l < LINES,
            Phase::Settle(l) => l < LINES,
            Phase::Sample(l) => l < LINES,
            Phase::DriveHigh(l) => l < LINES,
            _ => true,
        }
    }

    /// The state that starts a new cycle: the first line, and a snapshot
    /// rebuilt from nothing.
    pub open spec fn restart(self) -> LoopState {
        LoopState {
            phase: Phase::DriveLow(0),
            snapshot: Seq::new(SLOTS as nat, |i: int| Keyboard::NoEventIndicated),
            ..self
        }
    }

    /// The same state in another phase.
    pub open spec fn at(self, phase: Phase) -> LoopState {
        LoopState { phase, ..self }
    }

    /// The state after `e`. An event that does not answer the pending action
    /// leaves the state as it is.
    pub open spec fn next(self, e: Event) -> LoopState {
        match (self.phase, e) {
            (Phase::DriveLow(l), Event::LineDriven) => self.at(Phase::Settle(l)),
            (Phase::Settle(l), Event::TickElapsed) => self.at(Phase::Sample(l)),
            (Phase::Sample(l), Event::Columns(closed)) => LoopState {
                phase: Phase::DriveHigh(l),
                snapshot: recorded(self.snapshot, self.mapping, l as int, closed),
                ..self
            },
            (Phase::DriveHigh(l), Event::LineDriven) => if l + 1 < LINES {
                self.at(Phase::DriveLow((l + 1) as usize))
            } else {
                self.at(Phase::AwaitInput)
            },
            (Phase::AwaitInput, Event::InputElapsed) => self.at(Phase::Submit),
            (Phase::Submit, Event::Written(r)) => if write_tolerated(r) {
                self.at(Phase::AwaitTick)
            } else {
                self.at(Phase::Halted)
            },
            (Phase::AwaitTick, Event::TickElapsed) => self.at(Phase::Maintain),
            (Phase::Maintain, Event::Ticked(r)) => if tick_tolerated(r) {
                self.at(Phase::Poll)
            } else {
                self.at(Phase::Halted)
            },
            (Phase::Poll, Event::Polled(active)) => if active {
                self.at(Phase::Read)
            } else {
                self.restart()
            },
            (Phase::Read, Event::Read(_)) => self.restart(),
            _ => self,
        }
    }

    /// The state after the events `events`, taken in order.
    pub open spec fn run(self, events: Seq<Event>) -> LoopState
        decreases events.len(),
    {
        if events.len() == 0 {
            self
        } else {
            self.next(events[0]).run(events.drop_first())
        }
    }

    /// Whether `a` is the action that the state asks for; a report carries
    /// the snapshot as it stands.
    pub open spec fn asks_for(self, a: Action) -> bool {
        match self.phase {
            Phase::DriveLow(l) => a == Action::DriveLow(l),
            Phase::Settle(_) => a is WaitTick,
            Phase::Sample(l) => a == Action::SampleColumns(l),
            Phase::DriveHigh(l) => a == Action::DriveHigh(l),
            Phase::AwaitInput => a is WaitInput,
            Phase::Submit => a matches Action::WriteReport(keys) && keys@ == self.snapshot,
            Phase::AwaitTick => a is WaitTick,
            Phase::Maintain => a is Maintain,
            Phase::Poll => a is PollBus,
            Phase::Read => a is ReadReport,
            Phase::Halted => a is Halt,
        }
    }
}

/// Whether `e` reports no closed key, where it reports columns at all.
pub open spec fn all_open(e: Event) -> bool {
    e matches Event::Columns(closed) ==> forall|c: int| 0 <= c < 6 ==> !#[trigger] closed@[c]
}

/// Every event keeps a well-formed state well-formed.
pub proof fn lemma_next_wf(s: LoopState, e: Event)
    requires
        s.wf(),
    ensures
        s.next(e).wf(),
        s.next(e).mapping == s.mapping,
{
}

/// A report is submitted only from the submission phase, and that phase is
/// entered only from waiting on the input timer, when that timer reaches its
/// boundary. Sampling, however the snapshot changes, never leads there.
pub proof fn lemma_report_follows_input_boundary(s: LoopState, e: Event)
    requires
        s.wf(),
    ensures
        s.next(e).phase is Submit && !(s.phase is Submit) ==> s.phase is AwaitInput
            && e is InputElapsed,
        forall|a: Action| #[trigger] s.next(e).asks_for(a) && a is WriteReport ==> s.next(e).phase is Submit,
{
}

/// A transport that would block on a report neither halts the loop nor
/// touches the snapshot: the loop goes on to the maintenance tick.
pub proof fn lemma_write_would_block_goes_on(s: LoopState)
    requires
        s.wf(),
        s.phase is Submit,
    ensures
        s.next(Event::Written(Err(UsbHidError::WouldBlock))) == s.at(Phase::AwaitTick),
{
}

/// Every cycle builds its snapshot from nothing: whenever the loop comes
/// back to the first line, the snapshot holds no event in any slot.
pub proof fn lemma_cycle_starts_silent(s: LoopState, e: Event)
    requires
        s.wf(),
        s.phase != Phase::DriveLow(0),
        s.next(e).phase == Phase::DriveLow(0),
    ensures
        is_silent(s.next(e).snapshot),
{
}

/// A report submission that fails with anything but "would block" or
/// "duplicate" halts the loop.
pub proof fn lemma_write_fault_halts(s: LoopState, err: UsbHidError)
    requires
        s.wf(),
        s.phase is Submit,
        !write_tolerated(Err(err)),
    ensures
        s.next(Event::Written(Err(err))).phase is Halted,
{
}

/// A halted loop never resumes, whatever happens after.
pub proof fn lemma_halt_is_terminal(s: LoopState, events: Seq<Event>)
    requires
        s.phase is Halted,
    ensures
        s.run(events) == s,
        s.run(events).asks_for(Action::Halt),
    decreases events.len(),
{
    if events.len() > 0 {
        lemma_halt_is_terminal(s.next(events[0]), events.drop_first());
    }
}

/// While every key stays open, the snapshot stays silent over any number of
/// cycles, from any well-formed state whose snapshot is silent (as that of a
/// new loop is).
pub proof fn lemma_open_matrix_stays_silent(s: LoopState, events: Seq<Event>)
    requires
        s.wf(),
        is_silent(s.snapshot),
        forall|i: int| 0 <= i < events.len() ==> all_open(#[trigger] events[i]),
    ensures
        s.run(events).wf(),
        is_silent(s.run(events).snapshot),
    decreases events.len(),
{
    if events.len() > 0 {
        let e = events[0];
        assert(all_open(e));
        lemma_next_wf(s, e);
        let t = s.next(e);
        assert(is_silent(t.snapshot)) by {
            if let Event::Columns(closed) = e {
                if let Phase::Sample(l) = s.phase {
                    assert forall|i: int| 0 <= i < t.snapshot.len() implies #[trigger] t.snapshot[i]
                        == Keyboard::NoEventIndicated by {
                        if i % 6 == l {
                            assert(!closed@[i / 6]);
                        }
                    }
                }
            }
        }
        let rest = events.drop_first();
        assert forall|i: int| 0 <= i < rest.len() implies all_open(#[trigger] rest[i]) by {
            assert(rest[i] == events[i + 1]);
        }
        lemma_open_matrix_stays_silent(t, rest);
    }
}

/// The events that answer the sweep of one line whose columns are `closed`:
/// the line driven low, the settle tick, the columns, the line driven high.
pub open spec fn line_events(closed: [bool; 6]) -> Seq<Event> {
    seq![Event::LineDriven, Event::TickElapsed, Event::Columns(closed), Event::LineDriven]
}

/// The events that answer a sweep from `line` on, with the closures
/// `closed[line][column]`.
pub open spec fn sweep_events(closed: [[bool; 6]; 6], line: nat) -> Seq<Event>
    decreases LINES - line,
{
    if line >= LINES {
        Seq::empty()
    } else {
        line_events(closed@[line as int]) + sweep_events(closed, line + 1)
    }
}

/// The snapshot once the lines before `lines` have been recorded on a
/// silent one.
spec fn partial_scan(mapping: KeyMapping, closed: [[bool; 6]; 6], lines: int) -> Seq<Keyboard> {
    Seq::new(
        SLOTS as nat,
        |i: int|
            if i % 6 < lines {
                sampled(mapping, closed@[i % 6]@[i / 6], i % 6, i / 6)
            } else {
                Keyboard::NoEventIndicated
            },
    )
}

proof fn lemma_run_concat(s: LoopState, a: Seq<Event>, b: Seq<Event>)
    ensures
        s.run(a + b) == s.run(a).run(b),
    decreases a.len(),
{
    if a.len() > 0 {
        assert((a + b)[0] == a[0]);
        assert((a + b).drop_first() =~= a.drop_first() + b);
        lemma_run_concat(s.next(a[0]), a.drop_first(), b);
    }
}

proof fn lemma_sweep_from(s: LoopState, closed: [[bool; 6]; 6], line: nat)
    requires
        s.wf(),
        line < LINES,
        s.phase == Phase::DriveLow(line as usize),
        s.snapshot == partial_scan(s.mapping, closed, line as int),
    ensures
        s.run(sweep_events(closed, line)) == (LoopState {
            phase: Phase::AwaitInput,
            snapshot: scanned(s.mapping, closed),
            ..s
        }),
    decreases LINES - line,
{
    let evs = line_events(closed@[line as int]);
    lemma_run_concat(s, evs, sweep_events(closed, line + 1));
    let s1 = s.next(evs[0]);
    let s2 = s1.next(evs[1]);
    let s3 = s2.next(evs[2]);
    let s4 = s3.next(evs[3]);
    assert(evs.drop_first().drop_first().drop_first().drop_first() =~= Seq::<Event>::empty());
    assert(s.run(evs) == s4) by {
        assert(evs.drop_first()[0] == evs[1]);
        assert(evs.drop_first().drop_first()[0] == evs[2]);
        assert(evs.drop_first().drop_first().drop_first()[0] == evs[3]);
        reveal_with_fuel(LoopState::run, 5);
    }
    let next_partial = partial_scan(s.mapping, closed, (line + 1) as int);
    assert(s4.snapshot =~= next_partial);
    if line + 1 < LINES {
        lemma_sweep_from(s4, closed, line + 1);
    } else {
        assert(sweep_events(closed, line + 1) =~= Seq::<Event>::empty());
        assert(next_partial =~= scanned(s.mapping, closed));
    }
}

/// A sweep started on a fresh cycle and answered with the columns
/// `closed[line]` of each line in turn leaves the loop waiting for the input
/// boundary, holding exactly the snapshot that `scan` builds from the same
/// closures.
pub proof fn lemma_sweep_builds_scan(s: LoopState, closed: [[bool; 6]; 6])
    requires
        s.wf(),
        s.phase == Phase::DriveLow(0),
        is_silent(s.snapshot),
    ensures
        s.run(sweep_events(closed, 0)) == (LoopState {
            phase: Phase::AwaitInput,
            snapshot: scanned(s.mapping, closed),
            ..s
        }),
{
    assert(s.snapshot =~= partial_scan(s.mapping, closed, 0));
    lemma_sweep_from(s, closed, 0);
}

/// Decides whether a report submission outcome lets the loop go on.
pub fn write_outcome_tolerated(r: &Result<(), UsbHidError>) -> (t: bool)
    ensures
        t == write_tolerated(*r),
{
    match r {
        Ok(_) => true,
        Err(UsbHidError::WouldBlock) => true,
        Err(UsbHidError::Duplicate) => true,
        Err(_) => false,
    }
}

/// Decides whether a maintenance call outcome lets the loop go on.
pub fn tick_outcome_tolerated(r: &Result<(), UsbHidError>) -> (t: bool)
    ensures
        t == tick_tolerated(*r),
{
    match r {
        Ok(_) => true,
        Err(UsbHidError::WouldBlock) => true,
        Err(_) => false,
    }
}

/// The scan-and-report loop of one keyboard half.
pub struct KeyboardLoop {
    mapping: KeyMapping,
    phase: Phase,
    snapshot: [Keyboard; 36],
}

impl View for KeyboardLoop {
    type V = LoopState;

    closed spec fn view(&self) -> LoopState {
        LoopState { mapping: self.mapping, phase: self.phase, snapshot: self.snapshot@ }
    }
}

impl KeyboardLoop {
    /// A loop about to assert the first line, with an empty snapshot.
    pub fn new(mapping: KeyMapping) -> (r: KeyboardLoop)
        ensures
            r@.wf(),
            r@.mapping == mapping,
            r@.phase == Phase::DriveLow(0),
            is_silent(r@.snapshot),
    {
        KeyboardLoop { mapping, phase: Phase::DriveLow(0), snapshot: empty_snapshot() }
    }

    /// Where the loop stands.
    pub fn phase(&self) -> (r: Phase)
        ensures
            r == self@.phase,
    {
        self.phase
    }

    /// The snapshot as it stands.
    pub fn snapshot(&self) -> (r: [Keyboard; 36])
        ensures
            r@ == self@.snapshot,
    {
        self.snapshot
    }

    /// The action that the loop asks for now.
    pub fn action(&self) -> (r: Action)
        requires
            self@.wf(),
        ensures
            self@.asks_for(r),
    {
        match self.phase {
            Phase::DriveLow(l) => Action::DriveLow(l),
            Phase::Settle(_) => Action::WaitTick,
            Phase::Sample(l) => Action::SampleColumns(l),
            Phase::DriveHigh(l) => Action::DriveHigh(l),
            Phase::AwaitInput => Action::WaitInput,
            Phase::Submit => Action::WriteReport(self.snapshot),
            Phase::AwaitTick => Action::WaitTick,
            Phase::Maintain => Action::Maintain,
            Phase::Poll => Action::PollBus,
            Phase::Read => Action::ReadReport,
            Phase::Halted => Action::Halt,
        }
    }

    fn restart(&mut self)
        ensures
            final(self)@ == old(self)@.restart(),
    {
        self.phase = Phase::DriveLow(0);
        self.snapshot = empty_snapshot();
        assert(self.snapshot@ =~= old(self)@.restart().snapshot);
    }

    /// Takes in what the caller observed and returns the next action.
    pub fn step(&mut self, event: &Event) -> (r: Action)
        requires
            old(self)@.wf(),
        ensures
            final(self)@ == old(self)@.next(*event),
            final(self)@.wf(),
            final(self)@.asks_for(r),
    {
        match (self.phase, event) {
            (Phase::DriveLow(l), Event::LineDriven) => {
                self.phase = Phase::Settle(l);
            },
            (Phase::Settle(l), Event::TickElapsed) => {
                self.phase = Phase::Sample(l);
            },
            (Phase::Sample(l), Event::Columns(closed)) => {
                record_line(&mut self.snapshot, &self.mapping, l, closed);
                self.phase = Phase::DriveHigh(l);
            },
            (Phase::DriveHigh(l), Event::LineDriven) => {
                if l + 1 < LINES {
                    self.phase = Phase::DriveLow(l + 1);
                } else {
                    self.phase = Phase::AwaitInput;
                }
            },
            (Phase::AwaitInput, Event::InputElapsed) => {
                self.phase = Phase::Submit;
            },
            (Phase::Submit, Event::Written(r)) => {
                if write_outcome_tolerated(r) {
                    self.phase = Phase::AwaitTick;
                } else {
                    self.phase = Phase::Halted;
                }
            },
            (Phase::AwaitTick, Event::TickElapsed) => {
                self.phase = Phase::Maintain;
            },
            (Phase::Maintain, Event::Ticked(r)) => {
                if tick_outcome_tolerated(r) {
                    self.phase = Phase::Poll;
                } else {
                    self.phase = Phase::Halted;
                }
            },
            (Phase::Poll, Event::Polled(active)) => {
                if *active {
                    self.phase = Phase::Read;
                } else {
                    self.restart();
                }
            },
            (Phase::Read, Event::Read(_)) => {
                self.restart();
            },
            _ => {},
        }
        self.action()
    }
}

} // verus!
