//! The keyboard's endless cycle, as a state machine.
//!
//! In every cycle the firmware polls the USB stack, drives the strobe line
//! high, lets the lines settle, reads each sense line, lets the lines settle
//! again, drives the strobe line low, and submits a report of the keys it
//! found down. The machine decides; the firmware acts. A [`Cycle`] names the
//! one [`Action`] that is due, the firmware carries it out and hands back what
//! came of it as an [`Event`], and [`Cycle::step`] answers with the state that
//! follows and the action that is due then.
//!
//! Nothing is kept from one cycle to the next: each starts from the same
//! state, and its report tells only what its own samples showed.

use crate::matrix::{
    in_scan_order, keycode_of, matched, matched_is_the_pressed_keys, matched_on_two_lines, scan,
    scan_fits_matrix_and_report, MATRIX_POSITIONS, REPORT_SLOTS, SENSE_LINES,
};
use crate::report::{report_holds_exactly_the_hits, report_of, KeyboardReport};
use vstd::prelude::*;

verus! {

/// How many times the firmware spins on a no-op to let the lines settle,
/// after driving the strobe line high and again before driving it low.
pub const SETTLE_SPINS: u32 = 10000;

/// Where in its cycle the keyboard is: which action it is waiting on.
#[derive(Clone, Copy, Debug, PartialEq, Eq)]
pub enum Stage {
    /// The USB stack is being polled.
    Poll,
    /// The strobe line is being driven high.
    StrobeHigh,
    /// The lines settle before the sense lines are read.
    SettleBefore,
    /// The sense line of this number is being read.
    Sample(u8),
    /// The lines settle after the sense lines were read.
    SettleAfter,
    /// The strobe line is being driven low.
    StrobeLow,
    /// The report of this cycle is being submitted.
    Report,
    /// A pin failed. The keyboard has stopped for good.
    Halted,
}

/// What the firmware is to do next.
#[derive(Clone, Copy, Debug, PartialEq, Eq)]
pub enum Action {
    /// Poll the USB device and its HID class once.
    PollUsb,
    /// Drive the strobe line high.
    StrobeHigh,
    /// Spin on a no-op this many times.
    Settle(u32),
    /// Read the sense line of this number.
    ReadSense(u8),
    /// Drive the strobe line low.
    StrobeLow,
    /// Submit this report to the HID endpoint, once.
    Submit(KeyboardReport),
    /// Stop: trap into the halted state and stay there.
    Halt,
}

/// What came of the action that was due.
#[derive(Clone, Copy, Debug, PartialEq, Eq)]
pub enum Event {
    /// The action was carried out, and there is nothing to tell of it.
    Done,
    /// The sense line was read, and it was high (`true`) or low (`false`).
    Level(bool),
    /// The platform reported a failure.
    Fault,
}

/// The state of a cycle, as the contracts see it: the stage, and for each
/// sense line the level that this cycle has read from it, low for a line that
/// it has not read yet.
pub struct CycleView {
    pub stage: Stage,
    pub levels: Seq<bool>,
}

impl CycleView {
    /// The state in `stage` with every level low.
    pub open spec fn idle(stage: Stage) -> CycleView {
        CycleView { stage, levels: Seq::new(SENSE_LINES as nat, |line: int| false) }
    }

    /// The state in which every cycle starts.
    pub open spec fn initial() -> CycleView {
        Self::idle(Stage::Poll)
    }

    /// The state in which the keyboard has stopped.
    pub open spec fn halted() -> CycleView {
        Self::idle(Stage::Halted)
    }

    /// How many sense lines the cycle has read when it is in this state.
    pub open spec fn lines_read(self) -> int {
        match self.stage {
            Stage::Poll | Stage::StrobeHigh | Stage::SettleBefore | Stage::Halted => 0,
            Stage::Sample(line) => line as int,
            Stage::SettleAfter | Stage::StrobeLow | Stage::Report => SENSE_LINES as int,
        }
    }

    /// The states that a cycle can be in: there is a level for each sense
    /// line, the line being read exists, and no line that is still to be read
    /// has a level but low.
    pub open spec fn wf(self) -> bool {
        &&& self.levels.len() == SENSE_LINES
        &&& self.lines_read() <= SENSE_LINES
        &&& self.stage matches Stage::Sample(line) ==> line < SENSE_LINES
        &&& forall|line: int| self.lines_read() <= line < SENSE_LINES ==> !self.levels[line]
    }

    /// This state in another stage.
    pub open spec fn at(self, stage: Stage) -> CycleView {
        CycleView { stage, levels: self.levels }
    }

    /// The action that is due in this state.
    pub open spec fn action(self) -> Action {
        match self.stage {
            Stage::Poll => Action::PollUsb,
            Stage::StrobeHigh => Action::StrobeHigh,
            Stage::SettleBefore | Stage::SettleAfter => Action::Settle(SETTLE_SPINS),
            Stage::Sample(line) => Action::ReadSense(line),
            Stage::StrobeLow => Action::StrobeLow,
            Stage::Report => Action::Submit(report_of(matched(self.levels))),
            Stage::Halted => Action::Halt,
        }
    }

    /// The state that follows this one when the action that was due gave
    /// `event`.
    ///
    /// What the poll and the submission give is not looked at: a report that
    /// the host did not take is dropped, and the next cycle sends a fresh one.
    /// Driving the strobe line, settling and reading a sense line must give
    /// what they are meant to give, `Done` or a level; anything else stops the
    /// keyboard.
    pub open spec fn next(self, event: Event) -> CycleView {
        match self.stage {
            Stage::Poll => self.at(Stage::StrobeHigh),
            Stage::StrobeHigh => if event is Done {
                self.at(Stage::SettleBefore)
            } else {
                Self::halted()
            },
            Stage::SettleBefore => if event is Done {
                self.at(Stage::Sample(0))
            } else {
                Self::halted()
            },
            Stage::Sample(line) => match event {
                Event::Level(high) => CycleView {
                    stage: if line + 1 < SENSE_LINES {
                        Stage::Sample((line + 1) as u8)
                    } else {
                        Stage::SettleAfter
                    },
                    levels: self.levels.update(line as int, high),
                },
                _ => Self::halted(),
            },
            Stage::SettleAfter => if event is Done {
                self.at(Stage::StrobeLow)
            } else {
                Self::halted()
            },
            Stage::StrobeLow => if event is Done {
                self.at(Stage::Report)
            } else {
                Self::halted()
            },
            Stage::Report => Self::initial(),
            Stage::Halted => Self::halted(),
        }
    }
}

/// The keyboard's cycle: where it stands, and what it has sampled since the
/// cycle began.
#[derive(Clone, Copy, Debug, PartialEq, Eq)]
pub struct Cycle {
    stage: Stage,
    levels: [bool; SENSE_LINES],
}

impl View for Cycle {
    type V = CycleView;

    closed spec fn view(&self) -> CycleView {
        CycleView { stage: self.stage, levels: self.levels@ }
    }
}

impl Cycle {
    #[verifier::type_invariant]
    spec fn well_formed(self) -> bool {
        self@.wf()
    }

    fn idle(stage: Stage) -> (cycle: Cycle)
        requires
            !(stage is Sample),
        ensures
            cycle@ == CycleView::idle(stage),
    {
        let cycle = Cycle { stage, levels: [false;SENSE_LINES] };
        proof {
            assert(cycle@.levels =~= CycleView::idle(stage).levels);
        }
        cycle
    }

    /// The state in which every cycle starts: the poll is due, and nothing
    /// has been sampled.
    pub fn new() -> (cycle: Cycle)
        ensures
            cycle@ == CycleView::initial(),
            cycle@.wf(),
    {
        Cycle::idle(Stage::Poll)
    }

    /// The stage the cycle is in.
    pub fn stage(&self) -> (stage: Stage)
        ensures
            stage == self@.stage,
            self@.wf(),
    {
        proof {
            use_type_invariant(self);
        }
        self.stage
    }

    /// The action that is due now.
    pub fn action(&self) -> (action: Action)
        ensures
            action == self@.action(),
            self@.wf(),
    {
        proof {
            use_type_invariant(self);
        }
        match self.stage {
            Stage::Poll => Action::PollUsb,
            Stage::StrobeHigh => Action::StrobeHigh,
            Stage::SettleBefore => Action::Settle(SETTLE_SPINS),
            Stage::Sample(line) => Action::ReadSense(line),
            Stage::SettleAfter => Action::Settle(SETTLE_SPINS),
            Stage::StrobeLow => Action::StrobeLow,
            Stage::Report => {
                let found = scan(&self.levels);
                Action::Submit(KeyboardReport::from_scan(&found))
            },
            Stage::Halted => Action::Halt,
        }
    }

    /// Takes what came of the action that was due, and gives the state that
    /// follows together with the action that is due in it.
    pub fn step(self, event: Event) -> (out: (Cycle, Action))
        ensures
            out.0@ == self@.next(event),
            out.1 == self@.next(event).action(),
            self@.wf(),
            out.0@.wf(),
    {
        proof {
            use_type_invariant(&self);
        }
        let next = match self.stage {
            Stage::Poll => Cycle { stage: Stage::StrobeHigh, levels: self.levels },
            Stage::StrobeHigh => match event {
                Event::Done => Cycle { stage: Stage::SettleBefore, levels: self.levels },
                _ => Cycle::idle(Stage::Halted),
            },
            Stage::SettleBefore => match event {
                Event::Done => Cycle { stage: Stage::Sample(0), levels: self.levels },
                _ => Cycle::idle(Stage::Halted),
            },
            Stage::Sample(line) => match event {
                Event::Level(high) => {
                    let mut levels = self.levels;
                    levels[line as usize] = high;
                    let stage = if (line as usize) + 1 < SENSE_LINES {
                        Stage::Sample(line + 1)
                    } else {
                        Stage::SettleAfter
                    };
                    Cycle { stage, levels }
                },
                _ => Cycle::idle(Stage::Halted),
            },
            Stage::SettleAfter => match event {
                Event::Done => Cycle { stage: Stage::StrobeLow, levels: self.levels },
                _ => Cycle::idle(Stage::Halted),
            },
            Stage::StrobeLow => match event {
                Event::Done => Cycle { stage: Stage::Report, levels: self.levels },
                _ => Cycle::idle(Stage::Halted),
            },
            Stage::Report => Cycle::idle(Stage::Poll),
            Stage::Halted => Cycle::idle(Stage::Halted),
        };
        let action = next.action();
        (next, action)
    }
}

/// The state in which a cycle stands once it has sampled: it began in
/// `start`, its poll gave `polled`, the strobe line and the settling did
/// their work, and the sense lines read `first` and `second`.
pub open spec fn ready_to_report(
    start: CycleView,
    polled: Event,
    first: bool,
    second: bool,
) -> CycleView {
    start.next(polled).next(Event::Done).next(Event::Done).next(Event::Level(first)).next(
        Event::Level(second),
    ).next(Event::Done).next(Event::Done)
}

/// A cycle starts in a state of the cycle.
pub proof fn the_first_state_is_in_the_cycle()
    ensures
        CycleView::initial().wf(),
{
}

/// From a state of the cycle, whatever happens leads to a state of the cycle.
pub proof fn every_step_stays_in_the_cycle(state: CycleView, event: Event)
    requires
        state.wf(),
    ensures
        state.next(event).wf(),
{
}

/// In no state of the cycle are more keys down than the matrix has, nor more
/// than a report has slots for.
pub proof fn no_state_holds_more_keys_than_the_matrix(state: CycleView)
    requires
        state.wf(),
    ensures
        in_scan_order(matched(state.levels)),
        matched(state.levels).len() <= MATRIX_POSITIONS <= REPORT_SLOTS,
{
    matched_is_the_pressed_keys(state.levels);
    scan_fits_matrix_and_report(matched(state.levels));
}

/// A cycle asks for its actions in one fixed order: poll, strobe high,
/// settle, read the first sense line, read the second, settle, strobe low,
/// submit.
pub proof fn a_cycle_visits_its_stages_in_order(polled: Event, first: bool, second: bool)
    ensures
        ({
            let poll = CycleView::initial();
            let strobe_high = poll.next(polled);
            let settle_before = strobe_high.next(Event::Done);
            let sample_first = settle_before.next(Event::Done);
            let sample_second = sample_first.next(Event::Level(first));
            let settle_after = sample_second.next(Event::Level(second));
            let strobe_low = settle_after.next(Event::Done);
            let report = strobe_low.next(Event::Done);
            &&& poll.action() == Action::PollUsb
            &&& strobe_high.action() == Action::StrobeHigh
            &&& settle_before.action() == Action::Settle(SETTLE_SPINS)
            &&& sample_first.action() == Action::ReadSense(0)
            &&& sample_second.action() == Action::ReadSense(1)
            &&& settle_after.action() == Action::Settle(SETTLE_SPINS)
            &&& strobe_low.action() == Action::StrobeLow
            &&& report.stage == Stage::Report
            &&& report == ready_to_report(poll, polled, first, second)
        }),
{
}

/// A cycle submits the report of exactly the keys whose sense lines it read
/// high: their keycodes in scan order from the first slot on, zero in the
/// slots after them, and zero for modifier, reserved byte and LEDs.
pub proof fn a_cycle_reports_the_keys_it_sampled(polled: Event, first: bool, second: bool)
    ensures
        ({
            let hits = matched(seq![first, second]);
            let report = report_of(hits);
            let due = ready_to_report(CycleView::initial(), polled, first, second).action();
            &&& due == Action::Submit(report)
            &&& in_scan_order(hits)
            &&& hits.len() <= MATRIX_POSITIONS
            &&& report.modifier == 0 && report.reserved == 0 && report.leds == 0
            &&& forall|i: int|
                0 <= i < hits.len() ==> #[trigger] report.keycodes@[i] == keycode_of(hits[i])
            &&& forall|i: int|
                hits.len() <= i < REPORT_SLOTS ==> #[trigger] report.keycodes@[i] == 0
        }),
{
    let at_report = ready_to_report(CycleView::initial(), polled, first, second);
    assert(at_report.levels =~= seq![first, second]);
    matched_is_the_pressed_keys(seq![first, second]);
    scan_fits_matrix_and_report(matched(seq![first, second]));
    report_holds_exactly_the_hits(matched(seq![first, second]));
}

/// Whatever a cycle reported and whatever came of its submission, the next
/// cycle starts from the same state as the very first one: nothing is
/// carried over.
pub proof fn every_cycle_starts_afresh(prior: CycleView, submitted: Event)
    requires
        prior.stage == Stage::Report,
    ensures
        prior.next(submitted) == CycleView::initial(),
{
}

/// A cycle that reads both sense lines low submits the report with every
/// byte zero, whatever the cycle before it sampled and reported.
pub proof fn an_idle_cycle_reports_no_key(prior: CycleView, submitted: Event, polled: Event)
    requires
        prior.stage == Stage::Report,
    ensures
        ({
            let report = report_of(Seq::empty());
            let due = ready_to_report(prior.next(submitted), polled, false, false).action();
            &&& due == Action::Submit(report)
            &&& report.modifier == 0 && report.reserved == 0 && report.leds == 0
            &&& forall|i: int| 0 <= i < REPORT_SLOTS ==> #[trigger] report.keycodes@[i] == 0
        }),
{
    a_cycle_reports_the_keys_it_sampled(polled, false, false);
    matched_on_two_lines(false, false);
}

/// The report of a cycle depends on what that cycle sampled and on nothing
/// else: two cycles that read the same levels submit the same report, however
/// the cycles before them went and whatever their polls gave.
pub proof fn same_keys_same_report(
    prior_a: CycleView,
    prior_b: CycleView,
    submitted_a: Event,
    submitted_b: Event,
    polled_a: Event,
    polled_b: Event,
    first: bool,
    second: bool,
)
    requires
        prior_a.stage == Stage::Report,
        prior_b.stage == Stage::Report,
    ensures
        ({
            let start_a = prior_a.next(submitted_a);
            let start_b = prior_b.next(submitted_b);
            ready_to_report(start_a, polled_a, first, second).action() == ready_to_report(
                start_b,
                polled_b,
                first,
                second,
            ).action()
        }),
{
    a_cycle_reports_the_keys_it_sampled(polled_a, first, second);
    a_cycle_reports_the_keys_it_sampled(polled_b, first, second);
}

/// When driving the strobe line, settling or reading a sense line gives
/// anything but what it is meant to give, the keyboard stops; and once it has
/// stopped, nothing starts it again.
pub proof fn a_failing_pin_stops_the_keyboard(state: CycleView, event: Event)
    requires
        match state.stage {
            Stage::Poll | Stage::Report => false,
            Stage::Sample(_) => !(event is Level),
            Stage::Halted => true,
            _ => !(event is Done),
        },
    ensures
        state.next(event) == CycleView::halted(),
        state.next(event).action() == Action::Halt,
        forall|later: Event| #[trigger] state.next(event).next(later) == CycleView::halted(),
{
}

/// While no pin fails the keyboard never stops: the poll and the submission
/// cannot stop it, whatever they give, and every other action leads on when
/// it gives what it is meant to give.
pub proof fn only_a_failing_pin_stops_the_keyboard(state: CycleView, event: Event)
    requires
        match state.stage {
            Stage::Poll | Stage::Report => true,
            Stage::Sample(_) => event is Level,
            Stage::Halted => false,
            _ => event is Done,
        },
    ensures
        state.next(event).stage != Stage::Halted,
{
}

} // verus!
