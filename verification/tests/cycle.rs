use two_key_keyboard::cycle::{Action, Cycle, Event, Stage, SETTLE_SPINS};
use two_key_keyboard::report::KeyboardReport;

fn report(keycodes: [u8; 6]) -> KeyboardReport {
    KeyboardReport { modifier: 0, reserved: 0, leds: 0, keycodes }
}

/// Runs one cycle from its poll to its submission, the sense lines reading
/// `first` and `second`; returns the cycle at its report stage and the
/// actions it asked for on the way, the poll included.
fn run_cycle(start: Cycle, first: bool, second: bool) -> (Cycle, Vec<Action>) {
    let events = [
        Event::Done,
        Event::Done,
        Event::Done,
        Event::Level(first),
        Event::Level(second),
        Event::Done,
        Event::Done,
    ];
    let mut cycle = start;
    let mut actions = vec![cycle.action()];
    for event in events {
        let (next, action) = cycle.step(event);
        assert_eq!(action, next.action());
        cycle = next;
        actions.push(action);
    }
    (cycle, actions)
}

fn submitted(first: bool, second: bool) -> KeyboardReport {
    let (cycle, _) = run_cycle(Cycle::new(), first, second);
    match cycle.action() {
        Action::Submit(report) => report,
        other => panic!("no report is due: {:?}", other),
    }
}

#[test]
fn settle_spins_ten_thousand_times() {
    assert_eq!(SETTLE_SPINS, 10000);
}

#[test]
fn a_new_cycle_polls_first() {
    let cycle = Cycle::new();
    assert_eq!(cycle.stage(), Stage::Poll);
    assert_eq!(cycle.action(), Action::PollUsb);
}

#[test]
fn a_cycle_asks_for_its_actions_in_order() {
    let (cycle, actions) = run_cycle(Cycle::new(), true, false);
    assert_eq!(
        actions,
        vec![
            Action::PollUsb,
            Action::StrobeHigh,
            Action::Settle(10000),
            Action::ReadSense(0),
            Action::ReadSense(1),
            Action::Settle(10000),
            Action::StrobeLow,
            Action::Submit(report([0x1f, 0, 0, 0, 0, 0])),
        ]
    );
    assert_eq!(cycle.stage(), Stage::Report);
}

#[test]
fn a_cycle_passes_through_its_stages_in_order() {
    let mut cycle = Cycle::new();
    let mut stages = vec![cycle.stage()];
    for event in [
        Event::Done,
        Event::Done,
        Event::Done,
        Event::Level(false),
        Event::Level(true),
        Event::Done,
        Event::Done,
        Event::Done,
    ] {
        cycle = cycle.step(event).0;
        stages.push(cycle.stage());
    }
    assert_eq!(
        stages,
        vec![
            Stage::Poll,
            Stage::StrobeHigh,
            Stage::SettleBefore,
            Stage::Sample(0),
            Stage::Sample(1),
            Stage::SettleAfter,
            Stage::StrobeLow,
            Stage::Report,
            Stage::Poll,
        ]
    );
}

#[test]
fn cycle_with_first_key_down() {
    assert_eq!(submitted(true, false), report([0x1f, 0, 0, 0, 0, 0]));
}

#[test]
fn cycle_with_second_key_down() {
    assert_eq!(submitted(false, true), report([0x1c, 0, 0, 0, 0, 0]));
}

#[test]
fn cycle_with_both_keys_down() {
    assert_eq!(submitted(true, true), report([0x1f, 0x1c, 0, 0, 0, 0]));
}

#[test]
fn cycle_with_no_key_down() {
    assert_eq!(submitted(false, false), report([0, 0, 0, 0, 0, 0]));
    assert_eq!(submitted(false, false), KeyboardReport::empty());
}

#[test]
fn press_then_release_over_four_cycles() {
    let mut cycle = Cycle::new();
    let mut reports = Vec::new();
    for (first, second) in [(true, false), (false, true), (true, true), (false, false)] {
        let (at_report, actions) = run_cycle(cycle, first, second);
        reports.push(actions[7]);
        let (next, action) = at_report.step(Event::Done);
        assert_eq!(action, Action::PollUsb);
        cycle = next;
    }
    assert_eq!(
        reports,
        vec![
            Action::Submit(report([0x1f, 0, 0, 0, 0, 0])),
            Action::Submit(report([0x1c, 0, 0, 0, 0, 0])),
            Action::Submit(report([0x1f, 0x1c, 0, 0, 0, 0])),
            Action::Submit(report([0, 0, 0, 0, 0, 0])),
        ]
    );
}

#[test]
fn idle_cycle_reports_nothing_whatever_came_before() {
    for first in [false, true] {
        for second in [false, true] {
            for outcome in [Event::Done, Event::Fault, Event::Level(true)] {
                let (at_report, _) = run_cycle(Cycle::new(), first, second);
                let (fresh, action) = at_report.step(outcome);
                assert_eq!(action, Action::PollUsb);
                assert_eq!(fresh, Cycle::new());
                let (_, actions) = run_cycle(fresh, false, false);
                assert_eq!(actions[7], Action::Submit(report([0; 6])));
            }
        }
    }
}

#[test]
fn same_keys_give_the_same_report_in_every_cycle() {
    let mut cycle = Cycle::new();
    for _ in 0..10 {
        let (at_report, actions) = run_cycle(cycle, true, true);
        assert_eq!(actions[7], Action::Submit(report([0x1f, 0x1c, 0, 0, 0, 0])));
        cycle = at_report.step(Event::Fault).0;
    }
}

#[test]
fn a_lost_report_is_dropped() {
    let (at_report, _) = run_cycle(Cycle::new(), true, true);
    assert_eq!(at_report.step(Event::Fault), (Cycle::new(), Action::PollUsb));
    assert_eq!(at_report.step(Event::Done), (Cycle::new(), Action::PollUsb));
}

#[test]
fn whatever_the_poll_gives_the_cycle_goes_on() {
    for outcome in [Event::Done, Event::Fault, Event::Level(false), Event::Level(true)] {
        let (next, action) = Cycle::new().step(outcome);
        assert_eq!(next.stage(), Stage::StrobeHigh);
        assert_eq!(action, Action::StrobeHigh);
    }
}

#[test]
fn a_pin_fault_halts_at_every_pin_stage() {
    let before_fault: [&[Event]; 6] = [
        &[Event::Done],
        &[Event::Done, Event::Done],
        &[Event::Done, Event::Done, Event::Done],
        &[Event::Done, Event::Done, Event::Done, Event::Level(true)],
        &[Event::Done, Event::Done, Event::Done, Event::Level(true), Event::Level(true)],
        &[
            Event::Done,
            Event::Done,
            Event::Done,
            Event::Level(true),
            Event::Level(true),
            Event::Done,
        ],
    ];
    for events in before_fault {
        let mut cycle = Cycle::new();
        for event in events {
            cycle = cycle.step(*event).0;
        }
        assert!(cycle.stage() != Stage::Halted);
        let (halted, action) = cycle.step(Event::Fault);
        assert_eq!(halted.stage(), Stage::Halted);
        assert_eq!(action, Action::Halt);
    }
}

#[test]
fn an_answer_that_does_not_fit_halts() {
    let strobe_high = Cycle::new().step(Event::Done).0;
    assert_eq!(strobe_high.step(Event::Level(true)).1, Action::Halt);
    let settle = strobe_high.step(Event::Done).0;
    assert_eq!(settle.step(Event::Level(false)).1, Action::Halt);
    let sample = settle.step(Event::Done).0;
    assert_eq!(sample.stage(), Stage::Sample(0));
    assert_eq!(sample.step(Event::Done).1, Action::Halt);
}

#[test]
fn once_halted_always_halted() {
    let strobe_high = Cycle::new().step(Event::Done).0;
    let mut cycle = strobe_high.step(Event::Fault).0;
    for event in [Event::Done, Event::Level(true), Event::Level(false), Event::Fault, Event::Done] {
        let (next, action) = cycle.step(event);
        assert_eq!(next.stage(), Stage::Halted);
        assert_eq!(action, Action::Halt);
        assert_eq!(next.action(), Action::Halt);
        cycle = next;
    }
}

#[test]
fn a_halt_forgets_what_was_sampled() {
    let mut cycle = Cycle::new();
    for event in [Event::Done, Event::Done, Event::Done, Event::Level(true)] {
        cycle = cycle.step(event).0;
    }
    let halted_late = cycle.step(Event::Fault).0;
    let halted_early = Cycle::new().step(Event::Done).0.step(Event::Fault).0;
    assert_eq!(halted_late, halted_early);
}
