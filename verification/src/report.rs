//! The boot-keyboard report that tells the host which keys are down.

use crate::matrix::{in_scan_order, keycode_of, KeyPosition, ScanResult, REPORT_SLOTS};
use vstd::prelude::*;

verus! {

/// One boot-keyboard report: a modifier byte, a reserved byte, the LED byte
/// and six keycode slots. This keyboard has no modifier keys and no LEDs, so
/// only the keycode slots ever differ from zero.
#[derive(Clone, Copy, Debug, PartialEq, Eq)]
pub struct KeyboardReport {
    pub modifier: u8,
    pub reserved: u8,
    pub leds: u8,
    pub keycodes: [u8; REPORT_SLOTS],
}

/// What keycode slot `index` holds when the keys `hits` are down: the
/// keycode of the `index`-th of them, or zero when fewer keys are down.
pub open spec fn slot_of(hits: Seq<KeyPosition>, index: int) -> u8 {
    if 0 <= index < hits.len() {
        keycode_of(hits[index])
    } else {
        0
    }
}

/// The report for the keys `hits`: their keycodes in the same order from the
/// first slot on, zero in every slot after them and in every other byte.
pub open spec fn report_of(hits: Seq<KeyPosition>) -> KeyboardReport {
    KeyboardReport {
        modifier: 0,
        reserved: 0,
        leds: 0,
        keycodes: [
            slot_of(hits, 0),
            slot_of(hits, 1),
            slot_of(hits, 2),
            slot_of(hits, 3),
            slot_of(hits, 4),
            slot_of(hits, 5),
        ],
    }
}

/// Slot by slot, the report for `hits` holds the keycode of each key that is
/// down, in order, and nothing else.
pub proof fn report_holds_exactly_the_hits(hits: Seq<KeyPosition>)
    ensures
        report_of(hits).modifier == 0,
        report_of(hits).reserved == 0,
        report_of(hits).leds == 0,
        forall|i: int|
            0 <= i < hits.len() && i < REPORT_SLOTS ==> #[trigger] report_of(hits).keycodes@[i]
                == keycode_of(hits[i]),
        forall|i: int|
            hits.len() <= i < REPORT_SLOTS ==> #[trigger] report_of(hits).keycodes@[i] == 0,
{
}

impl KeyboardReport {
    /// The report sent while no key is down: every byte zero.
    pub fn empty() -> (report: KeyboardReport)
        ensures
            report == report_of(Seq::empty()),
            report.modifier == 0 && report.reserved == 0 && report.leds == 0,
            forall|i: int| 0 <= i < REPORT_SLOTS ==> report.keycodes@[i] == 0,
    {
        let report = KeyboardReport {
            modifier: 0,
            reserved: 0,
            leds: 0,
            keycodes: [0u8;REPORT_SLOTS],
        };
        proof {
            assert(report.keycodes =~= report_of(Seq::empty()).keycodes);
        }
        report
    }

    /// Builds the report for the keys that a scan found: each key's keycode
    /// from the table, in scan order from the first slot on, and zero in the
    /// slots that are left.
    pub fn from_scan(scan: &ScanResult) -> (report: KeyboardReport)
        ensures
            report == report_of(scan@),
            report.modifier == 0 && report.reserved == 0 && report.leds == 0,
            forall|i: int| 0 <= i < scan@.len() ==> report.keycodes@[i] == keycode_of(scan@[i]),
            forall|i: int| scan@.len() <= i < REPORT_SLOTS ==> report.keycodes@[i] == 0,
    {
        let mut keycodes: [u8; REPORT_SLOTS] = [0u8;REPORT_SLOTS];
        let count: usize = scan.len();
        let mut index: usize = 0;
        while index < count
            invariant
                index <= count,
                count == scan@.len(),
                count <= REPORT_SLOTS,
                in_scan_order(scan@),
                forall|i: int| 0 <= i < index ==> keycodes@[i] == keycode_of(scan@[i]),
                forall|i: int| index <= i < REPORT_SLOTS ==> keycodes@[i] == 0,
            decreases count - index,
        {
            if let Some(pos) = scan.get(index) {
                if let Some(code) = pos.keycode() {
                    keycodes[index] = code;
                }
            }
            index += 1;
        }
        let report = KeyboardReport { modifier: 0, reserved: 0, leds: 0, keycodes };
        proof {
            assert(report.keycodes =~= report_of(scan@).keycodes);
        }
        report
    }
}

} // verus!
