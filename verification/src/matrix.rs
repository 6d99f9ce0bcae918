//! The key matrix: its positions, the keycode each one sends, and the result
//! of scanning it once.
//!
//! The matrix has one strobe line and two sense lines. A key sits where a
//! strobe line crosses a sense line; while the strobe line is driven high, the
//! sense line of a pressed key reads high. A scan visits the positions in a
//! fixed order, strobe line by strobe line and, within one strobe line, sense
//! line by sense line.

use vstd::prelude::*;

verus! {

/// Strobe lines of the matrix.
pub const STROBE_LINES: usize = 1;

/// Sense lines sampled while a strobe line is driven high.
pub const SENSE_LINES: usize = 2;

/// Physical key positions: one for each pair of a strobe and a sense line.
pub const MATRIX_POSITIONS: usize = STROBE_LINES * SENSE_LINES;

/// Keycode slots of a boot-keyboard report.
pub const REPORT_SLOTS: usize = 6;

/// Usage id sent for the key on the first sense line, row 1: the key `2`.
pub const KEYCODE_ROW1: u8 = 0x1f;

/// Usage id sent for the key on the second sense line, row 2: the key `Y`.
pub const KEYCODE_ROW2: u8 = 0x1c;

/// A place in the key matrix, named by the line that strobes it and the line
/// that senses it.
#[derive(Clone, Copy, Debug, PartialEq, Eq, Structural)]
pub struct KeyPosition {
    pub strobe: u8,
    pub sense: u8,
}

impl KeyPosition {
    /// Whether a key of the matrix sits at this position.
    pub open spec fn in_matrix(self) -> bool {
        self.strobe < STROBE_LINES && self.sense < SENSE_LINES
    }

    /// The turn of this position in a scan, counted from zero.
    pub open spec fn scan_rank(self) -> int {
        self.strobe * SENSE_LINES + self.sense
    }

    /// Tells whether a key of the matrix sits at this position.
    pub fn is_in_matrix(&self) -> (yes: bool)
        ensures
            yes == self.in_matrix(),
    {
        (self.strobe as usize) < STROBE_LINES && (self.sense as usize) < SENSE_LINES
    }

    /// The turn of this position in a scan, counted from zero.
    pub fn rank(&self) -> (rank: usize)
        ensures
            rank == self.scan_rank(),
    {
        self.strobe as usize * SENSE_LINES + self.sense as usize
    }

    /// Looks the position up in the keycode table: the usage id of its key,
    /// or `None` where the matrix has no key.
    pub fn keycode(&self) -> (code: Option<u8>)
        ensures
            code == if self.in_matrix() {
                Some(keycode_of(*self))
            } else {
                None
            },
    {
        if !self.is_in_matrix() {
            None
        } else if self.sense == 0 {
            Some(KEYCODE_ROW1)
        } else {
            Some(KEYCODE_ROW2)
        }
    }
}

/// The keycode table: the usage id that the key at `pos` sends. It has an
/// entry for each position of the matrix and is never changed.
pub open spec fn keycode_of(pos: KeyPosition) -> u8
    recommends
        pos.in_matrix(),
{
    if pos.sense == 0 {
        KEYCODE_ROW1
    } else {
        KEYCODE_ROW2
    }
}

/// No two keys of the matrix send the same keycode: from a keycode in a
/// report the host can tell which key is down.
pub proof fn keys_send_distinct_keycodes(a: KeyPosition, b: KeyPosition)
    requires
        a.in_matrix(),
        b.in_matrix(),
        a != b,
    ensures
        keycode_of(a) != keycode_of(b),
{
}

/// Positions of the matrix, each at most once, in the order a scan visits them.
pub open spec fn in_scan_order(hits: Seq<KeyPosition>) -> bool {
    &&& forall|i: int| 0 <= i < hits.len() ==> (#[trigger] hits[i]).in_matrix()
    &&& forall|i: int, j: int|
        0 <= i < j < hits.len() ==> (#[trigger] hits[i]).scan_rank() < (
        #[trigger] hits[j]).scan_rank()
}

/// Whether a scan that has found `hits` so far may find `pos` next.
pub open spec fn can_follow(hits: Seq<KeyPosition>, pos: KeyPosition) -> bool {
    &&& pos.in_matrix()
    &&& hits.len() < REPORT_SLOTS
    &&& hits.len() > 0 ==> hits.last().scan_rank() < pos.scan_rank()
}

/// The pressed keys that one pass over the first strobe line finds, given the
/// level read from each of its sense lines: the positions whose line read
/// high, in sense-line order.
pub open spec fn matched(levels: Seq<bool>) -> Seq<KeyPosition>
    recommends
        levels.len() <= SENSE_LINES,
    decreases levels.len(),
{
    if levels.len() == 0 {
        Seq::empty()
    } else {
        let before = matched(levels.drop_last());
        if levels.last() {
            before.push(KeyPosition { strobe: 0, sense: (levels.len() - 1) as u8 })
        } else {
            before
        }
    }
}

/// The `n`-th hit of a scan has at least rank `n`: no two hits share a
/// position.
pub proof fn lemma_rank_bounds_index(hits: Seq<KeyPosition>, n: int)
    requires
        in_scan_order(hits),
        0 <= n < hits.len(),
    ensures
        n <= hits[n].scan_rank() < MATRIX_POSITIONS,
    decreases n,
{
    if n > 0 {
        lemma_rank_bounds_index(hits, n - 1);
    }
}

/// A scan never finds more keys than the matrix has, and what it finds
/// always fits the keycode slots of a report.
pub proof fn scan_fits_matrix_and_report(hits: Seq<KeyPosition>)
    requires
        in_scan_order(hits),
    ensures
        hits.len() <= MATRIX_POSITIONS <= REPORT_SLOTS,
{
    if hits.len() > 0 {
        lemma_rank_bounds_index(hits, hits.len() - 1);
    }
}

/// What a pass finds is exactly the set of positions whose sense line read
/// high, each once and in scan order.
pub proof fn matched_is_the_pressed_keys(levels: Seq<bool>)
    requires
        levels.len() <= SENSE_LINES,
    ensures
        in_scan_order(matched(levels)),
        forall|pos: KeyPosition| #[trigger]
            matched(levels).contains(pos) <==> pos.strobe == 0 && pos.sense < levels.len()
                && levels[pos.sense as int],
    decreases levels.len(),
{
    let found = matched(levels);
    if levels.len() > 0 {
        let before = matched(levels.drop_last());
        let line = KeyPosition { strobe: 0, sense: (levels.len() - 1) as u8 };
        matched_is_the_pressed_keys(levels.drop_last());
        assert forall|i: int| 0 <= i < before.len() implies (#[trigger] before[i]).scan_rank()
            < line.scan_rank() by {
            assert(before.contains(before[i]));
        }
        assert forall|pos: KeyPosition| #[trigger]
            found.contains(pos) <==> pos.strobe == 0 && pos.sense < levels.len()
                && levels[pos.sense as int] by {
            if levels.last() {
                assert(found == before.push(line));
                assert(found[before.len() as int] == line);
                if found.contains(pos) {
                    let i = choose|i: int| 0 <= i < found.len() && found[i] == pos;
                    if i < before.len() {
                        assert(before[i] == pos);
                        assert(before.contains(pos));
                    }
                } else {
                    if before.contains(pos) {
                        let i = choose|i: int| 0 <= i < before.len() && before[i] == pos;
                        assert(found[i] == pos);
                    }
                }
            }
            assert(before.contains(pos) <==> pos.strobe == 0 && pos.sense < levels.len() - 1
                && levels.drop_last()[pos.sense as int]);
        }
    } else {
        assert forall|pos: KeyPosition| !(#[trigger] found.contains(pos)) by {}
    }
}

/// With the two sense lines of this matrix, a pass finds the key on the first
/// line if that line read high, then the key on the second line if that one
/// did: zero, one or two keys, the first line's key always first.
pub proof fn matched_on_two_lines(first: bool, second: bool)
    ensures
        matched(seq![first, second]) == if first && second {
            seq![KeyPosition { strobe: 0, sense: 0 }, KeyPosition { strobe: 0, sense: 1 }]
        } else if first {
            seq![KeyPosition { strobe: 0, sense: 0 }]
        } else if second {
            seq![KeyPosition { strobe: 0, sense: 1 }]
        } else {
            Seq::empty()
        },
{
    let levels = seq![first, second];
    reveal_with_fuel(matched, 3);
    assert(levels.drop_last() =~= seq![first]);
    assert(levels.drop_last().drop_last() =~= Seq::<bool>::empty());
    assert(matched(levels) =~= if first && second {
        seq![KeyPosition { strobe: 0, sense: 0 }, KeyPosition { strobe: 0, sense: 1 }]
    } else if first {
        seq![KeyPosition { strobe: 0, sense: 0 }]
    } else if second {
        seq![KeyPosition { strobe: 0, sense: 1 }]
    } else {
        Seq::empty()
    });
}

/// The keys found pressed in one scan of the matrix, in scan order.
///
/// It holds as many positions as a report has keycode slots; the slots past
/// the last key found stay at the first position of the matrix and are never
/// read.
#[derive(Clone, Copy, Debug, PartialEq, Eq)]
pub struct ScanResult {
    hits: [KeyPosition; REPORT_SLOTS],
    count: usize,
}

impl View for ScanResult {
    type V = Seq<KeyPosition>;

    closed spec fn view(&self) -> Seq<KeyPosition> {
        self.hits@.take(self.count as int)
    }
}

impl ScanResult {
    #[verifier::type_invariant]
    spec fn well_formed(self) -> bool {
        &&& self.count <= REPORT_SLOTS
        &&& in_scan_order(self.hits@.take(self.count as int))
        &&& forall|i: int|
            self.count <= i < REPORT_SLOTS ==> self.hits@[i] == (KeyPosition {
                strobe: 0,
                sense: 0,
            })
    }

    /// The result of a scan that found no key pressed.
    pub fn new() -> (empty: ScanResult)
        ensures
            empty@ == Seq::<KeyPosition>::empty(),
    {
        ScanResult { hits: [KeyPosition { strobe: 0, sense: 0 };REPORT_SLOTS], count: 0 }
    }

    /// How many keys the scan found.
    pub fn len(&self) -> (count: usize)
        ensures
            count == self@.len(),
            count <= MATRIX_POSITIONS,
            in_scan_order(self@),
    {
        proof {
            use_type_invariant(self);
            scan_fits_matrix_and_report(self@);
        }
        self.count
    }

    /// The `index`-th key that the scan found, if it found that many.
    pub fn get(&self, index: usize) -> (hit: Option<KeyPosition>)
        ensures
            hit == if index < self@.len() {
                Some(self@[index as int])
            } else {
                None
            },
            in_scan_order(self@),
    {
        proof {
            use_type_invariant(self);
        }
        if index < self.count {
            Some(self.hits[index])
        } else {
            None
        }
    }

    /// Adds `pos` as the next key found. A scan visits each position of the
    /// matrix once and in order, so `pos` is taken only if it lies in the
    /// matrix after the last key found, and a keycode slot is left for it;
    /// otherwise the result stays as it was.
    pub fn record(&mut self, pos: KeyPosition) -> (recorded: bool)
        ensures
            recorded == can_follow(old(self)@, pos),
            final(self)@ == if recorded {
                old(self)@.push(pos)
            } else {
                old(self)@
            },
            in_scan_order(final(self)@),
    {
        proof {
            use_type_invariant(&*self);
        }
        let count: usize = self.count;
        if !pos.is_in_matrix() || count >= REPORT_SLOTS {
            return false;
        }
        if count > 0 && self.hits[count - 1].rank() >= pos.rank() {
            return false;
        }
        let mut hits = self.hits;
        hits[count] = pos;
        proof {
            let before = self.hits@.take(count as int);
            let after = hits@.take(count + 1);
            assert(after =~= before.push(pos));
            assert forall|i: int, j: int| 0 <= i < j < after.len() implies (
            #[trigger] after[i]).scan_rank() < (#[trigger] after[j]).scan_rank() by {
                if j == count && i < count - 1 {
                    assert(before[i].scan_rank() < before[count - 1].scan_rank());
                }
            }
        }
        *self = ScanResult { hits, count: count + 1 };
        true
    }
}

/// Scans the first strobe line of the matrix: given the level read from each
/// of its sense lines while it was driven high, returns the keys that are
/// pressed, in sense-line order.
pub fn scan(levels: &[bool; SENSE_LINES]) -> (found: ScanResult)
    ensures
        found@ == matched(levels@),
        in_scan_order(found@),
        found@.len() <= MATRIX_POSITIONS <= REPORT_SLOTS,
{
    let mut found = ScanResult::new();
    let mut line: u8 = 0;
    while (line as usize) < SENSE_LINES
        invariant
            line <= SENSE_LINES,
            found@ == matched(levels@.take(line as int)),
        decreases SENSE_LINES - line,
    {
        let ghost seen = levels@.take(line as int);
        let ghost next = levels@.take(line + 1);
        let pos = KeyPosition { strobe: 0, sense: line };
        proof {
            assert(next.drop_last() == seen);
            assert(next.last() == levels@[line as int]);
            matched_is_the_pressed_keys(seen);
            scan_fits_matrix_and_report(found@);
            if found@.len() > 0 {
                assert(found@.contains(found@.last()));
            }
            assert(can_follow(found@, pos));
        }
        if levels[line as usize] {
            found.record(pos);
        }
        line += 1;
    }
    proof {
        assert(levels@.take(SENSE_LINES as int) == levels@);
        matched_is_the_pressed_keys(levels@);
        scan_fits_matrix_and_report(found@);
    }
    found
}

} // verus!
