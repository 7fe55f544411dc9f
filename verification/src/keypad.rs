//! Turning scans of the key matrix into key presses.
//!
//! The firmware drives each column of the 4x3 matrix in turn and reads which
//! rows it pulls low; what it reads is one scan. This is what a scan means: a
//! key counts only on the transition into pressed, so holding a key down does
//! not repeat, and of several keys going down in the same scan the first in
//! reading order wins. Scans are spaced [`SCAN_INTERVAL_MICROS`] apart, so
//! polling in a tight loop costs nothing between them; the caller reads the
//! clock and hands its reading in.

use vstd::prelude::*;

use crate::keymap::LAYOUT;

verus! {

/// Rows of the key matrix.
pub const ROWS: usize = 4;

/// Columns of the key matrix.
pub const COLS: usize = 3;

/// Least time between two scans, in microseconds: long enough for a contact to
/// stop bouncing, short enough that no press is missed.
pub const SCAN_INTERVAL_MICROS: u64 = 10_000;

/// Whether a scan is due at `now`, the last one having been at `last`: a clock
/// reading behind the last scan counts as no time gone by.
pub open spec fn scan_is_due(last: u64, now: u64) -> bool {
    now >= last && now - last >= SCAN_INTERVAL_MICROS
}

/// One scan: which keys are down, row by row, as [`LAYOUT`] lays them out.
pub type Scan = [[bool; 3]; 4];

/// Whether key `index` of the matrix, counted in reading order, is down in
/// `scan`.
pub open spec fn is_down(scan: Scan, index: int) -> bool {
    scan@[index / 3]@[index % 3]
}

/// Whether key `index` went down between `before` and `now`.
pub open spec fn went_down(before: Scan, now: Scan, index: int) -> bool {
    is_down(now, index) && !is_down(before, index)
}

/// The character printed on key `index`, in reading order.
pub open spec fn printed(index: int) -> char {
    LAYOUT@[index / 3]@[index % 3]
}

pub struct Keypad {
    /// The keys down at the last scan.
    pressed: Scan,
    /// When the last scan was taken, in microseconds.
    last_scan: u64,
}

impl View for Keypad {
    type V = Scan;

    /// The last scan.
    closed spec fn view(&self) -> Scan {
        self.pressed
    }
}

impl Keypad {
    /// When the last scan was taken, in microseconds.
    pub closed spec fn scanned_at(self) -> u64 {
        self.last_scan
    }

    /// No key down, with the clock reading `now`: the first scan is due a
    /// [`SCAN_INTERVAL_MICROS`] later.
    pub fn new(now: u64) -> (keypad: Self)
        ensures
            forall|index: int| 0 <= index < 12 ==> !is_down(keypad@, index),
            keypad.scanned_at() == now,
    {
        Self { pressed: [[false; 3]; 4], last_scan: now }
    }

    /// Whether to scan at `now`: only once [`SCAN_INTERVAL_MICROS`] has gone by
    /// since the last scan.
    pub fn scan_due(&self, now: u64) -> (due: bool)
        ensures
            due == scan_is_due(self.scanned_at(), now),
    {
        now >= self.last_scan && now - self.last_scan >= SCAN_INTERVAL_MICROS
    }

    /// Returns the key that went down since the last scan, the first in reading
    /// order when several did, or `None` when none did, taking `scan` as read at
    /// `now`. Cheap to call in a tight loop: before [`SCAN_INTERVAL_MICROS`]
    /// has gone by since the last scan it returns `None` and changes nothing,
    /// so `scan` is not looked at.
    pub fn poll(&mut self, now: u64, scan: Scan) -> (key: Option<char>)
        ensures
            !scan_is_due(old(self).scanned_at(), now) ==> key is None && *final(self) == *old(
                self,
            ),
            scan_is_due(old(self).scanned_at(), now) ==> {
                &&& final(self)@ == scan
                &&& final(self).scanned_at() == now
                &&& key is None <==> forall|index: int|
                    0 <= index < 12 ==> !went_down(old(self)@, scan, index)
                &&& key matches Some(c) ==> exists|index: int|
                    0 <= index < 12 && went_down(old(self)@, scan, index) && c == printed(index)
                        && forall|earlier: int| 0 <= earlier < index ==> !went_down(
                        old(self)@,
                        scan,
                        earlier,
                    )
            },
    {
        if !self.scan_due(now) {
            return None;
        }
        let before = self.pressed;
        let mut key: Option<char> = None;
        let mut row: usize = 0;
        while row < ROWS
            invariant
                before == old(self)@,
                row <= ROWS,
                key is None <==> forall|index: int| 0 <= index < 3 * row ==> !went_down(before, scan, index),
                key matches Some(c) ==> exists|index: int|
                    0 <= index < 3 * row && went_down(before, scan, index) && c == printed(index)
                        && forall|earlier: int| 0 <= earlier < index ==> !went_down(
                        before,
                        scan,
                        earlier,
                    ),
            decreases ROWS - row,
        {
            let mut col: usize = 0;
            while col < COLS
                invariant
                    row < ROWS,
                    col <= COLS,
                    key is None <==> forall|index: int|
                        0 <= index < 3 * row + col ==> !went_down(before, scan, index),
                    key matches Some(c) ==> exists|index: int|
                        0 <= index < 3 * row + col && went_down(before, scan, index) && c
                            == printed(index) && forall|earlier: int|
                            0 <= earlier < index ==> !went_down(before, scan, earlier),
                decreases COLS - col,
            {
                let ghost index = 3 * row + col;
                proof {
                    assert(index / 3 == row && index % 3 == col);
                }
                if key.is_none() && scan[row][col] && !before[row][col] {
                    key = Some(LAYOUT[row][col]);
                    proof {
                        assert(went_down(before, scan, index));
                        assert(LAYOUT[row as int][col as int] == printed(index));
                        assert(forall|earlier: int|
                            0 <= earlier < index ==> !went_down(before, scan, earlier));
                    }
                }
                col = col + 1;
            }
            row = row + 1;
        }
        self.pressed = scan;
        self.last_scan = now;
        key
    }
}

} // verus!
