use sporo::keypad::{Keypad, Scan, SCAN_INTERVAL_MICROS};

const SCAN: u64 = SCAN_INTERVAL_MICROS;

fn scan_with(keys: &[(usize, usize)]) -> Scan {
    let mut scan = [[false; 3]; 4];
    for &(row, col) in keys {
        scan[row][col] = true;
    }
    scan
}

#[test]
fn a_key_counts_once_as_it_goes_down() {
    let mut keypad = Keypad::new(0);

    assert_eq!(keypad.poll(1 * SCAN, scan_with(&[(1, 1)])), Some('5'));
    // Held down: no repeat.
    assert_eq!(keypad.poll(2 * SCAN, scan_with(&[(1, 1)])), None);
    // Released, then pressed again: counts again.
    assert_eq!(keypad.poll(3 * SCAN, scan_with(&[])), None);
    assert_eq!(keypad.poll(4 * SCAN, scan_with(&[(1, 1)])), Some('5'));
}

#[test]
fn of_keys_going_down_together_the_first_in_reading_order_wins() {
    let mut keypad = Keypad::new(0);

    assert_eq!(keypad.poll(1 * SCAN, scan_with(&[(3, 2), (0, 1), (2, 0)])), Some('2'));
    // The others were seen going down, so they do not count later.
    assert_eq!(keypad.poll(2 * SCAN, scan_with(&[(3, 2), (0, 1), (2, 0)])), None);
}

#[test]
fn a_new_key_counts_while_another_is_held() {
    let mut keypad = Keypad::new(0);

    assert_eq!(keypad.poll(1 * SCAN, scan_with(&[(0, 0)])), Some('1'));
    assert_eq!(keypad.poll(2 * SCAN, scan_with(&[(0, 0), (3, 0)])), Some('*'));
    assert_eq!(keypad.poll(3 * SCAN, scan_with(&[(3, 1)])), Some('0'));
    assert_eq!(keypad.poll(4 * SCAN, scan_with(&[(3, 1), (3, 2)])), Some('#'));
}

#[test]
fn scans_wait_out_the_interval() {
    let mut keypad = Keypad::new(1_000);

    assert!(!keypad.scan_due(1_000));
    assert!(!keypad.scan_due(1_000 + SCAN - 1));
    assert!(keypad.scan_due(1_000 + SCAN));
    // A reading behind the last scan is no time gone by.
    assert!(!keypad.scan_due(0));

    assert_eq!(keypad.poll(1_000 + SCAN, scan_with(&[(1, 1)])), Some('5'));
    assert!(!keypad.scan_due(1_000 + SCAN + 5));
    assert!(keypad.scan_due(1_000 + 2 * SCAN));
}

#[test]
fn a_poll_before_the_interval_changes_nothing() {
    let mut keypad = Keypad::new(0);

    // Too soon: the key going down is not seen, and the keypad keeps its state.
    assert_eq!(keypad.poll(SCAN - 1, scan_with(&[(1, 1)])), None);
    assert!(keypad.scan_due(SCAN));
    // Once due, the same key counts.
    assert_eq!(keypad.poll(SCAN, scan_with(&[(1, 1)])), Some('5'));
    assert_eq!(keypad.poll(SCAN + 1, scan_with(&[])), None);
    // Still held at the next due scan: no repeat, since the release was not seen.
    assert_eq!(keypad.poll(2 * SCAN, scan_with(&[(1, 1)])), None);
}
