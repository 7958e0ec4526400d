use f021_flash::blank::verify_blank;
use f021_flash::sim::{CallRecord, ScriptedDriver};
use f021_flash::status::Error;

#[test]
fn a_clean_range_takes_one_attempt_per_window() {
    let mut driver = ScriptedDriver::new();
    assert_eq!(verify_blank(&mut driver, 0x8000, 2048), Ok(()));
    assert_eq!(driver.records.len(), 2);
    assert_eq!(
        driver.records[0],
        CallRecord::BlankCheck {
            address: 0x8000,
            length: 1024,
            ok: true
        }
    );
    assert_eq!(
        driver.records[1],
        CallRecord::BlankCheck {
            address: 0x8400,
            length: 1024,
            ok: true
        }
    );
}

#[test]
fn retries_on_the_first_window_add_their_attempts() {
    // The first window fails five times and passes on the sixth attempt;
    // the second window passes at once: seven calls in all.
    let mut driver = ScriptedDriver::new();
    driver.blank_script = vec![false, false, false, false, false, true, true];
    assert_eq!(verify_blank(&mut driver, 0x8000, 2048), Ok(()));
    assert_eq!(driver.records.len(), 7);
    for i in 0..5 {
        assert_eq!(
            driver.records[i],
            CallRecord::BlankCheck {
                address: 0x8000,
                length: 1024,
                ok: false
            }
        );
    }
    assert_eq!(
        driver.records[5],
        CallRecord::BlankCheck {
            address: 0x8000,
            length: 1024,
            ok: true
        }
    );
    assert_eq!(
        driver.records[6],
        CallRecord::BlankCheck {
            address: 0x8400,
            length: 1024,
            ok: true
        }
    );
}

#[test]
fn an_exhausted_window_fails_the_whole_range_at_once() {
    let mut driver = ScriptedDriver::new();
    driver.blank_script = vec![false; 32];
    assert_eq!(verify_blank(&mut driver, 0x8000, 2048), Err(Error::Fail));
    // Exactly the six attempts of the first window; the second window is
    // never attempted.
    assert_eq!(driver.records.len(), 6);
    for record in driver.records.iter() {
        assert_eq!(
            *record,
            CallRecord::BlankCheck {
                address: 0x8000,
                length: 1024,
                ok: false
            }
        );
    }
}

#[test]
fn a_later_window_can_be_the_one_that_fails() {
    // The first window passes; the second fails all six attempts.
    let mut driver = ScriptedDriver::new();
    driver.blank_script = vec![true, false, false, false, false, false, false];
    assert_eq!(verify_blank(&mut driver, 0, 4096), Err(Error::Fail));
    assert_eq!(driver.records.len(), 7);
    assert_eq!(
        driver.records[0],
        CallRecord::BlankCheck {
            address: 0,
            length: 1024,
            ok: true
        }
    );
    for i in 1..7 {
        assert_eq!(
            driver.records[i],
            CallRecord::BlankCheck {
                address: 1024,
                length: 1024,
                ok: false
            }
        );
    }
}

#[test]
fn a_misaligned_start_is_refused_before_any_attempt() {
    let mut driver = ScriptedDriver::new();
    assert_eq!(
        verify_blank(&mut driver, 0x8001, 2048),
        Err(Error::InvalidAddress)
    );
    assert!(driver.records.is_empty());
}

#[test]
fn a_multiple_of_the_window_size_covers_the_whole_range() {
    let mut driver = ScriptedDriver::new();
    assert_eq!(verify_blank(&mut driver, 0, 4096), Ok(()));
    assert_eq!(driver.records.len(), 4);
    for (i, record) in driver.records.iter().enumerate() {
        assert_eq!(
            *record,
            CallRecord::BlankCheck {
                address: (i as u32) * 1024,
                length: 1024,
                ok: true
            }
        );
    }
}

#[test]
fn a_partial_tail_window_is_shorter() {
    let mut driver = ScriptedDriver::new();
    assert_eq!(verify_blank(&mut driver, 0, 1500), Ok(()));
    assert_eq!(driver.records.len(), 2);
    assert_eq!(
        driver.records[0],
        CallRecord::BlankCheck {
            address: 0,
            length: 1024,
            ok: true
        }
    );
    assert_eq!(
        driver.records[1],
        CallRecord::BlankCheck {
            address: 1024,
            length: 476,
            ok: true
        }
    );
}

#[test]
fn the_top_of_the_address_space_can_be_verified() {
    // The last window of the range ends exactly at the top of the 32-bit
    // address space.
    let mut driver = ScriptedDriver::new();
    assert_eq!(verify_blank(&mut driver, 0xFFFF_F800, 2048), Ok(()));
    assert_eq!(driver.records.len(), 2);
    assert_eq!(
        driver.records[1],
        CallRecord::BlankCheck {
            address: 0xFFFF_FC00,
            length: 1024,
            ok: true
        }
    );
}

#[test]
fn an_empty_range_needs_no_attempt() {
    let mut driver = ScriptedDriver::new();
    assert_eq!(verify_blank(&mut driver, 0x8000, 0), Ok(()));
    assert!(driver.records.is_empty());
}
