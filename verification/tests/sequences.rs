use f021_flash::algorithm::{Algorithm, BringupConfig};
use f021_flash::geometry::{BankRegion, FlashGeometry, Sector};
use f021_flash::sim::{CallRecord, ScriptedDriver};
use f021_flash::status::{Error, Status};
use f021_flash::types::{FlashBank, FlashProgrammingCommand, FlashStateCommand};

/// A 4 MiB flash: 256 sectors of 16 KiB, split at 2 MiB into two banks.
fn demo_geometry() -> FlashGeometry {
    let mut sectors = Vec::new();
    for i in 0..256u32 {
        sectors.push(Sector {
            address: i * 0x4000,
            size: 0x4000,
        });
    }
    FlashGeometry {
        flash_address: 0,
        flash_size: 0x40_0000,
        sectors,
        banks: vec![
            BankRegion {
                start: 0,
                bank: FlashBank::_0,
            },
            BankRegion {
                start: 0x20_0000,
                bank: FlashBank::_1,
            },
        ],
    }
}

fn demo_config() -> BringupConfig {
    BringupConfig {
        power_mode: 0,
        write_wait_states: None,
        read_wait_states: None,
        default_clock: 16_000_000,
    }
}

/// An algorithm over a fresh scripted driver, with the two bring-up
/// records (power-mode read, initialization) already in the log.
fn fresh_algorithm() -> Algorithm<ScriptedDriver> {
    match Algorithm::new(ScriptedDriver::new(), demo_geometry(), demo_config(), 80_000_000) {
        Ok(alg) => alg,
        Err(_) => panic!("bring-up failed on a clean driver"),
    }
}

const BRINGUP_RECORDS: usize = 2;

#[test]
fn bringup_reads_the_power_mode_and_initializes() {
    let alg = fresh_algorithm();
    assert_eq!(alg.driver.records.len(), 2);
    assert_eq!(alg.driver.records[0], CallRecord::ReadPowerMode { value: 0 });
    assert_eq!(
        alg.driver.records[1],
        CallRecord::Initialize {
            clock: 80_000_000,
            result: Ok(Status::Success)
        }
    );
}

#[test]
fn bringup_corrects_a_misconfigured_power_mode() {
    let mut driver = ScriptedDriver::new();
    driver.power_mode = 7;
    let mut config = demo_config();
    config.power_mode = 5;
    config.write_wait_states = Some(3);
    config.read_wait_states = Some(2);
    let alg = Algorithm::new(driver, demo_geometry(), config, 80_000_000).ok().unwrap();
    assert_eq!(alg.driver.records.len(), 5);
    assert_eq!(alg.driver.records[0], CallRecord::ReadPowerMode { value: 7 });
    assert_eq!(alg.driver.records[1], CallRecord::SetPowerMode { mode: 5 });
    assert_eq!(
        alg.driver.records[2],
        CallRecord::SetWriteWaitStates { count: 3 }
    );
    assert_eq!(
        alg.driver.records[3],
        CallRecord::SetReadWaitStates { count: 2 }
    );
    assert!(matches!(
        alg.driver.records[4],
        CallRecord::Initialize {
            clock: 80_000_000,
            ..
        }
    ));
}

#[test]
fn bringup_applies_only_the_configured_overrides() {
    let mut config = demo_config();
    config.write_wait_states = Some(4);
    let alg = Algorithm::new(ScriptedDriver::new(), demo_geometry(), config, 5)
        .ok()
        .unwrap();
    assert_eq!(alg.driver.records.len(), 3);
    assert_eq!(
        alg.driver.records[1],
        CallRecord::SetWriteWaitStates { count: 4 }
    );
}

#[test]
fn bringup_substitutes_the_default_clock_for_zero() {
    let alg = Algorithm::new(ScriptedDriver::new(), demo_geometry(), demo_config(), 0)
        .ok()
        .unwrap();
    assert_eq!(
        alg.driver.records[1],
        CallRecord::Initialize {
            clock: 16_000_000,
            result: Ok(Status::Success)
        }
    );
}

#[test]
fn a_failed_initialization_aborts_construction() {
    let mut driver = ScriptedDriver::new();
    driver.init_ok = false;
    match Algorithm::new(driver, demo_geometry(), demo_config(), 80_000_000) {
        Ok(_) => panic!("construction must fail when initialization fails"),
        Err((e, d)) => {
            assert_eq!(e, Error::InvalidHclkValue);
            assert_eq!(d.records.len(), 2);
            assert_eq!(
                d.records[1],
                CallRecord::Initialize {
                    clock: 80_000_000,
                    result: Err(Error::InvalidHclkValue)
                }
            );
        }
    }
}

#[test]
fn erase_all_walks_every_bank_between_gates_then_flushes() {
    // Per bank: a ready sample, selection, enable, the erase command, a
    // ready sample again; one flush at the very end.
    let mut alg = fresh_algorithm();
    assert_eq!(alg.erase_all(), Ok(()));
    let r = &alg.driver.records[BRINGUP_RECORDS..];
    assert_eq!(r.len(), 11);
    assert_eq!(r[0], CallRecord::ReadySample);
    assert_eq!(
        r[1],
        CallRecord::SelectBank {
            bank: FlashBank::_0,
            result: Ok(Status::Success)
        }
    );
    assert_eq!(
        r[2],
        CallRecord::EnableSectors {
            mask: 0xFFFF,
            result: Ok(Status::Success)
        }
    );
    assert_eq!(
        r[3],
        CallRecord::CommandAt {
            command: FlashStateCommand::EraseBank,
            address: 0,
            result: Ok(Status::Success)
        }
    );
    assert_eq!(r[4], CallRecord::ReadySample);
    assert_eq!(r[5], CallRecord::ReadySample);
    assert!(matches!(
        r[6],
        CallRecord::SelectBank {
            bank: FlashBank::_1,
            ..
        }
    ));
    assert!(matches!(r[7], CallRecord::EnableSectors { .. }));
    assert!(matches!(r[8], CallRecord::CommandAt { .. }));
    assert_eq!(r[9], CallRecord::ReadySample);
    assert_eq!(r[10], CallRecord::Flush);
}

#[test]
fn erase_all_aborts_on_a_failed_bank_selection() {
    let mut alg = fresh_algorithm();
    alg.driver.select_bank_ok = false;
    assert_eq!(alg.erase_all(), Err(Error::InvalidBank));
    let r = &alg.driver.records[BRINGUP_RECORDS..];
    assert_eq!(r.len(), 2);
    assert_eq!(r[0], CallRecord::ReadySample);
    assert_eq!(
        r[1],
        CallRecord::SelectBank {
            bank: FlashBank::_0,
            result: Err(Error::InvalidBank)
        }
    );
}

#[test]
fn erase_all_aborts_on_a_failed_sector_enable() {
    let mut alg = fresh_algorithm();
    alg.driver.enable_ok = false;
    assert_eq!(alg.erase_all(), Err(Error::Fail));
    let r = &alg.driver.records[BRINGUP_RECORDS..];
    assert_eq!(r.len(), 3);
    assert!(matches!(r[2], CallRecord::EnableSectors { result: Err(Error::Fail), .. }));
}

#[test]
fn erase_all_tolerates_failed_erase_commands() {
    // Both banks' erase commands fail; the walk still visits both banks
    // and the operation reports success, as documented.
    let mut alg = fresh_algorithm();
    alg.driver.command_script = vec![false, false];
    assert_eq!(alg.erase_all(), Ok(()));
    let r = &alg.driver.records[BRINGUP_RECORDS..];
    assert_eq!(r.len(), 11);
    assert!(matches!(
        r[3],
        CallRecord::CommandAt {
            command: FlashStateCommand::EraseBank,
            result: Err(Error::Fail),
            ..
        }
    ));
    assert_eq!(r[10], CallRecord::Flush);
}

#[test]
fn erase_sector_sequences_and_verifies_the_whole_sector() {
    // Erasing address 0x5000 resolves to the sector [0x4000, 0x8000) and,
    // after sequencing between gate samples, triggers a blank check over
    // that whole range.
    let mut alg = fresh_algorithm();
    assert_eq!(alg.erase_sector(0x5000), Ok(()));
    let r = &alg.driver.records[BRINGUP_RECORDS..];
    assert_eq!(r[0], CallRecord::ReadySample);
    assert_eq!(r[1], CallRecord::ReadySample);
    assert_eq!(
        r[2],
        CallRecord::SelectBank {
            bank: FlashBank::_0,
            result: Ok(Status::Success)
        }
    );
    assert_eq!(
        r[3],
        CallRecord::EnableSectors {
            mask: 0xFFFF,
            result: Ok(Status::Success)
        }
    );
    assert!(matches!(
        r[4],
        CallRecord::Command {
            command: FlashStateCommand::ClearStatus,
            ..
        }
    ));
    assert!(matches!(
        r[5],
        CallRecord::CommandAt {
            command: FlashStateCommand::EraseSector,
            address: 0x5000,
            ..
        }
    ));
    assert_eq!(r[6], CallRecord::ReadySample);
    assert_eq!(r[7], CallRecord::Flush);
    let blanks = &r[8..];
    assert_eq!(blanks.len(), 16);
    for (i, record) in blanks.iter().enumerate() {
        assert_eq!(
            *record,
            CallRecord::BlankCheck {
                address: 0x4000 + (i as u32) * 1024,
                length: 1024,
                ok: true
            }
        );
    }
}

#[test]
fn erase_sector_aborts_on_a_failed_bank_selection() {
    let mut alg = fresh_algorithm();
    alg.driver.select_bank_ok = false;
    assert_eq!(alg.erase_sector(0x5000), Err(Error::InvalidBank));
    let r = &alg.driver.records[BRINGUP_RECORDS..];
    assert_eq!(r.len(), 3);
    assert!(matches!(r[2], CallRecord::SelectBank { result: Err(Error::InvalidBank), .. }));
}

#[test]
fn the_last_sector_of_the_address_space_erases_cleanly() {
    let geometry = FlashGeometry {
        flash_address: 0xFFFF_C000,
        flash_size: 0x4000,
        sectors: vec![Sector {
            address: 0xFFFF_C000,
            size: 0x4000,
        }],
        banks: vec![BankRegion {
            start: 0,
            bank: FlashBank::_7,
        }],
    };
    assert!(geometry.is_well_formed());
    let mut alg = Algorithm::new(ScriptedDriver::new(), geometry, demo_config(), 1)
        .ok()
        .unwrap();
    assert_eq!(alg.erase_sector(0xFFFF_FFFF), Ok(()));
    let r = &alg.driver.records[BRINGUP_RECORDS..];
    assert_eq!(r.len(), 8 + 16);
    assert!(matches!(
        r[2],
        CallRecord::SelectBank {
            bank: FlashBank::_7,
            ..
        }
    ));
    assert_eq!(
        r[8 + 15],
        CallRecord::BlankCheck {
            address: 0xFFFF_FC00,
            length: 1024,
            ok: true
        }
    );
}

#[test]
fn erase_sector_refuses_an_address_no_sector_covers() {
    let mut alg = fresh_algorithm();
    assert_eq!(alg.erase_sector(0x40_0000), Err(Error::InvalidAddress));
    // Only the opening gate's ready sample was issued.
    assert_eq!(alg.driver.records.len(), BRINGUP_RECORDS + 1);
    assert_eq!(
        alg.driver.records[BRINGUP_RECORDS],
        CallRecord::ReadySample
    );
}

#[test]
fn erase_sector_fails_when_verification_exhausts_its_retries() {
    let mut alg = fresh_algorithm();
    alg.driver.blank_script = vec![false; 6];
    assert_eq!(alg.erase_sector(0x5000), Err(Error::Fail));
    let r = &alg.driver.records[BRINGUP_RECORDS..];
    // Two gate samples, selection, enable, two commands, a gate sample,
    // flush, six failed attempts on the first window, and nothing after.
    assert_eq!(r.len(), 14);
    assert!(matches!(
        r[13],
        CallRecord::BlankCheck {
            address: 0x4000,
            ok: false,
            ..
        }
    ));
}

#[test]
fn erase_sector_tolerates_failed_commands_when_verification_passes() {
    let mut alg = fresh_algorithm();
    alg.driver.command_script = vec![false, false];
    assert_eq!(alg.erase_sector(0x5000), Ok(()));
}

#[test]
fn program_page_splits_into_ascending_blocks() {
    // Programming 100 bytes at 0x1000 issues four programming calls of
    // 32, 32, 32 and 4 bytes, in ascending address order, each followed
    // by a gate sample.
    let mut alg = fresh_algorithm();
    let data: Vec<u8> = (0..100u32).map(|i| i as u8).collect();
    assert_eq!(alg.program_page(0x1000, &data), Ok(()));
    let r = &alg.driver.records[BRINGUP_RECORDS..];
    assert_eq!(r.len(), 4 + 2 * 4 + 1);
    assert_eq!(r[0], CallRecord::ReadySample);
    assert_eq!(r[1], CallRecord::ReadySample);
    assert!(matches!(
        r[2],
        CallRecord::SelectBank {
            bank: FlashBank::_0,
            ..
        }
    ));
    assert!(matches!(r[3], CallRecord::EnableSectors { mask: 0xFFFF, .. }));
    let expected: [(u32, usize); 4] = [(0x1000, 32), (0x1020, 32), (0x1040, 32), (0x1060, 4)];
    for (i, (at, len)) in expected.iter().enumerate() {
        match &r[4 + 2 * i] {
            CallRecord::Program {
                address,
                data: block,
                mode,
                result,
            } => {
                assert_eq!(address, at);
                assert_eq!(block.len(), *len);
                assert_eq!(block.as_slice(), &data[(i * 32)..(i * 32 + len)]);
                assert_eq!(*mode, FlashProgrammingCommand::AutoEccGeneration);
                assert_eq!(*result, Ok(Status::Success));
            }
            other => panic!("expected a programming call, found {:?}", other),
        }
        assert_eq!(r[4 + 2 * i + 1], CallRecord::ReadySample);
    }
    assert_eq!(r[12], CallRecord::Flush);
}

#[test]
fn program_page_of_a_whole_block_is_one_call() {
    let mut alg = fresh_algorithm();
    let data = [0xA5u8; 32];
    assert_eq!(alg.program_page(0x20_0000, &data), Ok(()));
    let r = &alg.driver.records[BRINGUP_RECORDS..];
    assert_eq!(r.len(), 7);
    // 0x200000 lies in the second bank.
    assert!(matches!(
        r[2],
        CallRecord::SelectBank {
            bank: FlashBank::_1,
            ..
        }
    ));
    assert!(matches!(r[4], CallRecord::Program { address: 0x20_0000, .. }));
}

#[test]
fn program_page_of_nothing_still_selects_and_flushes() {
    let mut alg = fresh_algorithm();
    assert_eq!(alg.program_page(0x1000, &[]), Ok(()));
    let r = &alg.driver.records[BRINGUP_RECORDS..];
    assert_eq!(r.len(), 5);
    assert_eq!(r[4], CallRecord::Flush);
}

#[test]
fn program_page_aborts_on_a_failed_enable() {
    let mut alg = fresh_algorithm();
    alg.driver.enable_ok = false;
    let data = [1u8; 64];
    assert_eq!(alg.program_page(0x1000, &data), Err(Error::Fail));
    let r = &alg.driver.records[BRINGUP_RECORDS..];
    assert_eq!(r.len(), 4);
}

#[test]
fn program_page_tolerates_a_failed_block() {
    let mut alg = fresh_algorithm();
    alg.driver.program_script = vec![false, true];
    let data = [7u8; 64];
    assert_eq!(alg.program_page(0x1000, &data), Ok(()));
    let r = &alg.driver.records[BRINGUP_RECORDS..];
    assert_eq!(r.len(), 4 + 2 * 2 + 1);
    assert!(matches!(
        r[4],
        CallRecord::Program {
            result: Err(Error::Fail),
            ..
        }
    ));
    assert!(matches!(
        r[6],
        CallRecord::Program {
            result: Ok(Status::Success),
            ..
        }
    ));
}

#[test]
fn a_busy_state_machine_is_polled_until_one_ready_sample() {
    // Five busy polls are consumed by the first gate; every gate still
    // leaves exactly one ready sample in the log.
    let mut alg = fresh_algorithm();
    alg.driver.pending_busy = 5;
    let data = [3u8; 8];
    assert_eq!(alg.program_page(0x1000, &data), Ok(()));
    let r = &alg.driver.records[BRINGUP_RECORDS..];
    assert_eq!(r.len(), 4 + 2 + 1);
    let samples = r
        .iter()
        .filter(|record| **record == CallRecord::ReadySample)
        .count();
    assert_eq!(samples, 3);
    assert_eq!(alg.driver.pending_busy, 0);
}
