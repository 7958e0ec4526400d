use f021_flash::decimal::u32_to_decimal;
use f021_flash::fapi::{
    blank_check_result, blank_check_word_count, program_buffer_lengths, split_sector_enables,
    Fapi_DeviceInfoType, Fapi_FlashBankSectorsType, Fapi_FlashBankType, Fapi_FlashStatusWordType,
    Fapi_LibraryInfoType,
};
use f021_flash::fapi::{Fapi_FlashProgrammingCommandsType, Fapi_FlashStateCommandsType};
use f021_flash::status::{Error, FlashBankError, FlashBankTechError, Status};
use f021_flash::types::{
    ApiProductionStatus, DeviceInfo, FlashBank, FlashBankSectors, FlashBankTech,
    FlashProgrammingCommand, FlashStateCommand, FsmStatus, LibraryInfo,
};

#[test]
fn status_codes_translate() {
    assert_eq!(Status::from_raw(0), Ok(Status::Success));
    assert_eq!(Status::from_raw(1), Ok(Status::FsmBusy));
    assert_eq!(Status::from_raw(2), Ok(Status::FsmReady));
    assert_eq!(Status::from_raw(3), Err(Error::Fail));
}

#[test]
fn error_codes_translate_one_for_one() {
    assert_eq!(Error::from_raw(3), Error::Fail);
    assert_eq!(Error::from_raw(4), Error::NullPointer);
    assert_eq!(Error::from_raw(5), Error::InvalidCommand);
    assert_eq!(Error::from_raw(6), Error::InvalidEccAddress);
    assert_eq!(Error::from_raw(7), Error::OtpChecksumMismatch);
    assert_eq!(Error::from_raw(8), Error::InvalidHclkValue);
    assert_eq!(Error::from_raw(9), Error::InvalidBank);
    assert_eq!(Error::from_raw(10), Error::InvalidAddress);
    assert_eq!(Error::from_raw(11), Error::InvalidReadMode);
    assert_eq!(Error::from_raw(12), Error::AsyncIncorrectDataBufferLength);
    assert_eq!(Error::from_raw(13), Error::AsyncIncorrectEccBufferLength);
    assert_eq!(Error::from_raw(14), Error::AsyncDataEccBufferLengthMismatch);
    assert_eq!(Error::from_raw(15), Error::FeatureNotAvailable);
    assert_eq!(Error::from_raw(99), Error::Unrecognized(99));
}

#[test]
fn host_codes_are_nonzero_and_exact() {
    assert_eq!(Error::Fail.code(), 3);
    assert_eq!(Error::FeatureNotAvailable.code(), 15);
    assert_eq!(Error::Unrecognized(5).code(), 0x0100_0005);
    assert_eq!(
        Error::FlashBank(FlashBankError::InvalidFlashBank(9)).code(),
        0x0200_0009
    );
    assert_eq!(
        Error::FlashBankTech(FlashBankTechError::InvalidTechType(7)).code(),
        0x0300_0007
    );
    assert_ne!(Error::Unrecognized(0).code(), 0);
}

#[test]
fn decimal_rendering_is_exact() {
    assert_eq!(u32_to_decimal(0), "0");
    assert_eq!(u32_to_decimal(7), "7");
    assert_eq!(u32_to_decimal(10), "10");
    assert_eq!(u32_to_decimal(1000), "1000");
    assert_eq!(u32_to_decimal(4294967295), "4294967295");
}

#[test]
fn messages_match_the_taxonomy() {
    assert_eq!(Error::Fail.message(), "Generic Function Fail code");
    assert_eq!(
        Error::InvalidAddress.message(),
        "The specified Address does not exist in Flash or OTP"
    );
    assert_eq!(
        Error::Unrecognized(123).message(),
        "Unrecognized error: 123"
    );
    assert_eq!(
        Error::FlashBank(FlashBankError::InvalidFlashBank(11)).message(),
        "Flash bank error: Invalid flash bank: 11"
    );
    assert_eq!(
        Error::FlashBankTech(FlashBankTechError::InvalidTechType(8)).message(),
        "Flash bank tech error: Invalid tech type: 8"
    );
}

#[test]
fn banks_resolve_from_raw_numbers() {
    assert_eq!(FlashBank::from_raw(0), Ok(FlashBank::_0));
    assert_eq!(FlashBank::from_raw(7), Ok(FlashBank::_7));
    assert_eq!(
        FlashBank::from_raw(8),
        Err(FlashBankError::InvalidFlashBank(8))
    );
    assert_eq!(FlashBank::_5.index(), 5);
    assert_eq!(
        Fapi_FlashBankType::from_raw(2),
        Ok(Fapi_FlashBankType::Fapi_FlashBank2)
    );
    assert_eq!(
        Fapi_FlashBankType::from_raw(12),
        Err(FlashBankError::InvalidFlashBank(12))
    );
}

#[test]
fn bank_tech_resolves_from_raw_bytes() {
    assert_eq!(FlashBankTech::from_raw(0), Ok(FlashBankTech::FLEP));
    assert_eq!(FlashBankTech::from_raw(1), Ok(FlashBankTech::FLEE));
    assert_eq!(FlashBankTech::from_raw(2), Ok(FlashBankTech::FLES));
    assert_eq!(FlashBankTech::from_raw(3), Ok(FlashBankTech::FLHV));
    assert_eq!(
        FlashBankTech::from_raw(4),
        Err(FlashBankTechError::InvalidTechType(4))
    );
}

#[test]
fn production_status_resolves_from_raw_bytes() {
    assert!(matches!(
        ApiProductionStatus::from_raw(4),
        ApiProductionStatus::Production
    ));
    assert!(matches!(
        ApiProductionStatus::from_raw(9),
        ApiProductionStatus::Unknown
    ));
}

#[test]
fn fsm_status_reads_the_busy_bit() {
    assert_eq!(FsmStatus::from_register(0), FsmStatus::Ready);
    assert_eq!(FsmStatus::from_register(0x100), FsmStatus::Busy);
    assert_eq!(FsmStatus::from_register(0xFEFF), FsmStatus::Ready);
    assert_eq!(FsmStatus::from_register(0x1FF), FsmStatus::Busy);
}

#[test]
fn commands_carry_their_machine_codes() {
    assert_eq!(FlashStateCommand::ProgramData.code(), 0x02);
    assert_eq!(FlashStateCommand::EraseSector.code(), 0x06);
    assert_eq!(FlashStateCommand::EraseBank.code(), 0x08);
    assert_eq!(FlashStateCommand::ValidateSector.code(), 0x0E);
    assert_eq!(FlashStateCommand::ClearStatus.code(), 0x10);
    assert_eq!(FlashStateCommand::ProgramResume.code(), 0x14);
    assert_eq!(FlashStateCommand::EraseResume.code(), 0x16);
    assert_eq!(FlashStateCommand::ClearMore.code(), 0x18);
}

#[test]
fn vendor_spellings_round_through() {
    assert_eq!(
        FlashProgrammingCommand::AutoEccGeneration.to_fapi(),
        Fapi_FlashProgrammingCommandsType::Fapi_AutoEccGeneration
    );
    assert_eq!(
        FlashProgrammingCommand::DataAndEcc.to_fapi(),
        Fapi_FlashProgrammingCommandsType::Fapi_DataAndEcc
    );
    assert_eq!(
        FlashStateCommand::EraseBank.to_fapi(),
        Fapi_FlashStateCommandsType::Fapi_EraseBank
    );
    assert_eq!(
        FlashBank::_6.to_fapi(),
        Fapi_FlashBankType::Fapi_FlashBank6
    );
}

#[test]
fn vendor_spellings_carry_the_binary_codes() {
    assert_eq!(Fapi_FlashStateCommandsType::Fapi_EraseSector.code(), 0x06);
    assert_eq!(Fapi_FlashStateCommandsType::Fapi_EraseBank.code(), 0x08);
    assert_eq!(Fapi_FlashStateCommandsType::Fapi_ClearStatus.code(), 0x10);
    // The two spellings of a command agree on the code.
    assert_eq!(
        FlashStateCommand::ValidateSector.to_fapi().code(),
        FlashStateCommand::ValidateSector.code()
    );
    assert_eq!(Fapi_FlashBankType::Fapi_FlashBank5.code(), 5);
    assert_eq!(
        Fapi_FlashProgrammingCommandsType::Fapi_AutoEccGeneration.code(),
        0
    );
    assert_eq!(Fapi_FlashProgrammingCommandsType::Fapi_DataAndEcc.code(), 3);
}

#[test]
fn bank_sectors_convert_sizes_to_bytes() {
    let mut raw = Fapi_FlashBankSectorsType {
        oFlashBankTech: 0,
        u32NumberOfSectors: 4,
        u32BankStartAddress: 0x0800_0000,
        au16SectorSizes: [0u16; 16],
    };
    raw.au16SectorSizes[0] = 16;
    raw.au16SectorSizes[1] = 32;
    raw.au16SectorSizes[2] = 64;
    raw.au16SectorSizes[3] = 128;
    let sectors = FlashBankSectors::from_raw(&raw).unwrap();
    assert_eq!(sectors.flash_bank_tech, FlashBankTech::FLEP);
    assert_eq!(sectors.number_of_sectors, 4);
    assert_eq!(sectors.bank_start_address, 0x0800_0000);
    assert_eq!(
        sectors.sector_sizes(),
        &[16 * 1024, 32 * 1024, 64 * 1024, 128 * 1024]
    );
    assert_eq!(sectors.sector_sizes[31], 0);
}

#[test]
fn flee_bank_repeats_its_first_sector_size() {
    let mut raw = Fapi_FlashBankSectorsType {
        oFlashBankTech: 1,
        u32NumberOfSectors: 8,
        u32BankStartAddress: 0,
        au16SectorSizes: [0u16; 16],
    };
    raw.au16SectorSizes[0] = 4;
    let sectors = FlashBankSectors::from_raw(&raw).unwrap();
    assert_eq!(sectors.flash_bank_tech, FlashBankTech::FLEE);
    for size in sectors.sector_sizes.iter() {
        assert_eq!(*size, 4 * 1024);
    }
}

#[test]
fn unknown_bank_tech_is_refused() {
    let raw = Fapi_FlashBankSectorsType {
        oFlashBankTech: 9,
        u32NumberOfSectors: 1,
        u32BankStartAddress: 0,
        au16SectorSizes: [0u16; 16],
    };
    assert_eq!(
        FlashBankSectors::from_raw(&raw),
        Err(Error::FlashBankTech(FlashBankTechError::InvalidTechType(9)))
    );
}

#[test]
fn program_buffer_lengths_enforce_the_byte_fields() {
    assert_eq!(program_buffer_lengths(10, None), Ok((10, 0)));
    assert_eq!(program_buffer_lengths(255, Some(255)), Ok((255, 255)));
    assert_eq!(
        program_buffer_lengths(300, None),
        Err(Error::AsyncIncorrectDataBufferLength)
    );
    assert_eq!(
        program_buffer_lengths(10, Some(300)),
        Err(Error::AsyncIncorrectEccBufferLength)
    );
}

#[test]
fn sector_enables_split_into_words() {
    assert_eq!(
        split_sector_enables(0x1234_5678_9ABC_DEF0),
        (0x9ABC_DEF0, 0x1234_5678)
    );
    assert_eq!(split_sector_enables(0), (0, 0));
    assert_eq!(split_sector_enables(u64::MAX), (u32::MAX, u32::MAX));
}

#[test]
fn blank_check_lengths_are_in_words() {
    assert_eq!(blank_check_word_count(4096), 1024);
    assert_eq!(blank_check_word_count(6), 1);
}

#[test]
fn blank_check_outcomes_translate() {
    let words = Fapi_FlashStatusWordType {
        au32StatusWord: [0x100, 0xAB, 0xFF, 2],
    };
    assert_eq!(blank_check_result(0, &words), Ok(()));
    let detail = blank_check_result(3, &words).unwrap_err();
    assert_eq!(detail.non_blank_address, 0x100);
    assert_eq!(detail.non_blank_data, 0xAB);
    assert_eq!(detail.comparison_data, 0xFF);
    assert_eq!(detail.read_mode, 2);
}

#[test]
fn info_records_convert_field_for_field() {
    let raw = Fapi_LibraryInfoType {
        u8ApiMajorVersion: 2,
        u8ApiMinorVersion: 1,
        u8ApiRevision: 3,
        oApiProductionStatus: 4,
        u32ApiBuildNumber: 77,
        u8ApiTechnologyType: 5,
        u8ApiTechnologyRevision: 6,
        u8ApiEndianness: 1,
        u32ApiCompilerVersion: 900,
    };
    let info: LibraryInfo = LibraryInfo::from_raw(&raw);
    assert_eq!(info.major_version, 2);
    assert_eq!(info.minor_version, 1);
    assert_eq!(info.revision, 3);
    assert!(matches!(
        info.production_status,
        ApiProductionStatus::Production
    ));
    assert_eq!(info.build_number, 77);
    assert_eq!(info.compiler_version, 900);

    let raw_dev = Fapi_DeviceInfoType {
        u16Reserved: 0,
        u16NumberOfBanks: 2,
        u16DevicePackage: 3,
        u16DeviceMemorySize: 4,
        u32AsicId: 5,
        u32LotNumber: 6,
        u16FlowCheck: 7,
        u16WaferNumber: 8,
        u16WaferXCoordinate: 9,
        u16WaferYCoordinate: 10,
    };
    let dev: DeviceInfo = DeviceInfo::from_raw(&raw_dev);
    assert_eq!(dev.number_of_banks, 2);
    assert_eq!(dev.asic_id, 5);
    assert_eq!(dev.wafer_y_coordinate, 10);
}
