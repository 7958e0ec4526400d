//! Data model of the flash array as the orchestration engine sees it:
//! banks, bank technologies, sector listings, state-machine status, and the
//! command vocabulary of the vendor driver.

use vstd::prelude::*;

use crate::status::{FlashBankError, FlashBankTechError};

verus! {

/// A transient read of the hardware flash-state-machine busy bit.
#[derive(Debug, Clone, Copy, PartialEq, Eq, Structural)]
pub enum FsmStatus {
    Ready,
    Busy,
}

impl FsmStatus {
    /// The status encoded by a raw read of the state-machine register:
    /// bit 8 set means the FSM is still busy.
    pub open spec fn spec_from_register(fmstat: u32) -> FsmStatus {
        if fmstat & 0x100 == 0 {
            FsmStatus::Ready
        } else {
            FsmStatus::Busy
        }
    }

    /// Decode a raw read of the state-machine status register.
    pub fn from_register(fmstat: u32) -> (r: FsmStatus)
        ensures
            r == FsmStatus::spec_from_register(fmstat),
    {
        if fmstat & 0x100 == 0 {
            FsmStatus::Ready
        } else {
            FsmStatus::Busy
        }
    }
}

/// This is used to indicate what bank technology a flash bank is built in.
#[derive(Debug, Clone, Copy, PartialEq, Eq, Structural)]
pub enum FlashBankTech {
    FLEP,
    FLEE,
    FLES,
    FLHV,
}

impl Default for FlashBankTech {
    fn default() -> (r: Self)
        ensures
            r == FlashBankTech::FLEP,
    {
        FlashBankTech::FLEP
    }
}

impl FlashBankTech {
    /// The technology named by a raw byte, if any.
    pub open spec fn spec_from_raw(value: u8) -> Result<FlashBankTech, FlashBankTechError> {
        if value == 0 {
            Ok(FlashBankTech::FLEP)
        } else if value == 1 {
            Ok(FlashBankTech::FLEE)
        } else if value == 2 {
            Ok(FlashBankTech::FLES)
        } else if value == 3 {
            Ok(FlashBankTech::FLHV)
        } else {
            Err(FlashBankTechError::InvalidTechType(value))
        }
    }

    /// Interpret a raw bank-technology byte.
    pub fn from_raw(value: u8) -> (r: Result<FlashBankTech, FlashBankTechError>)
        ensures
            r == FlashBankTech::spec_from_raw(value),
    {
        match value {
            0 => Ok(FlashBankTech::FLEP),
            1 => Ok(FlashBankTech::FLEE),
            2 => Ok(FlashBankTech::FLES),
            3 => Ok(FlashBankTech::FLHV),
            _ => Err(FlashBankTechError::InvalidTechType(value)),
        }
    }
}

/// This is used to indicate which flash bank is being addressed.
#[derive(Debug, Clone, Copy, PartialEq, Eq, Structural)]
pub enum FlashBank {
    _0,
    _1,
    _2,
    _3,
    _4,
    _5,
    _6,
    _7,
}

impl FlashBank {
    /// The number under which the hardware knows this bank.
    pub open spec fn spec_index(self) -> u8 {
        match self {
            FlashBank::_0 => 0,
            FlashBank::_1 => 1,
            FlashBank::_2 => 2,
            FlashBank::_3 => 3,
            FlashBank::_4 => 4,
            FlashBank::_5 => 5,
            FlashBank::_6 => 6,
            FlashBank::_7 => 7,
        }
    }

    /// The number under which the hardware knows this bank.
    pub fn index(&self) -> (r: u8)
        ensures
            r == self.spec_index(),
    {
        match *self {
            FlashBank::_0 => 0,
            FlashBank::_1 => 1,
            FlashBank::_2 => 2,
            FlashBank::_3 => 3,
            FlashBank::_4 => 4,
            FlashBank::_5 => 5,
            FlashBank::_6 => 6,
            FlashBank::_7 => 7,
        }
    }

    /// The bank named by a raw bank number, if any.
    pub open spec fn spec_from_raw(value: u16) -> Result<FlashBank, FlashBankError> {
        if value == 0 {
            Ok(FlashBank::_0)
        } else if value == 1 {
            Ok(FlashBank::_1)
        } else if value == 2 {
            Ok(FlashBank::_2)
        } else if value == 3 {
            Ok(FlashBank::_3)
        } else if value == 4 {
            Ok(FlashBank::_4)
        } else if value == 5 {
            Ok(FlashBank::_5)
        } else if value == 6 {
            Ok(FlashBank::_6)
        } else if value == 7 {
            Ok(FlashBank::_7)
        } else {
            Err(FlashBankError::InvalidFlashBank(value))
        }
    }

    /// Resolve a raw bank number.
    pub fn from_raw(value: u16) -> (r: Result<FlashBank, FlashBankError>)
        ensures
            r == FlashBank::spec_from_raw(value),
    {
        match value {
            0 => Ok(FlashBank::_0),
            1 => Ok(FlashBank::_1),
            2 => Ok(FlashBank::_2),
            3 => Ok(FlashBank::_3),
            4 => Ok(FlashBank::_4),
            5 => Ok(FlashBank::_5),
            6 => Ok(FlashBank::_6),
            7 => Ok(FlashBank::_7),
            _ => Err(FlashBankError::InvalidFlashBank(value)),
        }
    }
}

/// The diagnostic detail captured when a blank check finds a word that does
/// not read as erased: where it was, what was read, what was expected, and
/// the read mode in force.
#[derive(Debug, Clone, Copy, PartialEq, Eq, Structural)]
pub struct FlashStatus {
    pub non_blank_address: u32,
    pub non_blank_data: u32,
    pub comparison_data: u32,
    pub read_mode: u32,
}

/// The sector listing of one flash bank: its technology, how many sectors it
/// holds, where it starts, and each sector's size in bytes.
#[derive(Debug, Clone, Copy, PartialEq, Eq)]
pub struct FlashBankSectors {
    pub flash_bank_tech: FlashBankTech,
    pub number_of_sectors: u32,
    pub bank_start_address: u32,
    pub sector_sizes: [u32; 32],
}

impl FlashBankSectors {
    /// The sizes of the sectors the bank actually has, in order.
    pub fn sector_sizes(&self) -> (r: &[u32])
        requires
            self.number_of_sectors <= 32,
        ensures
            r@ == self.sector_sizes@.subrange(0, self.number_of_sectors as int),
    {
        vstd::slice::slice_subrange(
            self.sector_sizes.as_slice(),
            0,
            self.number_of_sectors as usize,
        )
    }
}

/// This contains all the possible modes used when issuing a programming
/// command to the driver.
#[derive(Debug, Clone, Copy, PartialEq, Eq, Structural)]
pub enum FlashProgrammingCommand {
    /// This is the default mode for the command and will auto generate the ECC for the provided data buffer
    AutoEccGeneration,
    /// Command will only process the data buffer
    DataOnly,
    /// Command will only process the ecc buffer
    EccOnly,
    /// Command will process data and ecc buffers
    DataAndEcc,
}

/// This contains all the possible flash state machine commands.
#[derive(Debug, Clone, Copy, PartialEq, Eq, Structural)]
pub enum FlashStateCommand {
    ProgramData,
    EraseSector,
    EraseBank,
    ValidateSector,
    ClearStatus,
    ProgramResume,
    EraseResume,
    ClearMore,
}

impl FlashStateCommand {
    /// The numeric command code the flash state machine executes.
    pub open spec fn spec_code(self) -> u8 {
        match self {
            FlashStateCommand::ProgramData => 0x02,
            FlashStateCommand::EraseSector => 0x06,
            FlashStateCommand::EraseBank => 0x08,
            FlashStateCommand::ValidateSector => 0x0E,
            FlashStateCommand::ClearStatus => 0x10,
            FlashStateCommand::ProgramResume => 0x14,
            FlashStateCommand::EraseResume => 0x16,
            FlashStateCommand::ClearMore => 0x18,
        }
    }

    /// The numeric command code the flash state machine executes.
    pub fn code(&self) -> (r: u8)
        ensures
            r == self.spec_code(),
    {
        match *self {
            FlashStateCommand::ProgramData => 0x02,
            FlashStateCommand::EraseSector => 0x06,
            FlashStateCommand::EraseBank => 0x08,
            FlashStateCommand::ValidateSector => 0x0E,
            FlashStateCommand::ClearStatus => 0x10,
            FlashStateCommand::ProgramResume => 0x14,
            FlashStateCommand::EraseResume => 0x16,
            FlashStateCommand::ClearMore => 0x18,
        }
    }
}

/// How far through its release process the vendor driver library is.
#[derive(Debug, Clone, Copy, PartialEq, Eq, Structural)]
pub enum ApiProductionStatus {
    /// For internal use by the vendor only.  Not intended to be used by customers
    AlphaInternal,
    /// Early Engineering release.  May not be functionally complete
    Alpha,
    /// For internal use by the vendor only.  Not intended to be used by customers
    BetaInternal,
    /// Functionally complete, to be used for testing and validation
    Beta,
    /// Fully validated, functionally complete, ready for production use
    Production,
    /// The production status could not be determined
    Unknown,
}

impl Default for ApiProductionStatus {
    fn default() -> (r: Self)
        ensures
            r == ApiProductionStatus::Unknown,
    {
        ApiProductionStatus::Unknown
    }
}

impl ApiProductionStatus {
    /// The production status named by a raw byte; bytes past the defined
    /// range mean the status could not be determined.
    pub open spec fn spec_from_raw(value: u8) -> ApiProductionStatus {
        if value == 0 {
            ApiProductionStatus::AlphaInternal
        } else if value == 1 {
            ApiProductionStatus::Alpha
        } else if value == 2 {
            ApiProductionStatus::BetaInternal
        } else if value == 3 {
            ApiProductionStatus::Beta
        } else if value == 4 {
            ApiProductionStatus::Production
        } else {
            ApiProductionStatus::Unknown
        }
    }

    /// Interpret a raw production-status byte.
    pub fn from_raw(value: u8) -> (r: ApiProductionStatus)
        ensures
            r == ApiProductionStatus::spec_from_raw(value),
    {
        match value {
            0 => ApiProductionStatus::AlphaInternal,
            1 => ApiProductionStatus::Alpha,
            2 => ApiProductionStatus::BetaInternal,
            3 => ApiProductionStatus::Beta,
            4 => ApiProductionStatus::Production,
            _ => ApiProductionStatus::Unknown,
        }
    }
}

/// Version and build identification of the vendor driver library.
#[derive(Debug, Clone, Copy, PartialEq, Eq, Structural)]
pub struct LibraryInfo {
    pub major_version: u8,
    pub minor_version: u8,
    pub revision: u8,
    pub production_status: ApiProductionStatus,
    pub build_number: u32,
    pub technology_type: u8,
    pub technology_revision: u8,
    pub endianness: u8,
    pub compiler_version: u32,
}

/// Identification of the device the flash array belongs to.
#[derive(Debug, Clone, Copy, PartialEq, Eq, Structural)]
pub struct DeviceInfo {
    pub reserved: u16,
    pub number_of_banks: u16,
    pub device_package: u16,
    pub device_memory_size: u16,
    pub asic_id: u32,
    pub lot_number: u32,
    pub flow_check: u16,
    pub wafer_number: u16,
    pub wafer_x_coordinate: u16,
    pub wafer_y_coordinate: u16,
}

} // verus!
