//! Raw data layouts of the vendor flash-driver interface, and the verified
//! translations between them and the typed data model of this crate. The
//! calls themselves live outside the library; only plain values cross this
//! boundary.

use vstd::prelude::*;

use crate::status::{Error, FlashBankError, Status};
use crate::types::{
    ApiProductionStatus, DeviceInfo, FlashBank, FlashBankSectors, FlashBankTech,
    FlashProgrammingCommand, FlashStateCommand, FlashStatus, LibraryInfo,
};

verus! {

/// This is used to indicate what bank technology the bank is built in, as
/// the vendor driver spells it.
#[allow(non_camel_case_types)]
#[derive(Debug, Clone, Copy, PartialEq, Eq, Structural)]
pub enum Fapi_FlashBankTechType {
    Fapi_FLEP,
    Fapi_FLEE,
    Fapi_FLES,
    Fapi_FLHV,
}

impl Default for Fapi_FlashBankTechType {
    fn default() -> (r: Self)
        ensures
            r == Fapi_FlashBankTechType::Fapi_FLEP,
    {
        Fapi_FlashBankTechType::Fapi_FLEP
    }
}

/// A bank's sector listing as the vendor driver reports it: a raw
/// technology byte, a sector count, the bank start address, and sector
/// sizes in kilobyte units.
#[allow(non_camel_case_types, non_snake_case)]
#[derive(Debug, Clone, Copy, PartialEq, Eq)]
pub struct Fapi_FlashBankSectorsType {
    pub oFlashBankTech: u8,
    pub u32NumberOfSectors: u32,
    pub u32BankStartAddress: u32,
    pub au16SectorSizes: [u16; 16],
}

/// This contains all the possible modes used in the vendor programming
/// command.
#[allow(non_camel_case_types)]
#[derive(Debug, Clone, Copy, PartialEq, Eq, Structural)]
pub enum Fapi_FlashProgrammingCommandsType {
    /// This is the default mode for the command and will auto generate the ECC for the provided data buffer
    Fapi_AutoEccGeneration,
    /// Command will only process the data buffer
    Fapi_DataOnly,
    /// Command will only process the ecc buffer
    Fapi_EccOnly,
    /// Command will process data and ecc buffers
    Fapi_DataAndEcc,
}

impl Fapi_FlashProgrammingCommandsType {
    /// The numeric mode the vendor driver takes at its binary interface.
    pub open spec fn spec_code(self) -> u8 {
        match self {
            Fapi_FlashProgrammingCommandsType::Fapi_AutoEccGeneration => 0,
            Fapi_FlashProgrammingCommandsType::Fapi_DataOnly => 1,
            Fapi_FlashProgrammingCommandsType::Fapi_EccOnly => 2,
            Fapi_FlashProgrammingCommandsType::Fapi_DataAndEcc => 3,
        }
    }

    /// The numeric mode the vendor driver takes at its binary interface.
    pub fn code(&self) -> (r: u8)
        ensures
            r == self.spec_code(),
    {
        match *self {
            Fapi_FlashProgrammingCommandsType::Fapi_AutoEccGeneration => 0,
            Fapi_FlashProgrammingCommandsType::Fapi_DataOnly => 1,
            Fapi_FlashProgrammingCommandsType::Fapi_EccOnly => 2,
            Fapi_FlashProgrammingCommandsType::Fapi_DataAndEcc => 3,
        }
    }
}

/// This contains all the possible flash state machine commands, as the
/// vendor driver spells them.
#[allow(non_camel_case_types)]
#[derive(Debug, Clone, Copy, PartialEq, Eq, Structural)]
pub enum Fapi_FlashStateCommandsType {
    Fapi_ProgramData,
    Fapi_EraseSector,
    Fapi_EraseBank,
    Fapi_ValidateSector,
    Fapi_ClearStatus,
    Fapi_ProgramResume,
    Fapi_EraseResume,
    Fapi_ClearMore,
}

impl Fapi_FlashStateCommandsType {
    /// The numeric command code this vendor spelling stands for.
    pub open spec fn spec_code(self) -> u8 {
        match self {
            Fapi_FlashStateCommandsType::Fapi_ProgramData => 0x02,
            Fapi_FlashStateCommandsType::Fapi_EraseSector => 0x06,
            Fapi_FlashStateCommandsType::Fapi_EraseBank => 0x08,
            Fapi_FlashStateCommandsType::Fapi_ValidateSector => 0x0E,
            Fapi_FlashStateCommandsType::Fapi_ClearStatus => 0x10,
            Fapi_FlashStateCommandsType::Fapi_ProgramResume => 0x14,
            Fapi_FlashStateCommandsType::Fapi_EraseResume => 0x16,
            Fapi_FlashStateCommandsType::Fapi_ClearMore => 0x18,
        }
    }

    /// The numeric command code the vendor driver takes at its binary
    /// interface.
    pub fn code(&self) -> (r: u8)
        ensures
            r == self.spec_code(),
    {
        match *self {
            Fapi_FlashStateCommandsType::Fapi_ProgramData => 0x02,
            Fapi_FlashStateCommandsType::Fapi_EraseSector => 0x06,
            Fapi_FlashStateCommandsType::Fapi_EraseBank => 0x08,
            Fapi_FlashStateCommandsType::Fapi_ValidateSector => 0x0E,
            Fapi_FlashStateCommandsType::Fapi_ClearStatus => 0x10,
            Fapi_FlashStateCommandsType::Fapi_ProgramResume => 0x14,
            Fapi_FlashStateCommandsType::Fapi_EraseResume => 0x16,
            Fapi_FlashStateCommandsType::Fapi_ClearMore => 0x18,
        }
    }
}

/// This is used to indicate which flash bank is being used, as the vendor
/// driver spells it.
#[allow(non_camel_case_types)]
#[derive(Debug, Clone, Copy, PartialEq, Eq, Structural)]
pub enum Fapi_FlashBankType {
    Fapi_FlashBank0,
    Fapi_FlashBank1,
    Fapi_FlashBank2,
    Fapi_FlashBank3,
    Fapi_FlashBank4,
    Fapi_FlashBank5,
    Fapi_FlashBank6,
    Fapi_FlashBank7,
}

impl Fapi_FlashBankType {
    /// The vendor bank named by a raw bank number, if any.
    pub open spec fn spec_from_raw(value: u16) -> Result<Fapi_FlashBankType, FlashBankError> {
        if value == 0 {
            Ok(Fapi_FlashBankType::Fapi_FlashBank0)
        } else if value == 1 {
            Ok(Fapi_FlashBankType::Fapi_FlashBank1)
        } else if value == 2 {
            Ok(Fapi_FlashBankType::Fapi_FlashBank2)
        } else if value == 3 {
            Ok(Fapi_FlashBankType::Fapi_FlashBank3)
        } else if value == 4 {
            Ok(Fapi_FlashBankType::Fapi_FlashBank4)
        } else if value == 5 {
            Ok(Fapi_FlashBankType::Fapi_FlashBank5)
        } else if value == 6 {
            Ok(Fapi_FlashBankType::Fapi_FlashBank6)
        } else if value == 7 {
            Ok(Fapi_FlashBankType::Fapi_FlashBank7)
        } else {
            Err(FlashBankError::InvalidFlashBank(value))
        }
    }

    /// Resolve a raw bank number to the vendor's bank identifier.
    pub fn from_raw(value: u16) -> (r: Result<Fapi_FlashBankType, FlashBankError>)
        ensures
            r == Fapi_FlashBankType::spec_from_raw(value),
    {
        match value {
            0 => Ok(Fapi_FlashBankType::Fapi_FlashBank0),
            1 => Ok(Fapi_FlashBankType::Fapi_FlashBank1),
            2 => Ok(Fapi_FlashBankType::Fapi_FlashBank2),
            3 => Ok(Fapi_FlashBankType::Fapi_FlashBank3),
            4 => Ok(Fapi_FlashBankType::Fapi_FlashBank4),
            5 => Ok(Fapi_FlashBankType::Fapi_FlashBank5),
            6 => Ok(Fapi_FlashBankType::Fapi_FlashBank6),
            7 => Ok(Fapi_FlashBankType::Fapi_FlashBank7),
            _ => Err(FlashBankError::InvalidFlashBank(value)),
        }
    }

    /// The numeric bank number the vendor driver takes at its binary
    /// interface.
    pub open spec fn spec_code(self) -> u8 {
        match self {
            Fapi_FlashBankType::Fapi_FlashBank0 => 0,
            Fapi_FlashBankType::Fapi_FlashBank1 => 1,
            Fapi_FlashBankType::Fapi_FlashBank2 => 2,
            Fapi_FlashBankType::Fapi_FlashBank3 => 3,
            Fapi_FlashBankType::Fapi_FlashBank4 => 4,
            Fapi_FlashBankType::Fapi_FlashBank5 => 5,
            Fapi_FlashBankType::Fapi_FlashBank6 => 6,
            Fapi_FlashBankType::Fapi_FlashBank7 => 7,
        }
    }

    /// The numeric bank number the vendor driver takes at its binary
    /// interface.
    pub fn code(&self) -> (r: u8)
        ensures
            r == self.spec_code(),
    {
        match *self {
            Fapi_FlashBankType::Fapi_FlashBank0 => 0,
            Fapi_FlashBankType::Fapi_FlashBank1 => 1,
            Fapi_FlashBankType::Fapi_FlashBank2 => 2,
            Fapi_FlashBankType::Fapi_FlashBank3 => 3,
            Fapi_FlashBankType::Fapi_FlashBank4 => 4,
            Fapi_FlashBankType::Fapi_FlashBank5 => 5,
            Fapi_FlashBankType::Fapi_FlashBank6 => 6,
            Fapi_FlashBankType::Fapi_FlashBank7 => 7,
        }
    }
}

/// This is the master type containing all possible returned status codes of
/// the vendor driver, in the order of their numeric codes.
#[allow(non_camel_case_types)]
#[derive(Debug, Clone, Copy, PartialEq, Eq, Structural)]
pub enum Fapi_StatusType {
    /// Function completed successfully
    Fapi_Status_Success,
    /// FSM is Busy
    Fapi_Status_FsmBusy,
    /// FSM is Ready
    Fapi_Status_FsmReady,
    /// Generic Function Fail code
    Fapi_Error_Fail,
    /// One of the pointer parameters is a null pointer
    Fapi_Error_NullPointer,
    /// Command used is invalid for the function called
    Fapi_Error_InvalidCommand,
    /// Returned if the ECC Address given to a function is invalid for that function
    Fapi_Error_InvalidEccAddress,
    /// Returned if OTP checksum does not match expected value
    Fapi_Error_OtpChecksumMismatch,
    /// Returned if FClk is above max FClk value - FClk is a calculated from HClk RWAIT/EWAIT
    Fapi_Error_InvalidHclkValue,
    /// Returned if the specified bank does not exist
    Fapi_Error_InvalidBank,
    /// Returned if the specified Address does not exist in Flash or OTP
    Fapi_Error_InvalidAddress,
    /// Returned if the specified read mode does not exist
    Fapi_Error_InvalidReadMode,
    /// Returned if Data buffer size specified exceeds Data bank width
    Fapi_Error_AsyncIncorrectDataBufferLength,
    /// Returned if ECC buffer size specified exceeds ECC bank width
    Fapi_Error_AsyncIncorrectEccBufferLength,
    /// Returned if Data buffer size either is not 64bit aligned or Data length exceeds amount ECC supplied
    Fapi_Error_AsyncDataEccBufferLengthMismatch,
}

/// How far through its release process the vendor driver is, as it reports
/// it.
#[allow(non_camel_case_types)]
#[derive(Debug, Clone, Copy, PartialEq, Eq, Structural)]
pub enum Fapi_ApiProductionStatusType {
    /// For internal use by the vendor only.  Not intended to be used by customers
    Alpha_Internal,
    /// Early Engineering release.  May not be functionally complete
    Alpha,
    /// For internal use by the vendor only.  Not intended to be used by customers
    Beta_Internal,
    /// Functionally complete, to be used for testing and validation
    Beta,
    /// Fully validated, functionally complete, ready for production use
    Production,
}

/// Version and build identification as the vendor driver lays it out.
#[allow(non_camel_case_types, non_snake_case)]
#[derive(Debug, Clone, Copy, PartialEq, Eq, Structural)]
pub struct Fapi_LibraryInfoType {
    pub u8ApiMajorVersion: u8,
    pub u8ApiMinorVersion: u8,
    pub u8ApiRevision: u8,
    pub oApiProductionStatus: u8,
    pub u32ApiBuildNumber: u32,
    pub u8ApiTechnologyType: u8,
    pub u8ApiTechnologyRevision: u8,
    pub u8ApiEndianness: u8,
    pub u32ApiCompilerVersion: u32,
}

/// Device identification as the vendor driver lays it out.
#[allow(non_camel_case_types, non_snake_case)]
#[derive(Debug, Clone, Copy, PartialEq, Eq, Structural)]
pub struct Fapi_DeviceInfoType {
    pub u16Reserved: u16,
    pub u16NumberOfBanks: u16,
    pub u16DevicePackage: u16,
    pub u16DeviceMemorySize: u16,
    pub u32AsicId: u32,
    pub u32LotNumber: u32,
    pub u16FlowCheck: u16,
    pub u16WaferNumber: u16,
    pub u16WaferXCoordinate: u16,
    pub u16WaferYCoordinate: u16,
}

/// The four diagnostic words a failed blank check leaves behind.
#[allow(non_camel_case_types, non_snake_case)]
#[derive(Debug, Clone, Copy, PartialEq, Eq)]
pub struct Fapi_FlashStatusWordType {
    pub au32StatusWord: [u32; 4],
}

impl FlashProgrammingCommand {
    /// The vendor spelling of this programming mode.
    pub open spec fn spec_to_fapi(self) -> Fapi_FlashProgrammingCommandsType {
        match self {
            FlashProgrammingCommand::AutoEccGeneration => {
                Fapi_FlashProgrammingCommandsType::Fapi_AutoEccGeneration
            },
            FlashProgrammingCommand::DataOnly => {
                Fapi_FlashProgrammingCommandsType::Fapi_DataOnly
            },
            FlashProgrammingCommand::EccOnly => Fapi_FlashProgrammingCommandsType::Fapi_EccOnly,
            FlashProgrammingCommand::DataAndEcc => {
                Fapi_FlashProgrammingCommandsType::Fapi_DataAndEcc
            },
        }
    }

    /// Translate this programming mode into the vendor's spelling.
    pub fn to_fapi(&self) -> (r: Fapi_FlashProgrammingCommandsType)
        ensures
            r == self.spec_to_fapi(),
    {
        match *self {
            FlashProgrammingCommand::AutoEccGeneration => {
                Fapi_FlashProgrammingCommandsType::Fapi_AutoEccGeneration
            },
            FlashProgrammingCommand::DataOnly => {
                Fapi_FlashProgrammingCommandsType::Fapi_DataOnly
            },
            FlashProgrammingCommand::EccOnly => Fapi_FlashProgrammingCommandsType::Fapi_EccOnly,
            FlashProgrammingCommand::DataAndEcc => {
                Fapi_FlashProgrammingCommandsType::Fapi_DataAndEcc
            },
        }
    }
}

impl FlashStateCommand {
    /// The vendor spelling of this state-machine command.
    pub open spec fn spec_to_fapi(self) -> Fapi_FlashStateCommandsType {
        match self {
            FlashStateCommand::ProgramData => Fapi_FlashStateCommandsType::Fapi_ProgramData,
            FlashStateCommand::EraseSector => Fapi_FlashStateCommandsType::Fapi_EraseSector,
            FlashStateCommand::EraseBank => Fapi_FlashStateCommandsType::Fapi_EraseBank,
            FlashStateCommand::ValidateSector => {
                Fapi_FlashStateCommandsType::Fapi_ValidateSector
            },
            FlashStateCommand::ClearStatus => Fapi_FlashStateCommandsType::Fapi_ClearStatus,
            FlashStateCommand::ProgramResume => Fapi_FlashStateCommandsType::Fapi_ProgramResume,
            FlashStateCommand::EraseResume => Fapi_FlashStateCommandsType::Fapi_EraseResume,
            FlashStateCommand::ClearMore => Fapi_FlashStateCommandsType::Fapi_ClearMore,
        }
    }

    /// Translate this state-machine command into the vendor's spelling.
    pub fn to_fapi(&self) -> (r: Fapi_FlashStateCommandsType)
        ensures
            r == self.spec_to_fapi(),
    {
        match *self {
            FlashStateCommand::ProgramData => Fapi_FlashStateCommandsType::Fapi_ProgramData,
            FlashStateCommand::EraseSector => Fapi_FlashStateCommandsType::Fapi_EraseSector,
            FlashStateCommand::EraseBank => Fapi_FlashStateCommandsType::Fapi_EraseBank,
            FlashStateCommand::ValidateSector => {
                Fapi_FlashStateCommandsType::Fapi_ValidateSector
            },
            FlashStateCommand::ClearStatus => Fapi_FlashStateCommandsType::Fapi_ClearStatus,
            FlashStateCommand::ProgramResume => Fapi_FlashStateCommandsType::Fapi_ProgramResume,
            FlashStateCommand::EraseResume => Fapi_FlashStateCommandsType::Fapi_EraseResume,
            FlashStateCommand::ClearMore => Fapi_FlashStateCommandsType::Fapi_ClearMore,
        }
    }
}

impl FlashBank {
    /// The vendor spelling of this bank identifier.
    pub open spec fn spec_to_fapi(self) -> Fapi_FlashBankType {
        match self {
            FlashBank::_0 => Fapi_FlashBankType::Fapi_FlashBank0,
            FlashBank::_1 => Fapi_FlashBankType::Fapi_FlashBank1,
            FlashBank::_2 => Fapi_FlashBankType::Fapi_FlashBank2,
            FlashBank::_3 => Fapi_FlashBankType::Fapi_FlashBank3,
            FlashBank::_4 => Fapi_FlashBankType::Fapi_FlashBank4,
            FlashBank::_5 => Fapi_FlashBankType::Fapi_FlashBank5,
            FlashBank::_6 => Fapi_FlashBankType::Fapi_FlashBank6,
            FlashBank::_7 => Fapi_FlashBankType::Fapi_FlashBank7,
        }
    }

    /// Translate this bank identifier into the vendor's spelling.
    pub fn to_fapi(&self) -> (r: Fapi_FlashBankType)
        ensures
            r == self.spec_to_fapi(),
    {
        match *self {
            FlashBank::_0 => Fapi_FlashBankType::Fapi_FlashBank0,
            FlashBank::_1 => Fapi_FlashBankType::Fapi_FlashBank1,
            FlashBank::_2 => Fapi_FlashBankType::Fapi_FlashBank2,
            FlashBank::_3 => Fapi_FlashBankType::Fapi_FlashBank3,
            FlashBank::_4 => Fapi_FlashBankType::Fapi_FlashBank4,
            FlashBank::_5 => Fapi_FlashBankType::Fapi_FlashBank5,
            FlashBank::_6 => Fapi_FlashBankType::Fapi_FlashBank6,
            FlashBank::_7 => Fapi_FlashBankType::Fapi_FlashBank7,
        }
    }
}

/// The sector sizes a raw bank listing describes, in bytes: the vendor
/// reports at most sixteen sizes in kilobyte units, and a listing in the
/// FLEE technology reports only the first size, which holds for every
/// sector of the bank.
pub open spec fn spec_sector_sizes_from_raw(raw: Fapi_FlashBankSectorsType, tech: FlashBankTech) -> Seq<u32> {
    let base = Seq::new(
        32,
        |i: int| if i < 16 { (raw.au16SectorSizes@[i] * 1024) as u32 } else { 0u32 },
    );
    if tech == FlashBankTech::FLEE {
        Seq::new(32, |i: int| base[0])
    } else {
        base
    }
}

impl FlashBankSectors {
    /// Interpret a raw bank listing reported by the vendor driver.
    pub fn from_raw(raw: &Fapi_FlashBankSectorsType) -> (r: Result<FlashBankSectors, Error>)
        ensures
            match r {
                Ok(sectors) => {
                    &&& FlashBankTech::spec_from_raw(raw.oFlashBankTech) == Ok::<
                        FlashBankTech,
                        crate::status::FlashBankTechError,
                    >(sectors.flash_bank_tech)
                    &&& sectors.number_of_sectors == raw.u32NumberOfSectors
                    &&& sectors.bank_start_address == raw.u32BankStartAddress
                    &&& sectors.sector_sizes@ == spec_sector_sizes_from_raw(
                        *raw,
                        sectors.flash_bank_tech,
                    )
                },
                Err(e) => {
                    &&& FlashBankTech::spec_from_raw(raw.oFlashBankTech) matches Err(inner)
                    &&& e == Error::FlashBankTech(inner)
                },
            },
    {
        let tech = match FlashBankTech::from_raw(raw.oFlashBankTech) {
            Ok(tech) => tech,
            Err(e) => {
                return Err(Error::FlashBankTech(e));
            },
        };
        let mut sizes: [u32; 32] = [0u32; 32];
        let mut i: usize = 0;
        while i < 16
            invariant
                i <= 16,
                forall|j: int|
                    0 <= j < i ==> sizes@[j] == (raw.au16SectorSizes@[j] * 1024) as u32,
                forall|j: int| i <= j < 32 ==> sizes@[j] == 0u32,
            decreases 16 - i,
        {
            let size16 = raw.au16SectorSizes[i];
            assert(size16 * 1024 <= 0xFFFF * 1024);
            sizes[i] = (size16 as u32) * 1024;
            i = i + 1;
        }
        if tech == FlashBankTech::FLEE {
            // For this technology, only the first size is reported. All
            // other sizes are the same.
            let first = sizes[0];
            let mut k: usize = 0;
            while k < 32
                invariant
                    k <= 32,
                    first == (raw.au16SectorSizes@[0] * 1024) as u32,
                    forall|j: int| 0 <= j < k ==> sizes@[j] == first,
                decreases 32 - k,
            {
                sizes[k] = first;
                k = k + 1;
            }
            assert(sizes@ =~= spec_sector_sizes_from_raw(*raw, tech));
        } else {
            assert(sizes@ =~= spec_sector_sizes_from_raw(*raw, tech));
        }
        Ok(
            FlashBankSectors {
                flash_bank_tech: tech,
                number_of_sectors: raw.u32NumberOfSectors,
                bank_start_address: raw.u32BankStartAddress,
                sector_sizes: sizes,
            },
        )
    }
}

impl LibraryInfo {
    /// The typed meaning of the raw library identification record.
    pub open spec fn spec_from_raw(raw: Fapi_LibraryInfoType) -> LibraryInfo {
        LibraryInfo {
            major_version: raw.u8ApiMajorVersion,
            minor_version: raw.u8ApiMinorVersion,
            revision: raw.u8ApiRevision,
            production_status: ApiProductionStatus::spec_from_raw(raw.oApiProductionStatus),
            build_number: raw.u32ApiBuildNumber,
            technology_type: raw.u8ApiTechnologyType,
            technology_revision: raw.u8ApiTechnologyRevision,
            endianness: raw.u8ApiEndianness,
            compiler_version: raw.u32ApiCompilerVersion,
        }
    }

    /// Interpret the raw library identification record.
    pub fn from_raw(raw: &Fapi_LibraryInfoType) -> (r: LibraryInfo)
        ensures
            r == LibraryInfo::spec_from_raw(*raw),
    {
        LibraryInfo {
            major_version: raw.u8ApiMajorVersion,
            minor_version: raw.u8ApiMinorVersion,
            revision: raw.u8ApiRevision,
            production_status: ApiProductionStatus::from_raw(raw.oApiProductionStatus),
            build_number: raw.u32ApiBuildNumber,
            technology_type: raw.u8ApiTechnologyType,
            technology_revision: raw.u8ApiTechnologyRevision,
            endianness: raw.u8ApiEndianness,
            compiler_version: raw.u32ApiCompilerVersion,
        }
    }
}

impl DeviceInfo {
    /// The typed meaning of the raw device identification record.
    pub open spec fn spec_from_raw(raw: Fapi_DeviceInfoType) -> DeviceInfo {
        DeviceInfo {
            reserved: raw.u16Reserved,
            number_of_banks: raw.u16NumberOfBanks,
            device_package: raw.u16DevicePackage,
            device_memory_size: raw.u16DeviceMemorySize,
            asic_id: raw.u32AsicId,
            lot_number: raw.u32LotNumber,
            flow_check: raw.u16FlowCheck,
            wafer_number: raw.u16WaferNumber,
            wafer_x_coordinate: raw.u16WaferXCoordinate,
            wafer_y_coordinate: raw.u16WaferYCoordinate,
        }
    }

    /// Interpret the raw device identification record.
    pub fn from_raw(raw: &Fapi_DeviceInfoType) -> (r: DeviceInfo)
        ensures
            r == DeviceInfo::spec_from_raw(*raw),
    {
        DeviceInfo {
            reserved: raw.u16Reserved,
            number_of_banks: raw.u16NumberOfBanks,
            device_package: raw.u16DevicePackage,
            device_memory_size: raw.u16DeviceMemorySize,
            asic_id: raw.u32AsicId,
            lot_number: raw.u32LotNumber,
            flow_check: raw.u16FlowCheck,
            wafer_number: raw.u16WaferNumber,
            wafer_x_coordinate: raw.u16WaferXCoordinate,
            wafer_y_coordinate: raw.u16WaferYCoordinate,
        }
    }
}

/// The two halves of a 64-bit sector-enable mask, as the vendor driver
/// takes them: low word first.
pub fn split_sector_enables(sectors_enables: u64) -> (r: (u32, u32))
    ensures
        r.0 as u64 == sectors_enables & 0xFFFF_FFFFu64,
        r.1 as u64 == sectors_enables >> 32u64,
{
    let lower: u32 = (sectors_enables & 0xFFFF_FFFF) as u32;
    let upper: u32 = (sectors_enables >> 32) as u32;
    proof {
        assert((sectors_enables & 0xFFFF_FFFFu64) <= 0xFFFF_FFFFu64) by (bit_vector);
        assert((sectors_enables >> 32u64) <= 0xFFFF_FFFFu64) by (bit_vector);
    }
    (lower, upper)
}

/// How many buffer bytes fit the vendor programming call: a data or ECC
/// buffer longer than the one-byte length field can carry is rejected with
/// the matching buffer-length error.
pub open spec fn spec_program_buffer_lengths(data_len: nat, ecc_len: Option<nat>) -> Result<
    (u8, u8),
    Error,
> {
    if data_len > 255 {
        Err(Error::AsyncIncorrectDataBufferLength)
    } else {
        match ecc_len {
            Some(l) => {
                if l > 255 {
                    Err(Error::AsyncIncorrectEccBufferLength)
                } else {
                    Ok((data_len as u8, l as u8))
                }
            },
            None => Ok((data_len as u8, 0u8)),
        }
    }
}

/// Check that a data buffer and an optional ECC buffer fit the vendor
/// programming call, and produce the one-byte lengths it takes.
pub fn program_buffer_lengths(data_len: usize, ecc_len: Option<usize>) -> (r: Result<
    (u8, u8),
    Error,
>)
    ensures
        r == spec_program_buffer_lengths(
            data_len as nat,
            match ecc_len {
                Some(l) => Some(l as nat),
                None => None,
            },
        ),
{
    if data_len > 255 {
        return Err(Error::AsyncIncorrectDataBufferLength);
    }
    match ecc_len {
        Some(l) => {
            if l > 255 {
                Err(Error::AsyncIncorrectEccBufferLength)
            } else {
                Ok((data_len as u8, l as u8))
            }
        },
        None => Ok((data_len as u8, 0u8)),
    }
}

/// How many 32-bit words a blank check over a byte range covers: the
/// vendor's word-wise blank check takes its length in those units.
pub fn blank_check_word_count(size: u32) -> (r: u32)
    ensures
        r == size / 4,
{
    size / 4
}

/// The outcome of a blank check, from the raw status code of the call and
/// the diagnostic words it left behind: any failure code carries the four
/// words as a [`FlashStatus`]; a success-side code discards them.
pub open spec fn spec_blank_check_result(raw_status: u32, words: Fapi_FlashStatusWordType) -> Result<
    (),
    FlashStatus,
> {
    if crate::status::spec_status_from_raw(raw_status) is Err {
        Err(
            FlashStatus {
                non_blank_address: words.au32StatusWord@[0],
                non_blank_data: words.au32StatusWord@[1],
                comparison_data: words.au32StatusWord@[2],
                read_mode: words.au32StatusWord@[3],
            },
        )
    } else {
        Ok(())
    }
}

/// Translate the raw outcome of a vendor blank check.
pub fn blank_check_result(raw_status: u32, words: &Fapi_FlashStatusWordType) -> (r: Result<
    (),
    FlashStatus,
>)
    ensures
        r == spec_blank_check_result(raw_status, *words),
{
    let status: Result<Status, Error> = Status::from_raw(raw_status);
    if status.is_err() {
        Err(
            FlashStatus {
                non_blank_address: words.au32StatusWord[0],
                non_blank_data: words.au32StatusWord[1],
                comparison_data: words.au32StatusWord[2],
                read_mode: words.au32StatusWord[3],
            },
        )
    } else {
        Ok(())
    }
}

/// The two spellings of a state-machine command name the same numeric
/// code: translating to the vendor's spelling and reading its code gives
/// the command's own code.
pub proof fn lemma_state_command_codes_agree(command: crate::types::FlashStateCommand)
    ensures
        command.spec_to_fapi().spec_code() == command.spec_code(),
{
}

} // verus!
