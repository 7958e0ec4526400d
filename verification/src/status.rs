//! The closed outcome taxonomy returned by every driver call: the success
//! side ([`Status`]) and the fixed set of failure kinds ([`Error`]), together
//! with the numeric codes the debug host exchanges with the library.

use vstd::prelude::*;
use vstd::string::StringExecFns;

use crate::decimal::{dec_digits, u32_to_decimal};

verus! {

/// Success-side status codes of a driver call.
#[derive(Debug, Clone, Copy, PartialEq, Eq, Structural)]
pub enum Status {
    /// Function completed successfully
    Success,
    /// FSM is Busy
    FsmBusy,
    /// FSM is Ready
    FsmReady,
}

/// Raised when a raw bank-technology byte has no meaning.
#[derive(Debug, Clone, Copy, PartialEq, Eq, Structural)]
pub enum FlashBankTechError {
    InvalidTechType(u8),
}

/// Raised when a raw bank number names no physical bank.
#[derive(Debug, Clone, Copy, PartialEq, Eq, Structural)]
pub enum FlashBankError {
    InvalidFlashBank(u16),
}

/// Every way a flash operation can fail: the driver's fixed code set,
/// translated one for one, the resolution errors of this crate, and a
/// catch-all that preserves unrecognized raw codes for diagnostics.
#[derive(Debug, Clone, Copy, PartialEq, Eq, Structural)]
pub enum Error {
    /// Generic Function Fail code
    Fail,
    /// One of the pointer parameters is a null pointer
    NullPointer,
    /// Command used is invalid for the function called
    InvalidCommand,
    /// Returned if the ECC Address given to a function is invalid for that function
    InvalidEccAddress,
    /// Returned if OTP checksum does not match expected value
    OtpChecksumMismatch,
    /// Returned if FClk is above max FClk value - FClk is a calculated from HClk RWAIT/EWAIT
    InvalidHclkValue,
    /// Returned if the specified bank does not exist
    InvalidBank,
    /// Returned if the specified Address does not exist in Flash or OTP
    InvalidAddress,
    /// Returned if the specified read mode does not exist
    InvalidReadMode,
    /// Returned if Data buffer size specified exceeds Data bank width
    AsyncIncorrectDataBufferLength,
    /// Returned if ECC buffer size specified exceeds ECC bank width
    AsyncIncorrectEccBufferLength,
    /// Returned if Data buffer size either is not 64bit aligned or Data length exceeds amount ECC supplied
    AsyncDataEccBufferLengthMismatch,
    /// FMC feature is not available on this device
    FeatureNotAvailable,
    /// The flash bank could not be converted
    FlashBank(FlashBankError),
    /// The flash bank tech could not be interpreted
    FlashBankTech(FlashBankTechError),
    /// Unrecognized error
    Unrecognized(u32),
}

/// The meaning of a raw driver code on the failure side.
pub open spec fn spec_error_from_raw(value: u32) -> Error {
    if value == 3 {
        Error::Fail
    } else if value == 4 {
        Error::NullPointer
    } else if value == 5 {
        Error::InvalidCommand
    } else if value == 6 {
        Error::InvalidEccAddress
    } else if value == 7 {
        Error::OtpChecksumMismatch
    } else if value == 8 {
        Error::InvalidHclkValue
    } else if value == 9 {
        Error::InvalidBank
    } else if value == 10 {
        Error::InvalidAddress
    } else if value == 11 {
        Error::InvalidReadMode
    } else if value == 12 {
        Error::AsyncIncorrectDataBufferLength
    } else if value == 13 {
        Error::AsyncIncorrectEccBufferLength
    } else if value == 14 {
        Error::AsyncDataEccBufferLengthMismatch
    } else if value == 15 {
        Error::FeatureNotAvailable
    } else {
        Error::Unrecognized(value)
    }
}

/// The meaning of a raw driver status code: codes 0 to 2 are the success
/// side, everything else is a failure kind.
pub open spec fn spec_status_from_raw(value: u32) -> Result<Status, Error> {
    if value == 0 {
        Ok(Status::Success)
    } else if value == 1 {
        Ok(Status::FsmBusy)
    } else if value == 2 {
        Ok(Status::FsmReady)
    } else {
        Err(spec_error_from_raw(value))
    }
}

impl Error {
    /// Translate a raw driver code from the failure side of the taxonomy.
    pub fn from_raw(value: u32) -> (r: Error)
        ensures
            r == spec_error_from_raw(value),
    {
        match value {
            3 => Error::Fail,
            4 => Error::NullPointer,
            5 => Error::InvalidCommand,
            6 => Error::InvalidEccAddress,
            7 => Error::OtpChecksumMismatch,
            8 => Error::InvalidHclkValue,
            9 => Error::InvalidBank,
            10 => Error::InvalidAddress,
            11 => Error::InvalidReadMode,
            12 => Error::AsyncIncorrectDataBufferLength,
            13 => Error::AsyncIncorrectEccBufferLength,
            14 => Error::AsyncDataEccBufferLengthMismatch,
            15 => Error::FeatureNotAvailable,
            _ => Error::Unrecognized(value),
        }
    }

    /// The nonzero numeric code under which this error is reported to the
    /// debug host.
    pub open spec fn spec_code(self) -> u32 {
        match self {
            Error::Fail => 3,
            Error::NullPointer => 4,
            Error::InvalidCommand => 5,
            Error::InvalidEccAddress => 6,
            Error::OtpChecksumMismatch => 7,
            Error::InvalidHclkValue => 8,
            Error::InvalidBank => 9,
            Error::InvalidAddress => 10,
            Error::InvalidReadMode => 11,
            Error::AsyncIncorrectDataBufferLength => 12,
            Error::AsyncIncorrectEccBufferLength => 13,
            Error::AsyncDataEccBufferLengthMismatch => 14,
            Error::FeatureNotAvailable => 15,
            Error::Unrecognized(e) => 0x0100_0000u32 | e,
            Error::FlashBank(e) => 0x0200_0000u32 | e.spec_code() as u32,
            Error::FlashBankTech(e) => 0x0300_0000u32 | e.spec_code() as u32,
        }
    }

    /// The numeric code reported to the host; never zero, so the host can
    /// keep zero for success.
    pub fn code(&self) -> (r: u32)
        ensures
            r == self.spec_code(),
            r != 0,
    {
        proof {
            lemma_error_code_nonzero(*self);
        }
        match *self {
            Error::Fail => 3,
            Error::NullPointer => 4,
            Error::InvalidCommand => 5,
            Error::InvalidEccAddress => 6,
            Error::OtpChecksumMismatch => 7,
            Error::InvalidHclkValue => 8,
            Error::InvalidBank => 9,
            Error::InvalidAddress => 10,
            Error::InvalidReadMode => 11,
            Error::AsyncIncorrectDataBufferLength => 12,
            Error::AsyncIncorrectEccBufferLength => 13,
            Error::AsyncDataEccBufferLengthMismatch => 14,
            Error::FeatureNotAvailable => 15,
            Error::Unrecognized(e) => 0x0100_0000u32 | e,
            Error::FlashBank(e) => 0x0200_0000u32 | e.code() as u32,
            Error::FlashBankTech(e) => 0x0300_0000u32 | e.code() as u32,
        }
    }
}

/// No error is ever reported to the host under code zero.
pub proof fn lemma_error_code_nonzero(e: Error)
    ensures
        e.spec_code() != 0,
{
    match e {
        Error::Unrecognized(raw) => {
            assert(0x0100_0000u32 | raw != 0) by (bit_vector);
        },
        Error::FlashBank(inner) => {
            let raw = inner.spec_code() as u32;
            assert(0x0200_0000u32 | raw != 0) by (bit_vector);
        },
        Error::FlashBankTech(inner) => {
            let raw = inner.spec_code() as u32;
            assert(0x0300_0000u32 | raw != 0) by (bit_vector);
        },
        _ => {},
    }
}

impl FlashBankError {
    /// The raw bank number that failed to convert.
    pub open spec fn spec_code(self) -> u16 {
        match self {
            FlashBankError::InvalidFlashBank(e) => e,
        }
    }

    /// The raw bank number that failed to convert.
    pub fn code(&self) -> (r: u16)
        ensures
            r == self.spec_code(),
    {
        match *self {
            FlashBankError::InvalidFlashBank(e) => e,
        }
    }
}

impl FlashBankTechError {
    /// The raw technology byte that failed to convert.
    pub open spec fn spec_code(self) -> u8 {
        match self {
            FlashBankTechError::InvalidTechType(e) => e,
        }
    }

    /// The raw technology byte that failed to convert.
    pub fn code(&self) -> (r: u8)
        ensures
            r == self.spec_code(),
    {
        match *self {
            FlashBankTechError::InvalidTechType(e) => e,
        }
    }
}

impl FlashBankError {
    /// The diagnostic text of this error.
    pub open spec fn spec_message(self) -> Seq<char> {
        "Invalid flash bank: "@ + dec_digits(self.spec_code() as int)
    }

    /// Render the diagnostic text of this error.
    pub fn message(&self) -> (r: String)
        ensures
            r@ == self.spec_message(),
    {
        let lead = String::from_str("Invalid flash bank: ");
        let number = u32_to_decimal(self.code() as u32);
        lead.concat(number.as_str())
    }
}

impl FlashBankTechError {
    /// The diagnostic text of this error.
    pub open spec fn spec_message(self) -> Seq<char> {
        "Invalid tech type: "@ + dec_digits(self.spec_code() as int)
    }

    /// Render the diagnostic text of this error.
    pub fn message(&self) -> (r: String)
        ensures
            r@ == self.spec_message(),
    {
        let lead = String::from_str("Invalid tech type: ");
        let number = u32_to_decimal(self.code() as u32);
        lead.concat(number.as_str())
    }
}

impl Error {
    /// The diagnostic text of this error.
    pub open spec fn spec_message(self) -> Seq<char> {
        match self {
            Error::Fail => "Generic Function Fail code"@,
            Error::NullPointer => "One of the pointer parameters is a null pointer"@,
            Error::InvalidCommand => "Command used is invalid for the function called"@,
            Error::InvalidEccAddress => "The ECC Address given to a function is invalid for this function"@,
            Error::OtpChecksumMismatch => "OTP checksum does not match expected value"@,
            Error::InvalidHclkValue => "FClk is above max FClk value - FClk is a calculated from HClk RWAIT/EWAIT"@,
            Error::InvalidBank => "The specified bank does not exist"@,
            Error::InvalidAddress => "The specified Address does not exist in Flash or OTP"@,
            Error::InvalidReadMode => "The specified read mode does not exist"@,
            Error::AsyncIncorrectDataBufferLength => "Data buffer size specified exceeds Data bank width"@,
            Error::AsyncIncorrectEccBufferLength => "ECC buffer size specified exceeds ECC bank width"@,
            Error::AsyncDataEccBufferLengthMismatch => "Data buffer size either is not 64bit aligned or Data length exceeds amount ECC supplied"@,
            Error::FeatureNotAvailable => "FMC feature is not available on this device"@,
            Error::FlashBank(e) => "Flash bank error: "@ + e.spec_message(),
            Error::FlashBankTech(e) => "Flash bank tech error: "@ + e.spec_message(),
            Error::Unrecognized(err) => "Unrecognized error: "@ + dec_digits(err as int),
        }
    }

    /// Render the diagnostic text of this error.
    pub fn message(&self) -> (r: String)
        ensures
            r@ == self.spec_message(),
    {
        match *self {
            Error::Fail => String::from_str("Generic Function Fail code"),
            Error::NullPointer => String::from_str(
                "One of the pointer parameters is a null pointer",
            ),
            Error::InvalidCommand => String::from_str(
                "Command used is invalid for the function called",
            ),
            Error::InvalidEccAddress => String::from_str(
                "The ECC Address given to a function is invalid for this function",
            ),
            Error::OtpChecksumMismatch => String::from_str(
                "OTP checksum does not match expected value",
            ),
            Error::InvalidHclkValue => String::from_str(
                "FClk is above max FClk value - FClk is a calculated from HClk RWAIT/EWAIT",
            ),
            Error::InvalidBank => String::from_str("The specified bank does not exist"),
            Error::InvalidAddress => String::from_str(
                "The specified Address does not exist in Flash or OTP",
            ),
            Error::InvalidReadMode => String::from_str("The specified read mode does not exist"),
            Error::AsyncIncorrectDataBufferLength => String::from_str(
                "Data buffer size specified exceeds Data bank width",
            ),
            Error::AsyncIncorrectEccBufferLength => String::from_str(
                "ECC buffer size specified exceeds ECC bank width",
            ),
            Error::AsyncDataEccBufferLengthMismatch => String::from_str(
                "Data buffer size either is not 64bit aligned or Data length exceeds amount ECC supplied",
            ),
            Error::FeatureNotAvailable => String::from_str(
                "FMC feature is not available on this device",
            ),
            Error::FlashBank(e) => {
                let lead = String::from_str("Flash bank error: ");
                let inner = e.message();
                lead.concat(inner.as_str())
            },
            Error::FlashBankTech(e) => {
                let lead = String::from_str("Flash bank tech error: ");
                let inner = e.message();
                lead.concat(inner.as_str())
            },
            Error::Unrecognized(err) => {
                let lead = String::from_str("Unrecognized error: ");
                let number = u32_to_decimal(err);
                lead.concat(number.as_str())
            },
        }
    }
}

impl Status {
    /// Translate a raw driver status code into the typed outcome taxonomy.
    pub fn from_raw(value: u32) -> (r: Result<Status, Error>)
        ensures
            r == spec_status_from_raw(value),
    {
        match value {
            0 => Ok(Status::Success),
            1 => Ok(Status::FsmBusy),
            2 => Ok(Status::FsmReady),
            _ => Err(Error::from_raw(value)),
        }
    }
}

} // verus!
