//! Programming orchestration for a banked, sector-organized flash array.
//!
//! The crate maps target addresses to physical banks and sectors, sequences
//! bank-activation and sector-enable prerequisites, gates every step on the
//! hardware flash state machine, chunks large operations into hardware-sized
//! units, and retries the flaky blank-check primitive a bounded number of
//! times. The vendor flash driver itself is an external collaborator: it is
//! reached only through the [`driver::FlashDriver`] trait, so the
//! orchestration logic is specified and verified against that interface and
//! can be exercised against a scripted driver without real hardware.

pub mod status;
pub mod types;
pub mod fapi;
pub mod geometry;
pub mod driver;
pub mod blank;
pub mod algorithm;
pub mod sim;
pub mod decimal;
