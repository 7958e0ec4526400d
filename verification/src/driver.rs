//! The driver adapter boundary: the capability set the orchestration
//! engine requires from the vendor flash driver, stated as a trait whose
//! contracts record every operation in a ghost call log. All sequencing
//! properties of the engine are phrased over that log.

use vstd::prelude::*;

use crate::status::{Error, Status};
use crate::types::{FlashBank, FlashProgrammingCommand, FlashStateCommand, FlashStatus, FsmStatus};

verus! {

/// The largest number of data bytes one programming call may carry; a hard
/// contract of the driver that the sequencer must not exceed.
pub const PROGRAM_BLOCK_SIZE: usize = 32;

/// The window size, in bytes, of one blank-check attempt; a verification
/// range must start on this boundary.
pub const BLANK_CHECK_CHUNK: u32 = 1024;

/// How many times one blank-check window is attempted before the engine
/// declares the range not blank; the primitive is known to fail spuriously
/// right after an erase.
pub const BLANK_CHECK_ATTEMPTS: u32 = 6;

/// The sector-enable mask that enables every sector of a bank.
pub const ALL_SECTORS: u16 = 0xFFFF;

/// One recorded driver operation: what was asked of the vendor driver and
/// what the hardware answered.
pub enum DriverCall {
    /// The flash-array power mode register was read during bring-up.
    ReadPowerMode { value: u32 },
    /// The flash-array power mode register was rewritten during bring-up.
    SetPowerMode { mode: u32 },
    /// The write-wait-state timing was configured during bring-up.
    SetWriteWaitStates { count: u32 },
    /// The read-wait-state timing was configured during bring-up.
    SetReadWaitStates { count: u32 },
    /// The driver was initialized with the given bus clock.
    Initialize { clock: u32, result: Result<Status, Error> },
    /// A bank was made the addressing context for subsequent commands.
    SelectBank { bank: FlashBank, result: Result<Status, Error> },
    /// Sectors of the selected bank were enabled under the given mask.
    EnableSectors { mask: u16, result: Result<Status, Error> },
    /// A state-machine command was issued.
    Command { command: FlashStateCommand, result: Result<Status, Error> },
    /// A state-machine command was issued against an address.
    CommandAt { command: FlashStateCommand, address: u32, result: Result<Status, Error> },
    /// A block of bytes was handed to the programming primitive.
    Program {
        address: u32,
        data: Seq<u8>,
        mode: FlashProgrammingCommand,
        result: Result<Status, Error>,
    },
    /// One blank-check attempt over a window, and whether it passed.
    BlankCheck { address: u32, length: u32, ok: bool },
    /// The instruction and write pipelines were drained.
    Flush,
    /// The status bit was sampled and read ready. Busy samples leave no
    /// record: what the FSM gate observes, and what the sequences rest on, is
    /// the ready sample that ends each wait.
    ReadySample,
}

/// The capability set of the vendor flash driver, as the orchestration
/// engine consumes it. Every operation is synchronous, possibly slow, and
/// treated as a black box: no contract here promises that the hardware
/// succeeds, only that each call is appended faithfully to the ghost call
/// log `calls()`, with the answer the hardware gave. The engine's own
/// contracts then pin down exactly which calls each operation issues.
pub trait FlashDriver: Sized {
    /// Every driver operation performed so far, oldest first. Busy status
    /// polls are unrecorded retries; the ready sample that ends a wait is
    /// recorded, so the log shows where the machine was observed idle.
    spec fn calls(&self) -> Seq<DriverCall>;

    /// An upper bound on how many more times the status bit can read busy
    /// before it reads ready: the hardware state machine settles after
    /// finitely many polls, which is what makes the busy-wait in
    /// [`wait_until_ready`] finite. A later command may of course make the machine busy again.
    spec fn busy_polls(&self) -> nat;

    /// Read the flash-array power mode register.
    fn read_power_mode(&mut self) -> (r: u32)
        ensures
            final(self).calls() == old(self).calls().push(DriverCall::ReadPowerMode { value: r }),
    ;

    /// Rewrite the flash-array power mode register.
    fn set_power_mode(&mut self, mode: u32)
        ensures
            final(self).calls() == old(self).calls().push(DriverCall::SetPowerMode { mode }),
    ;

    /// Configure the write-wait-state timing.
    fn set_write_wait_states(&mut self, count: u32)
        ensures
            final(self).calls() == old(self).calls().push(
                DriverCall::SetWriteWaitStates { count },
            ),
    ;

    /// Configure the read-wait-state timing.
    fn set_read_wait_states(&mut self, count: u32)
        ensures
            final(self).calls() == old(self).calls().push(DriverCall::SetReadWaitStates { count }),
    ;

    /// Initialize the driver for the given bus clock. Must be the first
    /// command-side operation of a session.
    fn initialize(&mut self, clock: u32) -> (r: Result<Status, Error>)
        ensures
            final(self).calls() == old(self).calls().push(
                DriverCall::Initialize { clock, result: r },
            ),
    ;

    /// Make `bank` the addressing context for subsequent commands.
    fn select_bank(&mut self, bank: FlashBank) -> (r: Result<Status, Error>)
        ensures
            final(self).calls() == old(self).calls().push(
                DriverCall::SelectBank { bank, result: r },
            ),
    ;

    /// Enable the sectors of the selected bank named by `mask`.
    fn enable_sectors(&mut self, mask: u16) -> (r: Result<Status, Error>)
        ensures
            final(self).calls() == old(self).calls().push(
                DriverCall::EnableSectors { mask, result: r },
            ),
    ;

    /// Request a state-machine transition.
    fn issue_command(&mut self, command: FlashStateCommand) -> (r: Result<Status, Error>)
        ensures
            final(self).calls() == old(self).calls().push(
                DriverCall::Command { command, result: r },
            ),
    ;

    /// Request a state-machine transition against an address.
    fn issue_command_at(&mut self, command: FlashStateCommand, address: u32) -> (r: Result<
        Status,
        Error,
    >)
        ensures
            final(self).calls() == old(self).calls().push(
                DriverCall::CommandAt { command, address, result: r },
            ),
    ;

    /// Hand one block of bytes to the programming primitive. The block must
    /// not exceed the driver's fixed maximum; chunking is the caller's
    /// duty.
    fn program(&mut self, address: u32, data: &[u8], mode: FlashProgrammingCommand) -> (r: Result<
        Status,
        Error,
    >)
        requires
            data@.len() <= PROGRAM_BLOCK_SIZE,
        ensures
            final(self).calls() == old(self).calls().push(
                DriverCall::Program { address, data: data@, mode, result: r },
            ),
    ;

    /// Attempt one blank check over `length` bytes starting at `address`.
    /// A failure carries the diagnostic detail; it is not conclusive, and
    /// the retry engine treats it so.
    fn blank_check(&mut self, address: u32, length: u32) -> (r: Result<(), FlashStatus>)
        ensures
            final(self).calls() == old(self).calls().push(
                DriverCall::BlankCheck { address, length, ok: r is Ok },
            ),
    ;

    /// Drain the instruction and write pipelines, so that subsequent reads
    /// observe the operation that just completed.
    fn flush(&mut self)
        ensures
            final(self).calls() == old(self).calls().push(DriverCall::Flush),
    ;

    /// Sample the state-machine status bit. A busy answer consumes one of
    /// the finitely many busy polls the hardware has left and leaves no
    /// record; a ready answer is appended to the call log, so that the
    /// sequences can state where the machine was observed idle.
    fn fsm_status(&mut self) -> (r: FsmStatus)
        ensures
            r == FsmStatus::Ready ==> final(self).calls() == old(self).calls().push(
                DriverCall::ReadySample,
            ),
            r == FsmStatus::Busy ==> final(self).calls() == old(self).calls()
                && final(self).busy_polls() < old(self).busy_polls(),
    ;
}

/// The FSM gate: block, busy-polling the status bit, until the hardware
/// reports the flash state machine idle. Every command and configuration
/// change of the sequencer is bracketed by this gate, and the ready sample
/// that ends the wait is recorded in the call log, so a sequence's
/// contract shows where the FSM gate stood. The wait has no deadline, exactly
/// as the hardware contract demands; it is finite because the driver
/// promises the state machine settles after finitely many polls (see
/// [`FlashDriver::busy_polls`]).
pub fn wait_until_ready<D: FlashDriver>(driver: &mut D)
    ensures
        final(driver).calls() == old(driver).calls().push(DriverCall::ReadySample),
{
    loop
        invariant_except_break
            driver.calls() == old(driver).calls(),
        ensures
            driver.calls() == old(driver).calls().push(DriverCall::ReadySample),
        decreases driver.busy_polls(),
    {
        let status = driver.fsm_status();
        if status == FsmStatus::Ready {
            break;
        }
    }
}

} // verus!
