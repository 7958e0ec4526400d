//! A scripted driver: a stand-in for the vendor flash driver that records
//! every operation and answers from configurable scripts, so the
//! orchestration engine can be exercised, and its call-log contracts
//! observed, without real hardware.

use vstd::prelude::*;

use crate::driver::{DriverCall, FlashDriver};
use crate::status::{Error, Status};
use crate::types::{
    FlashBank, FlashProgrammingCommand, FlashStateCommand, FlashStatus, FsmStatus,
};

verus! {

/// One recorded driver operation, as the scripted driver stores it at run
/// time: the observable twin of [`DriverCall`].
#[derive(Debug, PartialEq, Eq)]
pub enum CallRecord {
    ReadPowerMode { value: u32 },
    SetPowerMode { mode: u32 },
    SetWriteWaitStates { count: u32 },
    SetReadWaitStates { count: u32 },
    Initialize { clock: u32, result: Result<Status, Error> },
    SelectBank { bank: FlashBank, result: Result<Status, Error> },
    EnableSectors { mask: u16, result: Result<Status, Error> },
    Command { command: FlashStateCommand, result: Result<Status, Error> },
    CommandAt { command: FlashStateCommand, address: u32, result: Result<Status, Error> },
    Program {
        address: u32,
        data: Vec<u8>,
        mode: FlashProgrammingCommand,
        result: Result<Status, Error>,
    },
    BlankCheck { address: u32, length: u32, ok: bool },
    Flush,
    ReadySample,
}

impl CallRecord {
    /// The ghost call this record stands for.
    pub open spec fn view_call(self) -> DriverCall {
        match self {
            CallRecord::ReadPowerMode { value } => DriverCall::ReadPowerMode { value },
            CallRecord::SetPowerMode { mode } => DriverCall::SetPowerMode { mode },
            CallRecord::SetWriteWaitStates { count } => DriverCall::SetWriteWaitStates { count },
            CallRecord::SetReadWaitStates { count } => DriverCall::SetReadWaitStates { count },
            CallRecord::Initialize { clock, result } => DriverCall::Initialize { clock, result },
            CallRecord::SelectBank { bank, result } => DriverCall::SelectBank { bank, result },
            CallRecord::EnableSectors { mask, result } => DriverCall::EnableSectors {
                mask,
                result,
            },
            CallRecord::Command { command, result } => DriverCall::Command { command, result },
            CallRecord::CommandAt { command, address, result } => DriverCall::CommandAt {
                command,
                address,
                result,
            },
            CallRecord::Program { address, data, mode, result } => DriverCall::Program {
                address,
                data: data@,
                mode,
                result,
            },
            CallRecord::BlankCheck { address, length, ok } => DriverCall::BlankCheck {
                address,
                length,
                ok,
            },
            CallRecord::Flush => DriverCall::Flush,
            CallRecord::ReadySample => DriverCall::ReadySample,
        }
    }
}

/// Everything of the scripted driver except its record log: the scripts
/// and their cursors, the fixed answers, the pending busy polls, and the
/// power-mode register. The driver's contracts state each answer as a
/// function of this state, so a run against given scripts is fully
/// determined.
pub struct ScriptState {
    pub blank_script: Seq<bool>,
    pub blank_cursor: int,
    pub command_script: Seq<bool>,
    pub command_cursor: int,
    pub program_script: Seq<bool>,
    pub program_cursor: int,
    pub select_bank_ok: bool,
    pub enable_ok: bool,
    pub init_ok: bool,
    pub pending_busy: nat,
    pub power_mode: u32,
}

/// The answer the next entry of `script` gives: the entry at `cursor`, or
/// success once the script is exhausted.
pub open spec fn scripted_answer(script: Seq<bool>, cursor: int) -> bool {
    if 0 <= cursor < script.len() {
        script[cursor]
    } else {
        true
    }
}

/// Where a script's cursor stands after one answer was consumed.
pub open spec fn advanced(script: Seq<bool>, cursor: int) -> int {
    if 0 <= cursor < script.len() {
        cursor + 1
    } else {
        cursor
    }
}

/// The script state after one command answer was consumed.
pub open spec fn after_command(s: ScriptState) -> ScriptState {
    ScriptState { command_cursor: advanced(s.command_script, s.command_cursor), ..s }
}

/// The script state after one programming answer was consumed.
pub open spec fn after_program(s: ScriptState) -> ScriptState {
    ScriptState { program_cursor: advanced(s.program_script, s.program_cursor), ..s }
}

/// The script state after one blank-check answer was consumed.
pub open spec fn after_blank(s: ScriptState) -> ScriptState {
    ScriptState { blank_cursor: advanced(s.blank_script, s.blank_cursor), ..s }
}

/// A driver that performs no hardware work: it logs every operation in
/// `records` and answers from the scripts it was built with. An outcome a
/// script no longer covers is a success, so an empty script is a driver
/// on which everything works.
#[derive(Debug)]
pub struct ScriptedDriver {
    /// Every operation performed so far, oldest first.
    pub records: Vec<CallRecord>,
    /// Scripted outcomes of blank-check attempts, consumed in order;
    /// `true` is a pass.
    pub blank_script: Vec<bool>,
    /// How many blank-check outcomes are consumed.
    pub blank_cursor: usize,
    /// Scripted outcomes of state-machine commands, with or without an
    /// address, consumed in order.
    pub command_script: Vec<bool>,
    /// How many command outcomes are consumed.
    pub command_cursor: usize,
    /// Scripted outcomes of programming calls, consumed in order.
    pub program_script: Vec<bool>,
    /// How many programming outcomes are consumed.
    pub program_cursor: usize,
    /// Whether bank selection succeeds.
    pub select_bank_ok: bool,
    /// Whether sector enabling succeeds.
    pub enable_ok: bool,
    /// Whether driver initialization succeeds.
    pub init_ok: bool,
    /// How many times the status bit still reads busy before it reads
    /// ready.
    pub pending_busy: u32,
    /// What the power-mode register reads.
    pub power_mode: u32,
}

impl ScriptedDriver {
    /// Everything of the driver except its record log, as one value.
    pub open spec fn script(self) -> ScriptState {
        ScriptState {
            blank_script: self.blank_script@,
            blank_cursor: self.blank_cursor as int,
            command_script: self.command_script@,
            command_cursor: self.command_cursor as int,
            program_script: self.program_script@,
            program_cursor: self.program_cursor as int,
            select_bank_ok: self.select_bank_ok,
            enable_ok: self.enable_ok,
            init_ok: self.init_ok,
            pending_busy: self.pending_busy as nat,
            power_mode: self.power_mode,
        }
    }

    /// A fresh driver with an empty log, on which every operation
    /// succeeds and the state machine is already idle.
    pub fn new() -> (r: ScriptedDriver)
        ensures
            r.calls() == Seq::<DriverCall>::empty(),
            r.blank_script@ == Seq::<bool>::empty(),
            r.blank_cursor == 0,
            r.command_script@ == Seq::<bool>::empty(),
            r.command_cursor == 0,
            r.program_script@ == Seq::<bool>::empty(),
            r.program_cursor == 0,
            r.select_bank_ok,
            r.enable_ok,
            r.init_ok,
            r.pending_busy == 0,
            r.power_mode == 0,
    {
        let r = ScriptedDriver {
            records: Vec::new(),
            blank_script: Vec::new(),
            blank_cursor: 0,
            command_script: Vec::new(),
            command_cursor: 0,
            program_script: Vec::new(),
            program_cursor: 0,
            select_bank_ok: true,
            enable_ok: true,
            init_ok: true,
            pending_busy: 0,
            power_mode: 0,
        };
        proof {
            assert(r.calls() =~= Seq::<DriverCall>::empty());
        }
        r
    }

    /// The next outcome of `script`, advancing `cursor`; success once the
    /// script is exhausted.
    fn next_scripted(script: &Vec<bool>, cursor: &mut usize) -> (ok: bool)
        ensures
            ok == scripted_answer(script@, *old(cursor) as int),
            *final(cursor) == advanced(script@, *old(cursor) as int),
    {
        if *cursor < script.len() {
            let ok = script[*cursor];
            *cursor = *cursor + 1;
            ok
        } else {
            true
        }
    }
}

/// The record every operation appends: pushing it onto the log appends
/// the matching ghost call.
proof fn lemma_push_record(records: Seq<CallRecord>, r: CallRecord)
    ensures
        records.push(r).map_values(|c: CallRecord| c.view_call()) =~= records.map_values(
            |c: CallRecord| c.view_call(),
        ).push(r.view_call()),
{
}

impl FlashDriver for ScriptedDriver {
    open spec fn calls(&self) -> Seq<DriverCall> {
        self.records@.map_values(|c: CallRecord| c.view_call())
    }

    open spec fn busy_polls(&self) -> nat {
        self.pending_busy as nat
    }

    fn read_power_mode(&mut self) -> (r: u32)
        ensures
            r == old(self).script().power_mode,
            final(self).script() == old(self).script(),
    {
        let value = self.power_mode;
        self.records.push(CallRecord::ReadPowerMode { value });
        proof {
            lemma_push_record(old(self).records@, CallRecord::ReadPowerMode { value });
        }
        value
    }

    fn set_power_mode(&mut self, mode: u32)
        ensures
            final(self).script() == (ScriptState { power_mode: mode, ..old(self).script() }),
    {
        self.power_mode = mode;
        self.records.push(CallRecord::SetPowerMode { mode });
        proof {
            lemma_push_record(old(self).records@, CallRecord::SetPowerMode { mode });
        }
    }

    fn set_write_wait_states(&mut self, count: u32)
        ensures
            final(self).script() == old(self).script(),
    {
        self.records.push(CallRecord::SetWriteWaitStates { count });
        proof {
            lemma_push_record(old(self).records@, CallRecord::SetWriteWaitStates { count });
        }
    }

    fn set_read_wait_states(&mut self, count: u32)
        ensures
            final(self).script() == old(self).script(),
    {
        self.records.push(CallRecord::SetReadWaitStates { count });
        proof {
            lemma_push_record(old(self).records@, CallRecord::SetReadWaitStates { count });
        }
    }

    fn initialize(&mut self, clock: u32) -> (r: Result<Status, Error>)
        ensures
            r == if old(self).script().init_ok {
                Ok::<Status, Error>(Status::Success)
            } else {
                Err::<Status, Error>(Error::InvalidHclkValue)
            },
            final(self).script() == old(self).script(),
    {
        let result = if self.init_ok {
            Ok(Status::Success)
        } else {
            Err(Error::InvalidHclkValue)
        };
        self.records.push(CallRecord::Initialize { clock, result });
        proof {
            lemma_push_record(old(self).records@, CallRecord::Initialize { clock, result });
        }
        result
    }

    fn select_bank(&mut self, bank: FlashBank) -> (r: Result<Status, Error>)
        ensures
            r == if old(self).script().select_bank_ok {
                Ok::<Status, Error>(Status::Success)
            } else {
                Err::<Status, Error>(Error::InvalidBank)
            },
            final(self).script() == old(self).script(),
    {
        let result = if self.select_bank_ok {
            Ok(Status::Success)
        } else {
            Err(Error::InvalidBank)
        };
        self.records.push(CallRecord::SelectBank { bank, result });
        proof {
            lemma_push_record(old(self).records@, CallRecord::SelectBank { bank, result });
        }
        result
    }

    fn enable_sectors(&mut self, mask: u16) -> (r: Result<Status, Error>)
        ensures
            r == if old(self).script().enable_ok {
                Ok::<Status, Error>(Status::Success)
            } else {
                Err::<Status, Error>(Error::Fail)
            },
            final(self).script() == old(self).script(),
    {
        let result = if self.enable_ok {
            Ok(Status::Success)
        } else {
            Err(Error::Fail)
        };
        self.records.push(CallRecord::EnableSectors { mask, result });
        proof {
            lemma_push_record(old(self).records@, CallRecord::EnableSectors { mask, result });
        }
        result
    }

    fn issue_command(&mut self, command: FlashStateCommand) -> (r: Result<Status, Error>)
        ensures
            r == if scripted_answer(
                old(self).script().command_script,
                old(self).script().command_cursor,
            ) {
                Ok::<Status, Error>(Status::Success)
            } else {
                Err::<Status, Error>(Error::Fail)
            },
            final(self).script() == after_command(old(self).script()),
    {
        let ok = Self::next_scripted(&self.command_script, &mut self.command_cursor);
        let result = if ok {
            Ok(Status::Success)
        } else {
            Err(Error::Fail)
        };
        self.records.push(CallRecord::Command { command, result });
        proof {
            lemma_push_record(old(self).records@, CallRecord::Command { command, result });
        }
        result
    }

    fn issue_command_at(&mut self, command: FlashStateCommand, address: u32) -> (r: Result<
        Status,
        Error,
    >)
        ensures
            r == if scripted_answer(
                old(self).script().command_script,
                old(self).script().command_cursor,
            ) {
                Ok::<Status, Error>(Status::Success)
            } else {
                Err::<Status, Error>(Error::Fail)
            },
            final(self).script() == after_command(old(self).script()),
    {
        let ok = Self::next_scripted(&self.command_script, &mut self.command_cursor);
        let result = if ok {
            Ok(Status::Success)
        } else {
            Err(Error::Fail)
        };
        self.records.push(CallRecord::CommandAt { command, address, result });
        proof {
            lemma_push_record(
                old(self).records@,
                CallRecord::CommandAt { command, address, result },
            );
        }
        result
    }

    fn program(&mut self, address: u32, data: &[u8], mode: FlashProgrammingCommand) -> (r: Result<
        Status,
        Error,
    >)
        ensures
            r == if scripted_answer(
                old(self).script().program_script,
                old(self).script().program_cursor,
            ) {
                Ok::<Status, Error>(Status::Success)
            } else {
                Err::<Status, Error>(Error::Fail)
            },
            final(self).script() == after_program(old(self).script()),
    {
        let ok = Self::next_scripted(&self.program_script, &mut self.program_cursor);
        let result = if ok {
            Ok(Status::Success)
        } else {
            Err(Error::Fail)
        };
        let stored = vstd::slice::slice_to_vec(data);
        let record = CallRecord::Program { address, data: stored, mode, result };
        proof {
            assert(record.view_call() == (DriverCall::Program {
                address,
                data: data@,
                mode,
                result,
            }));
        }
        self.records.push(record);
        proof {
            lemma_push_record(old(self).records@, record);
        }
        result
    }

    fn blank_check(&mut self, address: u32, length: u32) -> (r: Result<(), FlashStatus>)
        ensures
            r == if scripted_answer(
                old(self).script().blank_script,
                old(self).script().blank_cursor,
            ) {
                Ok::<(), FlashStatus>(())
            } else {
                Err::<(), FlashStatus>(
                    FlashStatus {
                        non_blank_address: address,
                        non_blank_data: 0,
                        comparison_data: 0xFFFF_FFFF,
                        read_mode: 0,
                    },
                )
            },
            final(self).script() == after_blank(old(self).script()),
    {
        let ok = Self::next_scripted(&self.blank_script, &mut self.blank_cursor);
        let result = if ok {
            Ok(())
        } else {
            // A plausible diagnostic: the window's first word did not read
            // as erased.
            Err(
                FlashStatus {
                    non_blank_address: address,
                    non_blank_data: 0,
                    comparison_data: 0xFFFF_FFFF,
                    read_mode: 0,
                },
            )
        };
        let record = CallRecord::BlankCheck { address, length, ok: result.is_ok() };
        self.records.push(record);
        proof {
            lemma_push_record(old(self).records@, record);
        }
        result
    }

    fn flush(&mut self)
        ensures
            final(self).script() == old(self).script(),
    {
        self.records.push(CallRecord::Flush);
        proof {
            lemma_push_record(old(self).records@, CallRecord::Flush);
        }
    }

    fn fsm_status(&mut self) -> (r: FsmStatus)
        ensures
            r == if old(self).script().pending_busy > 0 {
                FsmStatus::Busy
            } else {
                FsmStatus::Ready
            },
            final(self).script() == (ScriptState {
                pending_busy: if old(self).script().pending_busy > 0 {
                    (old(self).script().pending_busy - 1) as nat
                } else {
                    0
                },
                ..old(self).script()
            }),
    {
        if self.pending_busy > 0 {
            self.pending_busy = self.pending_busy - 1;
            FsmStatus::Busy
        } else {
            self.records.push(CallRecord::ReadySample);
            proof {
                lemma_push_record(old(self).records@, CallRecord::ReadySample);
            }
            FsmStatus::Ready
        }
    }
}

} // verus!
