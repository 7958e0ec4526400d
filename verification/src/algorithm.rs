//! The orchestration entry points the debug host drives: construction with
//! hardware bring-up, erase-all, erase-sector, and program-page. Each
//! operation's contract pins down, over the driver's ghost call log,
//! exactly which driver operations it issues, in which order, which
//! failures abort it and which are tolerated.

use vstd::prelude::*;

use crate::blank::{blank_trace, expected_windows, lemma_blank_trace_windows, passed_checks, verify_blank};
use crate::driver::{
    wait_until_ready, DriverCall, FlashDriver, ALL_SECTORS, PROGRAM_BLOCK_SIZE,
};
use crate::geometry::{sector_contains, FlashGeometry, Sector};
use crate::status::{Error, Status};
use crate::types::{FlashBank, FlashProgrammingCommand, FlashStateCommand};

verus! {

/// The fixed bring-up configuration: the power mode the flash array must
/// run in, optional wait-state overrides, and the bus clock assumed when
/// the host reports none.
#[derive(Debug, Clone, Copy, PartialEq, Eq)]
pub struct BringupConfig {
    /// The power mode the flash array is expected to run in; bring-up
    /// rewrites the mode register if it reads otherwise.
    pub power_mode: u32,
    /// The write-wait-state count to configure, where an override is
    /// configured at all.
    pub write_wait_states: Option<u32>,
    /// The read-wait-state count to configure, where an override is
    /// configured at all.
    pub read_wait_states: Option<u32>,
    /// The bus clock substituted when the host reports a clock of zero.
    pub default_clock: u32,
}

/// The bus clock bring-up hands to the driver: the host's, unless the host
/// reports none.
pub open spec fn spec_effective_clock(config: BringupConfig, clock: u32) -> u32 {
    if clock == 0 {
        config.default_clock
    } else {
        clock
    }
}

/// The register work bring-up performs before initializing the driver:
/// read the power mode, rewrite it if misconfigured, then apply whichever
/// wait-state overrides are configured, in write-then-read order.
pub open spec fn bringup_prefix(config: BringupConfig, pm: u32) -> Seq<DriverCall> {
    seq![DriverCall::ReadPowerMode { value: pm }] + (if pm != config.power_mode {
        seq![DriverCall::SetPowerMode { mode: config.power_mode }]
    } else {
        Seq::empty()
    }) + (match config.write_wait_states {
        Some(w) => seq![DriverCall::SetWriteWaitStates { count: w }],
        None => Seq::empty(),
    }) + (match config.read_wait_states {
        Some(w) => seq![DriverCall::SetReadWaitStates { count: w }],
        None => Seq::empty(),
    })
}

/// The calls one hardware bring-up leaves in the log, and its outcome:
/// the register work of [`bringup_prefix`], then exactly one driver
/// initialization with the effective clock. Bring-up succeeds exactly when
/// the initialization does, and reports the initialization's own error
/// otherwise.
pub open spec fn bringup_trace(
    config: BringupConfig,
    clock: u32,
    t: Seq<DriverCall>,
    r: Result<(), Error>,
) -> bool {
    &&& t.len() >= 2
    &&& t[0] matches DriverCall::ReadPowerMode { value: pm } && {
        &&& t.len() == bringup_prefix(config, pm).len() + 1
        &&& t.take(t.len() - 1) == bringup_prefix(config, pm)
        &&& (t.last() matches DriverCall::Initialize { clock: c, result } && c
            == spec_effective_clock(config, clock) && (r is Ok <==> result is Ok) && (
        result matches Err(e) ==> r == Err::<(), Error>(e)))
    }
}

/// The banks of the configured geometry, in threshold order: the banks
/// erase-all walks.
pub open spec fn spec_bank_list(g: FlashGeometry) -> Seq<FlashBank> {
    g.banks@.map_values(|region: crate::geometry::BankRegion| region.bank)
}

/// The calls of erase-all over the banks still to process, and its
/// outcome: per bank a ready sample of the FSM gate, a selection, a
/// whole-bank sector enable, the bank-erase command, and the FSM gate's ready
/// sample again — so every selection and enable stands between two
/// observed idle states of the machine; after the last bank, one pipeline
/// flush. A failed selection or enable aborts at once with that error; a
/// failed erase command is tolerated, and the operation reports success
/// once every bank was walked.
pub open spec fn erase_all_trace(
    banks: Seq<FlashBank>,
    t: Seq<DriverCall>,
    r: Result<(), Error>,
) -> bool
    decreases banks.len(),
{
    if banks.len() == 0 {
        t == seq![DriverCall::Flush] && r is Ok
    } else {
        &&& t.len() >= 2
        &&& t[0] == DriverCall::ReadySample
        &&& t[1] matches DriverCall::SelectBank { bank, result } && bank == banks[0] && (
        match result {
            Err(e) => t.len() == 2 && r == Err::<(), Error>(e),
            Ok(_) => {
                &&& t.len() >= 3
                &&& t[2] matches DriverCall::EnableSectors { mask, result: enable_result }
                    && mask == ALL_SECTORS && (match enable_result {
                    Err(e) => t.len() == 3 && r == Err::<(), Error>(e),
                    Ok(_) => {
                        &&& t.len() >= 5
                        &&& t[3] matches DriverCall::CommandAt { command, address, result: _ }
                            && command == FlashStateCommand::EraseBank && address == 0
                        &&& t[4] == DriverCall::ReadySample
                        &&& erase_all_trace(banks.drop_first(), t.skip(5), r)
                    },
                })
            },
        })
    }
}

/// The calls of the banks erase-all has already processed: a selection,
/// enable and erase command per bank, all selections and enables
/// successful.
pub open spec fn erase_done_blocks(banks: Seq<FlashBank>, t: Seq<DriverCall>) -> bool
    decreases banks.len(),
{
    if banks.len() == 0 {
        t.len() == 0
    } else {
        &&& t.len() >= 5
        &&& t[0] == DriverCall::ReadySample
        &&& t[1] matches DriverCall::SelectBank { bank, result } && bank == banks[0]
            && result is Ok
        &&& t[2] matches DriverCall::EnableSectors { mask, result } && mask == ALL_SECTORS
            && result is Ok
        &&& t[3] matches DriverCall::CommandAt { command, address, result: _ } && command
            == FlashStateCommand::EraseBank && address == 0
        &&& t[4] == DriverCall::ReadySample
        &&& erase_done_blocks(banks.drop_first(), t.skip(5))
    }
}

/// Banks fully processed, followed by any valid continuation over the
/// remaining banks, make one valid erase-all trace over all the banks.
proof fn lemma_erase_all_compose(
    done: Seq<FlashBank>,
    rest: Seq<FlashBank>,
    t1: Seq<DriverCall>,
    t2: Seq<DriverCall>,
    r: Result<(), Error>,
)
    requires
        erase_done_blocks(done, t1),
        erase_all_trace(rest, t2, r),
    ensures
        erase_all_trace(done + rest, t1 + t2, r),
    decreases done.len(),
{
    if done.len() == 0 {
        assert(t1 + t2 =~= t2);
        assert(done + rest =~= rest);
    } else {
        lemma_erase_all_compose(done.drop_first(), rest, t1.skip(5), t2, r);
        let t = t1 + t2;
        let banks = done + rest;
        assert(t[0] == t1[0]);
        assert(t[1] == t1[1]);
        assert(t[2] == t1[2]);
        assert(t[3] == t1[3]);
        assert(t[4] == t1[4]);
        assert(banks[0] == done[0]);
        assert(t.skip(5) =~= t1.skip(5) + t2);
        assert(banks.drop_first() =~= done.drop_first() + rest);
    }
}

/// One more fully processed bank extends the processed-banks trace.
proof fn lemma_erase_done_snoc(
    banks: Seq<FlashBank>,
    b: FlashBank,
    t1: Seq<DriverCall>,
    block: Seq<DriverCall>,
)
    requires
        erase_done_blocks(banks, t1),
        block.len() == 5,
        block[0] == DriverCall::ReadySample,
        block[1] matches DriverCall::SelectBank { bank, result } && bank == b && result is Ok,
        block[2] matches DriverCall::EnableSectors { mask, result } && mask == ALL_SECTORS
            && result is Ok,
        block[3] matches DriverCall::CommandAt { command, address, result: _ } && command
            == FlashStateCommand::EraseBank && address == 0,
        block[4] == DriverCall::ReadySample,
    ensures
        erase_done_blocks(banks.push(b), t1 + block),
    decreases banks.len(),
{
    if banks.len() == 0 {
        assert(t1 + block =~= block);
        assert(banks.push(b)[0] == b);
        assert(banks.push(b).drop_first() =~= Seq::<FlashBank>::empty());
        assert((t1 + block).skip(5) =~= Seq::<DriverCall>::empty());
        assert(erase_done_blocks(Seq::<FlashBank>::empty(), Seq::<DriverCall>::empty()));
    } else {
        lemma_erase_done_snoc(banks.drop_first(), b, t1.skip(5), block);
        let t = t1 + block;
        let bs = banks.push(b);
        assert(t[0] == t1[0]);
        assert(t[1] == t1[1]);
        assert(t[2] == t1[2]);
        assert(t[3] == t1[3]);
        assert(t[4] == t1[4]);
        assert(bs[0] == banks[0]);
        assert(t.skip(5) =~= t1.skip(5) + block);
        assert(bs.drop_first() =~= banks.drop_first().push(b));
    }
}

/// The calls of erase-sector once the target sector and bank are resolved,
/// and its outcome: the ready samples of the FSM gate before resolution and
/// before selection, then selection and whole-bank enable (each failure
/// fatal, reported as-is), the tolerated status-clear and sector-erase
/// commands, the FSM gate's ready sample again, the pipeline flush, and the
/// mandatory blank-check run over the whole sector, whose outcome is
/// authoritative.
pub open spec fn erase_sector_steps(
    bank: FlashBank,
    sector: Sector,
    address: u32,
    t: Seq<DriverCall>,
    r: Result<(), Error>,
) -> bool {
    &&& t.len() >= 3
    &&& t[0] == DriverCall::ReadySample
    &&& t[1] == DriverCall::ReadySample
    &&& t[2] matches DriverCall::SelectBank { bank: selected, result } && selected == bank && (
    match result {
        Err(e) => t.len() == 3 && r == Err::<(), Error>(e),
        Ok(_) => {
            &&& t.len() >= 4
            &&& t[3] matches DriverCall::EnableSectors { mask, result: enable_result } && mask
                == ALL_SECTORS && (match enable_result {
                Err(e) => t.len() == 4 && r == Err::<(), Error>(e),
                Ok(_) => {
                    &&& t.len() >= 8
                    &&& t[4] matches DriverCall::Command { command, result: _ } && command
                        == FlashStateCommand::ClearStatus
                    &&& t[5] matches DriverCall::CommandAt { command, address: at, result: _ }
                        && command == FlashStateCommand::EraseSector && at == address
                    &&& t[6] == DriverCall::ReadySample
                    &&& t[7] == DriverCall::Flush
                    &&& blank_trace(sector.address as int, sector.size as int, t.skip(8), r is Ok)
                    &&& (r is Err ==> r == Err::<(), Error>(Error::Fail))
                },
            })
        },
    })
}

/// The calls of one erase-sector operation, and its outcome. An address no
/// sector covers is refused right after the opening gate, with nothing
/// else issued; otherwise the covering sector's bank is driven through
/// [`erase_sector_steps`].
pub open spec fn erase_sector_trace(
    g: FlashGeometry,
    address: u32,
    t: Seq<DriverCall>,
    r: Result<(), Error>,
) -> bool {
    if !g.spec_covered(address) {
        t == seq![DriverCall::ReadySample] && r == Err::<(), Error>(Error::InvalidAddress)
    } else {
        exists|i: int|
            0 <= i < g.sectors@.len() && sector_contains(#[trigger] g.sectors@[i], address)
                && erase_sector_steps(g.spec_bank_for(address), g.sectors@[i], address, t, r)
    }
}

/// How many blocks a buffer of `n` bytes splits into for programming.
pub open spec fn num_blocks(n: int) -> int {
    (n + PROGRAM_BLOCK_SIZE - 1) / (PROGRAM_BLOCK_SIZE as int)
}

/// The bytes of the `i`-th programming block of `data`: a full block,
/// except possibly the last.
pub open spec fn block_of(data: Seq<u8>, i: int) -> Seq<u8> {
    data.subrange(
        i * PROGRAM_BLOCK_SIZE,
        if (i + 1) * PROGRAM_BLOCK_SIZE > data.len() {
            data.len() as int
        } else {
            (i + 1) * PROGRAM_BLOCK_SIZE
        },
    )
}

/// The first `k` programming blocks of `data`, in order, as one byte
/// sequence.
pub open spec fn concat_blocks(data: Seq<u8>, k: int) -> Seq<u8>
    decreases k,
{
    if k <= 0 {
        Seq::empty()
    } else {
        concat_blocks(data, k - 1) + block_of(data, k - 1)
    }
}

/// The calls of one program-page operation, and its outcome: the ready
/// samples of the FSM gate before resolution and before selection, then
/// selection and whole-bank enable (each failure fatal, reported as-is),
/// then one programming call per block of the buffer, in ascending
/// address order, each followed by the FSM gate's ready sample — a failed
/// block is tolerated — and one pipeline flush.
pub open spec fn program_page_trace(
    bank: FlashBank,
    address: u32,
    data: Seq<u8>,
    t: Seq<DriverCall>,
    r: Result<(), Error>,
) -> bool {
    &&& t.len() >= 3
    &&& t[0] == DriverCall::ReadySample
    &&& t[1] == DriverCall::ReadySample
    &&& t[2] matches DriverCall::SelectBank { bank: selected, result } && selected == bank && (
    match result {
        Err(e) => t.len() == 3 && r == Err::<(), Error>(e),
        Ok(_) => {
            &&& t.len() >= 4
            &&& t[3] matches DriverCall::EnableSectors { mask, result: enable_result } && mask
                == ALL_SECTORS && (match enable_result {
                Err(e) => t.len() == 4 && r == Err::<(), Error>(e),
                Ok(_) => {
                    &&& t.len() == 4 + 2 * num_blocks(data.len() as int) + 1
                    &&& forall|i: int|
                        0 <= i < num_blocks(data.len() as int) ==> (#[trigger] t[4 + 2 * i] matches DriverCall::Program {
                            address: at,
                            data: block,
                            mode,
                            result: _,
                        } && at == address + i * PROGRAM_BLOCK_SIZE && block == block_of(data, i)
                            && mode == FlashProgrammingCommand::AutoEccGeneration && t[4 + 2 * i
                            + 1] == DriverCall::ReadySample)
                    &&& t.last() == DriverCall::Flush
                    &&& r is Ok
                },
            })
        },
    })
}

/// The single top-level owner of all hardware state for one programming
/// session: the injected driver and the flash geometry it operates on.
pub struct Algorithm<D: FlashDriver> {
    pub driver: D,
    pub geometry: FlashGeometry,
}

impl<D: FlashDriver> Algorithm<D> {
    /// The instance operates on a well-formed geometry.
    pub open spec fn wf(self) -> bool {
        self.geometry.wf()
    }

    /// Construct the algorithm instance, performing hardware bring-up
    /// once, before any flash operation: correct the flash-array power
    /// mode if misconfigured, apply the configured wait-state overrides,
    /// and initialize the driver with the effective bus clock. A driver
    /// failure during bring-up is fatal: construction reports the
    /// driver's error and hands the driver back.
    pub fn new(driver: D, geometry: FlashGeometry, config: BringupConfig, clock: u32) -> (r:
        Result<Algorithm<D>, (Error, D)>)
        requires
            geometry.wf(),
        ensures
            match r {
                Ok(alg) => {
                    &&& alg.geometry == geometry
                    &&& alg.wf()
                    &&& alg.driver.calls().len() > driver.calls().len()
                    &&& alg.driver.calls().take(driver.calls().len() as int) == driver.calls()
                    &&& bringup_trace(
                        config,
                        clock,
                        alg.driver.calls().skip(driver.calls().len() as int),
                        Ok(()),
                    )
                },
                Err((e, d)) => {
                    &&& d.calls().len() > driver.calls().len()
                    &&& d.calls().take(driver.calls().len() as int) == driver.calls()
                    &&& bringup_trace(
                        config,
                        clock,
                        d.calls().skip(driver.calls().len() as int),
                        Err(e),
                    )
                },
            },
    {
        let ghost base: int = driver.calls().len() as int;
        let mut d = driver;
        let pm = d.read_power_mode();
        if pm != config.power_mode {
            d.set_power_mode(config.power_mode);
        }
        if let Some(w) = config.write_wait_states {
            d.set_write_wait_states(w);
        }
        if let Some(w) = config.read_wait_states {
            d.set_read_wait_states(w);
        }
        proof {
            assert(d.calls().skip(base) =~= bringup_prefix(config, pm));
        }
        let clk = if clock == 0 {
            config.default_clock
        } else {
            clock
        };
        let init_result = d.initialize(clk);
        proof {
            let t = d.calls().skip(base);
            assert(t.take(t.len() - 1) =~= bringup_prefix(config, pm));
            assert(d.calls().take(base) =~= driver.calls());
        }
        match init_result {
            Ok(_) => Ok(Algorithm { driver: d, geometry }),
            Err(e) => Err((e, d)),
        }
    }

    /// Erase every bank of the flash array, best effort per bank: each
    /// bank in threshold order is gated, selected, fully enabled and
    /// issued the bank-erase command. A failed selection or enable is a
    /// contract violation and aborts at once with that error; a failed
    /// erase command is operational noise and does not stop the walk. The
    /// pipeline is flushed after the last bank.
    pub fn erase_all(&mut self) -> (r: Result<(), Error>)
        requires
            old(self).wf(),
        ensures
            final(self).geometry == old(self).geometry,
            final(self).wf(),
            final(self).driver.calls().len() >= old(self).driver.calls().len(),
            final(self).driver.calls().take(old(self).driver.calls().len() as int) == old(
                self,
            ).driver.calls(),
            erase_all_trace(
                spec_bank_list(old(self).geometry),
                final(self).driver.calls().skip(old(self).driver.calls().len() as int),
                r,
            ),
    {
        let ghost base: int = self.driver.calls().len() as int;
        let ghost banks: Seq<FlashBank> = spec_bank_list(self.geometry);
        let n = self.geometry.banks.len();
        let mut i: usize = 0;
        while i < n
            invariant
                self.wf(),
                self.geometry == old(self).geometry,
                banks == spec_bank_list(self.geometry),
                n == self.geometry.banks@.len(),
                i <= n,
                base == old(self).driver.calls().len(),
                self.driver.calls().len() >= base,
                self.driver.calls().take(base) == old(self).driver.calls(),
                erase_done_blocks(banks.take(i as int), self.driver.calls().skip(base)),
            ensures
                i == n,
                self.wf(),
                self.geometry == old(self).geometry,
                base == old(self).driver.calls().len(),
                self.driver.calls().len() >= base,
                self.driver.calls().take(base) == old(self).driver.calls(),
                erase_done_blocks(banks.take(i as int), self.driver.calls().skip(base)),
            decreases n - i,
        {
            let bank = self.geometry.banks[i].bank;
            assert(bank == banks[i as int]);
            let ghost done_trace: Seq<DriverCall> = self.driver.calls().skip(base);
            wait_until_ready(&mut self.driver);
            let select_result = self.driver.select_bank(bank);
            if let Err(e) = select_result {
                proof {
                    let t2 = seq![
                        DriverCall::ReadySample,
                        DriverCall::SelectBank { bank, result: Err::<Status, Error>(e) },
                    ];
                    assert(erase_all_trace(banks.skip(i as int), t2, Err::<(), Error>(e)));
                    lemma_erase_all_compose(
                        banks.take(i as int),
                        banks.skip(i as int),
                        done_trace,
                        t2,
                        Err::<(), Error>(e),
                    );
                    assert(banks.take(i as int) + banks.skip(i as int) =~= banks);
                    assert(self.driver.calls().skip(base) =~= done_trace + t2);
                    assert(self.driver.calls().take(base) =~= old(self).driver.calls());
                }
                return Err(e);
            }
            let enable_result = self.driver.enable_sectors(ALL_SECTORS);
            if let Err(e) = enable_result {
                proof {
                    let t2 = seq![
                        DriverCall::ReadySample,
                        DriverCall::SelectBank { bank, result: select_result },
                        DriverCall::EnableSectors {
                            mask: ALL_SECTORS,
                            result: Err::<Status, Error>(e),
                        },
                    ];
                    assert(erase_all_trace(banks.skip(i as int), t2, Err::<(), Error>(e)));
                    lemma_erase_all_compose(
                        banks.take(i as int),
                        banks.skip(i as int),
                        done_trace,
                        t2,
                        Err::<(), Error>(e),
                    );
                    assert(banks.take(i as int) + banks.skip(i as int) =~= banks);
                    assert(self.driver.calls().skip(base) =~= done_trace + t2);
                    assert(self.driver.calls().take(base) =~= old(self).driver.calls());
                }
                return Err(e);
            }
            // The erase command itself is tolerated if it fails: the walk
            // continues with the next bank.
            let erase_result = self.driver.issue_command_at(FlashStateCommand::EraseBank, 0);
            wait_until_ready(&mut self.driver);
            proof {
                let block = seq![
                    DriverCall::ReadySample,
                    DriverCall::SelectBank { bank, result: select_result },
                    DriverCall::EnableSectors { mask: ALL_SECTORS, result: enable_result },
                    DriverCall::CommandAt {
                        command: FlashStateCommand::EraseBank,
                        address: 0,
                        result: erase_result,
                    },
                    DriverCall::ReadySample,
                ];
                lemma_erase_done_snoc(banks.take(i as int), bank, done_trace, block);
                assert(banks.take(i as int).push(bank) =~= banks.take(i as int + 1));
                assert(self.driver.calls().skip(base) =~= done_trace + block);
                assert(self.driver.calls().take(base) =~= old(self).driver.calls());
            }
            i = i + 1;
        }
        let ghost done_trace: Seq<DriverCall> = self.driver.calls().skip(base);
        self.driver.flush();
        proof {
            assert(banks.take(n as int) =~= banks);
            assert(erase_all_trace(
                Seq::<FlashBank>::empty(),
                seq![DriverCall::Flush],
                Ok::<(), Error>(()),
            ));
            lemma_erase_all_compose(
                banks,
                Seq::<FlashBank>::empty(),
                done_trace,
                seq![DriverCall::Flush],
                Ok::<(), Error>(()),
            );
            assert(banks + Seq::<FlashBank>::empty() =~= banks);
            assert(self.driver.calls().skip(base) =~= done_trace + seq![DriverCall::Flush]);
            assert(self.driver.calls().take(base) =~= old(self).driver.calls());
        }
        Ok(())
    }

    /// Erase the sector that covers `address`. An address no sector of
    /// the configured table covers is a fatal resolution error, refused
    /// before anything is issued. Otherwise the sector's bank is gated,
    /// selected and fully enabled (failures there are fatal), the
    /// tolerated status-clear and sector-erase commands are issued, the
    /// pipeline is flushed, and a blank-check run over the erased
    /// sector's full range is the authoritative pass or fail signal.
    pub fn erase_sector(&mut self, address: u32) -> (r: Result<(), Error>)
        requires
            old(self).wf(),
        ensures
            final(self).geometry == old(self).geometry,
            final(self).wf(),
            final(self).driver.calls().len() >= old(self).driver.calls().len(),
            final(self).driver.calls().take(old(self).driver.calls().len() as int) == old(
                self,
            ).driver.calls(),
            erase_sector_trace(
                old(self).geometry,
                address,
                final(self).driver.calls().skip(old(self).driver.calls().len() as int),
                r,
            ),
    {
        let ghost base: int = self.driver.calls().len() as int;
        wait_until_ready(&mut self.driver);
        let sector = match self.geometry.sector_for(address) {
            Some(s) => s,
            None => {
                proof {
                    assert(self.driver.calls().skip(base) =~= seq![DriverCall::ReadySample]);
                    assert(self.driver.calls().take(base) =~= old(self).driver.calls());
                }
                return Err(Error::InvalidAddress);
            },
        };
        let ghost w: int = choose|i: int|
            0 <= i < self.geometry.sectors@.len() && #[trigger] self.geometry.sectors@[i]
                == sector && sector_contains(sector, address);
        proof {
            assert(self.geometry.sector_ok(w));
        }
        let bank = self.geometry.bank_for(address);
        wait_until_ready(&mut self.driver);
        let select_result = self.driver.select_bank(bank);
        if let Err(e) = select_result {
            proof {
                let t = seq![
                    DriverCall::ReadySample,
                    DriverCall::ReadySample,
                    DriverCall::SelectBank { bank, result: Err::<Status, Error>(e) },
                ];
                assert(self.driver.calls().skip(base) =~= t);
                assert(erase_sector_steps(bank, sector, address, t, Err::<(), Error>(e)));
                assert(sector_contains(self.geometry.sectors@[w], address));
                assert(self.driver.calls().take(base) =~= old(self).driver.calls());
            }
            return Err(e);
        }
        let enable_result = self.driver.enable_sectors(ALL_SECTORS);
        if let Err(e) = enable_result {
            proof {
                let t = seq![
                    DriverCall::ReadySample,
                    DriverCall::ReadySample,
                    DriverCall::SelectBank { bank, result: select_result },
                    DriverCall::EnableSectors {
                        mask: ALL_SECTORS,
                        result: Err::<Status, Error>(e),
                    },
                ];
                assert(self.driver.calls().skip(base) =~= t);
                assert(erase_sector_steps(bank, sector, address, t, Err::<(), Error>(e)));
                assert(sector_contains(self.geometry.sectors@[w], address));
                assert(self.driver.calls().take(base) =~= old(self).driver.calls());
            }
            return Err(e);
        }
        // Failures of the clear-status and erase commands themselves are
        // tolerated: the blank-check verification below is the
        // authoritative signal.
        let clear_result = self.driver.issue_command(FlashStateCommand::ClearStatus);
        let erase_result = self.driver.issue_command_at(FlashStateCommand::EraseSector, address);
        wait_until_ready(&mut self.driver);
        self.driver.flush();
        let ghost head: Seq<DriverCall> = seq![
            DriverCall::ReadySample,
            DriverCall::ReadySample,
            DriverCall::SelectBank { bank, result: select_result },
            DriverCall::EnableSectors { mask: ALL_SECTORS, result: enable_result },
            DriverCall::Command { command: FlashStateCommand::ClearStatus, result: clear_result },
            DriverCall::CommandAt {
                command: FlashStateCommand::EraseSector,
                address,
                result: erase_result,
            },
            DriverCall::ReadySample,
            DriverCall::Flush,
        ];
        let ghost pre_blank: int = self.driver.calls().len() as int;
        proof {
            assert(self.driver.calls().skip(base) =~= head);
            assert(pre_blank == base + 8);
        }
        let blank = verify_blank(&mut self.driver, sector.address, sector.size);
        proof {
            let t = self.driver.calls().skip(base);
            assert(self.driver.calls().take(pre_blank).skip(base) =~= head);
            assert(t.take(8) =~= self.driver.calls().take(pre_blank).skip(base));
            assert(t.skip(8) =~= self.driver.calls().skip(pre_blank));
            assert(erase_sector_steps(bank, sector, address, t, blank));
            assert(sector_contains(self.geometry.sectors@[w], address));
            assert(self.driver.calls().take(base) =~= old(self).driver.calls());
        }
        blank
    }

    /// Program `data` at `address`: the target bank is gated, selected
    /// and fully enabled (failures there are fatal), then the buffer is
    /// split into driver-sized blocks and each block handed to the
    /// programming primitive in ascending address order, each programming
    /// call followed by an FSM gate. A failed block is tolerated and the
    /// walk continues; the pipeline is flushed after the last block.
    pub fn program_page(&mut self, address: u32, data: &[u8]) -> (r: Result<(), Error>)
        requires
            old(self).wf(),
            address + data@.len() <= 0x1_0000_0000,
        ensures
            final(self).geometry == old(self).geometry,
            final(self).wf(),
            final(self).driver.calls().len() >= old(self).driver.calls().len(),
            final(self).driver.calls().take(old(self).driver.calls().len() as int) == old(
                self,
            ).driver.calls(),
            program_page_trace(
                old(self).geometry.spec_bank_for(address),
                address,
                data@,
                final(self).driver.calls().skip(old(self).driver.calls().len() as int),
                r,
            ),
    {
        let ghost base: int = self.driver.calls().len() as int;
        wait_until_ready(&mut self.driver);
        let bank = self.geometry.bank_for(address);
        wait_until_ready(&mut self.driver);
        let select_result = self.driver.select_bank(bank);
        if let Err(e) = select_result {
            proof {
                assert(self.driver.calls().skip(base) =~= seq![
                    DriverCall::ReadySample,
                    DriverCall::ReadySample,
                    DriverCall::SelectBank { bank, result: Err::<Status, Error>(e) },
                ]);
                assert(self.driver.calls().take(base) =~= old(self).driver.calls());
            }
            return Err(e);
        }
        let enable_result = self.driver.enable_sectors(ALL_SECTORS);
        if let Err(e) = enable_result {
            proof {
                assert(self.driver.calls().skip(base) =~= seq![
                    DriverCall::ReadySample,
                    DriverCall::ReadySample,
                    DriverCall::SelectBank { bank, result: select_result },
                    DriverCall::EnableSectors {
                        mask: ALL_SECTORS,
                        result: Err::<Status, Error>(e),
                    },
                ]);
                assert(self.driver.calls().take(base) =~= old(self).driver.calls());
            }
            return Err(e);
        }
        let ghost sel_call: DriverCall = DriverCall::SelectBank { bank, result: select_result };
        let ghost en_call: DriverCall = DriverCall::EnableSectors {
            mask: ALL_SECTORS,
            result: enable_result,
        };
        let n: usize = data.len();
        let mut offset: usize = 0;
        let ghost mut bcount: int = 0;
        while offset < n
            invariant
                self.wf(),
                self.geometry == old(self).geometry,
                n == data@.len(),
                offset <= n,
                0 <= bcount,
                offset == n ==> bcount == num_blocks(n as int),
                offset < n ==> offset == bcount * PROGRAM_BLOCK_SIZE,
                address + n <= 0x1_0000_0000,
                base == old(self).driver.calls().len(),
                self.driver.calls().len() == base + 4 + 2 * bcount,
                self.driver.calls().take(base) == old(self).driver.calls(),
                self.driver.calls()[base] == DriverCall::ReadySample,
                self.driver.calls()[base + 1] == DriverCall::ReadySample,
                self.driver.calls()[base + 2] == sel_call,
                self.driver.calls()[base + 3] == en_call,
                forall|j: int|
                    0 <= j < bcount ==> (#[trigger] self.driver.calls()[base + 4 + 2 * j] matches DriverCall::Program {
                        address: at,
                        data: block,
                        mode,
                        result: _,
                    } && at == address + j * PROGRAM_BLOCK_SIZE && block == block_of(data@, j)
                        && mode == FlashProgrammingCommand::AutoEccGeneration && self.driver.calls()[base
                        + 4 + 2 * j + 1] == DriverCall::ReadySample),
            decreases n - offset,
        {
            let remaining = n - offset;
            let block_len = if remaining < PROGRAM_BLOCK_SIZE {
                remaining
            } else {
                PROGRAM_BLOCK_SIZE
            };
            let block = vstd::slice::slice_subrange(data, offset, offset + block_len);
            let block_address: u32 = address + (offset as u32);
            let _program_result = self.driver.program(
                block_address,
                block,
                FlashProgrammingCommand::AutoEccGeneration,
            );
            wait_until_ready(&mut self.driver);
            proof {
                assert(block@ =~= block_of(data@, bcount));
                bcount = bcount + 1;
            }
            offset = offset + block_len;
        }
        self.driver.flush();
        proof {
            let t = self.driver.calls().skip(base);
            assert(t.len() == 4 + 2 * num_blocks(n as int) + 1);
            assert(t[0] == DriverCall::ReadySample);
            assert(t[1] == DriverCall::ReadySample);
            assert(t[2] == sel_call);
            assert(t[3] == en_call);
            assert(t.last() == DriverCall::Flush);
            assert forall|i: int| 0 <= i < num_blocks(data@.len() as int) implies (
            #[trigger] t[4 + 2 * i] matches DriverCall::Program {
                address: at,
                data: block,
                mode,
                result: _,
            } && at == address + i * PROGRAM_BLOCK_SIZE && block == block_of(data@, i) && mode
                == FlashProgrammingCommand::AutoEccGeneration && t[4 + 2 * i + 1]
                == DriverCall::ReadySample) by {
                assert(t[4 + 2 * i] == self.driver.calls()[base + 4 + 2 * i]);
                assert(t[4 + 2 * i + 1] == self.driver.calls()[base + 4 + 2 * i + 1]);
            }
            assert(self.driver.calls().take(base) =~= old(self).driver.calls());
        }
        Ok(())
    }
}

/// What a successful erase-sector run has verified: its blank-check
/// attempts that passed are exactly the windows of the covering sector's
/// whole range, from the sector's start address over its full size. The
/// mandatory verification step never checks less than the erased sector.
pub proof fn lemma_erase_sector_checks_the_whole_sector(
    g: FlashGeometry,
    address: u32,
    t: Seq<DriverCall>,
)
    requires
        g.wf(),
        erase_sector_trace(g, address, t, Ok(())),
    ensures
        exists|i: int|
            0 <= i < g.sectors@.len() && sector_contains(#[trigger] g.sectors@[i], address)
                && passed_checks(t.skip(8)) == expected_windows(
                g.sectors@[i].address as int,
                g.sectors@[i].size as int,
            ),
{
    assert(g.spec_covered(address));
    let i = choose|i: int|
        0 <= i < g.sectors@.len() && sector_contains(#[trigger] g.sectors@[i], address)
            && erase_sector_steps(g.spec_bank_for(address), g.sectors@[i], address, t, Ok(()));
    let sector = g.sectors@[i];
    assert(blank_trace(sector.address as int, sector.size as int, t.skip(8), true));
    lemma_blank_trace_windows(sector.address as int, sector.size as int, 0, t.skip(8));
    assert(sector_contains(g.sectors@[i], address) && passed_checks(t.skip(8))
        == expected_windows(g.sectors@[i].address as int, g.sectors@[i].size as int));
}

/// What splitting a buffer into programming blocks guarantees: a buffer
/// of `n` bytes yields `(n + PROGRAM_BLOCK_SIZE - 1) / PROGRAM_BLOCK_SIZE`
/// blocks; every block carries at most a full block of bytes, every block
/// but the last exactly a full block; and the blocks, in order, are
/// exactly the buffer — their sizes sum to its length.
pub proof fn lemma_program_block_split(data: Seq<u8>)
    ensures
        forall|i: int|
            0 <= i < num_blocks(data.len() as int) ==> (#[trigger] block_of(data, i)).len()
                <= PROGRAM_BLOCK_SIZE,
        forall|i: int|
            0 <= i < num_blocks(data.len() as int) - 1 ==> (#[trigger] block_of(data, i)).len()
                == PROGRAM_BLOCK_SIZE,
        concat_blocks(data, num_blocks(data.len() as int)) == data,
{
    let n = data.len() as int;
    let nb = num_blocks(n);
    assert forall|i: int| 0 <= i < nb implies (#[trigger] block_of(data, i)).len()
        <= PROGRAM_BLOCK_SIZE by {
        lemma_block_bounds(n, i);
    }
    assert forall|i: int| 0 <= i < nb - 1 implies (#[trigger] block_of(data, i)).len()
        == PROGRAM_BLOCK_SIZE by {
        lemma_block_bounds(n, i);
        lemma_block_bounds(n, i + 1);
    }
    lemma_concat_blocks_prefix(data, nb);
    if nb > 0 {
        lemma_block_bounds(n, nb - 1);
    }
    assert(data.take(n) =~= data);
}

/// Block `i` of a buffer of `n` bytes starts inside the buffer, and all
/// blocks before the last are full.
proof fn lemma_block_bounds(n: int, i: int)
    requires
        0 <= n,
        0 <= i < num_blocks(n),
    ensures
        i * PROGRAM_BLOCK_SIZE < n,
        i < num_blocks(n) - 1 ==> (i + 1) * PROGRAM_BLOCK_SIZE <= n,
{
    let b = PROGRAM_BLOCK_SIZE as int;
    assert(i * b < n) by (nonlinear_arith)
        requires
            0 <= i < (n + b - 1) / b,
            b == 32,
            0 <= n,
    ;
    if i < num_blocks(n) - 1 {
        assert((i + 1) * b <= n) by (nonlinear_arith)
            requires
                0 <= i,
                i + 1 < (n + b - 1) / b,
                b == 32,
                0 <= n,
        ;
    }
}

/// The first `k` blocks of a buffer, in order, are its first
/// `k * PROGRAM_BLOCK_SIZE` bytes (or all of it, once `k` covers it).
proof fn lemma_concat_blocks_prefix(data: Seq<u8>, k: int)
    requires
        0 <= k <= num_blocks(data.len() as int),
    ensures
        concat_blocks(data, k) == data.take(
            if k * PROGRAM_BLOCK_SIZE > data.len() {
                data.len() as int
            } else {
                k * PROGRAM_BLOCK_SIZE
            },
        ),
    decreases k,
{
    let n = data.len() as int;
    if k == 0 {
        assert(concat_blocks(data, 0) =~= data.take(0));
    } else {
        lemma_concat_blocks_prefix(data, k - 1);
        lemma_block_bounds(n, k - 1);
        let upper = if k * PROGRAM_BLOCK_SIZE > n {
            n
        } else {
            k * PROGRAM_BLOCK_SIZE
        };
        assert(concat_blocks(data, k - 1) + block_of(data, k - 1) =~= data.take(upper));
    }
}

} // verus!
