//! The flash geometry the orchestration engine consumes: an ordered sector
//! table and the bank threshold rule, both fixed configuration data, with
//! the address-resolution logic over them.

use vstd::prelude::*;

use crate::driver::BLANK_CHECK_CHUNK;
use crate::types::FlashBank;

verus! {

/// One erasable sector: a start address and a size in bytes.
#[derive(Debug, Clone, Copy, PartialEq, Eq, Structural)]
pub struct Sector {
    pub address: u32,
    pub size: u32,
}

/// Whether `address` falls in the half-open interval the sector covers.
pub open spec fn sector_contains(s: Sector, address: u32) -> bool {
    s.address <= address < s.address + s.size
}

/// One entry of the bank threshold rule: every address from `start` up to
/// the next entry's threshold belongs to `bank`.
#[derive(Debug, Clone, Copy, PartialEq, Eq, Structural)]
pub struct BankRegion {
    pub start: u32,
    pub bank: FlashBank,
}

/// The build-time description of the flash array: its extent, its ordered
/// sector table, and its bank thresholds.
#[derive(Debug, Clone, PartialEq, Eq)]
pub struct FlashGeometry {
    pub flash_address: u32,
    pub flash_size: u32,
    pub sectors: Vec<Sector>,
    pub banks: Vec<BankRegion>,
}

impl FlashGeometry {
    /// What a single sector entry must satisfy: non-empty, inside the flash
    /// extent, and starting on a blank-check window boundary (the
    /// verification step after an erase demands that alignment).
    pub open spec fn sector_ok(self, i: int) -> bool {
        &&& self.sectors@[i].size > 0
        &&& self.sectors@[i].address % BLANK_CHECK_CHUNK == 0
        &&& self.flash_address <= self.sectors@[i].address
        &&& self.sectors@[i].address + self.sectors@[i].size <= self.flash_address
            + self.flash_size
    }

    /// Sector `i` ends at or before the next sector begins.
    pub open spec fn sector_gap_ok(self, i: int) -> bool {
        self.sectors@[i].address + self.sectors@[i].size <= self.sectors@[i + 1].address
    }

    /// Bank threshold `i` lies strictly below the next threshold.
    pub open spec fn bank_gap_ok(self, i: int) -> bool {
        self.banks@[i].start < self.banks@[i + 1].start
    }

    /// Well-formedness of the whole configuration: sectors are listed in
    /// ascending, non-overlapping address order inside the flash extent,
    /// and the bank thresholds are strictly ascending and start at address
    /// zero, so that every address resolves to exactly one bank.
    pub open spec fn wf(self) -> bool {
        &&& self.flash_address + self.flash_size <= 0x1_0000_0000
        &&& forall|i: int| 0 <= i < self.sectors@.len() ==> #[trigger] self.sector_ok(i)
        &&& forall|i: int| 0 <= i < self.sectors@.len() - 1 ==> #[trigger] self.sector_gap_ok(i)
        &&& self.banks@.len() > 0
        &&& self.banks@[0].start == 0
        &&& forall|i: int| 0 <= i < self.banks@.len() - 1 ==> #[trigger] self.bank_gap_ok(i)
    }

    /// Whether some sector of the table covers `address`.
    pub open spec fn spec_covered(self, address: u32) -> bool {
        exists|i: int|
            0 <= i < self.sectors@.len() && sector_contains(#[trigger] self.sectors@[i], address)
    }

    /// Whether `address` lies inside the configured flash extent.
    pub open spec fn spec_in_extent(self, address: u32) -> bool {
        self.flash_address <= address < self.flash_address + self.flash_size
    }

    /// Check the configuration invariant at run time, so that unverified
    /// callers can refuse a malformed table before handing it to the
    /// engine.
    #[verifier::rlimit(50)]
    pub fn is_well_formed(&self) -> (r: bool)
        ensures
            r == self.wf(),
    {
        if !(self.flash_address as u64 + self.flash_size as u64 <= 0x1_0000_0000u64) {
            return false;
        }
        let n = self.sectors.len();
        let mut i: usize = 0;
        while i < n
            invariant
                n == self.sectors@.len(),
                i <= n,
                forall|j: int| 0 <= j < i ==> #[trigger] self.sector_ok(j),
                forall|j: int| 0 <= j < i && j < n - 1 ==> #[trigger] self.sector_gap_ok(j),
            decreases n - i,
        {
            let s = self.sectors[i];
            if s.size == 0 {
                assert(!self.sector_ok(i as int));
                return false;
            }
            if s.address % BLANK_CHECK_CHUNK != 0 {
                assert(!self.sector_ok(i as int));
                return false;
            }
            if s.address < self.flash_address {
                assert(!self.sector_ok(i as int));
                return false;
            }
            let end: u64 = s.address as u64 + s.size as u64;
            if !(end <= self.flash_address as u64 + self.flash_size as u64) {
                assert(!self.sector_ok(i as int));
                return false;
            }
            assert(self.sector_ok(i as int));
            if i + 1 < n {
                if !(end <= self.sectors[i + 1].address as u64) {
                    assert(!self.sector_gap_ok(i as int));
                    return false;
                }
                assert(self.sector_gap_ok(i as int));
            }
            i = i + 1;
        }
        if self.banks.len() == 0 {
            return false;
        }
        if self.banks[0].start != 0 {
            return false;
        }
        let m = self.banks.len();
        let mut k: usize = 0;
        while k < m - 1
            invariant
                m == self.banks@.len(),
                0 < m,
                k <= m - 1,
                forall|j: int| 0 <= j < k ==> #[trigger] self.bank_gap_ok(j),
            decreases m - k,
        {
            if !(self.banks[k].start < self.banks[k + 1].start) {
                assert(!self.bank_gap_ok(k as int));
                return false;
            }
            assert(self.bank_gap_ok(k as int));
            k = k + 1;
        }
        true
    }

    /// Resolve `address` to the sector that covers it: the first (and, for
    /// a well-formed table, the only) sector whose interval contains it, or
    /// none when the table has no such sector.
    pub fn sector_for(&self, address: u32) -> (r: Option<Sector>)
        requires
            self.wf(),
        ensures
            r is Some <==> self.spec_covered(address),
            r matches Some(s) ==> exists|i: int|
                0 <= i < self.sectors@.len() && #[trigger] self.sectors@[i] == s
                    && sector_contains(s, address),
    {
        let n = self.sectors.len();
        let mut i: usize = 0;
        while i < n
            invariant
                self.wf(),
                n == self.sectors@.len(),
                i <= n,
                forall|j: int| 0 <= j < i ==> !sector_contains(#[trigger] self.sectors@[j], address),
            decreases n - i,
        {
            let s = self.sectors[i];
            assert(self.sector_ok(i as int));
            if s.address <= address && address - s.address < s.size {
                assert(sector_contains(s, address));
                return Some(s);
            }
            assert(!sector_contains(s, address));
            i = i + 1;
        }
        None
    }

    /// The bank the threshold rule assigns to `address`: the bank of the
    /// last region whose threshold does not exceed it.
    pub open spec fn spec_bank_for(self, address: u32) -> FlashBank {
        spec_bank_for_rec(self.banks@, address)
    }

    /// Resolve `address` to its bank. The threshold rule is total: with a
    /// well-formed table every address, in or out of the flash extent,
    /// resolves to exactly one bank.
    #[verifier::rlimit(50)]
    pub fn bank_for(&self, address: u32) -> (r: FlashBank)
        requires
            self.wf(),
        ensures
            r == self.spec_bank_for(address),
    {
        let mut i: usize = self.banks.len();
        proof {
            assert(self.banks@.take(i as int) =~= self.banks@);
        }
        loop
            invariant
                self.wf(),
                0 < i <= self.banks@.len(),
                spec_bank_for_rec(self.banks@, address) == spec_bank_for_rec(
                    self.banks@.take(i as int),
                    address,
                ),
            ensures
                0 < i <= self.banks@.len(),
                spec_bank_for_rec(self.banks@, address) == self.banks@[i as int - 1].bank,
            decreases i,
        {
            let region = self.banks[i - 1];
            proof {
                assert(self.banks@.take(i as int).last() == self.banks@[i as int - 1]);
                assert(self.banks@.take(i as int).drop_last() =~= self.banks@.take(i as int - 1));
            }
            if region.start <= address {
                assert(spec_bank_for_rec(self.banks@.take(i as int), address) == region.bank);
                break;
            }
            i = i - 1;
            proof {
                if i == 0 {
                    assert(self.banks@[0].start == 0);
                    assert(false);
                }
            }
        }
        self.banks[i - 1].bank
    }
}

/// The bank of the last region in `banks` whose threshold does not exceed
/// `address`; the first bank when no region's threshold does.
pub open spec fn spec_bank_for_rec(banks: Seq<BankRegion>, address: u32) -> FlashBank
    decreases banks.len(),
{
    if banks.len() == 0 {
        FlashBank::_0
    } else if banks.last().start <= address {
        banks.last().bank
    } else {
        spec_bank_for_rec(banks.drop_last(), address)
    }
}

/// In a well-formed sector table, sectors listed earlier end before later
/// ones begin.
pub proof fn lemma_sectors_sorted(g: FlashGeometry, i: int, j: int)
    requires
        g.wf(),
        0 <= i < j < g.sectors@.len(),
    ensures
        g.sectors@[i].address + g.sectors@[i].size <= g.sectors@[j].address,
    decreases j - i,
{
    assert(g.sector_gap_ok(j - 1));
    assert(g.sector_ok(j - 1));
    if i + 1 == j {
    } else {
        lemma_sectors_sorted(g, i, j - 1);
    }
}

/// No two distinct sectors of a well-formed table cover the same address:
/// together with the postcondition of [`FlashGeometry::sector_for`], every
/// covered address resolves to exactly one sector.
pub proof fn lemma_sector_exactly_one(g: FlashGeometry, address: u32, i: int, j: int)
    requires
        g.wf(),
        0 <= i < g.sectors@.len(),
        0 <= j < g.sectors@.len(),
        sector_contains(g.sectors@[i], address),
        sector_contains(g.sectors@[j], address),
    ensures
        i == j,
{
    if i < j {
        lemma_sectors_sorted(g, i, j);
    } else if j < i {
        lemma_sectors_sorted(g, j, i);
    }
}

/// An address outside the configured flash extent is covered by no sector,
/// so resolution returns none for it.
pub proof fn lemma_outside_extent_uncovered(g: FlashGeometry, address: u32)
    requires
        g.wf(),
        !g.spec_in_extent(address),
    ensures
        !g.spec_covered(address),
{
    assert forall|i: int| 0 <= i < g.sectors@.len() implies !sector_contains(
        #[trigger] g.sectors@[i],
        address,
    ) by {
        assert(g.sector_ok(i));
    }
}

/// Bank resolution is a pure function of the address and the configured
/// thresholds: equal inputs always yield equal outputs.
pub proof fn lemma_bank_for_deterministic(g: FlashGeometry, a: u32, b: u32)
    requires
        a == b,
    ensures
        g.spec_bank_for(a) == g.spec_bank_for(b),
{
}

} // verus!
