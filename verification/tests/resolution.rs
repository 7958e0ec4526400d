use f021_flash::geometry::{BankRegion, FlashGeometry, Sector};
use f021_flash::types::FlashBank;

/// A 4 MiB flash: 256 sectors of 16 KiB, split at 2 MiB into two banks.
fn demo_geometry() -> FlashGeometry {
    let mut sectors = Vec::new();
    for i in 0..256u32 {
        sectors.push(Sector {
            address: i * 0x4000,
            size: 0x4000,
        });
    }
    FlashGeometry {
        flash_address: 0,
        flash_size: 0x40_0000,
        sectors,
        banks: vec![
            BankRegion {
                start: 0,
                bank: FlashBank::_0,
            },
            BankRegion {
                start: 0x20_0000,
                bank: FlashBank::_1,
            },
        ],
    }
}

#[test]
fn demo_geometry_is_well_formed() {
    assert!(demo_geometry().is_well_formed());
}

#[test]
fn malformed_geometries_are_refused() {
    let mut overlapping = demo_geometry();
    overlapping.sectors[1].address = 0x2000;
    assert!(!overlapping.is_well_formed());

    let mut misaligned = demo_geometry();
    misaligned.sectors[0].address = 0x123;
    assert!(!misaligned.is_well_formed());

    let mut empty_sector = demo_geometry();
    empty_sector.sectors[5].size = 0;
    assert!(!empty_sector.is_well_formed());

    let mut no_banks = demo_geometry();
    no_banks.banks.clear();
    assert!(!no_banks.is_well_formed());

    let mut bad_threshold = demo_geometry();
    bad_threshold.banks[0].start = 4;
    assert!(!bad_threshold.is_well_formed());

    let mut unordered_banks = demo_geometry();
    unordered_banks.banks[1].start = 0;
    assert!(!unordered_banks.is_well_formed());
}

#[test]
fn addresses_resolve_to_their_sector() {
    let g = demo_geometry();
    assert_eq!(
        g.sector_for(0x5000),
        Some(Sector {
            address: 0x4000,
            size: 0x4000
        })
    );
    assert_eq!(
        g.sector_for(0),
        Some(Sector {
            address: 0,
            size: 0x4000
        })
    );
    assert_eq!(
        g.sector_for(0x3F_FFFF),
        Some(Sector {
            address: 0x3F_C000,
            size: 0x4000
        })
    );
    assert_eq!(
        g.sector_for(0x4000),
        Some(Sector {
            address: 0x4000,
            size: 0x4000
        })
    );
    assert_eq!(
        g.sector_for(0x7FFF),
        Some(Sector {
            address: 0x4000,
            size: 0x4000
        })
    );
}

#[test]
fn addresses_outside_the_extent_resolve_to_none() {
    let g = demo_geometry();
    assert_eq!(g.sector_for(0x40_0000), None);
    assert_eq!(g.sector_for(u32::MAX), None);
}

#[test]
fn gaps_of_a_sparse_table_resolve_to_none() {
    let sparse = FlashGeometry {
        flash_address: 0,
        flash_size: 0x40_0000,
        sectors: vec![
            Sector {
                address: 0x4000,
                size: 0x4000,
            },
            Sector {
                address: 0x10000,
                size: 0x4000,
            },
        ],
        banks: vec![BankRegion {
            start: 0,
            bank: FlashBank::_0,
        }],
    };
    assert!(sparse.is_well_formed());
    assert!(sparse.sector_for(0x5000).is_some());
    assert_eq!(sparse.sector_for(0x9000), None);
    assert_eq!(sparse.sector_for(0x0), None);
}

#[test]
fn every_address_resolves_to_one_bank() {
    let g = demo_geometry();
    assert_eq!(g.bank_for(0), FlashBank::_0);
    assert_eq!(g.bank_for(0x1F_FFFF), FlashBank::_0);
    assert_eq!(g.bank_for(0x20_0000), FlashBank::_1);
    assert_eq!(g.bank_for(0x3F_FFFF), FlashBank::_1);
    // Total even past the extent: the threshold rule knows no gaps.
    assert_eq!(g.bank_for(u32::MAX), FlashBank::_1);
}

#[test]
fn bank_resolution_is_deterministic() {
    let g = demo_geometry();
    for address in [0u32, 0x1234, 0x20_0000, 0x3B_4567, u32::MAX] {
        assert_eq!(g.bank_for(address), g.bank_for(address));
    }
}
