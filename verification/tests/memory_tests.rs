//! Tests of the virtual memory subsystem: layout resolution, descriptor
//! encodings, table population and MMU enablement.

use hos_kernel::memory::mmu::translation_table::FixedSizeTranslationTable;
use hos_kernel::memory::mmu::translation_table::PageDescriptor;
use hos_kernel::memory::mmu::translation_table::TableDescriptor;
use hos_kernel::memory::mmu::AccessPermissions;
use hos_kernel::memory::mmu::AddressSpace;
use hos_kernel::memory::mmu::AttributeFields;
use hos_kernel::memory::mmu::KernelVirtualLayout;
use hos_kernel::memory::mmu::MMUEnableError;
use hos_kernel::memory::mmu::MemAttributes;
use hos_kernel::memory::mmu::MemoryManagementUnit;
use hos_kernel::memory::mmu::MmuRegisters;
use hos_kernel::memory::mmu::Translation;
use hos_kernel::memory::mmu::TranslationDescriptor;
use hos_kernel::memory::mmu::mmu;

fn device_rw_xn() -> AttributeFields {
    AttributeFields {
        mem_attributes: MemAttributes::Device,
        acc_perms: AccessPermissions::ReadWrite,
        execute_never: true,
    }
}

fn code_attrs() -> AttributeFields {
    AttributeFields {
        mem_attributes: MemAttributes::CacheableDRAM,
        acc_perms: AccessPermissions::ReadOnly,
        execute_never: false,
    }
}

fn single_range_layout() -> KernelVirtualLayout {
    let d = TranslationDescriptor {
        name: "special",
        virtual_range_start: 0x1000,
        virtual_range_end_inclusive: 0x1FFF,
        physical_range_translation: Translation::Identity,
        attribute_fields: device_rw_xn(),
    };
    KernelVirtualLayout::new(0xFFFF_FFFF, vec![d])
}

#[test]
fn layout_boundary_start_is_special() {
    let layout = single_range_layout();
    let (phys, attrs) = layout.virt_addr_properties(0x1000).unwrap();
    assert_eq!(phys, 0x1000);
    assert_eq!(attrs, device_rw_xn());
}

#[test]
fn layout_boundary_end_is_special() {
    let layout = single_range_layout();
    let (phys, attrs) = layout.virt_addr_properties(0x1FFF).unwrap();
    assert_eq!(phys, 0x1FFF);
    assert_eq!(attrs, device_rw_xn());
}

#[test]
fn layout_past_end_is_default() {
    let layout = single_range_layout();
    let (phys, attrs) = layout.virt_addr_properties(0x2000).unwrap();
    assert_eq!(phys, 0x2000);
    assert_eq!(attrs, AttributeFields::default());
    assert_eq!(attrs.mem_attributes, MemAttributes::CacheableDRAM);
    assert_eq!(attrs.acc_perms, AccessPermissions::ReadWrite);
    assert!(!attrs.execute_never);
}

#[test]
fn layout_address_above_max_is_error() {
    let layout = single_range_layout();
    assert!(layout.virt_addr_properties(0x1_0000_0000).is_err());
    assert!(layout.virt_addr_properties(0xFFFF_FFFF).is_ok());
}

#[test]
fn layout_offset_translation() {
    let d = TranslationDescriptor {
        name: "remapped",
        virtual_range_start: 0x7000,
        virtual_range_end_inclusive: 0x7FFF,
        physical_range_translation: Translation::Offset(0x4000_0000),
        attribute_fields: device_rw_xn(),
    };
    let layout = KernelVirtualLayout::new(0xFFFF_FFFF, vec![d]);
    let (phys, _) = layout.virt_addr_properties(0x7004).unwrap();
    assert_eq!(phys, 0x4000_0004);
}

#[test]
fn layout_first_match_wins() {
    let first = TranslationDescriptor {
        name: "first",
        virtual_range_start: 0x1000,
        virtual_range_end_inclusive: 0x2FFF,
        physical_range_translation: Translation::Identity,
        attribute_fields: code_attrs(),
    };
    let second = TranslationDescriptor {
        name: "second",
        virtual_range_start: 0x2000,
        virtual_range_end_inclusive: 0x3FFF,
        physical_range_translation: Translation::Identity,
        attribute_fields: device_rw_xn(),
    };
    let layout = KernelVirtualLayout::new(0xFFFF_FFFF, vec![first, second]);
    let (_, attrs) = layout.virt_addr_properties(0x2500).unwrap();
    assert_eq!(attrs, code_attrs());
    let (_, attrs) = layout.virt_addr_properties(0x3500).unwrap();
    assert_eq!(attrs, device_rw_xn());
}

#[test]
fn table_descriptor_encoding() {
    let d = TableDescriptor::from_next_lvl_table_addr(0x8_0000);
    // bits [47:16] hold 0x8_0000 >> 16 == 0x8; type (bit 1) and valid (bit 0).
    assert_eq!(d.value(), 0x8_0003);
    assert_eq!(d.next_lvl_table_addr(), 0x8_0000);
    assert_eq!(TableDescriptor::new_zeroed().value(), 0);
}

#[test]
fn page_descriptor_encoding_dram_rw_exec() {
    let attrs = AttributeFields::default();
    let d = PageDescriptor::from_output_addr(0, &attrs);
    // UXN (bit 54), AF (bit 10), inner shareable (0b11 << 8), RW (0b00 << 6),
    // attribute slot 1 (1 << 2), page type (bit 1), valid (bit 0).
    assert_eq!(d.value(), 0x0040_0000_0000_0707);
    assert!(d.is_valid());
}

#[test]
fn page_descriptor_encoding_device_ro_xn() {
    let attrs = AttributeFields {
        mem_attributes: MemAttributes::Device,
        acc_perms: AccessPermissions::ReadOnly,
        execute_never: true,
    };
    let d = PageDescriptor::from_output_addr(0x3F00_0000, &attrs);
    // UXN | PXN, the output address, AF, outer shareable (0b10 << 8),
    // RO (0b10 << 6), attribute slot 0, page type, valid.
    assert_eq!(d.value(), 0x0060_0000_3F00_0683);
    assert_eq!(d.output_addr(), 0x3F00_0000);
}

#[test]
fn page_descriptor_attributes_round_trip_all_combinations() {
    for mem in [MemAttributes::CacheableDRAM, MemAttributes::Device] {
        for acc in [AccessPermissions::ReadOnly, AccessPermissions::ReadWrite] {
            for xn in [false, true] {
                let attrs = AttributeFields {
                    mem_attributes: mem,
                    acc_perms: acc,
                    execute_never: xn,
                };
                let d = PageDescriptor::from_output_addr(0x123E_0000, &attrs);
                assert_eq!(d.attribute_fields(), attrs);
                assert_eq!(d.output_addr(), 0x123E_0000);
                assert!(d.is_valid());
            }
        }
    }
    assert!(!PageDescriptor::new_zeroed().is_valid());
}

/// A 512 MiB toy address space with a code range and an MMIO range.
fn toy_layout() -> KernelVirtualLayout {
    let code = TranslationDescriptor {
        name: "code",
        virtual_range_start: 0x8_0000,
        virtual_range_end_inclusive: 0x8_FFFF,
        physical_range_translation: Translation::Identity,
        attribute_fields: code_attrs(),
    };
    let mmio = TranslationDescriptor {
        name: "mmio",
        virtual_range_start: 0x1000_0000,
        virtual_range_end_inclusive: 0x1000_FFFF,
        physical_range_translation: Translation::Identity,
        attribute_fields: device_rw_xn(),
    };
    KernelVirtualLayout::new(0x1FFF_FFFF, vec![code, mmio])
}

#[test]
fn populate_toy_address_space_end_to_end() {
    let mut table = FixedSizeTranslationTable::new(1, 0x10_0000);
    let layout = toy_layout();
    assert!(table.populate_tt_entries(&layout).is_ok());
    assert!(table.is_populated());
    assert_eq!(table.num_tables(), 1);
    // Exactly one table descriptor, pointing at the level-3 table.
    assert_eq!(table.lvl2_descriptor(0).value(), 0x10_0003);
    // 8192 page descriptors, every one valid and identity mapped.
    let mut special = 0usize;
    for l3 in 0..8192usize {
        let d = table.lvl3_descriptor(0, l3);
        let virt = (l3 as u64) * 0x1_0000;
        assert!(d.is_valid());
        assert_eq!(d.output_addr(), virt);
        let attrs = d.attribute_fields();
        if virt == 0x8_0000 {
            assert_eq!(attrs, code_attrs());
            special += 1;
        } else if virt == 0x1000_0000 {
            assert_eq!(attrs, device_rw_xn());
            special += 1;
        } else {
            // Every page outside the two special ranges carries the
            // default attributes.
            assert_eq!(attrs, AttributeFields::default());
        }
    }
    assert_eq!(special, 2);
}

#[test]
fn populate_is_single_shot() {
    let mut table = FixedSizeTranslationTable::new(1, 0x10_0000);
    let layout = toy_layout();
    assert!(table.populate_tt_entries(&layout).is_ok());
    assert!(table.populate_tt_entries(&layout).is_err());
}

#[test]
fn populate_fails_on_uncovered_layout() {
    let mut table = FixedSizeTranslationTable::new(1, 0x10_0000);
    let d = TranslationDescriptor {
        name: "tiny",
        virtual_range_start: 0,
        virtual_range_end_inclusive: 0xFFF,
        physical_range_translation: Translation::Identity,
        attribute_fields: device_rw_xn(),
    };
    // The layout's configured maximum covers only the first page.
    let layout = KernelVirtualLayout::new(0xFFFF, vec![d]);
    let r = table.populate_tt_entries(&layout);
    assert_eq!(r, Err("Address out of range"));
    assert!(!table.is_populated());
}

#[test]
fn table_base_address_follows_level3_tables() {
    let table = FixedSizeTranslationTable::new(8, 0x200_0000);
    // The level-2 array sits after the eight 64 KiB level-3 tables.
    assert_eq!(table.phys_base_address(), 0x200_0000 + 8 * 0x1_0000);
}

fn fresh_regs() -> MmuRegisters {
    MmuRegisters {
        sctlr_el1: 0x30D0_0800,
        mair_el1: 0,
        tcr_el1: 0,
        ttbr0_el1_baddr: 0,
    }
}

const TGRAN64_SUPPORTED: u64 = 0;
const TGRAN64_NOT_SUPPORTED: u64 = 0xF << 24;

#[test]
fn enable_mmu_already_enabled_changes_nothing() {
    let mmu: MemoryManagementUnit = mmu();
    let mut regs = fresh_regs();
    regs.sctlr_el1 |= 0x1;
    let before = regs;
    let mut table = FixedSizeTranslationTable::new(1, 0x10_0000);
    let layout = toy_layout();
    let space = AddressSpace::new(0x2000_0000);
    let r = mmu.enable_mmu_and_caching(&mut regs, TGRAN64_SUPPORTED, &mut table, &layout, &space);
    assert!(matches!(r, Err(MMUEnableError::AlreadyEnabled)));
    // No further register writes, and the tables were not touched.
    assert_eq!(regs, before);
    assert!(!table.is_populated());
}

#[test]
fn enable_mmu_requires_granule_support() {
    let mmu: MemoryManagementUnit = mmu();
    let mut regs = fresh_regs();
    let before = regs;
    let mut table = FixedSizeTranslationTable::new(1, 0x10_0000);
    let layout = toy_layout();
    let space = AddressSpace::new(0x2000_0000);
    let r = mmu.enable_mmu_and_caching(
        &mut regs,
        TGRAN64_NOT_SUPPORTED,
        &mut table,
        &layout,
        &space,
    );
    assert!(matches!(r, Err(MMUEnableError::Other(_))));
    assert_eq!(regs, before);
    assert!(!table.is_populated());
}

#[test]
fn enable_mmu_programs_all_registers() {
    let mmu: MemoryManagementUnit = mmu();
    let mut regs = fresh_regs();
    let mut table = FixedSizeTranslationTable::new(1, 0x10_0000);
    let layout = toy_layout();
    let space = AddressSpace::new(0x2000_0000);
    let r = mmu.enable_mmu_and_caching(&mut regs, TGRAN64_SUPPORTED, &mut table, &layout, &space);
    assert!(r.is_ok());
    // Two MAIR slots: slot 1 normal write-back, slot 0 device nGnRE.
    assert_eq!(regs.mair_el1, 0xFF04);
    // TBI0, 40-bit IPS, EPD1, 64 KiB granule, inner shareable, write-back
    // cacheable walks, T0SZ = 64 - 29.
    assert_eq!(regs.tcr_el1, 0x22_0080_7523);
    assert_eq!(regs.ttbr0_el1_baddr, 0x10_0000 + 0x1_0000);
    assert_eq!(regs.sctlr_el1, 0x30D0_0800 | 0x1 | 0x4 | 0x1000);
    assert!(mmu.is_enabled(regs.sctlr_el1));
    assert!(table.is_populated());
}

#[test]
fn enable_mmu_propagates_population_failure() {
    let mmu: MemoryManagementUnit = mmu();
    let mut regs = fresh_regs();
    let mut table = FixedSizeTranslationTable::new(1, 0x10_0000);
    let layout = toy_layout();
    let space = AddressSpace::new(0x2000_0000);
    assert!(table.populate_tt_entries(&layout).is_ok());
    let r = mmu.enable_mmu_and_caching(&mut regs, TGRAN64_SUPPORTED, &mut table, &layout, &space);
    assert!(matches!(r, Err(MMUEnableError::Other(_))));
    // The guard and capability check passed, so MAIR was already written.
    assert_eq!(regs.mair_el1, 0xFF04);
    assert_eq!(regs.sctlr_el1, 0x30D0_0800);
}

#[test]
fn address_space_shift() {
    let s = AddressSpace::new(0x2000_0000);
    assert_eq!(s.size(), 0x2000_0000);
    assert_eq!(s.size_shift(), 29);
    let s = AddressSpace::new(0x1_0000_0000);
    assert_eq!(s.size(), 0x1_0000_0000);
    assert_eq!(s.size_shift(), 32);
}

#[test]
fn address_space_sanity_checks() {
    assert!(AddressSpace::arch_address_space_size_sanity_checks(0x2000_0000));
    assert!(AddressSpace::arch_address_space_size_sanity_checks(0x1_0000_0000));
    // Not a whole number of 512 MiB windows.
    assert!(!AddressSpace::arch_address_space_size_sanity_checks(0x1234_5678));
    // Above the 48-bit ceiling.
    assert!(!AddressSpace::arch_address_space_size_sanity_checks(1 << 49));
}
