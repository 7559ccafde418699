//! The board's virtual memory layout.

use vstd::prelude::*;
use vstd::arithmetic::power2::pow2;
use vstd::arithmetic::power2::lemma2_to64;
use crate::bsp::raspberrypi::memory::memory_map;
use crate::memory::mmu::AccessPermissions;
use crate::memory::mmu::AddressSpace;
use crate::memory::mmu::AttributeFields;
use crate::memory::mmu::KernelVirtualLayout;
use crate::memory::mmu::MemAttributes;
use crate::memory::mmu::Translation;
use crate::memory::mmu::TranslationDescriptor;
use crate::memory::mmu::address_space_size_valid;

verus! {

/// The size of the kernel's address space: the whole memory map.
pub const KERNEL_ADDR_SPACE_SIZE: u64 = 0x1_0000_0000;

/// The number of special ranges in the board's layout.
pub const NUM_MEM_RANGES: usize = 2;

/// The kernel's address space as defined by this BSP: 4 GiB.
pub fn kernel_addr_space() -> (r: AddressSpace)
    ensures
        r.wf(),
        r.spec_size() == KERNEL_ADDR_SPACE_SIZE,
        r.spec_size_shift() == 32,
{
    proof {
        lemma2_to64();
        assert(address_space_size_valid(KERNEL_ADDR_SPACE_SIZE)) by {
            assert(pow2(32) == 0x1_0000_0000) by {
                lemma2_to64();
            }
        }
    }
    let r = AddressSpace::new(KERNEL_ADDR_SPACE_SIZE);
    proof {
        assert(pow2(32) == 0x1_0000_0000) by {
            lemma2_to64();
        }
        if r.spec_size_shift() < 32 {
            vstd::arithmetic::power2::lemma_pow2_strictly_increases(
                r.spec_size_shift() as nat,
                32,
            );
        }
        if r.spec_size_shift() > 32 {
            vstd::arithmetic::power2::lemma_pow2_strictly_increases(
                32,
                r.spec_size_shift() as nat,
            );
        }
    }
    r
}

/// The inclusive virtual range of the kernel's code and read-only data, from
/// the linker-provided start and exclusive end of the code segment.
pub fn code_range_inclusive(code_start: u64, code_end_exclusive: u64) -> (r: (u64, u64))
    requires
        code_start < code_end_exclusive,
    ensures
        r.0 == code_start,
        r.1 == code_end_exclusive - 1,
{
    (code_start, code_end_exclusive - 1)
}

/// The inclusive virtual range of the memory-mapped devices.
pub fn mmio_range_inclusive() -> (r: (u64, u64))
    ensures
        r.0 == memory_map::MMIO_START,
        r.1 == memory_map::MMIO_END_INCLUSIVE,
{
    (memory_map::MMIO_START, memory_map::MMIO_END_INCLUSIVE)
}

/// The descriptor of the kernel code range: identity mapped, cacheable DRAM,
/// read-only, executable.
pub open spec fn code_descriptor(code_start: u64, code_end_exclusive: u64) -> TranslationDescriptor {
    TranslationDescriptor {
        name: "Kernel code and RO data",
        virtual_range_start: code_start,
        virtual_range_end_inclusive: (code_end_exclusive - 1) as u64,
        physical_range_translation: Translation::Identity,
        attribute_fields: AttributeFields {
            mem_attributes: MemAttributes::CacheableDRAM,
            acc_perms: AccessPermissions::ReadOnly,
            execute_never: false,
        },
    }
}

/// The descriptor of the device MMIO range: identity mapped, device memory,
/// read-write, never executable.
pub open spec fn mmio_descriptor() -> TranslationDescriptor {
    TranslationDescriptor {
        name: "Primary Device MMIO",
        virtual_range_start: memory_map::MMIO_START,
        virtual_range_end_inclusive: memory_map::MMIO_END_INCLUSIVE,
        physical_range_translation: Translation::Identity,
        attribute_fields: AttributeFields {
            mem_attributes: MemAttributes::Device,
            acc_perms: AccessPermissions::ReadWrite,
            execute_never: true,
        },
    }
}

/// The board's virtual memory layout: the code range and the MMIO range, in
/// that order, over the whole 4 GiB map.  The layout must contain only
/// special ranges; everything else resolves to default cacheable DRAM.
pub fn virt_mem_layout(code_start: u64, code_end_exclusive: u64) -> (r: KernelVirtualLayout)
    requires
        code_start < code_end_exclusive,
    ensures
        r.wf(),
        r.spec_max_virt_addr_inclusive() == memory_map::END_INCLUSIVE,
        r.spec_inner().len() == NUM_MEM_RANGES,
        r.spec_inner()[0] == code_descriptor(code_start, code_end_exclusive),
        r.spec_inner()[1] == mmio_descriptor(),
{
    let code = code_range_inclusive(code_start, code_end_exclusive);
    let mut descriptors: Vec<TranslationDescriptor> = Vec::new();
    descriptors.push(
        TranslationDescriptor {
            name: "Kernel code and RO data",
            virtual_range_start: code.0,
            virtual_range_end_inclusive: code.1,
            physical_range_translation: Translation::Identity,
            attribute_fields: AttributeFields {
                mem_attributes: MemAttributes::CacheableDRAM,
                acc_perms: AccessPermissions::ReadOnly,
                execute_never: false,
            },
        },
    );
    descriptors.push(
        TranslationDescriptor {
            name: "Primary Device MMIO",
            virtual_range_start: memory_map::MMIO_START,
            virtual_range_end_inclusive: memory_map::MMIO_END_INCLUSIVE,
            physical_range_translation: Translation::Identity,
            attribute_fields: AttributeFields {
                mem_attributes: MemAttributes::Device,
                acc_perms: AccessPermissions::ReadWrite,
                execute_never: true,
            },
        },
    );
    KernelVirtualLayout::new(memory_map::END_INCLUSIVE, descriptors)
}

} // verus!
