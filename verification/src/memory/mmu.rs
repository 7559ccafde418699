//! Memory Management Unit types and the virtual memory layout.
//!
//! Only the 64 KiB translation granule is supported.  Addresses and sizes are
//! carried as `u64`, the width of the architecture's address space.

use vstd::prelude::*;
use vstd::arithmetic::power2::pow2;
use vstd::arithmetic::power2::lemma_pow2_unfold;
use vstd::arithmetic::power2::lemma_pow2_pos;
use vstd::arithmetic::power2::lemma_pow2_strictly_increases;
use vstd::arithmetic::power2::lemma_pow2_adds;

pub mod translation_table;

verus! {

/// Size of the 512 MiB translation granule (one level-2 window).
pub const GRANULE_512MIB_SIZE: u64 = 512 * 1024 * 1024;

/// Shift of the 512 MiB granule: `GRANULE_512MIB_SIZE == 1 << GRANULE_512MIB_SHIFT`.
pub const GRANULE_512MIB_SHIFT: u64 = 29;

/// Size of the 64 KiB translation granule (one page).
pub const GRANULE_64KIB_SIZE: u64 = 64 * 1024;

/// Shift of the 64 KiB granule: `GRANULE_64KIB_SIZE == 1 << GRANULE_64KIB_SHIFT`.
pub const GRANULE_64KIB_SHIFT: u64 = 16;

/// MAIR_EL1 slot carrying the device memory attributes.
pub const MAIR_IDX_DEVICE: u64 = 0;

/// MAIR_EL1 slot carrying the normal cacheable DRAM attributes.
pub const MAIR_IDX_NORMAL: u64 = 1;

/// The architectural restrictions on an address space size: a whole number of
/// 512 MiB translation windows, a power of two (so that `T0SZ` is defined),
/// and at most 48 bits of virtual address.
pub open spec fn address_space_size_valid(size: u64) -> bool {
    &&& size % GRANULE_512MIB_SIZE == 0
    &&& size >= GRANULE_512MIB_SIZE
    &&& exists|e: nat| 29 <= e <= 48 && size == pow2(e)
}

/// A contiguous virtual address range of `size` bytes, starting at zero.
///
/// The size restrictions of [`address_space_size_valid`] are checked when the
/// value is constructed; every `AddressSpace` that exists is well formed.
pub struct AddressSpace {
    size: u64,
    size_shift: u64,
}

impl AddressSpace {
    /// The configured size, in bytes.
    pub closed spec fn spec_size(&self) -> u64 {
        self.size
    }

    /// The exponent of the configured size: `size == 1 << size_shift`.
    pub closed spec fn spec_size_shift(&self) -> u64 {
        self.size_shift
    }

    /// Well-formedness: the size obeys the architectural restrictions and the
    /// stored shift is its exact base-two logarithm.
    pub closed spec fn wf(&self) -> bool {
        &&& 29 <= self.size_shift <= 48
        &&& self.size == pow2(self.size_shift as nat)
        &&& self.size % GRANULE_512MIB_SIZE == 0
    }

    /// Checks the architectural restrictions on the configured size: a
    /// whole number of 512 MiB windows, at most 48 bits.  (That the size is
    /// a power of two is a requirement of the constructor, which computes
    /// the size's exact shift.)
    pub fn arch_address_space_size_sanity_checks(size: u64) -> (r: bool)
        ensures
            r <==> size % GRANULE_512MIB_SIZE == 0 && size >= GRANULE_512MIB_SIZE && size
                <= 0x1_0000_0000_0000,
            address_space_size_valid(size) ==> r,
    {
        proof {
            if address_space_size_valid(size) {
                let e = choose|e: nat| 29 <= e <= 48 && size == pow2(e);
                if e < 48 {
                    lemma_pow2_strictly_increases(e, 48);
                }
                assert(pow2(48) == 0x1_0000_0000_0000) by {
                    vstd::arithmetic::power2::lemma2_to64();
                    lemma_pow2_adds(32, 16);
                }
            }
        }
        size % GRANULE_512MIB_SIZE == 0 && size >= GRANULE_512MIB_SIZE && size
            <= 0x1_0000_0000_0000
    }

    /// Create an address space description of `size` bytes.
    pub fn new(size: u64) -> (r: Self)
        requires
            address_space_size_valid(size),
        ensures
            r.wf(),
            r.spec_size() == size,
            pow2(r.spec_size_shift() as nat) == size,
    {
        let ghost e = choose|e: nat| 29 <= e <= 48 && size == pow2(e);
        let mut s: u64 = size;
        let mut shift: u64 = 0;
        proof {
            lemma_pow2_pos(e);
        }
        while s > 1
            invariant
                shift <= e <= 48,
                s == pow2((e - shift) as nat),
                size == pow2(e),
            decreases s,
        {
            proof {
                lemma_pow2_pos((e - shift) as nat);
                if e - shift == 0 {
                    assert(pow2(0) == 1) by {
                        vstd::arithmetic::power2::lemma2_to64();
                    }
                }
                lemma_pow2_unfold((e - shift) as nat);
            }
            s = s / 2;
            shift = shift + 1;
            proof {
                lemma_pow2_pos((e - shift) as nat);
            }
        }
        proof {
            if e - shift > 0 {
                lemma_pow2_strictly_increases(0, (e - shift) as nat);
            }
            assert(pow2(0) == 1) by {
                vstd::arithmetic::power2::lemma2_to64();
            }
            assert(shift == e);
        }
        AddressSpace { size, size_shift: shift }
    }

    /// The configured size, in bytes.
    pub fn size(&self) -> (r: u64)
        ensures
            r == self.spec_size(),
    {
        self.size
    }

    /// The base-two logarithm of the configured size.
    pub fn size_shift(&self) -> (r: u64)
        ensures
            r == self.spec_size_shift(),
    {
        self.size_shift
    }
}

/// The kind of memory a range holds, selecting its cacheability.
#[derive(Clone, Copy, PartialEq, Eq, Structural, Debug)]
pub enum MemAttributes {
    CacheableDRAM,
    Device,
}

/// The access permissions of a range, for kernel-level accesses.
#[derive(Clone, Copy, PartialEq, Eq, Structural, Debug)]
pub enum AccessPermissions {
    ReadOnly,
    ReadWrite,
}

/// The memory attributes of one virtual range.
#[derive(Clone, Copy, PartialEq, Eq, Structural, Debug)]
pub struct AttributeFields {
    pub mem_attributes: MemAttributes,
    pub acc_perms: AccessPermissions,
    pub execute_never: bool,
}

/// The attributes of every address that no special range claims: ordinary
/// cacheable DRAM, writable, executable.
pub open spec fn attribute_fields_default() -> AttributeFields {
    AttributeFields {
        mem_attributes: MemAttributes::CacheableDRAM,
        acc_perms: AccessPermissions::ReadWrite,
        execute_never: false,
    }
}

impl Default for AttributeFields {
    /// The default attributes, as given by [`attribute_fields_default`].
    fn default() -> (r: Self)
        ensures
            r == attribute_fields_default(),
    {
        AttributeFields {
            mem_attributes: MemAttributes::CacheableDRAM,
            acc_perms: AccessPermissions::ReadWrite,
            execute_never: false,
        }
    }
}

/// How a virtual range translates to physical addresses.
#[derive(Clone, Copy, PartialEq, Eq, Structural, Debug)]
pub enum Translation {
    /// Physical address equals virtual address.
    Identity,
    /// The range maps to physical addresses starting at the given base.
    Offset(u64),
}

/// One special virtual range and its translation and attributes.
#[derive(Clone, Copy)]
pub struct TranslationDescriptor {
    pub name: &'static str,
    pub virtual_range_start: u64,
    pub virtual_range_end_inclusive: u64,
    pub physical_range_translation: Translation,
    pub attribute_fields: AttributeFields,
}

impl TranslationDescriptor {
    /// Well-formedness: the range is non-empty and an offset translation
    /// cannot overflow for any address inside the range.
    pub open spec fn wf(&self) -> bool {
        &&& self.virtual_range_start <= self.virtual_range_end_inclusive
        &&& match self.physical_range_translation {
            Translation::Identity => true,
            Translation::Offset(a) => a + (self.virtual_range_end_inclusive
                - self.virtual_range_start) <= u64::MAX,
        }
    }
}

/// Whether `addr` lies inside the descriptor's virtual range.
pub open spec fn descriptor_matches(d: TranslationDescriptor, addr: u64) -> bool {
    d.virtual_range_start <= addr <= d.virtual_range_end_inclusive
}

/// The physical address a matching descriptor translates `addr` to.
pub open spec fn descriptor_output_addr(d: TranslationDescriptor, addr: u64) -> int {
    match d.physical_range_translation {
        Translation::Identity => addr as int,
        Translation::Offset(a) => a + (addr - d.virtual_range_start),
    }
}

/// The first descriptor at position `i` or later whose range contains `addr`.
pub open spec fn first_match_from(
    s: Seq<TranslationDescriptor>,
    addr: u64,
    i: int,
) -> Option<TranslationDescriptor>
    decreases s.len() - i,
{
    if i < 0 || i >= s.len() {
        None
    } else if descriptor_matches(s[i], addr) {
        Some(s[i])
    } else {
        first_match_from(s, addr, i + 1)
    }
}

/// The first descriptor in the layout whose range contains `addr`.
pub open spec fn first_match(s: Seq<TranslationDescriptor>, addr: u64) -> Option<
    TranslationDescriptor,
> {
    first_match_from(s, addr, 0)
}

/// The physical address the layout resolves `addr` to: through the first
/// matching special range, or identity when no range matches.
pub open spec fn resolved_output_addr(s: Seq<TranslationDescriptor>, addr: u64) -> int {
    match first_match(s, addr) {
        Some(d) => descriptor_output_addr(d, addr),
        None => addr as int,
    }
}

/// The attributes the layout resolves `addr` to: those of the first matching
/// special range, or the defaults when no range matches.
pub open spec fn resolved_attributes(s: Seq<TranslationDescriptor>, addr: u64) -> AttributeFields {
    match first_match(s, addr) {
        Some(d) => d.attribute_fields,
        None => attribute_fields_default(),
    }
}

/// An ordered set of special virtual ranges with a resolver from virtual
/// address to physical address and attributes.
///
/// Overlapping ranges are not rejected: the first matching range wins, which
/// is a documented precondition of the layouts handed in, not a property this
/// type enforces.
pub struct KernelVirtualLayout {
    max_virt_addr_inclusive: u64,
    inner: Vec<TranslationDescriptor>,
}

impl KernelVirtualLayout {
    /// The descriptors of the special ranges, in resolution order.
    pub closed spec fn spec_inner(&self) -> Seq<TranslationDescriptor> {
        self.inner@
    }

    /// The highest virtual address the layout covers.
    pub closed spec fn spec_max_virt_addr_inclusive(&self) -> u64 {
        self.max_virt_addr_inclusive
    }

    /// Well-formedness: every descriptor is well formed.
    pub closed spec fn wf(&self) -> bool {
        forall|i: int| 0 <= i < self.inner@.len() ==> (#[trigger] self.inner@[i]).wf()
    }

    /// Create a layout from the configured maximum address and descriptors.
    pub fn new(max_virt_addr_inclusive: u64, inner: Vec<TranslationDescriptor>) -> (r: Self)
        requires
            forall|i: int| 0 <= i < inner@.len() ==> (#[trigger] inner@[i]).wf(),
        ensures
            r.wf(),
            r.spec_inner() == inner@,
            r.spec_max_virt_addr_inclusive() == max_virt_addr_inclusive,
    {
        Self { max_virt_addr_inclusive, inner }
    }

    /// The number of special ranges.
    pub fn num_special_ranges(&self) -> (r: usize)
        ensures
            r == self.spec_inner().len(),
    {
        self.inner.len()
    }

    /// A copy of the descriptor at `i`, for diagnostics.
    pub fn descriptor(&self, i: usize) -> (r: TranslationDescriptor)
        requires
            i < self.spec_inner().len(),
        ensures
            r == self.spec_inner()[i as int],
    {
        self.inner[i]
    }

    /// The highest virtual address the layout covers.
    pub fn max_virt_addr_inclusive(&self) -> (r: u64)
        ensures
            r == self.spec_max_virt_addr_inclusive(),
    {
        self.max_virt_addr_inclusive
    }

    /// Resolve a virtual address to a physical address and attributes.
    ///
    /// The first special range containing the address wins; an address no
    /// range claims maps to itself with default attributes; an address above
    /// the configured maximum is a layout error.
    pub fn virt_addr_properties(&self, virt_addr: u64) -> (r: Result<
        (u64, AttributeFields),
        &'static str,
    >)
        requires
            self.wf(),
        ensures
            virt_addr > self.spec_max_virt_addr_inclusive() <==> r is Err,
            r matches Ok(p) ==> p.0 == resolved_output_addr(self.spec_inner(), virt_addr)
                && p.1 == resolved_attributes(self.spec_inner(), virt_addr),
    {
        if virt_addr > self.max_virt_addr_inclusive {
            return Err("Address out of range");
        }
        let n: usize = self.inner.len();
        let mut i: usize = 0;
        while i < n
            invariant
                i <= n,
                n == self.inner@.len(),
                self.wf(),
                virt_addr <= self.spec_max_virt_addr_inclusive(),
                first_match(self.inner@, virt_addr) == first_match_from(
                    self.inner@,
                    virt_addr,
                    i as int,
                ),
            decreases n - i,
        {
            let d = self.inner[i];
            if d.virtual_range_start <= virt_addr && virt_addr <= d.virtual_range_end_inclusive {
                let output_addr: u64 = match d.physical_range_translation {
                    Translation::Identity => virt_addr,
                    Translation::Offset(a) => a + (virt_addr - d.virtual_range_start),
                };
                return Ok((output_addr, d.attribute_fields));
            }
            i = i + 1;
        }
        Ok((virt_addr, AttributeFields::default()))
    }
}


/// SCTLR_EL1 bit M: MMU enable.
pub const SCTLR_M: u64 = 0x1;

/// SCTLR_EL1 bit C: data cache enable.
pub const SCTLR_C: u64 = 0x4;

/// SCTLR_EL1 bit I: instruction cache enable.
pub const SCTLR_I: u64 = 0x1000;

/// Whether an SCTLR_EL1 value has the MMU enable bit set.
pub open spec fn mmu_enabled(sctlr_el1: u64) -> bool {
    sctlr_el1 & SCTLR_M == SCTLR_M
}

/// Whether an ID_AA64MMFR0_EL1 value advertises support for the 64 KiB
/// translation granule: its `TGran64` field, bits `[27:24]`, reads zero.
pub open spec fn tgran64_supported(id_aa64mmfr0_el1: u64) -> bool {
    (id_aa64mmfr0_el1 >> 24) & 0xf == 0
}

/// The MAIR_EL1 value this kernel programs: exactly two slots.  Slot 1 is
/// normal memory, outer and inner write-back non-transient with read and
/// write allocation (`0b1111_1111`); slot 0 is device memory, non-gathering,
/// non-reordering, early write acknowledge (`0b0000_0100`).
pub open spec fn mair_el1_value() -> u64 {
    (0b1111_1111u64 << 8) | 0b0000_0100u64
}

/// The TCR_EL1 value for an address space of `1 << size_shift` bytes:
/// top-byte-ignore on the TTBR0 half (bit 37), 40-bit intermediate physical
/// address size (`0b010` at bits `[34:32]`), 64 KiB granule (`0b01` at bits
/// `[15:14]`), inner-shareable table walks (`0b11` at bits `[13:12]`),
/// write-back read/write-allocate cacheable walks outer and inner (`0b01`
/// at bits `[11:10]` and `[9:8]`), TTBR1 walks disabled (bit 23), the ASID
/// taken from TTBR0 (bit 22 clear), and `T0SZ = 64 - size_shift`.
pub open spec fn tcr_el1_value(size_shift: u64) -> u64
    recommends
        size_shift <= 48,
{
    (1u64 << 37) | (0b010u64 << 32) | (1u64 << 23) | (0b01u64 << 14) | (0b11u64 << 12) | (
    0b01u64 << 10) | (0b01u64 << 8) | (((64 - size_shift) as u64) & 0x3f)
}

/// The error taxonomy of MMU enablement.
#[derive(Clone, Copy, Debug)]
pub enum MMUEnableError {
    /// The MMU enable bit was already set.
    AlreadyEnabled,
    /// Any other bring-up failure, with its message.
    Other(&'static str),
}

impl MMUEnableError {
    /// A short description of the error, for diagnostics.
    pub fn as_str(&self) -> (r: &'static str)
        ensures
            self is AlreadyEnabled ==> r@ == "MMU is already enabled"@,
            self matches MMUEnableError::Other(m) ==> r == m,
    {
        match self {
            MMUEnableError::AlreadyEnabled => "MMU is already enabled",
            MMUEnableError::Other(m) => m,
        }
    }
}

/// The values of the system registers the MMU enabler programs.
///
/// The embedder reads the live registers into this model, runs the enabler,
/// and writes the changed fields back in the documented order (MAIR, then
/// TTBR0, then TCR, an instruction barrier, then SCTLR, a second barrier).
#[derive(Clone, Copy, PartialEq, Eq, Structural, Debug)]
pub struct MmuRegisters {
    /// System control register.
    pub sctlr_el1: u64,
    /// Memory attribute indirection register.
    pub mair_el1: u64,
    /// Translation control register.
    pub tcr_el1: u64,
    /// Translation table base: the physical base address for TTBR0_EL1.
    pub ttbr0_el1_baddr: u64,
}

/// The Memory Management Unit driver: decides and computes every register
/// value of MMU bring-up from plain register values.
pub struct MemoryManagementUnit;

/// Get an instance of the MMU driver.
pub fn mmu() -> MemoryManagementUnit {
    MemoryManagementUnit
}

impl MemoryManagementUnit {
    /// Whether the MMU enable bit is set in the given SCTLR_EL1 value.
    pub fn is_enabled(&self, sctlr_el1: u64) -> (r: bool)
        ensures
            r == mmu_enabled(sctlr_el1),
    {
        sctlr_el1 & SCTLR_M == SCTLR_M
    }

    /// Set up the memory attribute indirection register value.
    pub fn set_up_mair(&self, regs: &mut MmuRegisters)
        ensures
            *final(regs) == (MmuRegisters { mair_el1: mair_el1_value(), ..*old(regs) }),
    {
        regs.mair_el1 = (0b1111_1111u64 << 8) | 0b0000_0100u64;
    }

    /// Configure the translation control register value for stage 1 of the
    /// EL1 translation regime.
    pub fn configure_translation_control(&self, regs: &mut MmuRegisters, addr_space: &AddressSpace)
        requires
            addr_space.wf(),
        ensures
            *final(regs) == (MmuRegisters {
                tcr_el1: tcr_el1_value(addr_space.spec_size_shift()),
                ..*old(regs)
            }),
    {
        let t0sz: u64 = 64 - addr_space.size_shift();
        assert(t0sz & 0x3f == t0sz) by (bit_vector)
            requires
                t0sz <= 35,
        ;
        regs.tcr_el1 = (1u64 << 37) | (0b010u64 << 32) | (1u64 << 23) | (0b01u64 << 14) | (0b11u64
            << 12) | (0b01u64 << 10) | (0b01u64 << 8) | t0sz;
    }

    /// Enable the MMU and data and instruction caching.
    ///
    /// The guard comes first: if the enable bit is already set, nothing is
    /// changed and `AlreadyEnabled` is returned.  A missing 64 KiB granule
    /// capability fails next, before any register value changes.  Then the
    /// memory attributes are programmed, the translation table is populated
    /// (a population failure propagates after MAIR alone was written), the
    /// table base, translation control and system control values follow, and
    /// on success the returned register model has the MMU, data cache and
    /// instruction cache bits set.
    pub fn enable_mmu_and_caching(
        &self,
        regs: &mut MmuRegisters,
        id_aa64mmfr0_el1: u64,
        tables: &mut translation_table::FixedSizeTranslationTable,
        layout: &KernelVirtualLayout,
        addr_space: &AddressSpace,
    ) -> (r: Result<(), MMUEnableError>)
        requires
            old(tables).wf(),
            layout.wf(),
            addr_space.wf(),
        ensures
            final(tables).wf(),
            r is Ok <==> !mmu_enabled(old(regs).sctlr_el1) && tgran64_supported(id_aa64mmfr0_el1)
                && !old(tables).spec_populated() && old(tables).spec_num_tables()
                * GRANULE_512MIB_SIZE - GRANULE_64KIB_SIZE
                <= layout.spec_max_virt_addr_inclusive(),
            mmu_enabled(old(regs).sctlr_el1) ==> (r matches Err(MMUEnableError::AlreadyEnabled))
                && *final(regs) == *old(regs) && *final(tables) == *old(tables),
            !mmu_enabled(old(regs).sctlr_el1) && !tgran64_supported(id_aa64mmfr0_el1)
                ==> (r matches Err(MMUEnableError::Other(_))) && *final(regs) == *old(regs)
                && *final(tables) == *old(tables),
            !mmu_enabled(old(regs).sctlr_el1) && tgran64_supported(id_aa64mmfr0_el1) && r is Err
                ==> *final(tables) == *old(tables) && *final(regs) == (MmuRegisters {
                mair_el1: mair_el1_value(),
                ..*old(regs)
            }) && (r matches Err(MMUEnableError::Other(_))),
            r is Ok ==> {
                &&& translation_table::tables_populated_from(
                    *final(tables),
                    old(tables).spec_phys_base_addr(),
                    old(tables).spec_num_tables(),
                    layout.spec_inner(),
                )
                &&& final(regs).mair_el1 == mair_el1_value()
                &&& final(regs).tcr_el1 == tcr_el1_value(addr_space.spec_size_shift())
                &&& final(regs).ttbr0_el1_baddr == old(tables).spec_phys_base_addr() + old(
                    tables,
                ).spec_num_tables() * GRANULE_64KIB_SIZE
                &&& final(regs).sctlr_el1 == old(regs).sctlr_el1 | SCTLR_M | SCTLR_C | SCTLR_I
                &&& mmu_enabled(final(regs).sctlr_el1)
            },
    {
        if self.is_enabled(regs.sctlr_el1) {
            return Err(MMUEnableError::AlreadyEnabled);
        }
        if !((id_aa64mmfr0_el1 >> 24) & 0xf == 0) {
            return Err(MMUEnableError::Other("Translation granule not supported by hardware"));
        }
        self.set_up_mair(regs);
        match tables.populate_tt_entries(layout) {
            Ok(()) => {},
            Err(e) => {
                return Err(MMUEnableError::Other(e));
            },
        }
        regs.ttbr0_el1_baddr = tables.phys_base_address();
        self.configure_translation_control(regs, addr_space);
        let base: u64 = regs.sctlr_el1;
        let sctlr: u64 = base | SCTLR_M | SCTLR_C | SCTLR_I;
        assert(sctlr & SCTLR_M == SCTLR_M) by (bit_vector)
            requires
                sctlr == base | 0x1u64 | 0x4u64 | 0x1000u64,
        ;
        regs.sctlr_el1 = sctlr;
        Ok(())
    }
}

} // verus!
