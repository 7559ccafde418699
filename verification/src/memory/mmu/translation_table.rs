//! Architectural translation table descriptors and the fixed-size table.
//!
//! The bit layouts are the architecturally fixed stage-1 VMSAv8-64 formats:
//!
//! * level-2 table descriptor: bits `[47:16]` next-level table address
//!   (shifted by the 64 KiB granule), bit 1 type (1 = table), bit 0 valid;
//! * level-3 page descriptor: bit 54 unprivileged execute-never, bit 53
//!   privileged execute-never, bits `[47:16]` output address (shifted by the
//!   64 KiB granule), bit 10 access flag, bits `[9:8]` shareability
//!   (0b10 outer, 0b11 inner), bits `[7:6]` access permissions
//!   (0b00 RW at EL1, 0b10 RO at EL1), bits `[4:2]` memory attribute index,
//!   bit 1 type (1 = page), bit 0 valid.

use vstd::prelude::*;
use crate::memory::mmu::AccessPermissions;
use crate::memory::mmu::AttributeFields;
use crate::memory::mmu::KernelVirtualLayout;
use crate::memory::mmu::MemAttributes;
use crate::memory::mmu::GRANULE_512MIB_SIZE;
use crate::memory::mmu::GRANULE_64KIB_SIZE;
use crate::memory::mmu::MAIR_IDX_DEVICE;
use crate::memory::mmu::MAIR_IDX_NORMAL;
use crate::memory::mmu::resolved_attributes;
use crate::memory::mmu::resolved_output_addr;

verus! {

/// Number of level-3 page descriptors per 512 MiB window: 512 MiB / 64 KiB.
pub const NUM_PAGES_PER_TABLE: usize = 8192;

/// The largest number of 512 MiB windows a 48-bit address space can hold.
pub const MAX_NUM_TABLES: usize = 524288;

/// Shareability field value for a page: inner-shareable for cacheable DRAM,
/// outer-shareable for device memory.
pub open spec fn sh_bits(mem: MemAttributes) -> u64 {
    match mem {
        MemAttributes::CacheableDRAM => 0b11,
        MemAttributes::Device => 0b10,
    }
}

/// MAIR_EL1 slot a page selects: slot 1 for normal DRAM, slot 0 for device.
pub open spec fn attr_index_bits(mem: MemAttributes) -> u64 {
    match mem {
        MemAttributes::CacheableDRAM => MAIR_IDX_NORMAL,
        MemAttributes::Device => MAIR_IDX_DEVICE,
    }
}

/// Access permission field value, restricted to kernel-level accesses.
pub open spec fn ap_bits(acc: AccessPermissions) -> u64 {
    match acc {
        AccessPermissions::ReadOnly => 0b10,
        AccessPermissions::ReadWrite => 0b00,
    }
}

/// Privileged execute-never bit value.
pub open spec fn pxn_bit(execute_never: bool) -> u64 {
    if execute_never {
        1
    } else {
        0
    }
}

/// The 64-bit encoding of a valid level-2 table descriptor pointing at the
/// level-3 table with physical base `next_lvl_table_addr`.
pub open spec fn table_descriptor_bits(next_lvl_table_addr: u64) -> u64 {
    (((next_lvl_table_addr >> 16) & 0xffff_ffff) << 16) | (1u64 << 1) | 1u64
}

/// The 64-bit encoding of a valid level-3 page descriptor with output
/// address `phys_output_addr` and the given attributes.  The unprivileged
/// execute-never bit is always set: there is no user mode yet.
pub open spec fn page_descriptor_bits(phys_output_addr: u64, attrs: AttributeFields) -> u64 {
    (1u64 << 54) | (pxn_bit(attrs.execute_never) << 53) | (((phys_output_addr >> 16)
        & 0xffff_ffff) << 16) | (1u64 << 10) | (sh_bits(attrs.mem_attributes) << 8) | (ap_bits(
        attrs.acc_perms,
    ) << 6) | (attr_index_bits(attrs.mem_attributes) << 2) | (1u64 << 1) | 1u64
}

/// The output address a descriptor's bits `[47:16]` decode to.
pub open spec fn decoded_output_addr(value: u64) -> u64 {
    ((value >> 16) & 0xffff_ffff) << 16
}

/// The attribute fields a page descriptor's bits decode to.
pub open spec fn decoded_attribute_fields(value: u64) -> AttributeFields {
    AttributeFields {
        mem_attributes: if (value >> 2) & 0b111 == MAIR_IDX_NORMAL {
            MemAttributes::CacheableDRAM
        } else {
            MemAttributes::Device
        },
        acc_perms: if (value >> 6) & 0b11 == 0b10 {
            AccessPermissions::ReadOnly
        } else {
            AccessPermissions::ReadWrite
        },
        execute_never: (value >> 53) & 1 == 1,
    }
}

/// Whether a descriptor's valid bit is set.
pub open spec fn descriptor_valid(value: u64) -> bool {
    value & 1 == 1
}

/// The attribute bits of a page descriptor decode back to exactly the fields
/// they were encoded from, whatever the output address.
pub proof fn lemma_page_descriptor_attribute_round_trip(phys_output_addr: u64, attrs: AttributeFields)
    ensures
        decoded_attribute_fields(page_descriptor_bits(phys_output_addr, attrs)) == attrs,
        descriptor_valid(page_descriptor_bits(phys_output_addr, attrs)),
{
    let p = pxn_bit(attrs.execute_never);
    let s = sh_bits(attrs.mem_attributes);
    let a = ap_bits(attrs.acc_perms);
    let i = attr_index_bits(attrs.mem_attributes);
    let v = page_descriptor_bits(phys_output_addr, attrs);
    assert((v >> 2) & 0b111 == i && (v >> 6) & 0b11 == a && (v >> 8) & 0b11 == s && (v >> 53) & 1
        == p && v & 1 == 1) by (bit_vector)
        requires
            p <= 1 && (s == 2 || s == 3) && (a == 0 || a == 2) && i <= 1 && v == (1u64 << 54) | (
            p << 53) | (((phys_output_addr >> 16) & 0xffff_ffff) << 16) | (1u64 << 10) | (s << 8)
                | (a << 6) | (i << 2) | (1u64 << 1) | 1u64,
    ;
}

/// A page-aligned output address below the 48-bit ceiling decodes back to
/// itself from a page descriptor's address bits.
pub proof fn lemma_page_descriptor_output_addr_round_trip(
    phys_output_addr: u64,
    attrs: AttributeFields,
)
    requires
        phys_output_addr % GRANULE_64KIB_SIZE == 0,
        phys_output_addr < 0x1_0000_0000_0000,
    ensures
        decoded_output_addr(page_descriptor_bits(phys_output_addr, attrs)) == phys_output_addr,
{
    let p = pxn_bit(attrs.execute_never);
    let s = sh_bits(attrs.mem_attributes);
    let a = ap_bits(attrs.acc_perms);
    let i = attr_index_bits(attrs.mem_attributes);
    let v = page_descriptor_bits(phys_output_addr, attrs);
    assert(((v >> 16) & 0xffff_ffff) << 16 == phys_output_addr) by (bit_vector)
        requires
            p <= 1 && s <= 3 && a <= 3 && i <= 1 && phys_output_addr % 0x10000 == 0
                && phys_output_addr < 0x1_0000_0000_0000 && v == (1u64 << 54) | (p << 53) | (((
            phys_output_addr >> 16) & 0xffff_ffff) << 16) | (1u64 << 10) | (s << 8) | (a << 6) | (
            i << 2) | (1u64 << 1) | 1u64,
    ;
}

/// A page-aligned table address below the 48-bit ceiling decodes back to
/// itself from a table descriptor's address bits.
pub proof fn lemma_table_descriptor_addr_round_trip(next_lvl_table_addr: u64)
    requires
        next_lvl_table_addr % GRANULE_64KIB_SIZE == 0,
        next_lvl_table_addr < 0x1_0000_0000_0000,
    ensures
        decoded_output_addr(table_descriptor_bits(next_lvl_table_addr)) == next_lvl_table_addr,
        descriptor_valid(table_descriptor_bits(next_lvl_table_addr)),
{
    let v = table_descriptor_bits(next_lvl_table_addr);
    assert(((v >> 16) & 0xffff_ffff) << 16 == next_lvl_table_addr && v & 1 == 1) by (bit_vector)
        requires
            next_lvl_table_addr % 0x10000 == 0 && next_lvl_table_addr < 0x1_0000_0000_0000 && v
                == (((next_lvl_table_addr >> 16) & 0xffff_ffff) << 16) | (1u64 << 1) | 1u64,
    ;
}

/// A level-2 table descriptor: points at a level-3 table.
#[derive(Clone, Copy, PartialEq, Eq, Structural, Debug)]
pub struct TableDescriptor {
    value: u64,
}

impl TableDescriptor {
    /// The raw descriptor bits.
    pub closed spec fn spec_value(&self) -> u64 {
        self.value
    }

    /// Create an instance.  The descriptor is invalid by default.
    pub fn new_zeroed() -> (r: Self)
        ensures
            r.spec_value() == 0,
    {
        Self { value: 0 }
    }

    /// Create an instance pointing to the given physical address.
    pub fn from_next_lvl_table_addr(phys_next_lvl_table_addr: u64) -> (r: Self)
        ensures
            r.spec_value() == table_descriptor_bits(phys_next_lvl_table_addr),
    {
        let shifted: u64 = phys_next_lvl_table_addr >> 16;
        let value: u64 = ((shifted & 0xffff_ffff) << 16) | (1u64 << 1) | 1u64;
        Self { value }
    }

    /// The raw descriptor bits.
    pub fn value(&self) -> (r: u64)
        ensures
            r == self.spec_value(),
    {
        self.value
    }

    /// The physical address of the level-3 table this descriptor points at.
    pub fn next_lvl_table_addr(&self) -> (r: u64)
        ensures
            r == decoded_output_addr(self.spec_value()),
    {
        ((self.value >> 16) & 0xffff_ffff) << 16
    }
}

/// A level-3 page descriptor: describes one 64 KiB page.
#[derive(Clone, Copy, PartialEq, Eq, Structural, Debug)]
pub struct PageDescriptor {
    value: u64,
}

impl PageDescriptor {
    /// The raw descriptor bits.
    pub closed spec fn spec_value(&self) -> u64 {
        self.value
    }

    /// Create an instance.  The descriptor is invalid by default.
    pub fn new_zeroed() -> (r: Self)
        ensures
            r.spec_value() == 0,
    {
        Self { value: 0 }
    }

    /// Create an instance describing the page at the given output address
    /// with the given attributes.
    pub fn from_output_addr(phys_output_addr: u64, attribute_fields: &AttributeFields) -> (r: Self)
        ensures
            r.spec_value() == page_descriptor_bits(phys_output_addr, *attribute_fields),
    {
        let pxn: u64 = if attribute_fields.execute_never {
            1
        } else {
            0
        };
        let sh: u64 = match attribute_fields.mem_attributes {
            MemAttributes::CacheableDRAM => 0b11,
            MemAttributes::Device => 0b10,
        };
        let ap: u64 = match attribute_fields.acc_perms {
            AccessPermissions::ReadOnly => 0b10,
            AccessPermissions::ReadWrite => 0b00,
        };
        let attr_index: u64 = match attribute_fields.mem_attributes {
            MemAttributes::CacheableDRAM => MAIR_IDX_NORMAL,
            MemAttributes::Device => MAIR_IDX_DEVICE,
        };
        let shifted: u64 = phys_output_addr >> 16;
        let value: u64 = (1u64 << 54) | (pxn << 53) | ((shifted & 0xffff_ffff) << 16) | (1u64
            << 10) | (sh << 8) | (ap << 6) | (attr_index << 2) | (1u64 << 1) | 1u64;
        Self { value }
    }

    /// The raw descriptor bits.
    pub fn value(&self) -> (r: u64)
        ensures
            r == self.spec_value(),
    {
        self.value
    }

    /// The output address encoded in bits `[47:16]`.
    pub fn output_addr(&self) -> (r: u64)
        ensures
            r == decoded_output_addr(self.spec_value()),
    {
        ((self.value >> 16) & 0xffff_ffff) << 16
    }

    /// The attribute fields this descriptor's bits decode to.
    pub fn attribute_fields(&self) -> (r: AttributeFields)
        ensures
            r == decoded_attribute_fields(self.spec_value()),
    {
        let mem_attributes = if (self.value >> 2) & 0b111 == MAIR_IDX_NORMAL {
            MemAttributes::CacheableDRAM
        } else {
            MemAttributes::Device
        };
        let acc_perms = if (self.value >> 6) & 0b11 == 0b10 {
            AccessPermissions::ReadOnly
        } else {
            AccessPermissions::ReadWrite
        };
        let execute_never: bool = (self.value >> 53) & 1 == 1;
        AttributeFields { mem_attributes, acc_perms, execute_never }
    }

    /// Whether the valid bit is set.
    pub fn is_valid(&self) -> (r: bool)
        ensures
            r == descriptor_valid(self.spec_value()),
    {
        self.value & 1 == 1
    }
}

/// The virtual address of the page at window `l2`, slot `l3`.
pub open spec fn page_virt_addr(l2: int, l3: int) -> int {
    l2 * GRANULE_512MIB_SIZE + l3 * GRANULE_64KIB_SIZE
}

/// What a correctly populated table looks like: every level-2 descriptor
/// points at its window's level-3 table inside the store at `base`, and
/// every level-3 descriptor encodes the output address and attributes that
/// the layout `s` resolves its page to.
pub open spec fn tables_populated_from(
    t: FixedSizeTranslationTable,
    base: u64,
    n: usize,
    s: Seq<crate::memory::mmu::TranslationDescriptor>,
) -> bool {
    &&& t.spec_populated()
    &&& t.spec_num_tables() == n
    &&& t.spec_phys_base_addr() == base
    &&& forall|i: int|
        0 <= i < n ==> (#[trigger] t.spec_lvl2()[i]).spec_value() == table_descriptor_bits(
            (base + i * GRANULE_64KIB_SIZE) as u64,
        )
    &&& forall|i: int, j: int|
        0 <= i < n && 0 <= j < NUM_PAGES_PER_TABLE ==> (
        #[trigger] t.spec_lvl3()[i][j]).spec_value() == page_descriptor_bits(
            resolved_output_addr(s, page_virt_addr(i, j) as u64) as u64,
            resolved_attributes(s, page_virt_addr(i, j) as u64),
        )
}

/// The big monolithic store for the translation tables: one level-2
/// descriptor and one level-3 table of 8192 page descriptors per 512 MiB
/// window.
///
/// The level-3 tables are laid out first in memory, each 64 KiB aligned, with
/// the level-2 array after them; `phys_base_addr` is where the embedder
/// placed (or will place) the store.  The table is populated exactly once,
/// guarded by an internal consumed flag; afterwards it is only read.
pub struct FixedSizeTranslationTable {
    lvl3: Vec<Vec<PageDescriptor>>,
    lvl2: Vec<TableDescriptor>,
    phys_base_addr: u64,
    populated: bool,
}

impl FixedSizeTranslationTable {
    /// The level-2 table descriptors.
    pub closed spec fn spec_lvl2(&self) -> Seq<TableDescriptor> {
        self.lvl2@
    }

    /// The level-3 page descriptors, one sequence per 512 MiB window.
    pub closed spec fn spec_lvl3(&self) -> Seq<Seq<PageDescriptor>> {
        Seq::new(self.lvl3@.len(), |i: int| self.lvl3@[i]@)
    }

    /// The number of 512 MiB windows the table covers.
    pub closed spec fn spec_num_tables(&self) -> usize {
        self.lvl2.len()
    }

    /// The physical base address of the whole store.
    pub closed spec fn spec_phys_base_addr(&self) -> u64 {
        self.phys_base_addr
    }

    /// Whether the table has been populated.
    pub closed spec fn spec_populated(&self) -> bool {
        self.populated
    }

    /// The physical base address of the level-3 table of window `i`.
    pub open spec fn lvl3_phys_start_addr(&self, i: int) -> int {
        self.spec_phys_base_addr() + i * GRANULE_64KIB_SIZE
    }

    /// Well-formedness: matching table counts, full level-3 tables, an
    /// aligned base address, and a store that fits in the address space.
    pub closed spec fn wf(&self) -> bool {
        &&& self.lvl2@.len() == self.lvl3@.len()
        &&& 1 <= self.lvl2@.len() <= MAX_NUM_TABLES
        &&& forall|i: int|
            0 <= i < self.lvl3@.len() ==> (#[trigger] self.lvl3@[i])@.len() == NUM_PAGES_PER_TABLE
        &&& self.phys_base_addr % GRANULE_64KIB_SIZE == 0
        &&& self.phys_base_addr + self.lvl2@.len() * GRANULE_64KIB_SIZE + self.lvl2@.len() * 8
            <= u64::MAX
    }

    /// Create a zero-initialized table for `num_tables` 512 MiB windows whose
    /// store lives (or will live) at physical address `phys_base_addr`.
    pub fn new(num_tables: usize, phys_base_addr: u64) -> (r: Self)
        requires
            1 <= num_tables <= MAX_NUM_TABLES,
            phys_base_addr % GRANULE_64KIB_SIZE == 0,
            phys_base_addr + num_tables * GRANULE_64KIB_SIZE + num_tables * 8 <= u64::MAX,
        ensures
            r.wf(),
            r.spec_num_tables() == num_tables,
            r.spec_phys_base_addr() == phys_base_addr,
            !r.spec_populated(),
            forall|i: int| 0 <= i < num_tables ==> (#[trigger] r.spec_lvl2()[i]).spec_value() == 0,
            forall|i: int, j: int|
                0 <= i < num_tables && 0 <= j < NUM_PAGES_PER_TABLE ==> (#[trigger] r.spec_lvl3()[i][j]).spec_value() == 0,
    {
        let mut lvl2: Vec<TableDescriptor> = Vec::new();
        let mut lvl3: Vec<Vec<PageDescriptor>> = Vec::new();
        let mut i: usize = 0;
        while i < num_tables
            invariant
                i <= num_tables <= MAX_NUM_TABLES,
                lvl2@.len() == i,
                lvl3@.len() == i,
                forall|k: int| 0 <= k < i ==> (#[trigger] lvl2@[k]).spec_value() == 0,
                forall|k: int|
                    0 <= k < i ==> (#[trigger] lvl3@[k])@.len() == NUM_PAGES_PER_TABLE,
                forall|k: int, j: int|
                    0 <= k < i && 0 <= j < NUM_PAGES_PER_TABLE ==> (#[trigger] lvl3@[k]@[j]).spec_value() == 0,
            decreases num_tables - i,
        {
            lvl2.push(TableDescriptor::new_zeroed());
            let mut row: Vec<PageDescriptor> = Vec::new();
            let mut j: usize = 0;
            while j < NUM_PAGES_PER_TABLE
                invariant
                    j <= NUM_PAGES_PER_TABLE,
                    row@.len() == j,
                    forall|k: int| 0 <= k < j ==> (#[trigger] row@[k]).spec_value() == 0,
                decreases NUM_PAGES_PER_TABLE - j,
            {
                row.push(PageDescriptor::new_zeroed());
                j = j + 1;
            }
            lvl3.push(row);
            i = i + 1;
        }
        Self { lvl3, lvl2, phys_base_addr, populated: false }
    }

    /// The number of 512 MiB windows the table covers.
    pub fn num_tables(&self) -> (r: usize)
        ensures
            r == self.spec_num_tables(),
    {
        self.lvl2.len()
    }

    /// Whether the table has been populated.
    pub fn is_populated(&self) -> (r: bool)
        ensures
            r == self.spec_populated(),
    {
        self.populated
    }

    /// A copy of the level-2 descriptor of window `i`.
    pub fn lvl2_descriptor(&self, i: usize) -> (r: TableDescriptor)
        requires
            i < self.spec_lvl2().len(),
        ensures
            r == self.spec_lvl2()[i as int],
    {
        self.lvl2[i]
    }

    /// A copy of the level-3 page descriptor of window `i`, slot `j`.
    pub fn lvl3_descriptor(&self, i: usize, j: usize) -> (r: PageDescriptor)
        requires
            i < self.spec_lvl3().len(),
            j < self.spec_lvl3()[i as int].len(),
            self.wf(),
        ensures
            r == self.spec_lvl3()[i as int][j as int],
    {
        self.lvl3[i][j]
    }

    /// The translation table's base address, for programming the MMU: the
    /// physical address of the level-2 descriptor array.
    pub fn phys_base_address(&self) -> (r: u64)
        requires
            self.wf(),
        ensures
            r == self.spec_phys_base_addr() + self.spec_num_tables() * GRANULE_64KIB_SIZE,
    {
        let n: u64 = self.lvl2.len() as u64;
        self.phys_base_addr + n * GRANULE_64KIB_SIZE
    }

    /// Fill every translation table entry, resolving each page through the
    /// given virtual memory layout.
    ///
    /// Each level-2 descriptor is made to point at its window's level-3
    /// table; each level-3 descriptor encodes the resolved output address
    /// and attributes of its page.  Population happens at most once: a
    /// second call fails without touching the table, as does a layout whose
    /// configured maximum does not cover the whole table.
    pub fn populate_tt_entries(&mut self, layout: &KernelVirtualLayout) -> (r: Result<
        (),
        &'static str,
    >)
        requires
            old(self).wf(),
            layout.wf(),
        ensures
            final(self).wf(),
            r is Ok <==> !old(self).spec_populated()
                && old(self).spec_num_tables() * GRANULE_512MIB_SIZE - GRANULE_64KIB_SIZE
                <= layout.spec_max_virt_addr_inclusive(),
            r is Err ==> *final(self) == *old(self),
            r is Ok ==> tables_populated_from(
                *final(self),
                old(self).spec_phys_base_addr(),
                old(self).spec_num_tables(),
                layout.spec_inner(),
            ),
    {
        if self.populated {
            return Err("Translation tables already populated");
        }
        let n: usize = self.lvl2.len();
        let mut new_lvl2: Vec<TableDescriptor> = Vec::new();
        let mut new_lvl3: Vec<Vec<PageDescriptor>> = Vec::new();
        let mut l2_nr: usize = 0;
        while l2_nr < n
            invariant
                l2_nr <= n,
                n == self.lvl2@.len(),
                *self == *old(self),
                self.wf(),
                !self.populated,
                layout.wf(),
                new_lvl2@.len() == l2_nr,
                new_lvl3@.len() == l2_nr,
                l2_nr > 0 ==> page_virt_addr(l2_nr - 1, NUM_PAGES_PER_TABLE - 1)
                    <= layout.spec_max_virt_addr_inclusive(),
                forall|i: int|
                    0 <= i < l2_nr ==> (#[trigger] new_lvl2@[i]).spec_value()
                        == table_descriptor_bits(
                        (self.spec_phys_base_addr() + i * GRANULE_64KIB_SIZE) as u64,
                    ),
                forall|i: int| 0 <= i < l2_nr ==> (#[trigger] new_lvl3@[i])@.len() == NUM_PAGES_PER_TABLE,
                forall|i: int, j: int|
                    0 <= i < l2_nr && 0 <= j < NUM_PAGES_PER_TABLE ==> (
                    #[trigger] new_lvl3@[i]@[j]).spec_value() == page_descriptor_bits(
                        resolved_output_addr(
                            layout.spec_inner(),
                            page_virt_addr(i, j) as u64,
                        ) as u64,
                        resolved_attributes(layout.spec_inner(), page_virt_addr(i, j) as u64),
                    ),
            decreases n - l2_nr,
        {
            let table_addr: u64 = self.phys_base_addr + (l2_nr as u64) * GRANULE_64KIB_SIZE;
            new_lvl2.push(TableDescriptor::from_next_lvl_table_addr(table_addr));
            let mut row: Vec<PageDescriptor> = Vec::new();
            let mut l3_nr: usize = 0;
            while l3_nr < NUM_PAGES_PER_TABLE
                invariant
                    l3_nr <= NUM_PAGES_PER_TABLE,
                    l2_nr < n,
                    n == self.lvl2@.len(),
                    *self == *old(self),
                    self.wf(),
                    !self.populated,
                    layout.wf(),
                    row@.len() == l3_nr,
                    l3_nr > 0 ==> page_virt_addr(l2_nr as int, l3_nr - 1)
                        <= layout.spec_max_virt_addr_inclusive(),
                    forall|j: int|
                        0 <= j < l3_nr ==> (#[trigger] row@[j]).spec_value()
                            == page_descriptor_bits(
                            resolved_output_addr(
                                layout.spec_inner(),
                                page_virt_addr(l2_nr as int, j) as u64,
                            ) as u64,
                            resolved_attributes(
                                layout.spec_inner(),
                                page_virt_addr(l2_nr as int, j) as u64,
                            ),
                        ),
                decreases NUM_PAGES_PER_TABLE - l3_nr,
            {
                assert((l2_nr as u64) * GRANULE_512MIB_SIZE + (l3_nr as u64) * GRANULE_64KIB_SIZE
                    < 0x1_0000_0000_0000) by (nonlinear_arith)
                    requires
                        l2_nr < 524288 && l3_nr < 8192,
                ;
                let virt_addr: u64 = (l2_nr as u64) * GRANULE_512MIB_SIZE + (l3_nr as u64)
                    * GRANULE_64KIB_SIZE;
                let (phys_output_addr, attribute_fields) = match layout.virt_addr_properties(
                    virt_addr,
                ) {
                    Ok(p) => p,
                    Err(e) => {
                        proof {
                            assert((l2_nr as int) * GRANULE_512MIB_SIZE + (l3_nr as int)
                                * GRANULE_64KIB_SIZE <= (n as int) * GRANULE_512MIB_SIZE
                                - GRANULE_64KIB_SIZE) by (nonlinear_arith)
                                requires
                                    l2_nr < n && l3_nr < 8192,
                            ;
                        }
                        return Err(e);
                    },
                };
                row.push(PageDescriptor::from_output_addr(phys_output_addr, &attribute_fields));
                l3_nr = l3_nr + 1;
            }
            new_lvl3.push(row);
            l2_nr = l2_nr + 1;
        }
        proof {
            assert(page_virt_addr(n - 1, NUM_PAGES_PER_TABLE - 1) == n * GRANULE_512MIB_SIZE
                - GRANULE_64KIB_SIZE) by (nonlinear_arith)
                requires
                    n >= 1,
            ;
        }
        self.lvl2 = new_lvl2;
        self.lvl3 = new_lvl3;
        self.populated = true;
        Ok(())
    }
}


/// Every populated page descriptor decodes back to the layout's resolution.
///
/// For any window `l2` and slot `l3` of a populated table — that is, for
/// every virtual page of the address space — the descriptor's decoded output
/// address equals the physical address the layout resolves the page to, its
/// decoded attribute fields equal the resolved attributes, and the
/// descriptor is valid.  The physical address must be page-aligned and below
/// the 48-bit ceiling, as every address a sane layout produces is.
pub proof fn lemma_populated_page_matches_layout(
    t: FixedSizeTranslationTable,
    base: u64,
    n: usize,
    s: Seq<crate::memory::mmu::TranslationDescriptor>,
    l2: int,
    l3: int,
)
    requires
        tables_populated_from(t, base, n, s),
        0 <= l2 < n,
        0 <= l3 < NUM_PAGES_PER_TABLE,
        n <= MAX_NUM_TABLES,
        resolved_output_addr(s, page_virt_addr(l2, l3) as u64) % (GRANULE_64KIB_SIZE as int) == 0,
        0 <= resolved_output_addr(s, page_virt_addr(l2, l3) as u64) < 0x1_0000_0000_0000,
    ensures
        decoded_output_addr(t.spec_lvl3()[l2][l3].spec_value()) == resolved_output_addr(
            s,
            page_virt_addr(l2, l3) as u64,
        ),
        decoded_attribute_fields(t.spec_lvl3()[l2][l3].spec_value()) == resolved_attributes(
            s,
            page_virt_addr(l2, l3) as u64,
        ),
        descriptor_valid(t.spec_lvl3()[l2][l3].spec_value()),
{
    let addr = page_virt_addr(l2, l3) as u64;
    let phys = resolved_output_addr(s, addr) as u64;
    let attrs = resolved_attributes(s, addr);
    lemma_page_descriptor_output_addr_round_trip(phys, attrs);
    lemma_page_descriptor_attribute_round_trip(phys, attrs);
}

/// Every page no special range claims is identity mapped with default
/// attributes.
///
/// For any window `l2` and slot `l3` of a populated table whose page no
/// descriptor of the layout matches, the page descriptor decodes to the
/// page's own address with the default attributes: ordinary cacheable DRAM,
/// writable, executable.
pub proof fn lemma_unmapped_page_has_default_attributes(
    t: FixedSizeTranslationTable,
    base: u64,
    n: usize,
    s: Seq<crate::memory::mmu::TranslationDescriptor>,
    l2: int,
    l3: int,
)
    requires
        tables_populated_from(t, base, n, s),
        0 <= l2 < n,
        0 <= l3 < NUM_PAGES_PER_TABLE,
        n <= MAX_NUM_TABLES,
        crate::memory::mmu::first_match(s, page_virt_addr(l2, l3) as u64) is None,
    ensures
        decoded_output_addr(t.spec_lvl3()[l2][l3].spec_value()) == page_virt_addr(l2, l3),
        decoded_attribute_fields(t.spec_lvl3()[l2][l3].spec_value())
            == crate::memory::mmu::attribute_fields_default(),
        descriptor_valid(t.spec_lvl3()[l2][l3].spec_value()),
{
    assert(page_virt_addr(l2, l3) == (l2 * 8192 + l3) * GRANULE_64KIB_SIZE
        && 0 <= page_virt_addr(l2, l3) < 0x1_0000_0000_0000) by (nonlinear_arith)
        requires
            0 <= l2 < 524288 && 0 <= l3 < 8192 && page_virt_addr(l2, l3) == l2 * 0x2000_0000 + l3
                * 0x10000,
    ;
    vstd::arithmetic::div_mod::lemma_mod_multiples_basic(
        l2 * 8192 + l3,
        GRANULE_64KIB_SIZE as int,
    );
    lemma_populated_page_matches_layout(t, base, n, s, l2, l3);
}


/// The 512 MiB window an arbitrary virtual address falls into.
pub open spec fn addr_lvl2_index(addr: u64) -> int {
    addr as int / GRANULE_512MIB_SIZE as int
}

/// The page slot an arbitrary virtual address falls into, inside its
/// 512 MiB window.
pub open spec fn addr_lvl3_index(addr: u64) -> int {
    (addr as int % GRANULE_512MIB_SIZE as int) / GRANULE_64KIB_SIZE as int
}

/// The base address of the page containing an arbitrary virtual address.
pub open spec fn page_base_of(addr: u64) -> int {
    page_virt_addr(addr_lvl2_index(addr), addr_lvl3_index(addr))
}

/// Every virtual address of the covered space translates as the layout says.
///
/// For any virtual address below the space the table covers, the page
/// descriptor of the page containing it is valid and decodes to the
/// physical address and attributes the layout resolves that page to.
pub proof fn lemma_populated_covers_address(
    t: FixedSizeTranslationTable,
    base: u64,
    n: usize,
    s: Seq<crate::memory::mmu::TranslationDescriptor>,
    addr: u64,
)
    requires
        tables_populated_from(t, base, n, s),
        n <= MAX_NUM_TABLES,
        addr < n * GRANULE_512MIB_SIZE,
        resolved_output_addr(s, page_base_of(addr) as u64) % (GRANULE_64KIB_SIZE as int) == 0,
        0 <= resolved_output_addr(s, page_base_of(addr) as u64) < 0x1_0000_0000_0000,
    ensures
        0 <= addr_lvl2_index(addr) < n,
        0 <= addr_lvl3_index(addr) < NUM_PAGES_PER_TABLE,
        decoded_output_addr(
            t.spec_lvl3()[addr_lvl2_index(addr)][addr_lvl3_index(addr)].spec_value(),
        ) == resolved_output_addr(s, page_base_of(addr) as u64),
        decoded_attribute_fields(
            t.spec_lvl3()[addr_lvl2_index(addr)][addr_lvl3_index(addr)].spec_value(),
        ) == resolved_attributes(s, page_base_of(addr) as u64),
        descriptor_valid(
            t.spec_lvl3()[addr_lvl2_index(addr)][addr_lvl3_index(addr)].spec_value(),
        ),
{
    let l2 = addr_lvl2_index(addr);
    let l3 = addr_lvl3_index(addr);
    let g2 = GRANULE_512MIB_SIZE as int;
    let g3 = GRANULE_64KIB_SIZE as int;
    let ai = addr as int;
    vstd::arithmetic::div_mod::lemma_fundamental_div_mod(ai, g2);
    vstd::arithmetic::div_mod::lemma_mod_division_less_than_divisor(ai, g2);
    let rm = ai % g2;
    vstd::arithmetic::div_mod::lemma_fundamental_div_mod(rm, g3);
    vstd::arithmetic::div_mod::lemma_mod_division_less_than_divisor(rm, g3);
    assert(0 <= l2 < n && 0 <= l3 < 8192) by (nonlinear_arith)
        requires
            ai == g2 * l2 + rm && 0 <= rm < g2 && rm == g3 * l3 + rm % g3 && 0 <= rm % g3 < g3
                && 0 <= ai < n * g2 && g2 == 0x2000_0000 && g3 == 0x10000,
    ;
    lemma_populated_page_matches_layout(t, base, n, s, l2, l3);
}

} // verus!
