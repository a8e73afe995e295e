//! The global descriptor table: the segment descriptors of the kernel and
//! the descriptor of the task-state segment, in the form in which the
//! processor reads them. The table itself and the kernel's two segment
//! descriptors are those of the `x86_64` crate; what is said of them here
//! is taken on trust from that crate's source.

use vstd::prelude::*;
use crate::cpu::tss::TSS_SIZE;

verus! {

/// Number of 8-byte entries that the table can hold, the empty first one
/// included.
pub const GDT_CAPACITY: usize = 8;

/// Descriptor of the kernel's 64-bit code segment: present, readable,
/// executable, long mode, with the limit bits set that the processor
/// ignores.
pub const KERNEL_CODE64: u64 = 0x00af_9b00_0000_ffff;

/// Descriptor of the kernel's data segment: present, writable, with the
/// limit bits set that the processor ignores.
pub const KERNEL_DATA: u64 = 0x00cf_9300_0000_ffff;

/// Bit of a descriptor that says that its segment is present.
pub const DESCRIPTOR_PRESENT: u64 = 0x0000_8000_0000_0000;

/// Type of a system descriptor that names an available 64-bit task-state
/// segment.
pub const TYPE_AVAILABLE_TSS: u64 = 9;

/// What one entry of the table describes.
#[derive(Clone, Copy, Debug, PartialEq, Eq, Structural)]
pub enum Descriptor {
    /// A code or data segment: one entry.
    UserSegment(u64),
    /// A system segment: two entries, the low one first.
    SystemSegment(u64, u64),
}

/// The name of a segment for the processor: the number of its entry in the
/// table and the privilege level at which it is asked for.
#[derive(Clone, Copy, Debug, PartialEq, Eq, Structural)]
pub struct SegmentSelector {
    pub bits: u16,
}

/// The table has no room for a descriptor.
#[derive(Clone, Copy, Debug, PartialEq, Eq, Structural)]
pub struct GdtFull;

#[verifier::external_type_specification]
#[verifier::external_body]
pub struct ExGlobalDescriptorTable<const MAX: usize>(
    x86_64::structures::gdt::GlobalDescriptorTable<MAX>,
);

/// The entries that a table of the `x86_64` crate holds, the empty first
/// one included.
pub uninterp spec fn table_entries(table: x86_64::structures::gdt::GlobalDescriptorTable<8>) -> Seq<
    u64,
>;

/// The global descriptor table.
pub struct DescriptorTable {
    table: x86_64::structures::gdt::GlobalDescriptorTable<8>,
}

/// The privilege level that a descriptor asks of whoever uses it.
pub open spec fn privilege_of(low: u64) -> u16 {
    ((low >> 45) & 3) as u16
}

/// The selector of the entry with number `index` at privilege level `rpl`.
pub open spec fn selector_bits(index: int, rpl: u16) -> u16 {
    (index * 8 + rpl) as u16
}

/// The low entry of the descriptor of a task-state segment at `base`.
pub open spec fn tss_descriptor_low(base: u64) -> u64 {
    DESCRIPTOR_PRESENT | (TYPE_AVAILABLE_TSS << 40) | ((base & 0xff_ffff) << 16) | (((base >> 24)
        & 0xff) << 56) | 103
}

/// The high entry of the descriptor of a task-state segment at `base`.
pub open spec fn tss_descriptor_high(base: u64) -> u64 {
    base >> 32
}

/// The address of the segment that a system descriptor names.
pub open spec fn descriptor_base(low: u64, high: u64) -> u64 {
    ((low >> 16) & 0xff_ffff) | (((low >> 56) & 0xff) << 24) | (high << 32)
}

/// The last offset inside the segment that a system descriptor names.
pub open spec fn descriptor_limit(low: u64) -> u64 {
    low & 0xffff
}

/// The type of a system descriptor.
pub open spec fn descriptor_type(low: u64) -> u64 {
    (low >> 40) & 0xf
}

impl Descriptor {
    /// Number of entries that the descriptor takes.
    pub open spec fn width(&self) -> nat {
        match self {
            Descriptor::UserSegment(_) => 1,
            Descriptor::SystemSegment(_, _) => 2,
        }
    }

    /// The entries of the descriptor, the low one first.
    pub open spec fn raw(&self) -> Seq<u64> {
        match self {
            Descriptor::UserSegment(value) => seq![*value],
            Descriptor::SystemSegment(low, high) => seq![*low, *high],
        }
    }

    /// The privilege level that the descriptor asks for.
    pub open spec fn privilege(&self) -> u16 {
        match self {
            Descriptor::UserSegment(value) => privilege_of(*value),
            Descriptor::SystemSegment(low, _) => privilege_of(*low),
        }
    }

    /// The descriptor of the kernel's 64-bit code segment.
    pub fn kernel_code_segment() -> (d: Descriptor)
        ensures
            d == Descriptor::UserSegment(KERNEL_CODE64),
            d.privilege() == 0,
    {
        assert((KERNEL_CODE64 >> 45) & 3 == 0) by (bit_vector)
            requires
                KERNEL_CODE64 == 0x00af_9b00_0000_ffff,
        ;
        their_kernel_code_segment()
    }

    /// The descriptor of the kernel's data segment.
    pub fn kernel_data_segment() -> (d: Descriptor)
        ensures
            d == Descriptor::UserSegment(KERNEL_DATA),
            d.privilege() == 0,
    {
        assert((KERNEL_DATA >> 45) & 3 == 0) by (bit_vector)
            requires
                KERNEL_DATA == 0x00cf_9300_0000_ffff,
        ;
        their_kernel_data_segment()
    }

    /// The descriptor of the task-state segment that lies at `base`: an
    /// available 64-bit task-state segment, present, for privilege level
    /// zero, whose last byte has offset 103.
    pub fn tss_segment(base: u64) -> (d: Descriptor)
        ensures
            d == Descriptor::SystemSegment(tss_descriptor_low(base), tss_descriptor_high(base)),
            d.privilege() == 0,
            descriptor_base(tss_descriptor_low(base), tss_descriptor_high(base)) == base,
            descriptor_limit(tss_descriptor_low(base)) == TSS_SIZE - 1,
            descriptor_type(tss_descriptor_low(base)) == TYPE_AVAILABLE_TSS,
            tss_descriptor_low(base) & DESCRIPTOR_PRESENT != 0,
    {
        let low: u64 = DESCRIPTOR_PRESENT | (TYPE_AVAILABLE_TSS << 40) | ((base & 0xff_ffff) << 16)
            | (((base >> 24) & 0xff) << 56) | 103;
        let high: u64 = base >> 32;
        proof {
            lemma_tss_descriptor(base);
        }
        Descriptor::SystemSegment(low, high)
    }
}

/// The descriptor of a task-state segment names the address that it was
/// made for, and says that the segment is 104 bytes long, available,
/// present, and for privilege level zero.
pub proof fn lemma_tss_descriptor(base: u64)
    ensures
        descriptor_base(tss_descriptor_low(base), tss_descriptor_high(base)) == base,
        descriptor_limit(tss_descriptor_low(base)) == 103,
        descriptor_type(tss_descriptor_low(base)) == TYPE_AVAILABLE_TSS,
        tss_descriptor_low(base) & DESCRIPTOR_PRESENT != 0,
        privilege_of(tss_descriptor_low(base)) == 0,
{
    let low = tss_descriptor_low(base);
    let high = tss_descriptor_high(base);
    assert(low == 0x0000_8000_0000_0000u64 | (9u64 << 40) | ((base & 0xff_ffff) << 16) | (((base
        >> 24) & 0xff) << 56) | 103);
    assert(((low >> 16) & 0xff_ffff) | (((low >> 56) & 0xff) << 24) | (high << 32) == base)
        by (bit_vector)
        requires
            low == 0x0000_8000_0000_0000u64 | (9u64 << 40) | ((base & 0xff_ffff) << 16) | (((base
                >> 24) & 0xff) << 56) | 103,
            high == base >> 32,
    ;
    assert(low & 0xffff == 103 && (low >> 40) & 0xf == 9 && low & 0x0000_8000_0000_0000u64 != 0
        && (low >> 45) & 3 == 0) by (bit_vector)
        requires
            low == 0x0000_8000_0000_0000u64 | (9u64 << 40) | ((base & 0xff_ffff) << 16) | (((base
                >> 24) & 0xff) << 56) | 103,
    ;
}

impl SegmentSelector {
    /// The number of the entry that the selector names.
    pub open spec fn index(&self) -> int {
        self.bits as int / 8
    }

    /// The privilege level at which the selector asks for its segment.
    pub open spec fn rpl(&self) -> int {
        self.bits as int % 4
    }
}

/// `Descriptor::kernel_code_segment` of `x86_64`: the descriptor of a
/// 64-bit kernel code segment, which that crate puts together from its
/// flags for present, writable, accessed, executable, long mode, a user
/// segment, the granularity and every bit of the limit.
#[verifier::external_body]
fn their_kernel_code_segment() -> (d: Descriptor)
    ensures
        d == Descriptor::UserSegment(KERNEL_CODE64),
{
    match x86_64::structures::gdt::Descriptor::kernel_code_segment() {
        x86_64::structures::gdt::Descriptor::UserSegment(value) => Descriptor::UserSegment(value),
        x86_64::structures::gdt::Descriptor::SystemSegment(low, high) => Descriptor::SystemSegment(
            low,
            high,
        ),
    }
}

/// `Descriptor::kernel_data_segment` of `x86_64`: the descriptor of a kernel
/// data segment, which that crate puts together from its flags for present,
/// writable, accessed, a user segment, the default size, the granularity
/// and every bit of the limit.
#[verifier::external_body]
fn their_kernel_data_segment() -> (d: Descriptor)
    ensures
        d == Descriptor::UserSegment(KERNEL_DATA),
{
    match x86_64::structures::gdt::Descriptor::kernel_data_segment() {
        x86_64::structures::gdt::Descriptor::UserSegment(value) => Descriptor::UserSegment(value),
        x86_64::structures::gdt::Descriptor::SystemSegment(low, high) => Descriptor::SystemSegment(
            low,
            high,
        ),
    }
}

/// `GlobalDescriptorTable::new` of `x86_64`: a table for eight entries that
/// holds the empty first one.
#[verifier::external_body]
fn their_table() -> (table: x86_64::structures::gdt::GlobalDescriptorTable<8>)
    ensures
        table_entries(table) == seq![0u64],
{
    x86_64::structures::gdt::GlobalDescriptorTable::new()
}

/// `GlobalDescriptorTable::append` of `x86_64`: puts the one or two entries
/// of a descriptor behind those that the table holds, and returns the
/// selector of the first of them at the privilege level that the
/// descriptor asks for. It panics where the table lacks the room.
#[verifier::external_body]
fn their_append(table: &mut x86_64::structures::gdt::GlobalDescriptorTable<8>, entry: Descriptor) -> (bits:
    u16)
    requires
        table_entries(*old(table)).len() + entry.width() <= GDT_CAPACITY,
    ensures
        table_entries(*final(table)) == table_entries(*old(table)) + entry.raw(),
        bits == selector_bits(table_entries(*old(table)).len() as int, entry.privilege()),
{
    let theirs = match entry {
        Descriptor::UserSegment(value) => x86_64::structures::gdt::Descriptor::UserSegment(value),
        Descriptor::SystemSegment(low, high) => x86_64::structures::gdt::Descriptor::SystemSegment(
            low,
            high,
        ),
    };
    table.append(theirs).0
}

/// `GlobalDescriptorTable::entries` of `x86_64`, each entry by its raw
/// value: the entries that the table holds, the empty first one included.
#[verifier::external_body]
fn their_entries(table: &x86_64::structures::gdt::GlobalDescriptorTable<8>) -> (entries: Vec<u64>)
    ensures
        entries@ == table_entries(*table),
{
    table.entries().iter().map(|e| e.raw()).collect()
}

impl DescriptorTable {
    /// The entries of the table, the empty first one included.
    pub closed spec fn view(&self) -> Seq<u64> {
        table_entries(self.table)
    }

    /// The table starts with the empty entry and holds no more entries
    /// than it has room for.
    pub open spec fn wf(&self) -> bool {
        &&& 1 <= self@.len() <= GDT_CAPACITY
        &&& self@[0] == 0
    }

    /// A table that holds only the empty first entry.
    pub fn new() -> (gdt: DescriptorTable)
        ensures
            gdt.wf(),
            gdt@ == seq![0u64],
    {
        DescriptorTable { table: their_table() }
    }

    /// Adds a descriptor behind the entries that are there and returns its
    /// selector, or fails, changing nothing, where the table lacks the
    /// room.
    pub fn add_entry(&mut self, entry: Descriptor) -> (r: Result<SegmentSelector, GdtFull>)
        requires
            old(self).wf(),
        ensures
            final(self).wf(),
            old(self)@.len() + entry.width() <= GDT_CAPACITY ==> {
                &&& r is Ok
                &&& r.unwrap().bits == selector_bits(old(self)@.len() as int, entry.privilege())
                &&& r.unwrap().index() == old(self)@.len()
                &&& r.unwrap().rpl() == entry.privilege()
                &&& final(self)@ == old(self)@ + entry.raw()
            },
            old(self)@.len() + entry.width() > GDT_CAPACITY ==> {
                &&& r is Err
                &&& final(self)@ == old(self)@
            },
    {
        let len = their_entries(&self.table).len();
        let width: usize = match entry {
            Descriptor::UserSegment(_) => 1,
            Descriptor::SystemSegment(_, _) => 2,
        };
        if len + width > GDT_CAPACITY {
            return Err(GdtFull);
        }
        proof {
            lemma_privilege_small(entry);
        }
        let bits = their_append(&mut self.table, entry);
        Ok(SegmentSelector { bits })
    }

    /// The entries of the table, the empty first one included.
    pub fn entries(&self) -> (entries: Vec<u64>)
        ensures
            entries@ == self@,
    {
        their_entries(&self.table)
    }

    /// The table as the `x86_64` crate loads it.
    pub fn table(&self) -> (table: &x86_64::structures::gdt::GlobalDescriptorTable<8>)
        ensures
            table_entries(*table) == self@,
    {
        &self.table
    }

    /// The offset of the last byte of the table, which the processor asks
    /// for when the table is loaded.
    pub fn limit(&self) -> (limit: u16)
        requires
            self.wf(),
        ensures
            limit == self@.len() * 8 - 1,
    {
        (their_entries(&self.table).len() * 8 - 1) as u16
    }
}

/// The privilege level that a descriptor asks for is at most three.
pub proof fn lemma_privilege_small(entry: Descriptor)
    ensures
        entry.privilege() <= 3,
{
    let low = match entry {
        Descriptor::UserSegment(value) => value,
        Descriptor::SystemSegment(low, _) => low,
    };
    assert(((low >> 45) & 3) as u16 <= 3) by (bit_vector);
}

} // verus!
