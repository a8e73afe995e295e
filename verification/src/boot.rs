//! The boot of the kernel: what the boot loader hands over, and the order
//! of the stages through which the kernel comes up, with what it says at
//! each and which failures stop it.

use vstd::prelude::*;
use crate::memory::regions::{MemoryKind, MemoryRegion};

verus! {

/// One entry of the memory map as a boot loader reports it: the span and
/// the number of its kind.
#[derive(Clone, Copy, Debug, PartialEq, Eq, Structural)]
pub struct MemoryArea {
    pub start: u64,
    pub end: u64,
    pub area_type: u32,
}

/// The stages of the boot, in their order, and the two ways in which it
/// ends.
#[derive(Clone, Copy, Debug, PartialEq, Eq, Structural)]
pub enum BootStage {
    Serial,
    DescriptorTables,
    Mapper,
    FrameAllocator,
    Heap,
    HeapTest,
    ApicCompat,
    DisablePic,
    EnableApic,
    IoApic,
    Running,
    Halted,
}

/// What follows a stage.
#[derive(Clone, Copy, Debug)]
pub struct BootStep {
    /// The stage that comes next.
    pub next: BootStage,
    /// What the console says of the stage that has ended, if anything.
    pub verdict: Option<&'static str>,
    /// The last words of the kernel, where the stage that has ended stops
    /// it.
    pub last_words: Option<&'static str>,
}

/// The kind of memory that the multiboot protocol numbers `area_type`.
/// Memory that must survive hibernation counts as reserved.
pub open spec fn multiboot_kind(area_type: u32) -> MemoryKind {
    if area_type == 1 {
        MemoryKind::Usable
    } else if area_type == 2 {
        MemoryKind::Reserved
    } else if area_type == 3 {
        MemoryKind::AcpiReclaimable
    } else if area_type == 4 {
        MemoryKind::Reserved
    } else if area_type == 5 {
        MemoryKind::BadMemory
    } else {
        MemoryKind::Unknown(area_type)
    }
}

/// The kind of memory that the limine protocol numbers `entry_type`.
pub open spec fn limine_kind(entry_type: u64) -> MemoryKind {
    if entry_type == 0 {
        MemoryKind::Usable
    } else if entry_type == 1 {
        MemoryKind::Reserved
    } else if entry_type == 2 {
        MemoryKind::AcpiReclaimable
    } else if entry_type == 3 {
        MemoryKind::Nvs
    } else if entry_type == 4 {
        MemoryKind::BadMemory
    } else if entry_type == 5 {
        MemoryKind::Bootloader
    } else if entry_type == 6 {
        MemoryKind::Kernel
    } else {
        MemoryKind::Unknown((entry_type % 0x1_0000_0000) as u32)
    }
}

/// The place of a stage in the order of stages; the halted kernel comes
/// last.
pub open spec fn order(stage: BootStage) -> nat {
    match stage {
        BootStage::Serial => 0,
        BootStage::DescriptorTables => 1,
        BootStage::Mapper => 2,
        BootStage::FrameAllocator => 3,
        BootStage::Heap => 4,
        BootStage::HeapTest => 5,
        BootStage::ApicCompat => 6,
        BootStage::DisablePic => 7,
        BootStage::EnableApic => 8,
        BootStage::IoApic => 9,
        BootStage::Running => 10,
        BootStage::Halted => 11,
    }
}

/// The stage that follows `stage` where `stage` has succeeded.
pub open spec fn successor(stage: BootStage) -> BootStage {
    match stage {
        BootStage::Serial => BootStage::DescriptorTables,
        BootStage::DescriptorTables => BootStage::Mapper,
        BootStage::Mapper => BootStage::FrameAllocator,
        BootStage::FrameAllocator => BootStage::Heap,
        BootStage::Heap => BootStage::HeapTest,
        BootStage::HeapTest => BootStage::ApicCompat,
        BootStage::ApicCompat => BootStage::DisablePic,
        BootStage::DisablePic => BootStage::EnableApic,
        BootStage::EnableApic => BootStage::IoApic,
        BootStage::IoApic => BootStage::Running,
        BootStage::Running => BootStage::Running,
        BootStage::Halted => BootStage::Halted,
    }
}

/// Whether the kernel can go on after `stage` has failed: without a
/// console, and with a heap that fails its test.
pub open spec fn survivable(stage: BootStage) -> bool {
    stage == BootStage::Serial || stage == BootStage::HeapTest
}

/// Whether the console says how `stage` ended.
pub open spec fn reported(stage: BootStage) -> bool {
    order(stage) >= 2 && order(stage) <= 9
}

/// The stage that follows `stage`.
pub open spec fn stage_after(stage: BootStage, succeeded: bool) -> BootStage {
    if stage == BootStage::Running || stage == BootStage::Halted {
        stage
    } else if succeeded || survivable(stage) {
        successor(stage)
    } else {
        BootStage::Halted
    }
}

/// The stage that the boot reaches from `stage` through the outcomes of the
/// stages that follow, in their order.
pub open spec fn stage_reached(stage: BootStage, outcomes: Seq<bool>) -> BootStage
    decreases outcomes.len(),
{
    if outcomes.len() == 0 {
        stage
    } else {
        stage_reached(stage_after(stage, outcomes[0]), outcomes.skip(1))
    }
}

/// The kind of memory that the multiboot protocol numbers `area_type`.
pub fn kind_from_multiboot(area_type: u32) -> (kind: MemoryKind)
    ensures
        kind == multiboot_kind(area_type),
{
    match area_type {
        1 => MemoryKind::Usable,
        2 => MemoryKind::Reserved,
        3 => MemoryKind::AcpiReclaimable,
        4 => MemoryKind::Reserved,
        5 => MemoryKind::BadMemory,
        other => MemoryKind::Unknown(other),
    }
}

/// The kind of memory that the limine protocol numbers `entry_type`.
pub fn kind_from_limine(entry_type: u64) -> (kind: MemoryKind)
    ensures
        kind == limine_kind(entry_type),
{
    match entry_type {
        0 => MemoryKind::Usable,
        1 => MemoryKind::Reserved,
        2 => MemoryKind::AcpiReclaimable,
        3 => MemoryKind::Nvs,
        4 => MemoryKind::BadMemory,
        5 => MemoryKind::Bootloader,
        6 => MemoryKind::Kernel,
        other => MemoryKind::Unknown((other % 0x1_0000_0000) as u32),
    }
}

/// The memory map of a multiboot loader as the frame allocator takes it:
/// the same spans in the same order, each with the kind that its number
/// stands for.
pub fn get_memory_areas(areas: &Vec<MemoryArea>) -> (regions: Vec<MemoryRegion>)
    ensures
        regions@.len() == areas@.len(),
        forall|i: int|
            0 <= i < areas@.len() ==> #[trigger] regions@[i] == (MemoryRegion {
                start: areas@[i].start,
                end: areas@[i].end,
                kind: multiboot_kind(areas@[i].area_type),
            }),
{
    let mut regions: Vec<MemoryRegion> = Vec::new();
    let mut i: usize = 0;
    while i < areas.len()
        invariant
            i <= areas.len(),
            regions@.len() == i,
            forall|k: int|
                0 <= k < i ==> #[trigger] regions@[k] == (MemoryRegion {
                    start: areas@[k].start,
                    end: areas@[k].end,
                    kind: multiboot_kind(areas@[k].area_type),
                }),
        decreases areas.len() - i,
    {
        let area = areas[i];
        regions.push(MemoryRegion::new(area.start, area.end, kind_from_multiboot(area.area_type)));
        i += 1;
    }
    regions
}

/// What the console says when `stage` begins.
pub fn announce(stage: BootStage) -> (line: Option<&'static str>)
    ensures
        match stage {
            BootStage::DescriptorTables => line is Some && line.unwrap()@ == "debug: setup GDT"@,
            BootStage::Mapper => line is Some && line.unwrap()@ == "initialising mapper..."@,
            BootStage::FrameAllocator => line is Some && line.unwrap()@
                == "initialising frame allocator..."@,
            BootStage::Heap => line is Some && line.unwrap()@ == "initialising heap..."@,
            BootStage::HeapTest => line is Some && line.unwrap()@ == "testing heap..."@,
            BootStage::ApicCompat => line is Some && line.unwrap()@
                == "checking for apic compatibility..."@,
            BootStage::DisablePic => line is Some && line.unwrap()@ == "disabling PIC..."@,
            BootStage::EnableApic => line is Some && line.unwrap()@ == "initialising apic..."@,
            BootStage::IoApic => line is Some && line.unwrap()@
                == "setting up apic interrupts..."@,
            _ => line is None,
        },
{
    match stage {
        BootStage::DescriptorTables => Some("debug: setup GDT"),
        BootStage::Mapper => Some("initialising mapper..."),
        BootStage::FrameAllocator => Some("initialising frame allocator..."),
        BootStage::Heap => Some("initialising heap..."),
        BootStage::HeapTest => Some("testing heap..."),
        BootStage::ApicCompat => Some("checking for apic compatibility..."),
        BootStage::DisablePic => Some("disabling PIC..."),
        BootStage::EnableApic => Some("initialising apic..."),
        BootStage::IoApic => Some("setting up apic interrupts..."),
        _ => None,
    }
}

/// The last words of the kernel where `stage` stops it.
pub open spec fn last_words(stage: BootStage) -> Seq<char> {
    match stage {
        BootStage::DescriptorTables => "descriptor table setup failed"@,
        BootStage::Mapper => "mapper init failed"@,
        BootStage::FrameAllocator => "frame allocator init failed"@,
        BootStage::Heap => "heap init failed"@,
        BootStage::ApicCompat => "apic required at the moment"@,
        BootStage::DisablePic => "disabling PIC failed"@,
        BootStage::EnableApic => "failed to build local apic"@,
        _ => "no ioapic"@,
    }
}

/// What follows `stage`, which has succeeded or failed: the stage that
/// comes next, what the console says, and the kernel's last words where the
/// failure stops it. The kernel survives a failure to find a console and a
/// heap that fails its test; every other failure halts it. Once it runs or
/// is halted, nothing follows.
pub fn advance(stage: BootStage, succeeded: bool) -> (step: BootStep)
    ensures
        step.next == stage_after(stage, succeeded),
        match step.verdict {
            Some(v) => reported(stage) && v@ == if succeeded {
                "[OK]"@
            } else {
                "[FAIL]"@
            },
            None => !reported(stage),
        },
        match step.last_words {
            Some(p) => step.next == BootStage::Halted && stage != BootStage::Halted && p@
                == last_words(stage),
            None => step.next != BootStage::Halted || stage == BootStage::Halted,
        },
{
    let verdict = match stage {
        BootStage::Serial | BootStage::DescriptorTables | BootStage::Running | BootStage::Halted => None,
        _ => if succeeded {
            Some("[OK]")
        } else {
            Some("[FAIL]")
        },
    };
    let next = match stage {
        BootStage::Serial => BootStage::DescriptorTables,
        BootStage::DescriptorTables => BootStage::Mapper,
        BootStage::Mapper => BootStage::FrameAllocator,
        BootStage::FrameAllocator => BootStage::Heap,
        BootStage::Heap => BootStage::HeapTest,
        BootStage::HeapTest => BootStage::ApicCompat,
        BootStage::ApicCompat => BootStage::DisablePic,
        BootStage::DisablePic => BootStage::EnableApic,
        BootStage::EnableApic => BootStage::IoApic,
        BootStage::IoApic => BootStage::Running,
        BootStage::Running => BootStage::Running,
        BootStage::Halted => BootStage::Halted,
    };
    if succeeded {
        return BootStep { next, verdict, last_words: None };
    }
    match stage {
        BootStage::Serial | BootStage::HeapTest | BootStage::Running | BootStage::Halted => BootStep {
            next,
            verdict,
            last_words: None,
        },
        BootStage::DescriptorTables => BootStep {
            next: BootStage::Halted,
            verdict,
            last_words: Some("descriptor table setup failed"),
        },
        BootStage::Mapper => BootStep {
            next: BootStage::Halted,
            verdict,
            last_words: Some("mapper init failed"),
        },
        BootStage::FrameAllocator => BootStep {
            next: BootStage::Halted,
            verdict,
            last_words: Some("frame allocator init failed"),
        },
        BootStage::Heap => BootStep {
            next: BootStage::Halted,
            verdict,
            last_words: Some("heap init failed"),
        },
        BootStage::ApicCompat => BootStep {
            next: BootStage::Halted,
            verdict,
            last_words: Some("apic required at the moment"),
        },
        BootStage::DisablePic => BootStep {
            next: BootStage::Halted,
            verdict,
            last_words: Some("disabling PIC failed"),
        },
        BootStage::EnableApic => BootStep {
            next: BootStage::Halted,
            verdict,
            last_words: Some("failed to build local apic"),
        },
        BootStage::IoApic => BootStep {
            next: BootStage::Halted,
            verdict,
            last_words: Some("no ioapic"),
        },
    }
}

/// The boot moves forward only: whatever the outcomes of the stages, the
/// stage reached does not come before the stage left.
pub proof fn lemma_boot_moves_forward(stage: BootStage, outcomes: Seq<bool>)
    ensures
        order(stage_reached(stage, outcomes)) >= order(stage),
    decreases outcomes.len(),
{
    if outcomes.len() > 0 {
        lemma_boot_moves_forward(stage_after(stage, outcomes[0]), outcomes.skip(1));
    }
}

/// A processor without an APIC halts the boot before the legacy interrupt
/// controllers are touched: once the check for the APIC has failed, no
/// outcome of anything leads to the stage at which they are put to rest,
/// nor to any stage behind it.
pub proof fn lemma_no_apic_halts(outcomes: Seq<bool>)
    ensures
        stage_reached(stage_after(BootStage::ApicCompat, false), outcomes) == BootStage::Halted,
    decreases outcomes.len(),
{
    lemma_halted_stays(outcomes);
}

/// A halted kernel stays halted.
pub proof fn lemma_halted_stays(outcomes: Seq<bool>)
    ensures
        stage_reached(BootStage::Halted, outcomes) == BootStage::Halted,
    decreases outcomes.len(),
{
    if outcomes.len() > 0 {
        lemma_halted_stays(outcomes.skip(1));
    }
}

} // verus!
