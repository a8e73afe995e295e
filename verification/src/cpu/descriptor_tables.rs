//! Setting up the descriptor tables: they are built while interrupts are
//! masked, loaded in the one order in which each finds what it refers to,
//! and only then are interrupts let through again.

use vstd::prelude::*;
use crate::cpu::gdt::{Descriptor, DescriptorTable, SegmentSelector};
use crate::cpu::idt::{
    lemma_every_vector_handled, lemma_fault_stacks_isolated, InterruptDescriptorTable, BREAKPOINT,
    DOUBLE_FAULT, PAGE_FAULT,
};
use crate::cpu::tss::{
    first_fault, lemma_stacks_isolated, stacks_sound, StackError, TaskStateSegment,
};

verus! {

/// How far the setup has come. It moves forward only.
#[derive(Clone, Copy, Debug, PartialEq, Eq, Structural)]
pub enum SetupStage {
    Uninitialized,
    TablesBuilt,
    Loaded,
    InterruptsEnabled,
}

/// What the processor is to be told next.
#[derive(Clone, Copy, Debug, PartialEq, Eq, Structural)]
pub enum SetupAction {
    MaskInterrupts,
    LoadGdt,
    SetCodeSegment(SegmentSelector),
    SetStackSegment(SegmentSelector),
    LoadTaskRegister(SegmentSelector),
    LoadIdt,
    UnmaskInterrupts,
}

/// Why the tables could not be built.
#[derive(Clone, Copy, Debug, PartialEq, Eq, Structural)]
pub enum SetupError {
    /// The tables were asked for before interrupts were masked, or a second
    /// time.
    OutOfOrder,
    /// The stacks cannot be used.
    Stacks(StackError),
}

/// The three tables and the selectors of the segments in the first.
pub struct DescriptorTableSet {
    pub gdt: DescriptorTable,
    pub tss: TaskStateSegment,
    pub idt: InterruptDescriptorTable,
    pub tss_base: u64,
    pub kernel_code: SegmentSelector,
    pub kernel_data: SegmentSelector,
    pub task_state: SegmentSelector,
}

/// The setup of the descriptor tables, step by step.
pub struct DescriptorSetup {
    stage: SetupStage,
    masked: bool,
    loads: usize,
    tables: Option<DescriptorTableSet>,
}

/// Number of loads between the building of the tables and the unmasking of
/// interrupts.
pub const LOADS: usize = 5;

/// The place of a stage in the order of stages.
pub open spec fn rank(stage: SetupStage) -> nat {
    match stage {
        SetupStage::Uninitialized => 0,
        SetupStage::TablesBuilt => 1,
        SetupStage::Loaded => 2,
        SetupStage::InterruptsEnabled => 3,
    }
}

/// The loads in their order: the global descriptor table, then the code
/// segment and the stack segment that it describes, then the task register
/// with the segment that it describes, then the interrupt descriptor table,
/// whose gates name the code segment.
pub open spec fn load_order(tables: DescriptorTableSet) -> Seq<SetupAction> {
    seq![
        SetupAction::LoadGdt,
        SetupAction::SetCodeSegment(tables.kernel_code),
        SetupAction::SetStackSegment(tables.kernel_data),
        SetupAction::LoadTaskRegister(tables.task_state),
        SetupAction::LoadIdt,
    ]
}

impl DescriptorTableSet {
    /// The tables are well-formed each, the global descriptor table holds
    /// the empty entry, the code segment, the data segment and the two
    /// entries of the task-state segment at `tss_base`, and the selectors
    /// name those entries at privilege level zero.
    pub open spec fn wf(&self) -> bool {
        &&& self.gdt.wf()
        &&& self.tss.wf()
        &&& self.idt.wf()
        &&& self.gdt@ == seq![0u64] + Descriptor::UserSegment(crate::cpu::gdt::KERNEL_CODE64).raw()
            + Descriptor::UserSegment(crate::cpu::gdt::KERNEL_DATA).raw()
            + Descriptor::SystemSegment(
            crate::cpu::gdt::tss_descriptor_low(self.tss_base),
            crate::cpu::gdt::tss_descriptor_high(self.tss_base),
        ).raw()
        &&& self.kernel_code.bits == 0x08
        &&& self.kernel_data.bits == 0x10
        &&& self.task_state.bits == 0x18
    }

    /// Builds the three tables: the task-state segment for the given
    /// stacks, which will lie at `tss_base`; the global descriptor table
    /// with the kernel's code segment, its data segment and the task-state
    /// segment; and the interrupt descriptor table.
    pub fn build(interrupt_stacks: [u64; 7], privilege_stacks: [u64; 3], tss_base: u64) -> (r:
        Result<DescriptorTableSet, StackError>)
        ensures
            match first_fault(interrupt_stacks@ + privilege_stacks@, 10) {
                Some(e) => r == Err::<DescriptorTableSet, StackError>(e),
                None => {
                    &&& r is Ok
                    &&& r.unwrap().wf()
                    &&& r.unwrap().idt.faults_isolated()
                    &&& r.unwrap().tss_base == tss_base
                    &&& r.unwrap().tss.stack_starts() == interrupt_stacks@ + privilege_stacks@
                },
            },
            r is Ok <==> stacks_sound(interrupt_stacks@ + privilege_stacks@),
    {
        let tss = match TaskStateSegment::new(interrupt_stacks, privilege_stacks) {
            Ok(tss) => tss,
            Err(e) => {
                return Err(e);
            },
        };
        let mut gdt = DescriptorTable::new();
        let kernel_code = gdt.add_entry(Descriptor::kernel_code_segment());
        let kernel_data = gdt.add_entry(Descriptor::kernel_data_segment());
        let task_state = gdt.add_entry(Descriptor::tss_segment(tss_base));
        let idt = InterruptDescriptorTable::new();
        Ok(
            DescriptorTableSet {
                gdt,
                tss,
                idt,
                tss_base,
                kernel_code: kernel_code.unwrap(),
                kernel_data: kernel_data.unwrap(),
                task_state: task_state.unwrap(),
            },
        )
    }
}

impl DescriptorSetup {
    /// The stage that the setup has reached.
    pub closed spec fn stage(&self) -> SetupStage {
        self.stage
    }

    /// Whether interrupts are masked as far as the setup has said.
    pub closed spec fn masked(&self) -> bool {
        self.masked
    }

    /// Number of loads handed out.
    pub closed spec fn loads(&self) -> nat {
        self.loads as nat
    }

    /// The tables, once they are built.
    pub closed spec fn tables(&self) -> Option<DescriptorTableSet> {
        self.tables
    }

    /// The tables exist from the stage at which they are built, and are
    /// well-formed; interrupts are masked from then until every load is
    /// done; and loads are handed out only between those two.
    pub open spec fn wf(&self) -> bool {
        &&& self.loads() <= LOADS
        &&& self.stage() == SetupStage::Uninitialized ==> self.tables() is None && self.loads() == 0
        &&& self.stage() != SetupStage::Uninitialized ==> self.tables() is Some
            && self.tables().unwrap().wf()
        &&& self.stage() == SetupStage::TablesBuilt ==> self.masked() && self.loads() < LOADS
        &&& self.stage() == SetupStage::Loaded ==> self.masked() && self.loads() == LOADS
        &&& self.stage() == SetupStage::InterruptsEnabled ==> !self.masked() && self.loads()
            == LOADS
    }

    /// A setup that has done nothing yet.
    pub fn new() -> (s: DescriptorSetup)
        ensures
            s.wf(),
            s.stage() == SetupStage::Uninitialized,
            !s.masked(),
    {
        DescriptorSetup { stage: SetupStage::Uninitialized, masked: false, loads: 0, tables: None }
    }

    /// The stage that the setup has reached.
    pub fn current_stage(&self) -> (stage: SetupStage)
        ensures
            stage == self.stage(),
    {
        self.stage
    }

    /// The tables, once they are built.
    pub fn built_tables(&self) -> (t: Option<&DescriptorTableSet>)
        ensures
            t is Some <==> self.tables() is Some,
            t is Some ==> *t.unwrap() == self.tables().unwrap(),
    {
        self.tables.as_ref()
    }

    /// The first step: interrupts are to be masked. Before the tables are
    /// built this hands out the action; later it hands out nothing.
    pub fn mask(&mut self) -> (action: Option<SetupAction>)
        requires
            old(self).wf(),
        ensures
            final(self).wf(),
            final(self).stage() == old(self).stage(),
            final(self).tables() == old(self).tables(),
            final(self).loads() == old(self).loads(),
            old(self).stage() == SetupStage::Uninitialized ==> action == Some(
                SetupAction::MaskInterrupts,
            ) && final(self).masked(),
            old(self).stage() != SetupStage::Uninitialized ==> action is None && final(self).masked()
                == old(self).masked(),
    {
        match self.stage {
            SetupStage::Uninitialized => {
                self.masked = true;
                Some(SetupAction::MaskInterrupts)
            },
            _ => None,
        }
    }

    /// Builds the tables, which takes the setup from its first stage to the
    /// second. It refuses, changing nothing, unless interrupts are masked
    /// and the tables are not built yet; and a fault in the stacks leaves
    /// the setup where it was.
    pub fn build(
        &mut self,
        interrupt_stacks: [u64; 7],
        privilege_stacks: [u64; 3],
        tss_base: u64,
    ) -> (r: Result<(), SetupError>)
        requires
            old(self).wf(),
        ensures
            final(self).wf(),
            final(self).masked() == old(self).masked(),
            rank(final(self).stage()) >= rank(old(self).stage()),
            !(old(self).stage() == SetupStage::Uninitialized && old(self).masked()) ==> {
                &&& r == Err::<(), SetupError>(SetupError::OutOfOrder)
                &&& final(self).stage() == old(self).stage()
                &&& final(self).tables() == old(self).tables()
                &&& final(self).loads() == old(self).loads()
            },
            old(self).stage() == SetupStage::Uninitialized && old(self).masked() ==> match first_fault(
                interrupt_stacks@ + privilege_stacks@,
                10,
            ) {
                Some(e) => {
                    &&& r == Err::<(), SetupError>(SetupError::Stacks(e))
                    &&& final(self).stage() == SetupStage::Uninitialized
                },
                None => {
                    &&& r == Ok::<(), SetupError>(())
                    &&& final(self).stage() == SetupStage::TablesBuilt
                    &&& final(self).loads() == 0
                    &&& final(self).tables().unwrap().tss_base == tss_base
                    &&& final(self).tables().unwrap().tss.stack_starts() == interrupt_stacks@
                        + privilege_stacks@
                },
            },
    {
        match self.stage {
            SetupStage::Uninitialized => {
                if !self.masked {
                    return Err(SetupError::OutOfOrder);
                }
                match DescriptorTableSet::build(interrupt_stacks, privilege_stacks, tss_base) {
                    Ok(tables) => {
                        self.tables = Some(tables);
                        self.stage = SetupStage::TablesBuilt;
                        Ok(())
                    },
                    Err(e) => Err(SetupError::Stacks(e)),
                }
            },
            _ => Err(SetupError::OutOfOrder),
        }
    }

    /// The next load, while the tables are built and not all loads are
    /// handed out; with the last of them the tables count as loaded.
    pub fn next_load(&mut self) -> (action: Option<SetupAction>)
        requires
            old(self).wf(),
        ensures
            final(self).wf(),
            final(self).masked() == old(self).masked(),
            final(self).tables() == old(self).tables(),
            rank(final(self).stage()) >= rank(old(self).stage()),
            old(self).stage() == SetupStage::TablesBuilt ==> {
                &&& action == Some(load_order(old(self).tables().unwrap())[old(self).loads() as int])
                &&& final(self).loads() == old(self).loads() + 1
                &&& final(self).stage() == if final(self).loads() == LOADS {
                    SetupStage::Loaded
                } else {
                    SetupStage::TablesBuilt
                }
            },
            old(self).stage() != SetupStage::TablesBuilt ==> {
                &&& action is None
                &&& final(self).stage() == old(self).stage()
                &&& final(self).loads() == old(self).loads()
            },
    {
        match self.stage {
            SetupStage::TablesBuilt => {
                let action = match &self.tables {
                    Some(tables) => if self.loads == 0 {
                        SetupAction::LoadGdt
                    } else if self.loads == 1 {
                        SetupAction::SetCodeSegment(tables.kernel_code)
                    } else if self.loads == 2 {
                        SetupAction::SetStackSegment(tables.kernel_data)
                    } else if self.loads == 3 {
                        SetupAction::LoadTaskRegister(tables.task_state)
                    } else {
                        SetupAction::LoadIdt
                    },
                    None => SetupAction::LoadGdt,
                };
                self.loads = self.loads + 1;
                if self.loads == LOADS {
                    self.stage = SetupStage::Loaded;
                }
                Some(action)
            },
            _ => None,
        }
    }

    /// The last step: once everything is loaded, interrupts are to be let
    /// through again. At any other stage this hands out nothing.
    pub fn unmask(&mut self) -> (action: Option<SetupAction>)
        requires
            old(self).wf(),
        ensures
            final(self).wf(),
            final(self).tables() == old(self).tables(),
            final(self).loads() == old(self).loads(),
            rank(final(self).stage()) >= rank(old(self).stage()),
            old(self).stage() == SetupStage::Loaded ==> {
                &&& action == Some(SetupAction::UnmaskInterrupts)
                &&& final(self).stage() == SetupStage::InterruptsEnabled
            },
            old(self).stage() != SetupStage::Loaded ==> {
                &&& action is None
                &&& final(self).stage() == old(self).stage()
                &&& final(self).masked() == old(self).masked()
            },
    {
        match self.stage {
            SetupStage::Loaded => {
                self.masked = false;
                self.stage = SetupStage::InterruptsEnabled;
                Some(SetupAction::UnmaskInterrupts)
            },
            _ => None,
        }
    }
}

/// Everything that the processor is to be told, in order: interrupts are
/// masked first and let through last, and between the two come the loads.
pub open spec fn full_order(tables: DescriptorTableSet) -> Seq<SetupAction> {
    seq![SetupAction::MaskInterrupts] + load_order(tables) + seq![SetupAction::UnmaskInterrupts]
}

/// Sets up the descriptor tables from start to end: returns the setup at
/// its last stage, with the tables in it, and the actions to perform on
/// the processor, in the order in which they must be performed. A fault
/// in the stacks is the only way to fail.
pub fn init(interrupt_stacks: [u64; 7], privilege_stacks: [u64; 3], tss_base: u64) -> (r: Result<
    (DescriptorSetup, Vec<SetupAction>),
    StackError,
>)
    ensures
        match first_fault(interrupt_stacks@ + privilege_stacks@, 10) {
            Some(e) => r == Err::<(DescriptorSetup, Vec<SetupAction>), StackError>(e),
            None => {
                &&& r is Ok
                &&& r.unwrap().0.wf()
                &&& r.unwrap().0.stage() == SetupStage::InterruptsEnabled
                &&& r.unwrap().0.tables().unwrap().idt.faults_isolated()
                &&& r.unwrap().0.tables().unwrap().tss_base == tss_base
                &&& r.unwrap().0.tables().unwrap().tss.stack_starts() == interrupt_stacks@
                    + privilege_stacks@
                &&& r.unwrap().1@ == full_order(r.unwrap().0.tables().unwrap())
            },
        },
        r is Ok <==> stacks_sound(interrupt_stacks@ + privilege_stacks@),
{
    proof {
        crate::cpu::tss::lemma_no_fault_is_sound(interrupt_stacks@ + privilege_stacks@, 10);
        assert((interrupt_stacks@ + privilege_stacks@).take(10) =~= interrupt_stacks@
            + privilege_stacks@);
    }
    let mut setup = DescriptorSetup::new();
    let mut plan: Vec<SetupAction> = Vec::new();
    let first = setup.mask();
    plan.push(first.unwrap());
    match setup.build(interrupt_stacks, privilege_stacks, tss_base) {
        Err(SetupError::Stacks(e)) => {
            return Err(e);
        },
        _ => {},
    }
    let ghost tables = setup.tables().unwrap();
    let mut i: usize = 0;
    while i < LOADS
        invariant
            i <= LOADS,
            setup.wf(),
            setup.tables() == Some(tables),
            setup.loads() == i,
            setup.stage() == if i == LOADS {
                SetupStage::Loaded
            } else {
                SetupStage::TablesBuilt
            },
            plan@ == seq![SetupAction::MaskInterrupts] + load_order(tables).take(i as int),
        decreases LOADS - i,
    {
        let action = setup.next_load();
        plan.push(action.unwrap());
        assert(load_order(tables).take(i + 1) =~= load_order(tables).take(i as int).push(
            load_order(tables)[i as int],
        ));
        i += 1;
    }
    assert(load_order(tables).take(LOADS as int) =~= load_order(tables));
    let last = setup.unmask();
    plan.push(last.unwrap());
    assert(plan@ =~= full_order(tables));
    Ok((setup, plan))
}

/// The order of the loads is fixed: the global descriptor table comes
/// before the segment registers, these before the task register, and that
/// before the interrupt descriptor table; interrupts are masked before the
/// first load and let through only after the last.
pub proof fn lemma_load_order(tables: DescriptorTableSet)
    ensures
        full_order(tables).len() == 7,
        full_order(tables)[0] == SetupAction::MaskInterrupts,
        full_order(tables)[1] == SetupAction::LoadGdt,
        full_order(tables)[2] == SetupAction::SetCodeSegment(tables.kernel_code),
        full_order(tables)[3] == SetupAction::SetStackSegment(tables.kernel_data),
        full_order(tables)[4] == SetupAction::LoadTaskRegister(tables.task_state),
        full_order(tables)[5] == SetupAction::LoadIdt,
        full_order(tables)[6] == SetupAction::UnmaskInterrupts,
{
}

/// A fault during a fault does not corrupt the faulting stack: in a
/// well-formed set of tables no byte of the stack on which the handler of
/// one fault runs belongs to the stack on which the handler of another
/// vector runs, unless the two vectors are given the same entry of the
/// interrupt stack table, which the double fault, the page fault and the
/// breakpoint share with no vector.
pub proof fn lemma_fault_during_fault(tables: DescriptorTableSet, fault: int, other: int, addr: u64)
    requires
        tables.wf(),
        fault == DOUBLE_FAULT || fault == PAGE_FAULT || fault == BREAKPOINT,
        0 <= other < 256,
        other != fault,
        tables.idt@[other].stack_index is Some,
        tables.tss.in_stack(tables.idt@[fault].stack_index.unwrap() as int, addr),
    ensures
        tables.idt@[fault].stack_index is Some,
        tables.idt@[fault].stack_index.unwrap() < 7,
        tables.idt@[other].stack_index.unwrap() < 7,
        tables.idt@[other].stack_index != tables.idt@[fault].stack_index,
        !tables.tss.in_stack(tables.idt@[other].stack_index.unwrap() as int, addr),
{
    lemma_fault_stacks_isolated(other);
    lemma_every_vector_handled(other);
    lemma_every_vector_handled(fault);
    let i = tables.idt@[fault].stack_index.unwrap() as int;
    let j = tables.idt@[other].stack_index.unwrap() as int;
    lemma_stacks_isolated(tables.tss, i, j, addr);
}

} // verus!
