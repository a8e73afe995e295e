//! Bringing up the interrupt controllers, stage by stage: the processor is
//! asked whether it has an APIC, the legacy controllers are put to rest,
//! the local APIC is set up, and the IOAPIC is programmed.

use vstd::prelude::*;
use crate::cpu::apic::{
    check_apic_compat, enable_apic, pic_disabled, tell_pic8259a_to_f_off, LocalApicConfig,
    CPUID_APIC,
};
use crate::cpu::ioapic::{
    get_ioapic_info, keyboard_input, keyboard_routing, setup_ioapic, DiscoveryError,
    InterruptModel, IoApicSetup, RoutingError,
};
use crate::cpu::apic::IOAPIC_IRQ_OFFSET;
use crate::serial::port_bus::PortBus;

verus! {

/// How far the bring-up has come. It moves forward only, and once it is
/// halted it stays so.
#[derive(Clone, Copy, Debug, PartialEq, Eq, Structural)]
pub enum ApicStage {
    CheckCompat,
    DisablePic,
    EnableLocalApic,
    ProgramIoApic,
    Ready,
    Halted,
}

/// Why the bring-up failed.
#[derive(Clone, Copy, Debug, PartialEq, Eq, Structural)]
pub enum ApicError {
    /// A step was asked for at a stage to which it does not belong.
    OutOfOrder,
    /// The processor has no APIC.
    Unsupported,
    /// No IOAPIC could be found.
    Discovery(DiscoveryError),
    /// The keyboard interrupt could not be routed.
    Routing(RoutingError),
}

/// How the interrupt controllers are to be set up.
pub struct ApicConfig {
    pub local: LocalApicConfig,
    pub ioapic: IoApicSetup,
}

/// The bring-up of the interrupt controllers, step by step.
pub struct ApicBringUp {
    stage: ApicStage,
}

/// What the firmware's description of the interrupt controllers comes to:
/// the routing of the keyboard, or the reason why there is none.
pub open spec fn routing_of(model: InterruptModel) -> Result<(u32, u8), ApicError> {
    match model {
        InterruptModel::Unknown => Err(
            ApicError::Discovery(DiscoveryError::UnsupportedInterruptModel),
        ),
        InterruptModel::Apic(apic) => if apic.io_apics@.len() == 0 {
            Err(ApicError::Discovery(DiscoveryError::NoIoApic))
        } else if keyboard_input(apic.interrupt_source_overrides@) + IOAPIC_IRQ_OFFSET > 255 {
            Err(
                ApicError::Routing(
                    RoutingError::NoVector(keyboard_input(apic.interrupt_source_overrides@)),
                ),
            )
        } else {
            Ok(
                (
                    apic.io_apics@[0].address,
                    keyboard_input(apic.interrupt_source_overrides@) as u8,
                ),
            )
        },
    }
}

/// The overrides that the firmware's description holds.
pub open spec fn overrides_of(model: InterruptModel) -> Seq<
    crate::cpu::ioapic::InterruptSourceOverride,
> {
    match model {
        InterruptModel::Unknown => Seq::empty(),
        InterruptModel::Apic(apic) => apic.interrupt_source_overrides@,
    }
}

impl ApicBringUp {
    /// The stage that the bring-up has reached.
    pub closed spec fn stage(&self) -> ApicStage {
        self.stage
    }

    /// A bring-up that has done nothing yet.
    pub fn new() -> (b: ApicBringUp)
        ensures
            b.stage() == ApicStage::CheckCompat,
    {
        ApicBringUp { stage: ApicStage::CheckCompat }
    }

    /// The stage that the bring-up has reached.
    pub fn current_stage(&self) -> (stage: ApicStage)
        ensures
            stage == self.stage(),
    {
        self.stage
    }

    /// First stage: `edx` holds the feature flags of the processor. With an
    /// APIC the bring-up goes on; without one it is halted.
    pub fn check_compat(&mut self, edx: u32) -> (r: Result<(), ApicError>)
        ensures
            old(self).stage() != ApicStage::CheckCompat ==> {
                &&& r == Err::<(), ApicError>(ApicError::OutOfOrder)
                &&& final(self).stage() == old(self).stage()
            },
            old(self).stage() == ApicStage::CheckCompat ==> if edx & CPUID_APIC != 0 {
                &&& r == Ok::<(), ApicError>(())
                &&& final(self).stage() == ApicStage::DisablePic
            } else {
                &&& r == Err::<(), ApicError>(ApicError::Unsupported)
                &&& final(self).stage() == ApicStage::Halted
            },
    {
        match self.stage {
            ApicStage::CheckCompat => {
                if check_apic_compat(edx) {
                    self.stage = ApicStage::DisablePic;
                    Ok(())
                } else {
                    self.stage = ApicStage::Halted;
                    Err(ApicError::Unsupported)
                }
            },
            _ => Err(ApicError::OutOfOrder),
        }
    }

    /// Second stage: the legacy interrupt controllers are put to rest. At
    /// any other stage nothing is written to them.
    pub fn disable_pic<B: PortBus>(&mut self, bus: &mut B) -> (r: Result<(), ApicError>)
        ensures
            old(self).stage() != ApicStage::DisablePic ==> {
                &&& r == Err::<(), ApicError>(ApicError::OutOfOrder)
                &&& final(self).stage() == old(self).stage()
                &&& final(bus).state() == old(bus).state()
            },
            old(self).stage() == ApicStage::DisablePic ==> {
                &&& r == Ok::<(), ApicError>(())
                &&& final(self).stage() == ApicStage::EnableLocalApic
                &&& final(bus).state() == pic_disabled(old(bus).state())
            },
    {
        match self.stage {
            ApicStage::DisablePic => {
                tell_pic8259a_to_f_off(bus);
                self.stage = ApicStage::EnableLocalApic;
                Ok(())
            },
            _ => Err(ApicError::OutOfOrder),
        }
    }

    /// Third stage: how the local APIC at `xapic_base` is to be set up.
    pub fn enable_local_apic(&mut self, xapic_base: u64) -> (r: Result<LocalApicConfig, ApicError>)
        ensures
            old(self).stage() != ApicStage::EnableLocalApic ==> {
                &&& r == Err::<LocalApicConfig, ApicError>(ApicError::OutOfOrder)
                &&& final(self).stage() == old(self).stage()
            },
            old(self).stage() == ApicStage::EnableLocalApic ==> {
                &&& r is Ok
                &&& r.unwrap().xapic_base == xapic_base
                &&& r.unwrap().timer_vector == crate::cpu::apic::TIMER_IRQ
                &&& r.unwrap().error_vector == crate::cpu::apic::ERROR_IRQ
                &&& r.unwrap().spurious_vector == crate::cpu::apic::SPURIOUS_IRQ
                &&& final(self).stage() == ApicStage::ProgramIoApic
            },
    {
        match self.stage {
            ApicStage::EnableLocalApic => {
                self.stage = ApicStage::ProgramIoApic;
                Ok(enable_apic(xapic_base))
            },
            _ => Err(ApicError::OutOfOrder),
        }
    }

    /// Fourth stage: how the IOAPIC that `model` describes is to be
    /// programmed. Without an IOAPIC, or without a vector for the
    /// keyboard, the bring-up is halted.
    pub fn program_ioapic(&mut self, model: InterruptModel) -> (r: Result<IoApicSetup, ApicError>)
        ensures
            old(self).stage() != ApicStage::ProgramIoApic ==> {
                &&& r is Err
                &&& r->Err_0 == ApicError::OutOfOrder
                &&& final(self).stage() == old(self).stage()
            },
            old(self).stage() == ApicStage::ProgramIoApic ==> match routing_of(model) {
                Ok((address, gsi)) => {
                    &&& r is Ok
                    &&& r->Ok_0.base == address
                    &&& r->Ok_0.keyboard_gsi == gsi
                    &&& r->Ok_0.actions@ == keyboard_routing(overrides_of(model), gsi)
                    &&& final(self).stage() == ApicStage::Ready
                },
                Err(e) => {
                    &&& r is Err
                    &&& r->Err_0 == e
                    &&& final(self).stage() == ApicStage::Halted
                },
            },
    {
        match self.stage {
            ApicStage::ProgramIoApic => {
                let (address, isos) = match get_ioapic_info(model) {
                    Ok(info) => info,
                    Err(e) => {
                        self.stage = ApicStage::Halted;
                        return Err(ApicError::Discovery(e));
                    },
                };
                match setup_ioapic(address, &isos) {
                    Ok(setup) => {
                        self.stage = ApicStage::Ready;
                        Ok(setup)
                    },
                    Err(e) => {
                        self.stage = ApicStage::Halted;
                        Err(ApicError::Routing(e))
                    },
                }
            },
            _ => Err(ApicError::OutOfOrder),
        }
    }
}

/// Brings up the interrupt controllers: `edx` holds the feature flags of the
/// processor, `xapic_base` the address of the local APIC's registers, and
/// `model` the firmware's description of the interrupt controllers. A
/// processor without an APIC ends the bring-up before anything is written
/// to the legacy controllers; with one they are put to rest, whatever
/// follows.
pub fn init_apic<B: PortBus>(bus: &mut B, edx: u32, xapic_base: u64, model: InterruptModel) -> (r:
    Result<ApicConfig, ApicError>)
    ensures
        edx & CPUID_APIC == 0 ==> {
            &&& r is Err
            &&& r->Err_0 == ApicError::Unsupported
            &&& final(bus).state() == old(bus).state()
        },
        edx & CPUID_APIC != 0 ==> {
            &&& final(bus).state() == pic_disabled(old(bus).state())
            &&& match routing_of(model) {
                Ok((address, gsi)) => {
                    &&& r is Ok
                    &&& r->Ok_0.local == (LocalApicConfig {
                        timer_vector: crate::cpu::apic::TIMER_IRQ,
                        error_vector: crate::cpu::apic::ERROR_IRQ,
                        spurious_vector: crate::cpu::apic::SPURIOUS_IRQ,
                        xapic_base,
                    })
                    &&& r->Ok_0.ioapic.base == address
                    &&& r->Ok_0.ioapic.keyboard_gsi == gsi
                    &&& r->Ok_0.ioapic.actions@ == keyboard_routing(overrides_of(model), gsi)
                },
                Err(e) => r is Err && r->Err_0 == e,
            }
        },
{
    let mut steps = ApicBringUp::new();
    match steps.check_compat(edx) {
        Err(e) => {
            return Err(e);
        },
        Ok(_) => {},
    }
    match steps.disable_pic(bus) {
        Err(e) => {
            return Err(e);
        },
        Ok(_) => {},
    }
    let local = match steps.enable_local_apic(xapic_base) {
        Err(e) => {
            return Err(e);
        },
        Ok(local) => local,
    };
    match steps.program_ioapic(model) {
        Err(e) => Err(e),
        Ok(ioapic) => Ok(ApicConfig { local, ioapic }),
    }
}

} // verus!
