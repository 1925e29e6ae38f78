//! The local interrupt controller and the external routing controller.
//!
//! Bring-up goes in this order. [`init`] checks what platform discovery
//! reported and places the register views. [`lapic::LApic::init`] hands out
//! the writes that retire the legacy controller and start the local one.
//! [`complete`] then takes reads of the command register until the local
//! controller is ready, and hands out what is left: the routing of the
//! external lines, and last the write that enables the local controller.

pub mod ioapic;
pub mod lapic;

use crate::apic::ioapic::keyboard_entry;
use crate::apic::ioapic::route_sequence;
use crate::apic::ioapic::ChipProgram;
use crate::apic::ioapic::KEYBOARD_LINE;
use crate::apic::lapic::after_status;
use crate::apic::lapic::LApic;
use crate::apic::lapic::RegisterWrite;
use crate::apic::lapic::Synchronization;
use crate::apic::lapic::REG_SPURIOUS;
use crate::apic::lapic::SPURIOUS_ENABLED;
use vstd::prelude::*;

verus! {

/// One routing chip as platform discovery reports it.
#[derive(Debug, Clone, Copy, PartialEq, Eq, Structural)]
pub struct IoApic {
    pub id: u8,
    /// Physical address of the chip's registers.
    pub address: u32,
    /// Number of the first line this chip serves.
    pub global_system_interrupt_base: u32,
}

/// The controllers of a platform.
#[derive(Debug, Clone)]
pub struct Apic {
    /// Physical address of the local controller's registers.
    pub local_apic_address: u64,
    pub io_apics: Vec<IoApic>,
}

/// What platform discovery found.
#[derive(Debug, Clone)]
pub enum InterruptModel {
    /// No controller this core can drive.
    Unknown,
    Apic(Apic),
}

/// Why bring-up cannot start.
#[derive(Debug, Clone, Copy, PartialEq, Eq, Structural)]
pub enum BootError {
    /// Platform discovery gave no result.
    NoPlatformData,
    /// The platform describes no local and routing controllers.
    NoController,
    /// The platform describes a local controller but no routing chip.
    NoRoutingChip,
    /// A register view would lie beyond the end of the address space.
    AddressOutOfRange,
}

/// Where each controller's registers are mapped.
#[derive(Debug, Clone, PartialEq, Eq)]
pub struct Views {
    pub local: u64,
    /// One address per routing chip, in discovery order.
    pub routing: Vec<u64>,
}

/// Address at which physical address `physical` is mapped, all of physical
/// memory being mapped at `offset`.
pub open spec fn mapped(physical: int, offset: int) -> int {
    physical + offset
}

/// Whether the view of a register block at `physical` fits in the address
/// space.
pub open spec fn mappable(physical: int, offset: int) -> bool {
    mapped(physical, offset) <= u64::MAX
}

/// Whether the view of every routing chip fits in the address space.
pub open spec fn all_mappable(chips: Seq<IoApic>, offset: int) -> bool {
    forall|j: int| 0 <= j < chips.len() ==> mappable((#[trigger] chips[j]).address as int, offset)
}

/// Where the registers of each routing chip are mapped.
pub open spec fn routing_views(chips: Seq<IoApic>, offset: u64) -> Seq<u64> {
    Seq::new(chips.len(), |i: int| mapped(chips[i].address as int, offset as int) as u64)
}

/// The outcome of [`init`] as a function of its arguments: the address of
/// the local controller's view and those of the routing chips' views, or the
/// reason why there are none.
pub open spec fn checked(model: Option<InterruptModel>, offset: u64) -> Result<
    (u64, Seq<u64>),
    BootError,
> {
    match model {
        None => Err(BootError::NoPlatformData),
        Some(InterruptModel::Unknown) => Err(BootError::NoController),
        Some(InterruptModel::Apic(apic)) => {
            if apic.io_apics@.len() == 0 {
                Err(BootError::NoRoutingChip)
            } else if !mappable(apic.local_apic_address as int, offset as int) || !all_mappable(
                apic.io_apics@,
                offset as int,
            ) {
                Err(BootError::AddressOutOfRange)
            } else {
                Ok(
                    (
                        mapped(apic.local_apic_address as int, offset as int) as u64,
                        routing_views(apic.io_apics@, offset),
                    ),
                )
            }
        },
    }
}

/// Translates a physical address.
pub fn phys_to_virt(physical: u64, offset: u64) -> (address: Option<u64>)
    ensures
        address is Some <==> mappable(physical as int, offset as int),
        address matches Some(a) ==> a == mapped(physical as int, offset as int),
{
    physical.checked_add(offset)
}

/// Checks what platform discovery reported and places every register view.
///
/// Nothing is programmed unless everything checks out: absent data, a
/// platform without controllers or without a routing chip, and a view that
/// does not fit in the address space are each reported before any write is
/// handed out.
#[verifier::loop_isolation(false)]
pub fn init(model: Option<&InterruptModel>, offset: u64) -> (views: Result<Views, BootError>)
    ensures
        match checked(
            match model {
                Some(m) => Some(*m),
                None => None,
            },
            offset,
        ) {
            Ok((local, routing)) => views matches Ok(v) && v.local == local && v.routing@
                == routing,
            Err(e) => views == Err::<Views, BootError>(e),
        },
{
    let apic = match model {
        None => {
            return Err(BootError::NoPlatformData);
        },
        Some(InterruptModel::Unknown) => {
            return Err(BootError::NoController);
        },
        Some(InterruptModel::Apic(apic)) => apic,
    };
    if apic.io_apics.len() == 0 {
        return Err(BootError::NoRoutingChip);
    }
    let local = phys_to_virt(apic.local_apic_address, offset);
    let mut routing: Vec<u64> = Vec::new();
    let mut i: usize = 0;
    while i < apic.io_apics.len()
        invariant
            0 <= i <= apic.io_apics@.len(),
            routing@.len() == i,
            forall|j: int|
                0 <= j < i ==> mappable(
                    (#[trigger] apic.io_apics@[j]).address as int,
                    offset as int,
                ),
            forall|j: int|
                0 <= j < i ==> (#[trigger] routing@[j]) == mapped(
                    apic.io_apics@[j].address as int,
                    offset as int,
                ),
        decreases apic.io_apics@.len() - i,
    {
        match phys_to_virt(apic.io_apics[i].address as u64, offset) {
            Some(address) => {
                routing.push(address);
            },
            None => {
                assert(!mappable(apic.io_apics@[i as int].address as int, offset as int));
                return Err(BootError::AddressOutOfRange);
            },
        }
        i = i + 1;
    }
    match local {
        Some(local) => {
            assert(routing@ =~= routing_views(apic.io_apics@, offset));
            Ok(Views { local, routing })
        },
        None => Err(BootError::AddressOutOfRange),
    }
}

/// What is left of bring-up once the broadcast has left the local
/// controller, in the order in which it is to be done.
#[derive(Debug)]
pub struct Completion {
    /// The last write of the local controller's bring-up.
    pub accept: RegisterWrite,
    /// The writes that route the external lines, chip by chip.
    pub routing: Vec<ChipProgram>,
    /// The write that lets the local controller accept interrupts. Only
    /// after it may interrupts be enabled on the CPU.
    pub enable: RegisterWrite,
}

/// How bring-up goes on after one read of the local controller's low
/// command register.
#[derive(Debug)]
pub enum Progress {
    /// The local controller is not being brought up.
    Idle,
    /// The broadcast is still pending: read the register again.
    Retry,
    /// The broadcast has left: finish as the completion says.
    Finish(Completion),
    /// The broadcast is still pending after the last permitted read. Boot
    /// stops here.
    TimedOut,
}

/// Takes one read of the local controller's low command register during
/// bring-up. Once the broadcast has left, the local controller is ready and
/// the rest of bring-up is handed out in one piece: the routing chips are
/// programmed only after the local controller, whose identifier they need,
/// and the local controller is enabled last.
pub fn complete(views: &Views, lapic: &mut LApic, status: u32) -> (progress: Progress)
    ensures
        final(lapic).current() == after_status(old(lapic).current(), status).0,
        final(lapic).view_base() == old(lapic).view_base(),
        final(lapic).destination() == old(lapic).destination(),
        match after_status(old(lapic).current(), status).1 {
            Synchronization::Idle => progress is Idle,
            Synchronization::Retry => progress is Retry,
            Synchronization::TimedOut => progress is TimedOut,
            Synchronization::Complete(accept) => progress matches Progress::Finish(completion) && {
                &&& completion.accept == accept
                &&& completion.enable == (RegisterWrite {
                    offset: REG_SPURIOUS,
                    value: SPURIOUS_ENABLED,
                })
                &&& completion.routing@.len() == views.routing@.len()
                &&& forall|i: int|
                    0 <= i < views.routing@.len() ==> (#[trigger] completion.routing@[i]).base
                        == views.routing@[i] && completion.routing@[i].writes@ == route_sequence(
                        KEYBOARD_LINE,
                        keyboard_entry(old(lapic).destination(), false),
                    )
            },
        },
{
    match lapic.synchronize(status) {
        Synchronization::Idle => Progress::Idle,
        Synchronization::Retry => Progress::Retry,
        Synchronization::TimedOut => Progress::TimedOut,
        Synchronization::Complete(accept) => {
            let routing = ioapic::init(&views.routing, lapic);
            let enable = lapic.enable();
            Progress::Finish(Completion { accept, routing, enable })
        },
    }
}

} // verus!
