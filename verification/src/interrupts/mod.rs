//! The vector dispatch table and the handlers it binds.
//!
//! The table binds each of the 256 vectors to one handler, once and for all:
//! the CPU exceptions below 32, the timer on 32, the keyboard on 33, and a
//! handler that only acknowledges on every other device vector.

pub mod handler;
pub mod index;

use crate::apic::lapic::LApic;
use crate::interrupts::handler::acknowledgement;
use crate::interrupts::handler::acknowledges;
use crate::interrupts::handler::report_of;
use crate::interrupts::handler::Exception;
use crate::interrupts::handler::InterruptStackFrame;
use crate::interrupts::handler::Report;
use crate::interrupts::handler::Served;
use crate::interrupts::index::InterruptIndex;
use crate::interrupts::index::FIRST_DEVICE_VECTOR;
use crate::task::keyboard::character_of;
use crate::task::keyboard::decoded;
use crate::task::keyboard::events;
use crate::task::keyboard::mapped_after;
use crate::task::keyboard::scancodes;
use crate::task::keyboard::Decoder;
use crate::task::shell::pushed;
use crate::task::shell::Bridge;
use vstd::prelude::*;

verus! {

/// Number of vectors.
pub const VECTORS: usize = 256;

/// Index of the stack reserved for the double-fault handler.
pub const DOUBLE_FAULT_IST_INDEX: u16 = 0;

/// What a vector is bound to.
#[derive(Debug, Clone, Copy, PartialEq, Eq, Structural)]
pub enum Handler {
    /// The handler of a CPU exception.
    Fault(Exception),
    /// The handler of a device line with a fixed vector.
    Device(InterruptIndex),
    /// The handler of a device vector no driver claims.
    Unassigned,
}

/// The stack a handler runs on.
#[derive(Debug, Clone, Copy, PartialEq, Eq, Structural)]
pub enum Stack {
    /// Whatever stack was in use when the interrupt arrived.
    Interrupted,
    /// A stack set aside for this handler, by its index in the table of
    /// reserved stacks.
    Reserved(u16),
}

/// One entry of the dispatch table.
#[derive(Debug, Clone, Copy, PartialEq, Eq, Structural)]
pub struct Entry {
    pub handler: Handler,
    pub stack: Stack,
}

/// What a call of [`init`] asks its caller to do.
#[derive(Debug, Clone, Copy, PartialEq, Eq, Structural)]
pub enum Load {
    /// Install the table into the CPU.
    Install,
    /// The table is installed already; there is nothing to do.
    AlreadyInstalled,
}

/// The handler bound to `vector`.
pub open spec fn handler_of(vector: u8) -> Handler {
    if vector < FIRST_DEVICE_VECTOR {
        Handler::Fault(Exception::at(vector))
    } else {
        match InterruptIndex::of_vector(vector) {
            Some(line) => Handler::Device(line),
            None => Handler::Unassigned,
        }
    }
}

/// The entry of `vector`. The double fault runs on a stack of its own, since
/// the stack it interrupts may be the very thing that is broken; every other
/// handler runs on the interrupted stack.
pub open spec fn binding(vector: u8) -> Entry {
    Entry {
        handler: handler_of(vector),
        stack: if handler_of(vector) == Handler::Fault(Exception::DoubleFault) {
            Stack::Reserved(DOUBLE_FAULT_IST_INDEX)
        } else {
            Stack::Interrupted
        },
    }
}

/// Computes the entry of one vector.
pub fn bind(vector: u8) -> (entry: Entry)
    ensures
        entry == binding(vector),
{
    if vector < FIRST_DEVICE_VECTOR {
        let exception = Exception::from_vector(vector);
        let stack = match exception {
            Exception::DoubleFault => Stack::Reserved(DOUBLE_FAULT_IST_INDEX),
            _ => Stack::Interrupted,
        };
        Entry { handler: Handler::Fault(exception), stack }
    } else {
        let handler = match InterruptIndex::from_u8(vector) {
            Some(line) => Handler::Device(line),
            None => Handler::Unassigned,
        };
        Entry { handler, stack: Stack::Interrupted }
    }
}

/// The dispatch table.
#[derive(Debug)]
pub struct InterruptDescriptorTable {
    entries: Vec<Entry>,
    loaded: bool,
}

impl InterruptDescriptorTable {
    #[verifier::type_invariant]
    spec fn well_formed(self) -> bool {
        &&& self.entries@.len() == VECTORS
        &&& forall|vector: u8| #[trigger] self.entries@[vector as int] == binding(vector)
    }

    /// The entry `vector` is bound to. Every vector has exactly this one.
    pub closed spec fn bound(&self, vector: u8) -> Entry {
        self.entries@[vector as int]
    }

    /// Whether the table has been handed out for installation.
    pub closed spec fn installed(&self) -> bool {
        self.loaded
    }

    /// Builds the table. Nothing is installed yet.
    pub fn new() -> (idt: Self)
        ensures
            !idt.installed(),
            forall|vector: u8| #[trigger] idt.bound(vector) == binding(vector),
    {
        let mut entries: Vec<Entry> = Vec::new();
        let mut vector: usize = 0;
        while vector < VECTORS
            invariant
                0 <= vector <= VECTORS,
                entries@.len() == vector,
                forall|v: u8| v < vector ==> #[trigger] entries@[v as int] == binding(v),
            decreases VECTORS - vector,
        {
            entries.push(bind(vector as u8));
            vector = vector + 1;
        }
        InterruptDescriptorTable { entries, loaded: false }
    }

    pub fn is_loaded(&self) -> (loaded: bool)
        ensures
            loaded == self.installed(),
    {
        self.loaded
    }

    /// The entry of `vector`.
    pub fn entry(&self, vector: u8) -> (entry: Entry)
        ensures
            entry == self.bound(vector),
            entry == binding(vector),
    {
        proof {
            use_type_invariant(self);
        }
        self.entries[vector as usize]
    }

    /// Marks the table installed. The first call answers `Install`; every
    /// later call answers `AlreadyInstalled`. No call changes a binding.
    pub fn load(&mut self) -> (load: Load)
        ensures
            final(self).installed(),
            load == if old(self).installed() {
                Load::AlreadyInstalled
            } else {
                Load::Install
            },
            forall|vector: u8| #[trigger]
                final(self).bound(vector) == old(self).bound(vector) && final(self).bound(vector)
                    == binding(vector),
    {
        proof {
            use_type_invariant(&*self);
        }
        if self.loaded {
            Load::AlreadyInstalled
        } else {
            self.loaded = true;
            Load::Install
        }
    }
}

/// Loads the dispatch table. Loading a table that is loaded already is a
/// no-op.
pub fn init(idt: &mut InterruptDescriptorTable) -> (load: Load)
    ensures
        final(idt).installed(),
        load == if old(idt).installed() {
            Load::AlreadyInstalled
        } else {
            Load::Install
        },
        forall|vector: u8| #[trigger]
            final(idt).bound(vector) == old(idt).bound(vector) && final(idt).bound(vector)
                == binding(vector),
{
    idt.load()
}

/// Dispatches a CPU exception to its handler.
///
/// `error_code` is what the CPU pushed, or anything if it pushed nothing;
/// `address` is the content of the fault address register. The report keeps
/// each only where the exception defines it.
pub fn exception(
    idt: &InterruptDescriptorTable,
    vector: u8,
    stack_frame: InterruptStackFrame,
    error_code: u64,
    address: u64,
) -> (report: Report)
    requires
        vector < FIRST_DEVICE_VECTOR,
    ensures
        report == report_of(
            Exception::at(vector),
            stack_frame,
            if Exception::at(vector).has_error_code() {
                Some(error_code)
            } else {
                None
            },
            if Exception::at(vector) == Exception::PageFault {
                Some(address)
            } else {
                None
            },
        ),
{
    match idt.entry(vector).handler {
        Handler::Fault(exception) => match exception {
            Exception::DivideError => handler::divide_error_handler(stack_frame),
            Exception::Debug => handler::debug_handler(stack_frame),
            Exception::NonMaskableInterrupt => handler::non_maskable_interrupt_handler(stack_frame),
            Exception::Breakpoint => handler::breakpoint_handler(stack_frame),
            Exception::Overflow => handler::overflow_handler(stack_frame),
            Exception::BoundRangeExceeded => handler::bound_range_exceeded_handler(stack_frame),
            Exception::InvalidOpcode => handler::invalid_opcode_handler(stack_frame),
            Exception::DeviceNotAvailable => handler::device_not_available_handler(stack_frame),
            Exception::DoubleFault => handler::double_fault_handler(stack_frame, error_code),
            Exception::InvalidTss => handler::invalid_tss_handler(stack_frame, error_code),
            Exception::SegmentNotPresent => handler::segment_not_present_handler(
                stack_frame,
                error_code,
            ),
            Exception::StackSegmentFault => handler::stack_segment_fault_handler(
                stack_frame,
                error_code,
            ),
            Exception::GeneralProtectionFault => handler::general_protection_fault_handler(
                stack_frame,
                error_code,
            ),
            Exception::PageFault => handler::page_fault_handler(stack_frame, error_code, address),
            Exception::X87FloatingPoint => handler::x87_floating_point_handler(stack_frame),
            Exception::AlignmentCheck => handler::alignment_check_handler(stack_frame, error_code),
            Exception::MachineCheck => handler::machine_check_handler(stack_frame),
            Exception::SimdFloatingPoint => handler::simd_floating_point_handler(stack_frame),
            Exception::Virtualization => handler::virtualization_handler(stack_frame),
            Exception::CpProtectionException => handler::cp_protection_exception_handler(
                stack_frame,
                error_code,
            ),
            Exception::HvInjectionException => handler::hv_injection_exception_handler(
                stack_frame,
            ),
            Exception::VmmCommunicationException => handler::vmm_communication_exception_handler(
                stack_frame,
                error_code,
            ),
            Exception::SecurityException => handler::security_exception_handler(
                stack_frame,
                error_code,
            ),
            Exception::Reserved => handler::reserved_exception_handler(stack_frame),
        },
        _ => handler::reserved_exception_handler(stack_frame),
    }
}

/// Dispatches a hardware interrupt to its handler.
///
/// `data` is the byte read from the data register of the device that raised
/// the interrupt; handlers of devices without one ignore it. Whatever the
/// vector and whatever the handler decides, the writes returned signal
/// end-of-interrupt exactly once, as the last thing to do. Only the keyboard
/// has a payload: the character its scancode completes, if any, is handed to
/// the bridge.
pub fn interrupt(
    idt: &InterruptDescriptorTable,
    vector: u8,
    data: u8,
    keyboard: &mut Decoder,
    lapic: &LApic,
    bridge: &mut Bridge,
) -> (served: Served)
    requires
        vector >= FIRST_DEVICE_VECTOR,
        lapic.ready(),
    ensures
        served.writes@ == acknowledgement(),
        acknowledges(served.writes@),
        handler_of(vector) != Handler::Device(InterruptIndex::Keyboard) ==> {
            &&& *final(keyboard) == *old(keyboard)
            &&& final(bridge)@ == old(bridge)@
            &&& served.delivery is None
        },
        handler_of(vector) == Handler::Device(InterruptIndex::Keyboard) ==> {
            &&& scancodes(*final(keyboard)) == scancodes(*old(keyboard)).push(data)
            &&& events(*final(keyboard)) == mapped_after(
                scancodes(*old(keyboard)),
                events(*old(keyboard)),
                data,
            )
            &&& match character_of(
                decoded(scancodes(*old(keyboard)), events(*old(keyboard)), data),
            ) {
                Some(c) => (final(bridge)@, served.delivery) == (
                    pushed(old(bridge)@, c).0,
                    Some(pushed(old(bridge)@, c).1),
                ),
                None => final(bridge)@ == old(bridge)@ && served.delivery is None,
            }
        },
{
    match idt.entry(vector).handler {
        Handler::Device(InterruptIndex::Timer) => handler::timer_interrupt_handler(lapic),
        Handler::Device(InterruptIndex::Keyboard) => handler::keyboard_interrupt_handler(
            keyboard,
            data,
            lapic,
            bridge,
        ),
        _ => handler::unassigned_interrupt_handler(lapic),
    }
}

/// Every vector is bound, to one handler: exceptions below 32, the timer on
/// 32, the keyboard on 33, and the acknowledging handler above. Only the
/// double fault runs on a reserved stack.
pub proof fn lemma_every_vector_bound(vector: u8)
    ensures
        vector < 32 <==> binding(vector).handler is Fault,
        vector == 32 <==> binding(vector).handler == Handler::Device(InterruptIndex::Timer),
        vector == 33 <==> binding(vector).handler == Handler::Device(InterruptIndex::Keyboard),
        vector > 33 <==> binding(vector).handler == Handler::Unassigned,
        binding(vector).stack is Reserved <==> vector == 8,
        binding(vector).handler matches Handler::Fault(e) ==> (e.vector() matches Some(v) ==> v
            == vector),
{
}

} // verus!
