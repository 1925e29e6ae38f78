//! The handlers the dispatch table binds.
//!
//! A handler decides and leaves the acting to its caller. An exception
//! handler returns a report to print and says whether to halt or to resume.
//! A device handler hands its payload to the bridge and returns the register
//! writes that signal end-of-interrupt.

use crate::apic::lapic::end_of_interrupt_write;
use crate::apic::lapic::LApic;
use crate::apic::lapic::RegisterWrite;
use crate::apic::lapic::REG_END_OF_INTERRUPT;
use crate::task::keyboard::character;
use crate::task::keyboard::character_of;
use crate::task::keyboard::decoded;
use crate::task::keyboard::events;
use crate::task::keyboard::mapped_after;
use crate::task::keyboard::scancodes;
use crate::task::keyboard::Decoder;
use crate::task::shell::add_char;
use crate::task::shell::pushed;
use crate::task::shell::Bridge;
use crate::task::shell::Delivery;
use pc_keyboard::DecodedKey;
use vstd::prelude::*;

verus! {

/// What the CPU saved when it entered a handler.
#[derive(Debug, Clone, Copy, PartialEq, Eq, Structural)]
pub struct InterruptStackFrame {
    pub instruction_pointer: u64,
    pub code_segment: u64,
    pub cpu_flags: u64,
    pub stack_pointer: u64,
    pub stack_segment: u64,
}

/// The CPU-defined exceptions.
#[derive(Debug, Clone, Copy, PartialEq, Eq, Structural)]
pub enum Exception {
    DivideError,
    Debug,
    NonMaskableInterrupt,
    Breakpoint,
    Overflow,
    BoundRangeExceeded,
    InvalidOpcode,
    DeviceNotAvailable,
    DoubleFault,
    InvalidTss,
    SegmentNotPresent,
    StackSegmentFault,
    GeneralProtectionFault,
    PageFault,
    X87FloatingPoint,
    AlignmentCheck,
    MachineCheck,
    SimdFloatingPoint,
    Virtualization,
    CpProtectionException,
    HvInjectionException,
    VmmCommunicationException,
    SecurityException,
    /// A vector below 32 that the CPU defines no exception for.
    Reserved,
}

/// How an exception is treated.
#[derive(Debug, Clone, Copy, PartialEq, Eq, Structural)]
pub enum Class {
    /// The state of the machine cannot be trusted any more: report, then
    /// halt for good.
    Fatal,
    /// Nothing is wrong with the machine, but nothing can be done about the
    /// fault either: report it with its address, then halt.
    ReportAndHalt,
    /// Report and carry on at the next instruction.
    Benign,
}

/// What follows the report.
#[derive(Debug, Clone, Copy, PartialEq, Eq, Structural)]
pub enum Resolution {
    Halt,
    Resume,
}

/// What an exception handler asks its caller to print, and what to do then.
#[derive(Debug, Clone, Copy, PartialEq, Eq, Structural)]
pub struct Report {
    pub exception: Exception,
    pub stack_frame: InterruptStackFrame,
    /// The error code the CPU pushed, for the exceptions that come with one.
    pub error_code: Option<u64>,
    /// The address whose access faulted, for a page fault.
    pub address: Option<u64>,
    pub resolution: Resolution,
}

impl Exception {
    /// The vector the CPU raises this exception on.
    pub open spec fn vector(self) -> Option<u8> {
        match self {
            Exception::DivideError => Some(0u8),
            Exception::Debug => Some(1u8),
            Exception::NonMaskableInterrupt => Some(2u8),
            Exception::Breakpoint => Some(3u8),
            Exception::Overflow => Some(4u8),
            Exception::BoundRangeExceeded => Some(5u8),
            Exception::InvalidOpcode => Some(6u8),
            Exception::DeviceNotAvailable => Some(7u8),
            Exception::DoubleFault => Some(8u8),
            Exception::InvalidTss => Some(10u8),
            Exception::SegmentNotPresent => Some(11u8),
            Exception::StackSegmentFault => Some(12u8),
            Exception::GeneralProtectionFault => Some(13u8),
            Exception::PageFault => Some(14u8),
            Exception::X87FloatingPoint => Some(16u8),
            Exception::AlignmentCheck => Some(17u8),
            Exception::MachineCheck => Some(18u8),
            Exception::SimdFloatingPoint => Some(19u8),
            Exception::Virtualization => Some(20u8),
            Exception::CpProtectionException => Some(21u8),
            Exception::HvInjectionException => Some(28u8),
            Exception::VmmCommunicationException => Some(29u8),
            Exception::SecurityException => Some(30u8),
            Exception::Reserved => None,
        }
    }

    /// The exception the CPU raises on `vector`.
    pub open spec fn at(vector: u8) -> Exception {
        if vector == 0 {
            Exception::DivideError
        } else if vector == 1 {
            Exception::Debug
        } else if vector == 2 {
            Exception::NonMaskableInterrupt
        } else if vector == 3 {
            Exception::Breakpoint
        } else if vector == 4 {
            Exception::Overflow
        } else if vector == 5 {
            Exception::BoundRangeExceeded
        } else if vector == 6 {
            Exception::InvalidOpcode
        } else if vector == 7 {
            Exception::DeviceNotAvailable
        } else if vector == 8 {
            Exception::DoubleFault
        } else if vector == 10 {
            Exception::InvalidTss
        } else if vector == 11 {
            Exception::SegmentNotPresent
        } else if vector == 12 {
            Exception::StackSegmentFault
        } else if vector == 13 {
            Exception::GeneralProtectionFault
        } else if vector == 14 {
            Exception::PageFault
        } else if vector == 16 {
            Exception::X87FloatingPoint
        } else if vector == 17 {
            Exception::AlignmentCheck
        } else if vector == 18 {
            Exception::MachineCheck
        } else if vector == 19 {
            Exception::SimdFloatingPoint
        } else if vector == 20 {
            Exception::Virtualization
        } else if vector == 21 {
            Exception::CpProtectionException
        } else if vector == 28 {
            Exception::HvInjectionException
        } else if vector == 29 {
            Exception::VmmCommunicationException
        } else if vector == 30 {
            Exception::SecurityException
        } else {
            Exception::Reserved
        }
    }

    /// Whether the CPU pushes an error code when it raises this exception.
    pub open spec fn has_error_code(self) -> bool {
        match self {
            Exception::DoubleFault => true,
            Exception::InvalidTss => true,
            Exception::SegmentNotPresent => true,
            Exception::StackSegmentFault => true,
            Exception::GeneralProtectionFault => true,
            Exception::PageFault => true,
            Exception::AlignmentCheck => true,
            Exception::CpProtectionException => true,
            Exception::VmmCommunicationException => true,
            Exception::SecurityException => true,
            _ => false,
        }
    }

    /// How this exception is treated: a breakpoint is benign, a page fault is
    /// reported with its address, everything else is fatal.
    pub open spec fn class_of(self) -> Class {
        match self {
            Exception::Breakpoint => Class::Benign,
            Exception::PageFault => Class::ReportAndHalt,
            _ => Class::Fatal,
        }
    }

    /// The heading of this exception's report.
    pub open spec fn heading(self) -> Seq<char> {
        match self {
            Exception::DivideError => "EXCEPTION: DIVIDE ERROR"@,
            Exception::Debug => "EXCEPTION: DEBUG"@,
            Exception::NonMaskableInterrupt => "EXCEPTION: NON MASKABLE INTERRUPT"@,
            Exception::Breakpoint => "EXCEPTION: BREAKPOINT"@,
            Exception::Overflow => "EXCEPTION: OVERFLOW"@,
            Exception::BoundRangeExceeded => "EXCEPTION: BOUND RANGE EXCEEDED"@,
            Exception::InvalidOpcode => "EXCEPTION: INVALID OPCODE"@,
            Exception::DeviceNotAvailable => "EXCEPTION: DEVICE NOT AVAILABLE"@,
            Exception::DoubleFault => "EXCEPTION: DOUBLE FAULT"@,
            Exception::InvalidTss => "EXCEPTION: INVALID TSS"@,
            Exception::SegmentNotPresent => "EXCEPTION: SEGMENT NOT PRESENT"@,
            Exception::StackSegmentFault => "EXCEPTION: STACK SEGMENT FAULT"@,
            Exception::GeneralProtectionFault => "EXCEPTION: GENERAL PROTECTION FAULT"@,
            Exception::PageFault => "EXCEPTION: PAGE FAULT"@,
            Exception::X87FloatingPoint => "EXCEPTION: X87 FLOATING POINT"@,
            Exception::AlignmentCheck => "EXCEPTION: ALIGNMENT CHECK"@,
            Exception::MachineCheck => "EXCEPTION: MACHINE CHECK"@,
            Exception::SimdFloatingPoint => "EXCEPTION: SIMD FLOATING POINT"@,
            Exception::Virtualization => "EXCEPTION: VIRTUALIZATION"@,
            Exception::CpProtectionException => "EXCEPTION: CP PROTECTION EXCEPTION"@,
            Exception::HvInjectionException => "EXCEPTION: HV INJECTION EXCEPTION"@,
            Exception::VmmCommunicationException => "EXCEPTION: VMM COMMUNICATION EXCEPTION"@,
            Exception::SecurityException => "EXCEPTION: SECURITY EXCEPTION"@,
            Exception::Reserved => "EXCEPTION: RESERVED VECTOR"@,
        }
    }

    pub fn from_vector(vector: u8) -> (exception: Exception)
        ensures
            exception == Exception::at(vector),
            exception.vector() matches Some(v) ==> v == vector,
            vector >= 32 ==> exception == Exception::Reserved,
    {
        if vector == 0 {
            Exception::DivideError
        } else if vector == 1 {
            Exception::Debug
        } else if vector == 2 {
            Exception::NonMaskableInterrupt
        } else if vector == 3 {
            Exception::Breakpoint
        } else if vector == 4 {
            Exception::Overflow
        } else if vector == 5 {
            Exception::BoundRangeExceeded
        } else if vector == 6 {
            Exception::InvalidOpcode
        } else if vector == 7 {
            Exception::DeviceNotAvailable
        } else if vector == 8 {
            Exception::DoubleFault
        } else if vector == 10 {
            Exception::InvalidTss
        } else if vector == 11 {
            Exception::SegmentNotPresent
        } else if vector == 12 {
            Exception::StackSegmentFault
        } else if vector == 13 {
            Exception::GeneralProtectionFault
        } else if vector == 14 {
            Exception::PageFault
        } else if vector == 16 {
            Exception::X87FloatingPoint
        } else if vector == 17 {
            Exception::AlignmentCheck
        } else if vector == 18 {
            Exception::MachineCheck
        } else if vector == 19 {
            Exception::SimdFloatingPoint
        } else if vector == 20 {
            Exception::Virtualization
        } else if vector == 21 {
            Exception::CpProtectionException
        } else if vector == 28 {
            Exception::HvInjectionException
        } else if vector == 29 {
            Exception::VmmCommunicationException
        } else if vector == 30 {
            Exception::SecurityException
        } else {
            Exception::Reserved
        }
    }

    pub fn class(self) -> (class: Class)
        ensures
            class == self.class_of(),
    {
        match self {
            Exception::Breakpoint => Class::Benign,
            Exception::PageFault => Class::ReportAndHalt,
            _ => Class::Fatal,
        }
    }

    pub fn title(self) -> (title: &'static str)
        ensures
            title@ == self.heading(),
    {
        match self {
            Exception::DivideError => "EXCEPTION: DIVIDE ERROR",
            Exception::Debug => "EXCEPTION: DEBUG",
            Exception::NonMaskableInterrupt => "EXCEPTION: NON MASKABLE INTERRUPT",
            Exception::Breakpoint => "EXCEPTION: BREAKPOINT",
            Exception::Overflow => "EXCEPTION: OVERFLOW",
            Exception::BoundRangeExceeded => "EXCEPTION: BOUND RANGE EXCEEDED",
            Exception::InvalidOpcode => "EXCEPTION: INVALID OPCODE",
            Exception::DeviceNotAvailable => "EXCEPTION: DEVICE NOT AVAILABLE",
            Exception::DoubleFault => "EXCEPTION: DOUBLE FAULT",
            Exception::InvalidTss => "EXCEPTION: INVALID TSS",
            Exception::SegmentNotPresent => "EXCEPTION: SEGMENT NOT PRESENT",
            Exception::StackSegmentFault => "EXCEPTION: STACK SEGMENT FAULT",
            Exception::GeneralProtectionFault => "EXCEPTION: GENERAL PROTECTION FAULT",
            Exception::PageFault => "EXCEPTION: PAGE FAULT",
            Exception::X87FloatingPoint => "EXCEPTION: X87 FLOATING POINT",
            Exception::AlignmentCheck => "EXCEPTION: ALIGNMENT CHECK",
            Exception::MachineCheck => "EXCEPTION: MACHINE CHECK",
            Exception::SimdFloatingPoint => "EXCEPTION: SIMD FLOATING POINT",
            Exception::Virtualization => "EXCEPTION: VIRTUALIZATION",
            Exception::CpProtectionException => "EXCEPTION: CP PROTECTION EXCEPTION",
            Exception::HvInjectionException => "EXCEPTION: HV INJECTION EXCEPTION",
            Exception::VmmCommunicationException => "EXCEPTION: VMM COMMUNICATION EXCEPTION",
            Exception::SecurityException => "EXCEPTION: SECURITY EXCEPTION",
            Exception::Reserved => "EXCEPTION: RESERVED VECTOR",
        }
    }
}

/// What follows the report of an exception of class `class`.
pub open spec fn resolution_of(class: Class) -> Resolution {
    match class {
        Class::Benign => Resolution::Resume,
        _ => Resolution::Halt,
    }
}

/// The report of `exception`, raised with `stack_frame` saved, together
/// with the error code the CPU pushed and the address that faulted, where
/// there is one.
pub open spec fn report_of(
    exception: Exception,
    stack_frame: InterruptStackFrame,
    error_code: Option<u64>,
    address: Option<u64>,
) -> Report {
    Report {
        exception,
        stack_frame,
        error_code,
        address,
        resolution: resolution_of(exception.class_of()),
    }
}

/// Every exception but the breakpoint ends in a halt.
pub proof fn lemma_only_breakpoint_resumes(
    exception: Exception,
    stack_frame: InterruptStackFrame,
    error_code: Option<u64>,
    address: Option<u64>,
)
    ensures
        report_of(exception, stack_frame, error_code, address).resolution == Resolution::Resume
            <==> exception == Exception::Breakpoint,
{
}

/// Builds the report of an exception.
fn report(
    exception: Exception,
    stack_frame: InterruptStackFrame,
    error_code: Option<u64>,
    address: Option<u64>,
) -> (report: Report)
    ensures
        report == report_of(exception, stack_frame, error_code, address),
{
    let resolution = match exception.class() {
        Class::Benign => Resolution::Resume,
        _ => Resolution::Halt,
    };
    Report { exception, stack_frame, error_code, address, resolution }
}

/// Vector 0: divide error.
pub fn divide_error_handler(stack_frame: InterruptStackFrame) -> (report: Report)
    ensures
        report == report_of(Exception::DivideError, stack_frame, None, None),
        report.resolution == Resolution::Halt,
{
    self::report(Exception::DivideError, stack_frame, None, None)
}

/// Vector 1: debug.
pub fn debug_handler(stack_frame: InterruptStackFrame) -> (report: Report)
    ensures
        report == report_of(Exception::Debug, stack_frame, None, None),
        report.resolution == Resolution::Halt,
{
    self::report(Exception::Debug, stack_frame, None, None)
}

/// Vector 2: non-maskable interrupt.
pub fn non_maskable_interrupt_handler(stack_frame: InterruptStackFrame) -> (report: Report)
    ensures
        report == report_of(Exception::NonMaskableInterrupt, stack_frame, None, None),
        report.resolution == Resolution::Halt,
{
    self::report(Exception::NonMaskableInterrupt, stack_frame, None, None)
}

/// Vector 3: breakpoint. The only exception execution resumes after.
pub fn breakpoint_handler(stack_frame: InterruptStackFrame) -> (report: Report)
    ensures
        report == report_of(Exception::Breakpoint, stack_frame, None, None),
        report.resolution == Resolution::Resume,
{
    self::report(Exception::Breakpoint, stack_frame, None, None)
}

/// Vector 4: overflow.
pub fn overflow_handler(stack_frame: InterruptStackFrame) -> (report: Report)
    ensures
        report == report_of(Exception::Overflow, stack_frame, None, None),
        report.resolution == Resolution::Halt,
{
    self::report(Exception::Overflow, stack_frame, None, None)
}

/// Vector 5: bound range exceeded.
pub fn bound_range_exceeded_handler(stack_frame: InterruptStackFrame) -> (report: Report)
    ensures
        report == report_of(Exception::BoundRangeExceeded, stack_frame, None, None),
        report.resolution == Resolution::Halt,
{
    self::report(Exception::BoundRangeExceeded, stack_frame, None, None)
}

/// Vector 6: invalid opcode.
pub fn invalid_opcode_handler(stack_frame: InterruptStackFrame) -> (report: Report)
    ensures
        report == report_of(Exception::InvalidOpcode, stack_frame, None, None),
        report.resolution == Resolution::Halt,
{
    self::report(Exception::InvalidOpcode, stack_frame, None, None)
}

/// Vector 7: device not available.
pub fn device_not_available_handler(stack_frame: InterruptStackFrame) -> (report: Report)
    ensures
        report == report_of(Exception::DeviceNotAvailable, stack_frame, None, None),
        report.resolution == Resolution::Halt,
{
    self::report(Exception::DeviceNotAvailable, stack_frame, None, None)
}

/// Vector 8: double fault. The dispatch table has it run on a stack of its
/// own.
pub fn double_fault_handler(stack_frame: InterruptStackFrame, error_code: u64) -> (report: Report)
    ensures
        report == report_of(Exception::DoubleFault, stack_frame, Some(error_code), None),
        report.resolution == Resolution::Halt,
{
    self::report(Exception::DoubleFault, stack_frame, Some(error_code), None)
}

/// Vector 10: invalid task state segment.
pub fn invalid_tss_handler(stack_frame: InterruptStackFrame, error_code: u64) -> (report: Report)
    ensures
        report == report_of(Exception::InvalidTss, stack_frame, Some(error_code), None),
        report.resolution == Resolution::Halt,
{
    self::report(Exception::InvalidTss, stack_frame, Some(error_code), None)
}

/// Vector 11: segment not present.
pub fn segment_not_present_handler(stack_frame: InterruptStackFrame, error_code: u64) -> (report: Report)
    ensures
        report == report_of(Exception::SegmentNotPresent, stack_frame, Some(error_code), None),
        report.resolution == Resolution::Halt,
{
    self::report(Exception::SegmentNotPresent, stack_frame, Some(error_code), None)
}

/// Vector 12: stack segment fault.
pub fn stack_segment_fault_handler(stack_frame: InterruptStackFrame, error_code: u64) -> (report: Report)
    ensures
        report == report_of(Exception::StackSegmentFault, stack_frame, Some(error_code), None),
        report.resolution == Resolution::Halt,
{
    self::report(Exception::StackSegmentFault, stack_frame, Some(error_code), None)
}

/// Vector 13: general protection fault.
pub fn general_protection_fault_handler(stack_frame: InterruptStackFrame, error_code: u64) -> (report: Report)
    ensures
        report == report_of(Exception::GeneralProtectionFault, stack_frame, Some(error_code), None),
        report.resolution == Resolution::Halt,
{
    self::report(Exception::GeneralProtectionFault, stack_frame, Some(error_code), None)
}

/// Vector 14: page fault. `address` is the address whose access faulted.
/// Nothing is paged in: the fault is reported and the machine halts.
pub fn page_fault_handler(stack_frame: InterruptStackFrame, error_code: u64, address: u64) -> (report:
    Report)
    ensures
        report == report_of(Exception::PageFault, stack_frame, Some(error_code), Some(address)),
        report.resolution == Resolution::Halt,
{
    self::report(Exception::PageFault, stack_frame, Some(error_code), Some(address))
}

/// Vector 16: x87 floating point.
pub fn x87_floating_point_handler(stack_frame: InterruptStackFrame) -> (report: Report)
    ensures
        report == report_of(Exception::X87FloatingPoint, stack_frame, None, None),
        report.resolution == Resolution::Halt,
{
    self::report(Exception::X87FloatingPoint, stack_frame, None, None)
}

/// Vector 17: alignment check.
pub fn alignment_check_handler(stack_frame: InterruptStackFrame, error_code: u64) -> (report: Report)
    ensures
        report == report_of(Exception::AlignmentCheck, stack_frame, Some(error_code), None),
        report.resolution == Resolution::Halt,
{
    self::report(Exception::AlignmentCheck, stack_frame, Some(error_code), None)
}

/// Vector 18: machine check.
pub fn machine_check_handler(stack_frame: InterruptStackFrame) -> (report: Report)
    ensures
        report == report_of(Exception::MachineCheck, stack_frame, None, None),
        report.resolution == Resolution::Halt,
{
    self::report(Exception::MachineCheck, stack_frame, None, None)
}

/// Vector 19: SIMD floating point.
pub fn simd_floating_point_handler(stack_frame: InterruptStackFrame) -> (report: Report)
    ensures
        report == report_of(Exception::SimdFloatingPoint, stack_frame, None, None),
        report.resolution == Resolution::Halt,
{
    self::report(Exception::SimdFloatingPoint, stack_frame, None, None)
}

/// Vector 20: virtualization.
pub fn virtualization_handler(stack_frame: InterruptStackFrame) -> (report: Report)
    ensures
        report == report_of(Exception::Virtualization, stack_frame, None, None),
        report.resolution == Resolution::Halt,
{
    self::report(Exception::Virtualization, stack_frame, None, None)
}

/// Vector 21: control protection exception.
pub fn cp_protection_exception_handler(stack_frame: InterruptStackFrame, error_code: u64) -> (report: Report)
    ensures
        report == report_of(Exception::CpProtectionException, stack_frame, Some(error_code), None),
        report.resolution == Resolution::Halt,
{
    self::report(Exception::CpProtectionException, stack_frame, Some(error_code), None)
}

/// Vector 28: hypervisor injection exception.
pub fn hv_injection_exception_handler(stack_frame: InterruptStackFrame) -> (report: Report)
    ensures
        report == report_of(Exception::HvInjectionException, stack_frame, None, None),
        report.resolution == Resolution::Halt,
{
    self::report(Exception::HvInjectionException, stack_frame, None, None)
}

/// Vector 29: VMM communication exception.
pub fn vmm_communication_exception_handler(stack_frame: InterruptStackFrame, error_code: u64) -> (report: Report)
    ensures
        report == report_of(Exception::VmmCommunicationException, stack_frame, Some(error_code), None),
        report.resolution == Resolution::Halt,
{
    self::report(Exception::VmmCommunicationException, stack_frame, Some(error_code), None)
}

/// Vector 30: security exception.
pub fn security_exception_handler(stack_frame: InterruptStackFrame, error_code: u64) -> (report: Report)
    ensures
        report == report_of(Exception::SecurityException, stack_frame, Some(error_code), None),
        report.resolution == Resolution::Halt,
{
    self::report(Exception::SecurityException, stack_frame, Some(error_code), None)
}

/// A vector below 32 that the CPU defines no exception for.
pub fn reserved_exception_handler(stack_frame: InterruptStackFrame) -> (report: Report)
    ensures
        report == report_of(Exception::Reserved, stack_frame, None, None),
        report.resolution == Resolution::Halt,
{
    self::report(Exception::Reserved, stack_frame, None, None)
}

/// What a device handler did and what is left for its caller to do.
#[derive(Debug)]
pub struct Served {
    /// What became of the handler's payload, if it had one.
    pub delivery: Option<Delivery>,
    /// The register writes to perform before returning from the interrupt.
    pub writes: Vec<RegisterWrite>,
}

/// Number of end-of-interrupt signals among `writes`.
pub open spec fn signals(writes: Seq<RegisterWrite>) -> nat {
    writes.filter(|w: RegisterWrite| w.offset == REG_END_OF_INTERRUPT).len()
}

/// Whether `writes` signals end-of-interrupt exactly once, as its last
/// write.
pub open spec fn acknowledges(writes: Seq<RegisterWrite>) -> bool {
    &&& signals(writes) == 1
    &&& writes.len() > 0
    &&& writes.last() == end_of_interrupt_write()
}

/// The writes every device handler returns: the end-of-interrupt signal and
/// nothing else.
pub open spec fn acknowledgement() -> Seq<RegisterWrite> {
    seq![end_of_interrupt_write()]
}

/// The lone end-of-interrupt write signals exactly once, and last.
pub proof fn lemma_acknowledgement()
    ensures
        acknowledges(acknowledgement()),
{
    let writes = acknowledgement();
    let eoi = |w: RegisterWrite| w.offset == REG_END_OF_INTERRUPT;
    assert(writes.drop_last() =~= Seq::<RegisterWrite>::empty());
    reveal_with_fuel(Seq::filter, 2);
    assert(writes.filter(eoi) =~= seq![end_of_interrupt_write()]);
}

/// Builds the lone end-of-interrupt write.
fn acknowledge(lapic: &LApic) -> (writes: Vec<RegisterWrite>)
    requires
        lapic.ready(),
    ensures
        writes@ == acknowledgement(),
        acknowledges(writes@),
{
    let mut writes: Vec<RegisterWrite> = Vec::new();
    writes.push(lapic.end_inferrupts());
    assert(writes@ =~= acknowledgement());
    proof {
        lemma_acknowledgement();
    }
    writes
}

/// Vector 32: the periodic timer. It has no payload.
pub fn timer_interrupt_handler(lapic: &LApic) -> (served: Served)
    requires
        lapic.ready(),
    ensures
        served.delivery is None,
        served.writes@ == acknowledgement(),
        acknowledges(served.writes@),
{
    Served { delivery: None, writes: acknowledge(lapic) }
}

/// A device vector no driver is bound to: the interrupt is acknowledged and
/// otherwise ignored.
pub fn unassigned_interrupt_handler(lapic: &LApic) -> (served: Served)
    requires
        lapic.ready(),
    ensures
        served.delivery is None,
        served.writes@ == acknowledgement(),
        acknowledges(served.writes@),
{
    Served { delivery: None, writes: acknowledge(lapic) }
}

/// Hands the character of a decoded key to the bridge and acknowledges the
/// interrupt. A key that stands for no character is acknowledged and
/// otherwise ignored.
pub fn deliver_key(key: Option<DecodedKey>, lapic: &LApic, bridge: &mut Bridge) -> (served: Served)
    requires
        lapic.ready(),
    ensures
        served.writes@ == acknowledgement(),
        acknowledges(served.writes@),
        match character_of(key) {
            Some(c) => (final(bridge)@, served.delivery) == (
                pushed(old(bridge)@, c).0,
                Some(pushed(old(bridge)@, c).1),
            ),
            None => final(bridge)@ == old(bridge)@ && served.delivery is None,
        },
{
    let delivery = match character(key) {
        Some(c) => Some(add_char(bridge, c)),
        None => None,
    };
    Served { delivery, writes: acknowledge(lapic) }
}

/// Vector 33: keyboard.
///
/// `scancode` is the byte read from the keyboard's data register. If it
/// completes a key that stands for a character, the character is handed to
/// the bridge. Either way the interrupt is acknowledged exactly once.
pub fn keyboard_interrupt_handler(
    keyboard: &mut Decoder,
    scancode: u8,
    lapic: &LApic,
    bridge: &mut Bridge,
) -> (served: Served)
    requires
        lapic.ready(),
    ensures
        served.writes@ == acknowledgement(),
        acknowledges(served.writes@),
        scancodes(*final(keyboard)) == scancodes(*old(keyboard)).push(scancode),
        events(*final(keyboard)) == mapped_after(
            scancodes(*old(keyboard)),
            events(*old(keyboard)),
            scancode,
        ),
        match character_of(decoded(scancodes(*old(keyboard)), events(*old(keyboard)), scancode)) {
            Some(c) => (final(bridge)@, served.delivery) == (
                pushed(old(bridge)@, c).0,
                Some(pushed(old(bridge)@, c).1),
            ),
            None => final(bridge)@ == old(bridge)@ && served.delivery is None,
        },
{
    let key = keyboard.decode(scancode);
    deliver_key(key, lapic, bridge)
}

} // verus!
