use kernel::apic::lapic::LApic;
use kernel::apic::lapic::RegisterWrite;
use kernel::interrupts::bind;
use kernel::interrupts::exception;
use kernel::interrupts::handler;
use kernel::interrupts::handler::Class;
use kernel::interrupts::handler::Exception;
use kernel::interrupts::handler::InterruptStackFrame;
use kernel::interrupts::handler::Resolution;
use kernel::interrupts::index::InterruptIndex;
use kernel::interrupts::init;
use kernel::interrupts::interrupt;
use kernel::interrupts::Entry;
use kernel::interrupts::Handler;
use kernel::interrupts::InterruptDescriptorTable;
use kernel::interrupts::Load;
use kernel::interrupts::Stack;
use kernel::task::keyboard::Decoder;
use kernel::task::shell::Bridge;
use kernel::task::shell::CharStream;
use kernel::task::shell::Delivery;
use kernel::task::TaskId;
use pc_keyboard::DecodedKey;
use pc_keyboard::KeyCode;

const EXCEPTIONS: [(u8, Exception, &str, bool); 23] = [
    (0, Exception::DivideError, "EXCEPTION: DIVIDE ERROR", false),
    (1, Exception::Debug, "EXCEPTION: DEBUG", false),
    (2, Exception::NonMaskableInterrupt, "EXCEPTION: NON MASKABLE INTERRUPT", false),
    (3, Exception::Breakpoint, "EXCEPTION: BREAKPOINT", false),
    (4, Exception::Overflow, "EXCEPTION: OVERFLOW", false),
    (5, Exception::BoundRangeExceeded, "EXCEPTION: BOUND RANGE EXCEEDED", false),
    (6, Exception::InvalidOpcode, "EXCEPTION: INVALID OPCODE", false),
    (7, Exception::DeviceNotAvailable, "EXCEPTION: DEVICE NOT AVAILABLE", false),
    (8, Exception::DoubleFault, "EXCEPTION: DOUBLE FAULT", true),
    (10, Exception::InvalidTss, "EXCEPTION: INVALID TSS", true),
    (11, Exception::SegmentNotPresent, "EXCEPTION: SEGMENT NOT PRESENT", true),
    (12, Exception::StackSegmentFault, "EXCEPTION: STACK SEGMENT FAULT", true),
    (13, Exception::GeneralProtectionFault, "EXCEPTION: GENERAL PROTECTION FAULT", true),
    (14, Exception::PageFault, "EXCEPTION: PAGE FAULT", true),
    (16, Exception::X87FloatingPoint, "EXCEPTION: X87 FLOATING POINT", false),
    (17, Exception::AlignmentCheck, "EXCEPTION: ALIGNMENT CHECK", true),
    (18, Exception::MachineCheck, "EXCEPTION: MACHINE CHECK", false),
    (19, Exception::SimdFloatingPoint, "EXCEPTION: SIMD FLOATING POINT", false),
    (20, Exception::Virtualization, "EXCEPTION: VIRTUALIZATION", false),
    (21, Exception::CpProtectionException, "EXCEPTION: CP PROTECTION EXCEPTION", true),
    (28, Exception::HvInjectionException, "EXCEPTION: HV INJECTION EXCEPTION", false),
    (29, Exception::VmmCommunicationException, "EXCEPTION: VMM COMMUNICATION EXCEPTION", true),
    (30, Exception::SecurityException, "EXCEPTION: SECURITY EXCEPTION", true),
];

const RESERVED: [u8; 9] = [9, 15, 22, 23, 24, 25, 26, 27, 31];

fn frame() -> InterruptStackFrame {
    InterruptStackFrame {
        instruction_pointer: 0xffff_8000_0010_2030,
        code_segment: 8,
        cpu_flags: 0x202,
        stack_pointer: 0xffff_8000_0020_0000,
        stack_segment: 0,
    }
}

fn ready() -> LApic {
    let mut lapic = LApic::new();
    lapic.init(0x1000, 0, 0x0005_0014);
    lapic.synchronize(0);
    lapic
}

fn eoi() -> Vec<RegisterWrite> {
    vec![RegisterWrite { offset: 0x0b0, value: 0 }]
}

#[test]
fn every_vector_is_bound_after_load() {
    let mut idt = InterruptDescriptorTable::new();
    assert!(!idt.is_loaded());
    assert_eq!(init(&mut idt), Load::Install);
    assert!(idt.is_loaded());
    for vector in 0..=255u8 {
        let entry = idt.entry(vector);
        assert_eq!(entry, bind(vector));
        let expected = if let Some((_, e, _, _)) = EXCEPTIONS.iter().find(|x| x.0 == vector) {
            Handler::Fault(*e)
        } else if vector < 32 {
            assert!(RESERVED.contains(&vector));
            Handler::Fault(Exception::Reserved)
        } else if vector == 32 {
            Handler::Device(InterruptIndex::Timer)
        } else if vector == 33 {
            Handler::Device(InterruptIndex::Keyboard)
        } else {
            Handler::Unassigned
        };
        assert_eq!(entry.handler, expected);
    }
}

#[test]
fn loading_twice_changes_nothing() {
    let mut idt = InterruptDescriptorTable::new();
    assert_eq!(init(&mut idt), Load::Install);
    let before: Vec<Entry> = (0..=255u8).map(|v| idt.entry(v)).collect();
    assert_eq!(init(&mut idt), Load::AlreadyInstalled);
    assert_eq!(idt.load(), Load::AlreadyInstalled);
    assert!(idt.is_loaded());
    let after: Vec<Entry> = (0..=255u8).map(|v| idt.entry(v)).collect();
    assert_eq!(before, after);
}

#[test]
fn only_the_double_fault_runs_on_a_reserved_stack() {
    let idt = InterruptDescriptorTable::new();
    for vector in 0..=255u8 {
        let expected = if vector == 8 { Stack::Reserved(0) } else { Stack::Interrupted };
        assert_eq!(idt.entry(vector).stack, expected);
    }
}

#[test]
fn exceptions_are_classified() {
    for (_, exception, title, _) in EXCEPTIONS {
        let expected = match exception {
            Exception::Breakpoint => Class::Benign,
            Exception::PageFault => Class::ReportAndHalt,
            _ => Class::Fatal,
        };
        assert_eq!(exception.class(), expected);
        assert_eq!(exception.title(), title);
    }
    assert_eq!(Exception::Reserved.class(), Class::Fatal);
    assert_eq!(Exception::Reserved.title(), "EXCEPTION: RESERVED VECTOR");
}

#[test]
fn exceptions_map_to_their_vectors() {
    for (vector, exception, _, _) in EXCEPTIONS {
        assert_eq!(Exception::from_vector(vector), exception);
    }
    for vector in RESERVED {
        assert_eq!(Exception::from_vector(vector), Exception::Reserved);
    }
    assert_eq!(Exception::from_vector(32), Exception::Reserved);
    assert_eq!(Exception::from_vector(255), Exception::Reserved);
}

#[test]
fn dispatch_reports_each_exception() {
    let idt = InterruptDescriptorTable::new();
    for (vector, exception, _, coded) in EXCEPTIONS {
        let report = exception_report(&idt, vector);
        assert_eq!(report.exception, exception);
        assert_eq!(report.stack_frame, frame());
        assert_eq!(report.error_code, if coded { Some(0xdead) } else { None });
        assert_eq!(report.address, if vector == 14 { Some(0xbeef) } else { None });
        let resolution = if vector == 3 { Resolution::Resume } else { Resolution::Halt };
        assert_eq!(report.resolution, resolution);
    }
    for vector in RESERVED {
        let report = exception_report(&idt, vector);
        assert_eq!(report.exception, Exception::Reserved);
        assert_eq!(report.resolution, Resolution::Halt);
        assert_eq!(report.error_code, None);
    }
}

fn exception_report(idt: &InterruptDescriptorTable, vector: u8) -> handler::Report {
    exception(idt, vector, frame(), 0xdead, 0xbeef)
}

#[test]
fn breakpoint_resumes() {
    let report = handler::breakpoint_handler(frame());
    assert_eq!(report.exception, Exception::Breakpoint);
    assert_eq!(report.resolution, Resolution::Resume);
    assert_eq!(report.error_code, None);
    assert_eq!(report.address, None);
}

#[test]
fn page_fault_reports_address_and_code_then_halts() {
    let report = handler::page_fault_handler(frame(), 2, 0xdead_beef);
    assert_eq!(report.exception, Exception::PageFault);
    assert_eq!(report.error_code, Some(2));
    assert_eq!(report.address, Some(0xdead_beef));
    assert_eq!(report.resolution, Resolution::Halt);
    assert_eq!(report.stack_frame, frame());
}

#[test]
fn fatal_handlers_halt() {
    assert_eq!(handler::divide_error_handler(frame()).resolution, Resolution::Halt);
    assert_eq!(handler::debug_handler(frame()).exception, Exception::Debug);
    assert_eq!(
        handler::non_maskable_interrupt_handler(frame()).exception,
        Exception::NonMaskableInterrupt
    );
    assert_eq!(handler::overflow_handler(frame()).exception, Exception::Overflow);
    assert_eq!(
        handler::bound_range_exceeded_handler(frame()).exception,
        Exception::BoundRangeExceeded
    );
    assert_eq!(handler::invalid_opcode_handler(frame()).exception, Exception::InvalidOpcode);
    assert_eq!(
        handler::device_not_available_handler(frame()).exception,
        Exception::DeviceNotAvailable
    );
    let double = handler::double_fault_handler(frame(), 0);
    assert_eq!(double.exception, Exception::DoubleFault);
    assert_eq!(double.error_code, Some(0));
    assert_eq!(double.resolution, Resolution::Halt);
    assert_eq!(handler::invalid_tss_handler(frame(), 1).error_code, Some(1));
    assert_eq!(handler::segment_not_present_handler(frame(), 2).error_code, Some(2));
    assert_eq!(handler::stack_segment_fault_handler(frame(), 3).error_code, Some(3));
    let gpf = handler::general_protection_fault_handler(frame(), 4);
    assert_eq!(gpf.exception, Exception::GeneralProtectionFault);
    assert_eq!(gpf.error_code, Some(4));
    assert_eq!(gpf.resolution, Resolution::Halt);
    assert_eq!(handler::x87_floating_point_handler(frame()).error_code, None);
    assert_eq!(handler::alignment_check_handler(frame(), 5).error_code, Some(5));
    assert_eq!(handler::machine_check_handler(frame()).resolution, Resolution::Halt);
    assert_eq!(
        handler::simd_floating_point_handler(frame()).exception,
        Exception::SimdFloatingPoint
    );
    assert_eq!(handler::virtualization_handler(frame()).exception, Exception::Virtualization);
    assert_eq!(handler::cp_protection_exception_handler(frame(), 6).error_code, Some(6));
    assert_eq!(
        handler::hv_injection_exception_handler(frame()).exception,
        Exception::HvInjectionException
    );
    assert_eq!(handler::vmm_communication_exception_handler(frame(), 7).error_code, Some(7));
    assert_eq!(handler::security_exception_handler(frame(), 8).error_code, Some(8));
    assert_eq!(handler::reserved_exception_handler(frame()).exception, Exception::Reserved);
}

#[test]
fn every_hardware_interrupt_is_acknowledged_exactly_once() {
    let idt = InterruptDescriptorTable::new();
    let lapic = ready();
    let mut keyboard = Decoder::new();
    let mut bridge = Bridge::new();
    CharStream::new(&mut bridge);
    for vector in 32..=255u8 {
        for data in [0x00u8, 0x1e, 0x9e, 0xe0, 0xff] {
            let served = interrupt(&idt, vector, data, &mut keyboard, &lapic, &mut bridge);
            assert_eq!(served.writes, eoi());
            let count = served.writes.iter().filter(|w| w.offset == 0x0b0).count();
            assert_eq!(count, 1);
            assert_eq!(served.writes.last().unwrap().offset, 0x0b0);
            if vector != 33 {
                assert_eq!(served.delivery, None);
            }
        }
    }
    assert_eq!(bridge.pop(), Some('a'));
    assert_eq!(bridge.pop(), None);
}

#[test]
fn timer_only_acknowledges() {
    let lapic = ready();
    let served = handler::timer_interrupt_handler(&lapic);
    assert_eq!(served.delivery, None);
    assert_eq!(served.writes, eoi());
    let served = handler::unassigned_interrupt_handler(&lapic);
    assert_eq!(served.delivery, None);
    assert_eq!(served.writes, eoi());
}

#[test]
fn keyboard_hands_its_character_to_the_bridge() {
    let lapic = ready();
    let mut keyboard = Decoder::new();
    let mut bridge = Bridge::new();
    CharStream::new(&mut bridge);
    bridge.register(TaskId(5));
    let served = handler::keyboard_interrupt_handler(&mut keyboard, 0x1e, &lapic, &mut bridge);
    assert_eq!(served.delivery, Some(Delivery::Queued { wake: Some(TaskId(5)) }));
    assert_eq!(served.writes, eoi());
    let served = handler::keyboard_interrupt_handler(&mut keyboard, 0x9e, &lapic, &mut bridge);
    assert_eq!(served.delivery, None);
    assert_eq!(served.writes, eoi());
    assert_eq!(bridge.len(), 1);
    assert_eq!(bridge.pop(), Some('a'));
}

#[test]
fn keyboard_reports_a_full_or_missing_queue() {
    let lapic = ready();
    let mut keyboard = Decoder::new();
    let mut bridge = Bridge::new();
    let served = handler::keyboard_interrupt_handler(&mut keyboard, 0x1e, &lapic, &mut bridge);
    assert_eq!(served.delivery, Some(Delivery::Uninitialized));
    assert_eq!(served.writes, eoi());
    CharStream::new(&mut bridge);
    for _ in 0..100 {
        handler::deliver_key(Some(DecodedKey::Unicode('x')), &lapic, &mut bridge);
    }
    let served = handler::keyboard_interrupt_handler(&mut keyboard, 0x30, &lapic, &mut bridge);
    assert_eq!(served.delivery, Some(Delivery::Dropped));
    assert_eq!(served.writes, eoi());
    assert_eq!(bridge.dropped(), 1);
}

#[test]
fn keys_without_a_character_carry_no_payload() {
    let lapic = ready();
    let mut bridge = Bridge::new();
    CharStream::new(&mut bridge);
    let served = handler::deliver_key(Some(DecodedKey::RawKey(KeyCode::LShift)), &lapic, &mut bridge);
    assert_eq!(served.delivery, None);
    assert_eq!(served.writes, eoi());
    let served = handler::deliver_key(None, &lapic, &mut bridge);
    assert_eq!(served.delivery, None);
    assert_eq!(bridge.len(), 0);
    let served = handler::deliver_key(Some(DecodedKey::Unicode('k')), &lapic, &mut bridge);
    assert_eq!(served.delivery, Some(Delivery::Queued { wake: None }));
    assert_eq!(bridge.pop(), Some('k'));
}
