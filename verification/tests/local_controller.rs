use kernel::apic::lapic::disable_legacy;
use kernel::apic::lapic::LApic;
use kernel::apic::lapic::Phase;
use kernel::apic::lapic::PortWrite;
use kernel::apic::lapic::RegisterWrite;
use kernel::apic::lapic::Synchronization;
use kernel::apic::lapic::MAX_DELIVERY_POLLS;

fn write(offset: u32, value: u32) -> RegisterWrite {
    RegisterWrite { offset, value }
}

fn port(port: u16, value: u8) -> PortWrite {
    PortWrite { port, value }
}

fn ready() -> LApic {
    let mut lapic = LApic::new();
    lapic.init(0xffff_8000_fee0_0000, 0x0300_0000, 0x0005_0014);
    assert_eq!(lapic.synchronize(0), Synchronization::Complete(write(0x080, 0)));
    lapic
}

#[test]
fn legacy_controller_is_remapped_then_masked() {
    let ports = disable_legacy();
    assert_eq!(
        ports,
        vec![
            port(0x20, 0x11),
            port(0xa0, 0x11),
            port(0x80, 0),
            port(0x21, 0xf8),
            port(0xa1, 0xff),
            port(0x80, 0),
            port(0x21, 0x04),
            port(0x80, 0),
            port(0xa1, 0x02),
            port(0x80, 0),
            port(0x21, 0x01),
            port(0xa1, 0x01),
            port(0x80, 0),
            port(0x21, 0xff),
            port(0xa1, 0xff),
        ]
    );
}

#[test]
fn bring_up_writes_in_protocol_order_with_performance_line() {
    let mut lapic = LApic::new();
    assert_eq!(lapic.phase(), Phase::Uninitialized);
    let program = lapic.init(0x1000, 0x0200_0000, 0x0005_0014);
    assert_eq!(program.ports, disable_legacy());
    assert_eq!(
        program.registers,
        vec![
            write(0x0f0, 0x1ff),
            write(0x3e0, 0xb),
            write(0x320, 0x2_0020),
            write(0x380, 10_000_000),
            write(0x350, 0x1_0000),
            write(0x360, 0x1_0000),
            write(0x340, 0x1_0000),
            write(0x370, 51),
            write(0x280, 0),
            write(0x280, 0),
            write(0x0b0, 0),
            write(0x310, 0),
            write(0x300, 0x8_8500),
        ]
    );
    assert_eq!(lapic.phase(), Phase::Synchronizing { polls: 0 });
    assert_eq!(lapic.base(), 0x1000);
}

#[test]
fn bring_up_skips_performance_line_on_old_hardware() {
    let mut lapic = LApic::new();
    let program = lapic.init(0x1000, 0, 0x0003_0010);
    assert_eq!(program.registers.len(), 12);
    assert!(program.registers.iter().all(|w| w.offset != 0x340));
    assert_eq!(program.registers[6], write(0x370, 51));
}

#[test]
fn timer_vector_and_mode_are_packed_into_timer_entry() {
    assert_eq!(0x2_0020u32, (1 << 17) | 32);
    assert_eq!(0x1ffu32, (1 << 8) | 0xff);
    assert_eq!(0x8_8500u32, 0x8_0000 | 0x500 | 0x8000);
}

#[test]
fn synchronize_retries_while_pending_then_completes() {
    let mut lapic = LApic::new();
    lapic.init(0x1000, 0x0700_0000, 0x0005_0014);
    assert_eq!(lapic.synchronize(0x1000), Synchronization::Retry);
    assert_eq!(lapic.phase(), Phase::Synchronizing { polls: 1 });
    assert_eq!(lapic.synchronize(0x8_9500), Synchronization::Retry);
    assert_eq!(lapic.phase(), Phase::Synchronizing { polls: 2 });
    assert_eq!(lapic.synchronize(0x8_8500), Synchronization::Complete(write(0x080, 0)));
    assert_eq!(lapic.phase(), Phase::Ready { enabled: true });
    assert!(lapic.is_ready());
    assert_eq!(lapic.id(), 7);
}

#[test]
fn synchronize_gives_up_after_the_last_permitted_read() {
    let mut lapic = LApic::new();
    lapic.init(0x1000, 0, 0);
    for _ in 0..MAX_DELIVERY_POLLS - 1 {
        assert_eq!(lapic.synchronize(0x1000), Synchronization::Retry);
    }
    assert_eq!(lapic.synchronize(0x1000), Synchronization::TimedOut);
    assert_eq!(lapic.phase(), Phase::Failed);
    assert!(!lapic.is_ready());
    assert_eq!(lapic.synchronize(0), Synchronization::Idle);
    assert_eq!(lapic.phase(), Phase::Failed);
}

#[test]
fn synchronize_is_idle_outside_bring_up() {
    let mut lapic = LApic::new();
    assert_eq!(lapic.synchronize(0), Synchronization::Idle);
    assert_eq!(lapic.phase(), Phase::Uninitialized);
    let mut lapic = ready();
    assert_eq!(lapic.synchronize(0x1000), Synchronization::Idle);
    assert_eq!(lapic.phase(), Phase::Ready { enabled: true });
}

#[test]
fn identifier_is_the_top_byte_of_the_id_register() {
    let mut lapic = LApic::new();
    lapic.init(0x1000, 0xab12_3456, 0);
    lapic.synchronize(0);
    assert_eq!(lapic.id(), 0xab);
}

#[test]
fn enable_and_disable_toggle_the_enable_bit() {
    let mut lapic = ready();
    assert_eq!(lapic.disable(), write(0x0f0, 0x0ff));
    assert_eq!(lapic.phase(), Phase::Ready { enabled: false });
    assert_eq!(lapic.enable(), write(0x0f0, 0x1ff));
    assert_eq!(lapic.phase(), Phase::Ready { enabled: true });
    assert_eq!(lapic.id(), 3);
    assert_eq!(lapic.base(), 0xffff_8000_fee0_0000);
}

#[test]
fn end_of_interrupt_is_a_single_zero_write() {
    let lapic = ready();
    assert_eq!(lapic.end_inferrupts(), write(0x0b0, 0));
}

#[test]
fn init_restarts_bring_up() {
    let mut lapic = ready();
    lapic.init(0x2000, 0x0100_0000, 0);
    assert_eq!(lapic.phase(), Phase::Synchronizing { polls: 0 });
    assert_eq!(lapic.base(), 0x2000);
}
