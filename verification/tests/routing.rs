use kernel::apic::complete;
use kernel::apic::init;
use kernel::apic::ioapic;
use kernel::apic::ioapic::IoRegisterWrite;
use kernel::apic::ioapic::IrqMode;
use kernel::apic::ioapic::RoutingEntry;
use kernel::apic::lapic::LApic;
use kernel::apic::lapic::Phase;
use kernel::apic::lapic::RegisterWrite;
use kernel::apic::Progress;
use kernel::apic::phys_to_virt;
use kernel::apic::Apic;
use kernel::apic::BootError;
use kernel::apic::InterruptModel;
use kernel::apic::IoApic;
use kernel::apic::Views;

fn chip(id: u8, address: u32) -> IoApic {
    IoApic { id, address, global_system_interrupt_base: 24 * id as u32 }
}

fn ready(id_register: u32) -> LApic {
    let mut lapic = LApic::new();
    lapic.init(0x1000, id_register, 0x0005_0014);
    lapic.synchronize(0);
    lapic
}

#[test]
fn absent_discovery_data_is_fatal() {
    assert_eq!(init(None, 0), Err(BootError::NoPlatformData));
}

#[test]
fn platform_without_controllers_is_fatal() {
    assert_eq!(init(Some(&InterruptModel::Unknown), 0), Err(BootError::NoController));
}

#[test]
fn platform_without_routing_chip_is_fatal() {
    let model = InterruptModel::Apic(Apic { local_apic_address: 0xfee0_0000, io_apics: vec![] });
    assert_eq!(init(Some(&model), 0), Err(BootError::NoRoutingChip));
}

#[test]
fn view_beyond_the_address_space_is_fatal() {
    let model = InterruptModel::Apic(Apic {
        local_apic_address: 0xfee0_0000,
        io_apics: vec![chip(0, 0xfec0_0000)],
    });
    assert_eq!(init(Some(&model), u64::MAX - 0xfec0_0000), Err(BootError::AddressOutOfRange));
    assert_eq!(init(Some(&model), u64::MAX - 0xfee0_0000 + 1), Err(BootError::AddressOutOfRange));
    let far = InterruptModel::Apic(Apic {
        local_apic_address: 0x1000,
        io_apics: vec![chip(0, 0x1000), chip(1, 0xffff_ffff)],
    });
    assert_eq!(init(Some(&far), u64::MAX - 0xffff_fffe), Err(BootError::AddressOutOfRange));
}

#[test]
fn views_are_placed_at_the_physical_memory_offset() {
    let model = InterruptModel::Apic(Apic {
        local_apic_address: 0xfee0_0000,
        io_apics: vec![chip(0, 0xfec0_0000), chip(1, 0xfec1_0000)],
    });
    assert_eq!(
        init(Some(&model), 0xffff_8000_0000_0000),
        Ok(Views {
            local: 0xffff_8000_fee0_0000,
            routing: vec![0xffff_8000_fec0_0000, 0xffff_8000_fec1_0000],
        })
    );
    assert_eq!(
        init(Some(&model), u64::MAX - 0xfee0_0000),
        Ok(Views {
            local: u64::MAX,
            routing: vec![u64::MAX - 0x20_0000, u64::MAX - 0x1f_0000],
        })
    );
}

#[test]
fn translation_adds_the_offset_or_fails() {
    assert_eq!(phys_to_virt(0x1000, 0x10_0000), Some(0x10_1000));
    assert_eq!(phys_to_virt(1, u64::MAX), None);
    assert_eq!(phys_to_virt(0, u64::MAX), Some(u64::MAX));
}

#[test]
fn entry_is_packed_into_two_words() {
    let entry = RoutingEntry { mode: IrqMode::Fixed, vector: 33, dest: 2, masked: true };
    assert_eq!(entry.into_raw(), (0x0001_0021, 0x0200_0000));
    let entry = RoutingEntry { mode: IrqMode::External, vector: 0xff, dest: 0xff, masked: false };
    assert_eq!(entry.into_raw(), (0x0000_07ff, 0xff00_0000));
    let entry = RoutingEntry { mode: IrqMode::NonMaskable, vector: 0, dest: 0, masked: false };
    assert_eq!(entry.into_raw(), (0x0000_0400, 0));
}

#[test]
fn entry_is_read_back_from_its_words() {
    for mode in [
        IrqMode::Fixed,
        IrqMode::LowestPriority,
        IrqMode::SystemManagement,
        IrqMode::NonMaskable,
        IrqMode::Init,
        IrqMode::External,
    ] {
        for masked in [false, true] {
            let entry = RoutingEntry { mode, vector: 0x5a, dest: 0xc3, masked };
            let (low, high) = entry.into_raw();
            assert_eq!(RoutingEntry::from_raw(low, high), Some(entry));
        }
    }
}

#[test]
fn reserved_delivery_modes_are_not_entries() {
    assert_eq!(RoutingEntry::from_raw(0x0300, 0), None);
    assert_eq!(RoutingEntry::from_raw(0x0600, 0), None);
    assert_eq!(IrqMode::from_u32(3), None);
    assert_eq!(IrqMode::from_u32(6), None);
    assert_eq!(IrqMode::from_u32(8), None);
    assert_eq!(IrqMode::from_u32(5), Some(IrqMode::Init));
    assert_eq!(IrqMode::LowestPriority.as_u32(), 1);
}

#[test]
fn unused_bits_are_ignored_when_reading_back() {
    assert_eq!(
        RoutingEntry::from_raw(0xfffe_f821, 0x02ff_ffff),
        Some(RoutingEntry { mode: IrqMode::Fixed, vector: 0x21, dest: 2, masked: false })
    );
}

#[test]
fn line_is_written_masked_then_unmasked() {
    let entry = RoutingEntry { mode: IrqMode::Fixed, vector: 33, dest: 5, masked: false };
    assert_eq!(
        ioapic::route(1, entry),
        vec![
            IoRegisterWrite { selector: 0x12, value: 0x0001_0021 },
            IoRegisterWrite { selector: 0x13, value: 0x0500_0000 },
            IoRegisterWrite { selector: 0x12, value: 0x0000_0021 },
        ]
    );
    let writes = ioapic::route(255, entry);
    assert_eq!(writes[0].selector, 0x10 + 510);
    assert_eq!(writes[1].selector, 0x10 + 511);
}

#[test]
fn every_chip_routes_the_keyboard_to_the_local_controller() {
    let lapic = ready(0x0900_0000);
    let programs = ioapic::init(&vec![0xa000, 0xb000], &lapic);
    assert_eq!(programs.len(), 2);
    assert_eq!(programs[0].base, 0xa000);
    assert_eq!(programs[1].base, 0xb000);
    for program in &programs {
        assert_eq!(
            program.writes,
            vec![
                IoRegisterWrite { selector: 0x12, value: 0x0001_0021 },
                IoRegisterWrite { selector: 0x13, value: 0x0900_0000 },
                IoRegisterWrite { selector: 0x12, value: 0x0000_0021 },
            ]
        );
    }
    assert!(ioapic::init(&vec![], &lapic).is_empty());
}

#[test]
fn bring_up_finishes_with_routing_and_enabling_once_the_broadcast_has_left() {
    let views = Views { local: 0x1000, routing: vec![0xa000, 0xb000] };
    let mut lapic = LApic::new();
    assert!(matches!(complete(&views, &mut lapic, 0), Progress::Idle));
    lapic.init(views.local, 0x0400_0000, 0x0005_0014);
    assert!(matches!(complete(&views, &mut lapic, 0x1000), Progress::Retry));
    assert_eq!(lapic.phase(), Phase::Synchronizing { polls: 1 });
    let Progress::Finish(completion) = complete(&views, &mut lapic, 0) else {
        panic!("the broadcast has left");
    };
    assert_eq!(completion.accept, RegisterWrite { offset: 0x080, value: 0 });
    assert_eq!(completion.enable, RegisterWrite { offset: 0x0f0, value: 0x1ff });
    assert_eq!(completion.routing.len(), 2);
    assert_eq!(completion.routing[0].base, 0xa000);
    assert_eq!(completion.routing[1].base, 0xb000);
    for program in &completion.routing {
        assert_eq!(
            program.writes,
            vec![
                IoRegisterWrite { selector: 0x12, value: 0x0001_0021 },
                IoRegisterWrite { selector: 0x13, value: 0x0400_0000 },
                IoRegisterWrite { selector: 0x12, value: 0x0000_0021 },
            ]
        );
    }
    assert_eq!(lapic.phase(), Phase::Ready { enabled: true });
    assert!(matches!(complete(&views, &mut lapic, 0), Progress::Idle));
}

#[test]
fn bring_up_times_out() {
    let views = Views { local: 0x1000, routing: vec![0xa000] };
    let mut lapic = LApic::new();
    lapic.init(views.local, 0, 0);
    let mut reads = 0u32;
    loop {
        reads += 1;
        match complete(&views, &mut lapic, 0xffff_ffff) {
            Progress::Retry => continue,
            Progress::TimedOut => break,
            _ => panic!("the broadcast is pending"),
        }
    }
    assert_eq!(reads, 100_000);
    assert_eq!(lapic.phase(), Phase::Failed);
}
