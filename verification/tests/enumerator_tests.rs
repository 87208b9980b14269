use pci_scan::class_code::ClassCode;
use pci_scan::config::{offset_is_aligned, PCIConfigurationReader};
use pci_scan::scan::{scan_all, scan_all_for, ClassSignature, DeviceAddress, FunctionReport};
use pci_scan::sim::SimulatedConfigSpace;
use pci_scan::vendor::VendorId;

// Configuration-space words as the hardware lays them out.
fn vendor_word(vendor: u16) -> u32 {
    vendor as u32
}

fn class_word(class_code: u8, subclass: u8, prog_if: u8) -> u32 {
    ((class_code as u32) << 24) | ((subclass as u32) << 16) | ((prog_if as u32) << 8)
}

fn header_word(header_type: u8) -> u32 {
    (header_type as u32) << 16
}

fn secondary_word(secondary_bus: u8) -> u32 {
    (secondary_bus as u32) << 8
}

fn present_function(
    space: &mut SimulatedConfigSpace,
    bus: u8,
    device: u8,
    function: u8,
    vendor: u16,
    class: (u8, u8, u8),
    header_type: u8,
) {
    space.set_register(bus, device, function, 0x0, vendor_word(vendor));
    space.set_register(bus, device, function, 0x8, class_word(class.0, class.1, class.2));
    space.set_register(bus, device, function, 0xc, header_word(header_type));
}

#[test]
fn make_address_places_fields() {
    let reader = PCIConfigurationReader::new(0xab, 0x1f, 0x07);
    let address = reader.make_address(0xfc);
    assert_eq!(address, 0x80ab_fffc);
    // Inverse-decodable by the documented shifts and masks.
    assert_eq!(address >> 31, 1);
    assert_eq!((address >> 16) & 0xff, 0xab);
    assert_eq!((address >> 11) & 0x1f, 0x1f);
    assert_eq!((address >> 8) & 0x07, 0x07);
    assert_eq!(address & 0xff, 0xfc);
}

#[test]
fn make_address_of_origin() {
    let reader = PCIConfigurationReader::new(0, 0, 0);
    assert_eq!(reader.make_address(0), 0x8000_0000);
    assert_eq!(reader.make_address(0x18), 0x8000_0018);
}

#[test]
fn misaligned_offsets_are_rejected() {
    // The alignment guard that read_data_at's contract demands.
    for offset in [1u8, 2, 3, 5, 6, 7, 0x19, 0xff] {
        assert!(!offset_is_aligned(offset));
    }
    for offset in [0u8, 4, 8, 0xc, 0x18, 0xfc] {
        assert!(offset_is_aligned(offset));
    }
}

#[test]
fn vendor_id_sentinel() {
    assert!(VendorId::new(0xffff).is_invalid());
    assert!(!VendorId::new(0x8086).is_invalid());
    assert_eq!(VendorId::new(0x1234).get(), 0x1234);
}

#[test]
fn classification_table() {
    let cases: [(u8, u8, &str); 12] = [
        (0x01, 0x01, "IDE Controller"),
        (0x01, 0x99, "Mass Storage Controller"),
        (0x02, 0x00, "Ethernet Controller"),
        (0x02, 0x80, "Network Controller"),
        (0x03, 0x00, "VGA Compatible Controller"),
        (0x03, 0x01, "Display Controller"),
        (0x06, 0x00, "Host Bridge"),
        (0x06, 0x01, "ISA Bridge"),
        (0x06, 0x04, "PCI-to-PCI Bridge"),
        (0x06, 0x80, "Bridge"),
        (0x0c, 0x03, "USB Controller"),
        (0x0c, 0x00, "Serial Bus Controller"),
    ];
    for (class_code, subclass, expected) in cases {
        let c = ClassCode::new(class_code, subclass, 0x00);
        assert_eq!(c.device_type_str(), expected);
    }
}

#[test]
fn classification_is_pure_and_total() {
    // Same input, same category; unmatched inputs fall back, never fail.
    for (class_code, subclass) in [(0x01u8, 0x01u8), (0x42, 0x42), (0xff, 0xff), (0x00, 0x00)] {
        let a = ClassCode::new(class_code, subclass, 0).device_type_str();
        let b = ClassCode::new(class_code, subclass, 0xff).device_type_str();
        assert_eq!(a, b);
        assert!(!a.is_empty());
    }
    assert_eq!(ClassCode::new(0x42, 0x42, 0).device_type_str(), "Unknown");
}

#[test]
fn bridge_predicate_exhaustive() {
    for class_code in 0..=255u8 {
        for subclass in 0..=255u8 {
            let c = ClassCode::new(class_code, subclass, 0);
            assert_eq!(
                c.is_pci_to_pci_bridge(),
                class_code == 0x06 && subclass == 0x04,
            );
        }
    }
}

#[test]
fn reader_decodes_registers() {
    let mut space = SimulatedConfigSpace::new();
    space.set_register(3, 4, 5, 0x0, 0x9876_8086);
    space.set_register(3, 4, 5, 0x8, class_word(0x06, 0x04, 0x03));
    space.set_register(3, 4, 5, 0xc, header_word(0x80));
    space.set_register(3, 4, 5, 0x18, secondary_word(0x42));

    let reader = PCIConfigurationReader::new(3, 4, 5);
    assert_eq!(reader.read_vendor_id(&mut space).get(), 0x8086);
    let class = reader.read_class_code(&mut space);
    assert_eq!(class.class_code, 0x06);
    assert_eq!(class.subclass, 0x04);
    assert_eq!(class.prog_if, 0x03);
    assert!(class.is_pci_to_pci_bridge());
    assert_eq!(reader.read_header_type(&mut space), 0x80);
    assert!(!reader.is_single_function(&mut space));
    assert_eq!(reader.read_secondary_bus_num(&mut space), 0x42);
}

#[test]
fn reader_sees_absent_slot_as_invalid() {
    let mut space = SimulatedConfigSpace::new();
    let reader = PCIConfigurationReader::new(0, 1, 0);
    assert!(reader.read_vendor_id(&mut space).is_invalid());
}

#[test]
fn empty_topology_yields_nothing() {
    // A single-function host bridge position with no device present at
    // all: zero diagnostic lines, and any search comes back empty.
    let mut space = SimulatedConfigSpace::new();
    space.set_register(0, 0, 0, 0xc, header_word(0x00));

    let mut log: Vec<FunctionReport> = Vec::new();
    scan_all(&mut space, &mut log);
    assert!(log.is_empty());

    let mut log2: Vec<FunctionReport> = Vec::new();
    let target = ClassSignature { class_code: 0x0c, subclass: 0x03, prog_if: None };
    assert_eq!(scan_all_for(&mut space, target, &mut log2), None);
    assert!(log2.is_empty());
}

#[test]
fn bridge_recursion_finds_usb_controller() {
    let mut space = SimulatedConfigSpace::new();
    // Bus 0 device 0 function 0: PCI-to-PCI bridge to secondary bus 1.
    present_function(&mut space, 0, 0, 0, 0x1234, (0x06, 0x04, 0x00), 0x00);
    space.set_register(0, 0, 0, 0x18, secondary_word(1));
    // Bus 1 device 5 function 0: USB controller.
    present_function(&mut space, 1, 5, 0, 0x5678, (0x0c, 0x03, 0x30), 0x00);

    let mut log: Vec<FunctionReport> = Vec::new();
    let target = ClassSignature { class_code: 0x0c, subclass: 0x03, prog_if: None };
    let found = scan_all_for(&mut space, target, &mut log);
    assert_eq!(found, Some(DeviceAddress { bus: 1, device: 5, function: 0 }));

    // Discovery order: the bridge's line comes before the USB
    // controller's.
    assert_eq!(log.len(), 2);
    assert_eq!((log[0].bus, log[0].device, log[0].function), (0, 0, 0));
    assert_eq!(log[0].vendor_id, 0x1234);
    assert!(log[0].class_code.is_pci_to_pci_bridge());
    assert_eq!((log[1].bus, log[1].device, log[1].function), (1, 5, 0));
    assert_eq!(log[1].vendor_id, 0x5678);
    assert_eq!(log[1].class_code.device_type_str(), "USB Controller");
}

#[test]
fn multi_function_gap_is_skipped_not_fatal() {
    let mut space = SimulatedConfigSpace::new();
    // A single-function host bridge, then a multi-function device at
    // slot 3 with functions 0, 1 and 3 present and function 2 absent.
    present_function(&mut space, 0, 0, 0, 0x1111, (0x06, 0x00, 0x00), 0x00);
    present_function(&mut space, 0, 3, 0, 0x2222, (0x02, 0x00, 0x00), 0x80);
    present_function(&mut space, 0, 3, 1, 0x3333, (0x02, 0x00, 0x00), 0x00);
    present_function(&mut space, 0, 3, 3, 0x4444, (0x01, 0x01, 0x00), 0x00);

    let mut log: Vec<FunctionReport> = Vec::new();
    scan_all(&mut space, &mut log);

    let positions: Vec<(u8, u8, u8)> =
        log.iter().map(|r| (r.bus, r.device, r.function)).collect();
    assert_eq!(positions, vec![(0, 0, 0), (0, 3, 0), (0, 3, 1), (0, 3, 3)]);
}

#[test]
fn host_bridge_probing_stops_at_first_gap() {
    let mut space = SimulatedConfigSpace::new();
    // Multi-function host bridge device: functions 0 and 2 are valid
    // host-bridge functions, function 1 is absent.
    present_function(&mut space, 0, 0, 0, 0x1111, (0x06, 0x00, 0x00), 0x80);
    present_function(&mut space, 0, 0, 2, 0x2222, (0x06, 0x00, 0x00), 0x00);
    // A device on bus 2, which would only be reached through host-bridge
    // function 2.
    present_function(&mut space, 2, 4, 0, 0x3333, (0x03, 0x00, 0x00), 0x00);

    let mut log: Vec<FunctionReport> = Vec::new();
    let target = ClassSignature { class_code: 0x03, subclass: 0x00, prog_if: None };
    let found = scan_all_for(&mut space, target, &mut log);

    // The absent function 1 halts host-bridge probing, so bus 2 is
    // never scanned: the device on it is neither logged nor found.
    assert_eq!(found, None);
    assert!(log.iter().all(|r| r.bus != 2));
    // Both host-bridge functions still show up as functions of the
    // multi-function device at bus 0 device 0.
    let positions: Vec<(u8, u8, u8)> =
        log.iter().map(|r| (r.bus, r.device, r.function)).collect();
    assert_eq!(positions, vec![(0, 0, 0), (0, 0, 2)]);
}

#[test]
fn first_match_wins_but_scan_continues() {
    let mut space = SimulatedConfigSpace::new();
    // Two ethernet controllers; the first in discovery order is the
    // one returned, and the scan still logs both.
    present_function(&mut space, 0, 0, 0, 0x1111, (0x06, 0x00, 0x00), 0x00);
    present_function(&mut space, 0, 2, 0, 0x2222, (0x02, 0x00, 0x00), 0x00);
    present_function(&mut space, 0, 9, 0, 0x3333, (0x02, 0x00, 0x00), 0x00);

    let mut log: Vec<FunctionReport> = Vec::new();
    let target = ClassSignature { class_code: 0x02, subclass: 0x00, prog_if: None };
    let found = scan_all_for(&mut space, target, &mut log);
    assert_eq!(found, Some(DeviceAddress { bus: 0, device: 2, function: 0 }));
    assert_eq!(log.len(), 3);
}

#[test]
fn prog_if_in_signature_must_match_when_given() {
    let mut space = SimulatedConfigSpace::new();
    present_function(&mut space, 0, 0, 0, 0x1111, (0x06, 0x00, 0x00), 0x00);
    present_function(&mut space, 0, 1, 0, 0x2222, (0x0c, 0x03, 0x30), 0x00);

    let mut log: Vec<FunctionReport> = Vec::new();
    let wrong_prog_if = ClassSignature { class_code: 0x0c, subclass: 0x03, prog_if: Some(0x20) };
    assert_eq!(scan_all_for(&mut space, wrong_prog_if, &mut log), None);

    let mut log2: Vec<FunctionReport> = Vec::new();
    let right_prog_if = ClassSignature { class_code: 0x0c, subclass: 0x03, prog_if: Some(0x30) };
    assert_eq!(
        scan_all_for(&mut space, right_prog_if, &mut log2),
        Some(DeviceAddress { bus: 0, device: 1, function: 0 }),
    );
}

#[test]
fn report_line_format() {
    let report = FunctionReport {
        bus: 1,
        device: 5,
        function: 0,
        vendor_id: 0x5678,
        class_code: ClassCode::new(0x0c, 0x03, 0x30),
        header_type: 0x80,
    };
    assert_eq!(
        pci_scan::diag::format_report_line(&report),
        "1.5.0: vendor 5678, USB Controller (0c.03.30), header type 80",
    );

    let report2 = FunctionReport {
        bus: 255,
        device: 31,
        function: 7,
        vendor_id: 0x00ab,
        class_code: ClassCode::new(0x42, 0x42, 0x00),
        header_type: 0x00,
    };
    assert_eq!(
        pci_scan::diag::format_report_line(&report2),
        "255.31.7: vendor 00ab, Unknown (42.42.00), header type 00",
    );
}
