//! Capability register decoding: scratchpad reconstruction, ERST max
//! decoding, and the plain bit-field reads.

use xhci::registers::capability::Capability;
use xhci::registers::capability::CapabilityParameters1;
use xhci::registers::capability::CapabilityRegistersLength;
use xhci::registers::capability::DoorbellOffset;
use xhci::registers::capability::RuntimeRegisterSpaceOffset;
use xhci::registers::capability::StructuralParameters1;
use xhci::registers::capability::StructuralParameters2;

#[test]
fn scratchpad_reconstruction() {
    // High bits = 2 (bits 20..=25), low bits = 1 (bits 27..=31):
    // (2 << 5) | 1 = 65.
    let raw = (2u32 << 20) | (1u32 << 27);
    let sp2 = StructuralParameters2::new(raw);
    assert_eq!(sp2.max_scratchpad_buffers(), 65);
}

#[test]
fn scratchpad_parts_do_not_bleed() {
    let sp2 = StructuralParameters2::new(0x3F << 20);
    assert_eq!(sp2.max_scratchpad_buffers(), 63 << 5);
    let sp2 = StructuralParameters2::new(0x1F << 27);
    assert_eq!(sp2.max_scratchpad_buffers(), 31);
}

#[test]
fn erst_max_decoding() {
    // An exponent field of 3 decodes as 2^3 = 8.
    let sp2 = StructuralParameters2::new(3 << 4);
    assert_eq!(sp2.event_ring_segment_table_max(), 8);
}

#[test]
fn erst_max_extremes() {
    assert_eq!(StructuralParameters2::new(0).event_ring_segment_table_max(), 1);
    assert_eq!(StructuralParameters2::new(0xF << 4).event_ring_segment_table_max(), 0x8000);
}

#[test]
fn structural_parameters_1_fields() {
    let sp1 = StructuralParameters1::new(0xFE00_0020);
    assert_eq!(sp1.number_of_device_slots(), 0x20);
    assert_eq!(sp1.number_of_ports(), 0xFE);
}

#[test]
fn capability_parameters_1_fields() {
    let cp1 = CapabilityParameters1::new(0xABCD_0004);
    assert!(cp1.context_size());
    assert_eq!(cp1.xhci_extended_capabilities_pointer(), 0xABCD);
    let cp1 = CapabilityParameters1::new(0x0001_0000);
    assert!(!cp1.context_size());
    assert_eq!(cp1.xhci_extended_capabilities_pointer(), 1);
}

#[test]
fn raw_offset_registers_pass_through() {
    assert_eq!(CapabilityRegistersLength::new(0x20).get(), 0x20);
    assert_eq!(DoorbellOffset::new(0x3000).get(), 0x3000);
    assert_eq!(RuntimeRegisterSpaceOffset::new(0x2000).get(), 0x2000);
}

#[test]
fn capability_assembles_all_registers() {
    let cap = Capability::new(0x20, 0x0800_0008, (2 << 20) | (1 << 27) | (3 << 4), 4, 0x88, 0x90);
    assert_eq!(cap.caplength.get(), 0x20);
    assert_eq!(cap.hcsparams1.number_of_device_slots(), 8);
    assert_eq!(cap.hcsparams1.number_of_ports(), 8);
    assert_eq!(cap.hcsparams2.max_scratchpad_buffers(), 65);
    assert_eq!(cap.hcsparams2.event_ring_segment_table_max(), 8);
    assert!(cap.hccparams1.context_size());
    assert_eq!(cap.dboff.get(), 0x88);
    assert_eq!(cap.rtsoff.get(), 0x90);
}
