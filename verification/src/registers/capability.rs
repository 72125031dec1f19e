//! Host Controller Capability Registers.
//!
//! A read-only bit-field view over the controller's fixed-offset capability
//! block: slot count, port count, Event Ring Segment Table sizing, scratchpad
//! count, context size and the doorbell/runtime offsets. Each register type
//! holds the raw word as it was read from the MMIO block; reading the block
//! itself is the memory layer's task, outside this crate.

use vstd::prelude::*;

verus! {

use crate::bits::field_get;
use crate::bits::flag_get;
use crate::bits::get_field;
use crate::bits::lemma_field_get_bound;
use crate::bits::lemma_mask_values;

/// Capability Registers Length.
#[derive(Clone, Copy, Debug, PartialEq, Eq, Structural)]
pub struct CapabilityRegistersLength(u8);

impl CapabilityRegistersLength {
    /// The raw register value.
    pub closed spec fn spec_raw(self) -> u8 {
        self.0
    }

    /// Wraps the raw register value.
    pub fn new(raw: u8) -> (r: Self)
        ensures
            r.spec_raw() == raw,
    {
        CapabilityRegistersLength(raw)
    }

    /// Returns the length of the Capability Registers.
    pub fn get(&self) -> (r: u8)
        ensures
            r == self.spec_raw(),
    {
        self.0
    }
}

/// Structural Parameters 1.
#[derive(Clone, Copy, Debug, PartialEq, Eq, Structural)]
pub struct StructuralParameters1(u32);

impl StructuralParameters1 {
    /// The raw register value.
    pub closed spec fn spec_raw(self) -> u32 {
        self.0
    }

    /// The Number of Device Slots field (bits 0..=7).
    pub open spec fn spec_number_of_device_slots(self) -> u8 {
        field_get(self.spec_raw(), 0, 8) as u8
    }

    /// The Number of Ports field (bits 24..=31).
    pub open spec fn spec_number_of_ports(self) -> u8 {
        field_get(self.spec_raw(), 24, 8) as u8
    }

    /// Wraps the raw register value.
    pub fn new(raw: u32) -> (r: Self)
        ensures
            r.spec_raw() == raw,
    {
        StructuralParameters1(raw)
    }

    /// Returns the number of available device slots.
    pub fn number_of_device_slots(&self) -> (r: u8)
        ensures
            r == self.spec_number_of_device_slots(),
    {
        proof {
            lemma_mask_values();
        }
        get_field(self.0, 0, 8, 0xff) as u8
    }

    /// Returns the number of ports.
    pub fn number_of_ports(&self) -> (r: u8)
        ensures
            r == self.spec_number_of_ports(),
    {
        proof {
            lemma_mask_values();
        }
        get_field(self.0, 24, 8, 0xff) as u8
    }
}

/// Structural Parameters 2.
#[derive(Clone, Copy, Debug, PartialEq, Eq, Structural)]
pub struct StructuralParameters2(u32);

impl StructuralParameters2 {
    /// The raw register value.
    pub closed spec fn spec_raw(self) -> u32 {
        self.0
    }

    /// The ERST Max field (bits 4..=7): an exponent.
    pub open spec fn spec_erst_max(self) -> u32 {
        field_get(self.spec_raw(), 4, 4)
    }

    /// The exposed Event Ring Segment Table maximum: `2` raised to the ERST
    /// Max exponent, not the raw exponent itself.
    pub open spec fn spec_event_ring_segment_table_max(self) -> u16 {
        (1u32 << self.spec_erst_max()) as u16
    }

    /// The high part of the Max Scratchpad Buffers field (bits 20..=25).
    pub open spec fn spec_max_scratchpad_buffers_hi(self) -> u32 {
        field_get(self.spec_raw(), 20, 6)
    }

    /// The low part of the Max Scratchpad Buffers field (bits 27..=31).
    pub open spec fn spec_max_scratchpad_buffers_lo(self) -> u32 {
        field_get(self.spec_raw(), 27, 5)
    }

    /// The Max Scratchpad Buffers count, reassembled from its two disjoint
    /// parts as `(high << 5) | low`.
    pub open spec fn spec_max_scratchpad_buffers(self) -> u32 {
        (self.spec_max_scratchpad_buffers_hi() << 5) | self.spec_max_scratchpad_buffers_lo()
    }

    /// Wraps the raw register value.
    pub fn new(raw: u32) -> (r: Self)
        ensures
            r.spec_raw() == raw,
    {
        StructuralParameters2(raw)
    }

    /// Returns the maximum number of the elements the Event Ring Segment
    /// Table can contain.
    ///
    /// The ERST Max field of the register holds the exponential value; this
    /// method returns the calculated value.
    pub fn event_ring_segment_table_max(&self) -> (r: u16)
        ensures
            r == self.spec_event_ring_segment_table_max(),
    {
        let e = self.erst_max();
        proof {
            assert((1u32 << e) <= 0x8000u32) by (bit_vector)
                requires
                    e <= 0xfu32,
            ;
        }
        (1u32 << e) as u16
    }

    /// Returns the number of scratchpads that the controller asks for.
    pub fn max_scratchpad_buffers(&self) -> (r: u32)
        ensures
            r == self.spec_max_scratchpad_buffers(),
            r == self.spec_max_scratchpad_buffers_hi() * 32 + self.spec_max_scratchpad_buffers_lo(),
    {
        let h = self.max_scratchpad_buffers_hi();
        let l = self.max_scratchpad_buffers_lo();
        proof {
            assert((h << 5) | l == h * 32 + l) by (bit_vector)
                requires
                    h <= 0x3fu32 && l <= 0x1fu32,
            ;
        }
        h << 5 | l
    }

    /// Reads the ERST Max exponent field.
    fn erst_max(&self) -> (r: u32)
        ensures
            r == self.spec_erst_max(),
            r <= 0xf,
    {
        proof {
            lemma_mask_values();
            lemma_field_get_bound(self.0, 4, 4);
        }
        get_field(self.0, 4, 4, 0xf)
    }

    /// Reads the high part of the Max Scratchpad Buffers field.
    fn max_scratchpad_buffers_hi(&self) -> (r: u32)
        ensures
            r == self.spec_max_scratchpad_buffers_hi(),
            r <= 0x3f,
    {
        proof {
            lemma_mask_values();
            lemma_field_get_bound(self.0, 20, 6);
        }
        get_field(self.0, 20, 6, 0x3f)
    }

    /// Reads the low part of the Max Scratchpad Buffers field.
    fn max_scratchpad_buffers_lo(&self) -> (r: u32)
        ensures
            r == self.spec_max_scratchpad_buffers_lo(),
            r <= 0x1f,
    {
        proof {
            lemma_mask_values();
            lemma_field_get_bound(self.0, 27, 5);
        }
        get_field(self.0, 27, 5, 0x1f)
    }
}

/// Capability Parameters 1.
#[derive(Clone, Copy, Debug, PartialEq, Eq, Structural)]
pub struct CapabilityParameters1(u32);

impl CapabilityParameters1 {
    /// The raw register value.
    pub closed spec fn spec_raw(self) -> u32 {
        self.0
    }

    /// The Context Size flag (bit 2).
    pub open spec fn spec_context_size(self) -> bool {
        flag_get(self.spec_raw(), 2)
    }

    /// The xHCI Extended Capabilities Pointer field (bits 16..=31).
    pub open spec fn spec_xhci_extended_capabilities_pointer(self) -> u16 {
        field_get(self.spec_raw(), 16, 16) as u16
    }

    /// Wraps the raw register value.
    pub fn new(raw: u32) -> (r: Self)
        ensures
            r.spec_raw() == raw,
    {
        CapabilityParameters1(raw)
    }

    /// Returns `true` if the controller uses 64-byte Context data
    /// structures, and `false` if it uses 32-byte ones.
    pub fn context_size(&self) -> (r: bool)
        ensures
            r == self.spec_context_size(),
    {
        proof {
            lemma_mask_values();
        }
        get_field(self.0, 2, 1, 1) == 1
    }

    /// Returns the offset of the xHCI extended capability list from the MMIO
    /// base, in DWORDs. If this value is zero, the list does not exist. The
    /// byte offset is this value shifted left by 2.
    pub fn xhci_extended_capabilities_pointer(&self) -> (r: u16)
        ensures
            r == self.spec_xhci_extended_capabilities_pointer(),
    {
        proof {
            lemma_mask_values();
        }
        get_field(self.0, 16, 16, 0xffff) as u16
    }
}

/// Doorbell Offset.
#[derive(Clone, Copy, Debug, PartialEq, Eq, Structural)]
pub struct DoorbellOffset(u32);

impl DoorbellOffset {
    /// The raw register value.
    pub closed spec fn spec_raw(self) -> u32 {
        self.0
    }

    /// Wraps the raw register value.
    pub fn new(raw: u32) -> (r: Self)
        ensures
            r.spec_raw() == raw,
    {
        DoorbellOffset(raw)
    }

    /// Returns the offset of the Doorbell Array from the MMIO base, in
    /// bytes.
    pub fn get(&self) -> (r: u32)
        ensures
            r == self.spec_raw(),
    {
        self.0
    }
}

/// Runtime Register Space Offset.
#[derive(Clone, Copy, Debug, PartialEq, Eq, Structural)]
pub struct RuntimeRegisterSpaceOffset(u32);

impl RuntimeRegisterSpaceOffset {
    /// The raw register value.
    pub closed spec fn spec_raw(self) -> u32 {
        self.0
    }

    /// Wraps the raw register value.
    pub fn new(raw: u32) -> (r: Self)
        ensures
            r.spec_raw() == raw,
    {
        RuntimeRegisterSpaceOffset(raw)
    }

    /// Returns the offset of the Runtime Registers from the MMIO base, in
    /// bytes.
    pub fn get(&self) -> (r: u32)
        ensures
            r == self.spec_raw(),
    {
        self.0
    }
}

/// Host Controller Capability Registers, held as the plain register values
/// read once from the fixed-offset MMIO block.
pub struct Capability {
    /// Capability Registers Length
    pub caplength: CapabilityRegistersLength,
    /// Structural Parameters 1
    pub hcsparams1: StructuralParameters1,
    /// Structural Parameters 2
    pub hcsparams2: StructuralParameters2,
    /// Capability Parameters 1
    pub hccparams1: CapabilityParameters1,
    /// Doorbell Offset
    pub dboff: DoorbellOffset,
    /// Runtime Register Space Offset
    pub rtsoff: RuntimeRegisterSpaceOffset,
}

impl Capability {
    /// Assembles the capability view from the raw register values. Reading
    /// those values from the controller's MMIO block — at most once per
    /// underlying region — is the memory layer's task.
    pub fn new(caplength: u8, hcsparams1: u32, hcsparams2: u32, hccparams1: u32, dboff: u32, rtsoff: u32) -> (r: Capability)
        ensures
            r.caplength.spec_raw() == caplength,
            r.hcsparams1.spec_raw() == hcsparams1,
            r.hcsparams2.spec_raw() == hcsparams2,
            r.hccparams1.spec_raw() == hccparams1,
            r.dboff.spec_raw() == dboff,
            r.rtsoff.spec_raw() == rtsoff,
    {
        Capability {
            caplength: CapabilityRegistersLength::new(caplength),
            hcsparams1: StructuralParameters1::new(hcsparams1),
            hcsparams2: StructuralParameters2::new(hcsparams2),
            hccparams1: CapabilityParameters1::new(hccparams1),
            dboff: DoorbellOffset::new(dboff),
            rtsoff: RuntimeRegisterSpaceOffset::new(rtsoff),
        }
    }
}

} // verus!
