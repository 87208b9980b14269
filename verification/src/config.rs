//! Configuration-space access: the port-access abstraction, the address
//! word, and the typed reader for one (bus, device, function).

use vstd::prelude::*;
use crate::class_code::ClassCode;
use crate::vendor::VendorId;

verus! {

/// One source of PCI configuration-space reads.
///
/// A logical read writes the address word to the fixed address port and
/// then reads the fixed data port; `read_spec` is the value that read
/// returns for each address word. Reading never changes the space, so
/// the whole traversal is a function of one snapshot of it.
pub trait ConfigAccess: Sized {
    /// The data word a configuration read of `address` returns.
    spec fn read_spec(&self, address: u32) -> u32;

    /// Perform one configuration-space read at `address`.
    fn read_config(&mut self, address: u32) -> (r: u32)
        ensures
            *final(self) == *old(self),
            r == old(self).read_spec(address),
    ;
}

/// The address word of the legacy configuration mechanism: bit 31 is
/// the enable bit, bits 16-23 the bus, 11-15 the device, 8-10 the
/// function, 0-7 the register offset.
pub open spec fn spec_make_address(bus: u8, device: u8, function: u8, offset: u8) -> u32 {
    0x8000_0000u32 | ((bus as u32) << 16) | ((device as u32) << 11) | ((function as u32) << 8)
        | (offset as u32)
}

/// The data word that `port` yields at register `offset` of
/// (`bus`, `device`, `function`).
pub open spec fn spec_cfg<T: ConfigAccess>(
    port: T,
    bus: u8,
    device: u8,
    function: u8,
    offset: u8,
) -> u32 {
    port.read_spec(spec_make_address(bus, device, function, offset))
}

/// The vendor id held in the low 16 bits of the word at offset 0x0.
pub open spec fn spec_vendor_of(data: u32) -> u16 {
    (data & 0xffff) as u16
}

/// The class-code triple held in the word at offset 0x8.
pub open spec fn spec_class_of(data: u32) -> ClassCode {
    ClassCode {
        class_code: (((data >> 24) & 0xff) as u8),
        subclass: (((data >> 16) & 0xff) as u8),
        prog_if: (((data >> 8) & 0xff) as u8),
    }
}

/// The header-type byte held in the word at offset 0xc.
pub open spec fn spec_header_of(data: u32) -> u8 {
    (data >> 16) as u8
}

/// The secondary bus number held in the word at offset 0x18 of a
/// PCI-to-PCI bridge.
pub open spec fn spec_secondary_of(data: u32) -> u8 {
    (data >> 8) as u8
}

/// Bit 7 of the header type is the multi-function flag; a clear flag
/// means the device has only function 0.
pub open spec fn spec_single_function(header: u8) -> bool {
    header & 0x80 == 0
}

/// Typed accessors over the configuration space of one
/// (bus, device, function).
pub struct PCIConfigurationReader {
    pub bus_num: u8,
    pub device_num: u8,
    pub function_num: u8,
}

impl PCIConfigurationReader {
    /// Device numbers run 0-31 and function numbers 0-7; anything
    /// larger would spill into a neighbouring bit field of the address
    /// word.
    pub open spec fn wf(self) -> bool {
        self.device_num < 32 && self.function_num < 8
    }

    pub fn new(bus_num: u8, device_num: u8, function_num: u8) -> (r: Self)
        requires
            device_num < 32,
            function_num < 8,
        ensures
            r == (PCIConfigurationReader { bus_num, device_num, function_num }),
            r.wf(),
    {
        PCIConfigurationReader { bus_num, device_num, function_num }
    }

    /// Combine the enable bit, bus, device, function and register
    /// offset into the hardware's address word.
    pub fn make_address(&self, offset: u8) -> (r: u32)
        ensures
            r == spec_make_address(self.bus_num, self.device_num, self.function_num, offset),
    {
        0x8000_0000u32 | ((self.bus_num as u32) << 16) | ((self.device_num as u32) << 11)
            | ((self.function_num as u32) << 8) | (offset as u32)
    }

    /// One aligned 32-bit read: write the address word, read the data
    /// port. A misaligned offset is a programmer contract violation,
    /// excluded here by precondition rather than detected at run time.
    pub fn read_data_at<T: ConfigAccess>(&self, port: &mut T, offset: u8) -> (r: u32)
        requires
            offset % 4 == 0,
        ensures
            *final(port) == *old(port),
            r == spec_cfg(*old(port), self.bus_num, self.device_num, self.function_num, offset),
    {
        let address = self.make_address(offset);
        port.read_config(address)
    }

    pub fn read_vendor_id<T: ConfigAccess>(&self, port: &mut T) -> (r: VendorId)
        ensures
            *final(port) == *old(port),
            r.spec_get() == spec_vendor_of(
                spec_cfg(*old(port), self.bus_num, self.device_num, self.function_num, 0x0),
            ),
    {
        let data = self.read_data_at(port, 0x0);
        let vendor = #[verifier::truncate] ((data & 0xffff) as u16);
        VendorId::new(vendor)
    }

    pub fn read_class_code<T: ConfigAccess>(&self, port: &mut T) -> (r: ClassCode)
        ensures
            *final(port) == *old(port),
            r == spec_class_of(
                spec_cfg(*old(port), self.bus_num, self.device_num, self.function_num, 0x8),
            ),
    {
        let data = self.read_data_at(port, 0x8);
        let class_code = (data >> 24) & 0xff;
        let subclass = (data >> 16) & 0xff;
        let prog_if = (data >> 8) & 0xff;
        ClassCode {
            class_code: #[verifier::truncate] (class_code as u8),
            subclass: #[verifier::truncate] (subclass as u8),
            prog_if: #[verifier::truncate] (prog_if as u8),
        }
    }

    pub fn read_header_type<T: ConfigAccess>(&self, port: &mut T) -> (r: u8)
        ensures
            *final(port) == *old(port),
            r == spec_header_of(
                spec_cfg(*old(port), self.bus_num, self.device_num, self.function_num, 0xc),
            ),
    {
        let data = self.read_data_at(port, 0xc);
        #[verifier::truncate] ((data >> 16) as u8)
    }

    /// Whether the multi-function flag of this function's header type
    /// is clear.
    pub fn is_single_function<T: ConfigAccess>(&self, port: &mut T) -> (r: bool)
        ensures
            *final(port) == *old(port),
            r == spec_single_function(
                spec_header_of(
                    spec_cfg(*old(port), self.bus_num, self.device_num, self.function_num, 0xc),
                ),
            ),
    {
        let header = self.read_header_type(port);
        (header & 0x80) == 0
    }

    /// Read the secondary bus number. Valid only on a PCI-to-PCI
    /// bridge; calling it elsewhere is a programmer contract violation,
    /// excluded here by precondition.
    pub fn read_secondary_bus_num<T: ConfigAccess>(&self, port: &mut T) -> (r: u8)
        requires
            spec_class_of(
                spec_cfg(*old(port), self.bus_num, self.device_num, self.function_num, 0x8),
            ).spec_is_pci_to_pci_bridge(),
        ensures
            *final(port) == *old(port),
            r == spec_secondary_of(
                spec_cfg(*old(port), self.bus_num, self.device_num, self.function_num, 0x18),
            ),
    {
        let data = self.read_data_at(port, 0x18);
        #[verifier::truncate] ((data >> 8) as u8)
    }
}

/// The alignment required of a configuration-space offset: reads are
/// whole 32-bit words. Callers outside the verified world test this
/// before calling `read_data_at`.
pub fn offset_is_aligned(offset: u8) -> (r: bool)
    ensures
        r == (offset % 4 == 0),
{
    offset % 4 == 0
}

/// The address word is inverse-decodable: bit 31 is always set, and
/// bus, device, function and offset sit in fixed, non-overlapping bit
/// fields, recoverable by the documented shifts and masks.
pub proof fn lemma_make_address_fields_recoverable(bus: u8, device: u8, function: u8, offset: u8)
    requires
        device < 32,
        function < 8,
    ensures
        spec_make_address(bus, device, function, offset) >> 31 == 1,
        (spec_make_address(bus, device, function, offset) >> 16) & 0xff == bus,
        (spec_make_address(bus, device, function, offset) >> 11) & 0x1f == device,
        (spec_make_address(bus, device, function, offset) >> 8) & 0x07 == function,
        spec_make_address(bus, device, function, offset) & 0xff == offset,
{
    assert((0x8000_0000u32 | ((bus as u32) << 16) | ((device as u32) << 11)
        | ((function as u32) << 8) | (offset as u32)) >> 31 == 1) by (bit_vector);
    assert(((0x8000_0000u32 | ((bus as u32) << 16) | ((device as u32) << 11)
        | ((function as u32) << 8) | (offset as u32)) >> 16) & 0xff == bus as u32) by (bit_vector)
        requires
            device < 32,
            function < 8,
    ;
    assert(((0x8000_0000u32 | ((bus as u32) << 16) | ((device as u32) << 11)
        | ((function as u32) << 8) | (offset as u32)) >> 11) & 0x1f == device as u32)
        by (bit_vector)
        requires
            device < 32,
            function < 8,
    ;
    assert(((0x8000_0000u32 | ((bus as u32) << 16) | ((device as u32) << 11)
        | ((function as u32) << 8) | (offset as u32)) >> 8) & 0x07 == function as u32)
        by (bit_vector)
        requires
            device < 32,
            function < 8,
    ;
    assert((0x8000_0000u32 | ((bus as u32) << 16) | ((device as u32) << 11)
        | ((function as u32) << 8) | (offset as u32)) & 0xff == offset as u32) by (bit_vector);
}

} // verus!
