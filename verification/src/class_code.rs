//! Device classification: decoding the class/subclass/prog-if triple.

use vstd::prelude::*;

verus! {

/// The class-code triple read from offset 0x8 of a function's
/// configuration space. Subclass meaning is defined only relative to
/// the class code, so the three bytes are always kept together.
#[derive(PartialEq, Eq, Structural, Clone, Copy, Debug)]
pub struct ClassCode {
    pub class_code: u8,
    pub subclass: u8,
    pub prog_if: u8,
}

/// The descriptive category for a `(class_code, subclass)` pair.
/// Unmatched subclasses fall back to a class-wide category; unmatched
/// classes fall back to "Unknown". Total on all 65536 pairs.
pub open spec fn spec_device_type(class_code: u8, subclass: u8) -> Seq<char> {
    if class_code == 0x01 {
        if subclass == 0x01 {
            "IDE Controller"@
        } else {
            "Mass Storage Controller"@
        }
    } else if class_code == 0x02 {
        if subclass == 0x00 {
            "Ethernet Controller"@
        } else {
            "Network Controller"@
        }
    } else if class_code == 0x03 {
        if subclass == 0x00 {
            "VGA Compatible Controller"@
        } else {
            "Display Controller"@
        }
    } else if class_code == 0x06 {
        if subclass == 0x00 {
            "Host Bridge"@
        } else if subclass == 0x01 {
            "ISA Bridge"@
        } else if subclass == 0x04 {
            "PCI-to-PCI Bridge"@
        } else {
            "Bridge"@
        }
    } else if class_code == 0x0c {
        if subclass == 0x03 {
            "USB Controller"@
        } else {
            "Serial Bus Controller"@
        }
    } else {
        "Unknown"@
    }
}

impl ClassCode {
    pub fn new(class_code: u8, subclass: u8, prog_if: u8) -> (r: Self)
        ensures
            r == (ClassCode { class_code, subclass, prog_if }),
    {
        ClassCode { class_code, subclass, prog_if }
    }

    /// Whether this function is a PCI-to-PCI bridge, the predicate that
    /// drives recursion into secondary buses.
    pub open spec fn spec_is_pci_to_pci_bridge(self) -> bool {
        self.class_code == 0x06 && self.subclass == 0x04
    }

    pub fn is_pci_to_pci_bridge(&self) -> (r: bool)
        ensures
            r == self.spec_is_pci_to_pci_bridge(),
    {
        self.class_code == 0x06 && self.subclass == 0x04
    }

    /// Decode the pair into its descriptive category. A pure function of
    /// `(class_code, subclass)`: the result is fully determined by
    /// `spec_device_type`, and every pair maps to some category.
    pub fn device_type_str(&self) -> (r: &'static str)
        ensures
            r@ == spec_device_type(self.class_code, self.subclass),
    {
        match self.class_code {
            0x01 => match self.subclass {
                0x01 => "IDE Controller",
                _ => "Mass Storage Controller",
            },
            0x02 => match self.subclass {
                0x00 => "Ethernet Controller",
                _ => "Network Controller",
            },
            0x03 => match self.subclass {
                0x00 => "VGA Compatible Controller",
                _ => "Display Controller",
            },
            0x06 => match self.subclass {
                0x00 => "Host Bridge",
                0x01 => "ISA Bridge",
                0x04 => "PCI-to-PCI Bridge",
                _ => "Bridge",
            },
            0x0c => match self.subclass {
                0x03 => "USB Controller",
                _ => "Serial Bus Controller",
            },
            _ => "Unknown",
        }
    }
}

} // verus!
