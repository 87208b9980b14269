//! Vendor identifiers and the absence sentinel.

use vstd::prelude::*;

verus! {

/// The reserved vendor id that signals "no device present at this
/// address". Every traversal decision rests on testing for it before
/// any other field of a slot is read.
pub const INVALID_VENDOR_ID: u16 = 0xffff;

/// A 16-bit vendor identifier read from offset 0x0 of a function's
/// configuration space.
#[derive(PartialEq, Eq, Structural, Clone, Copy, Debug)]
pub struct VendorId {
    vendor: u16,
}

impl VendorId {
    pub closed spec fn spec_get(self) -> u16 {
        self.vendor
    }

    pub fn new(vendor: u16) -> (r: Self)
        ensures
            r.spec_get() == vendor,
    {
        VendorId { vendor }
    }

    pub fn get(&self) -> (r: u16)
        ensures
            r == self.spec_get(),
    {
        self.vendor
    }

    /// True iff the identifier is the absence sentinel `0xffff`.
    pub fn is_invalid(&self) -> (r: bool)
        ensures
            r == (self.spec_get() == INVALID_VENDOR_ID),
    {
        self.vendor == INVALID_VENDOR_ID
    }
}

} // verus!
