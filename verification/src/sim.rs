//! A verified in-memory configuration space, for exercising the
//! traversal on chosen topologies.

use vstd::prelude::*;
use crate::config::{ConfigAccess, PCIConfigurationReader, spec_make_address};

verus! {

/// The data word an address that was never set reads as. Its low 16
/// bits are the invalid vendor id, so untouched slots are absent.
pub const ABSENT_WORD: u32 = 0xffff_ffff;

/// A configuration space held as explicit (address word, data word)
/// pairs; every other address reads as `ABSENT_WORD`.
pub struct SimulatedConfigSpace {
    entries: Vec<(u32, u32)>,
}

impl SimulatedConfigSpace {
    /// The first entry for `address` decides the read; absent
    /// addresses read as `ABSENT_WORD`.
    pub closed spec fn spec_lookup(entries: Seq<(u32, u32)>, address: u32) -> u32
        decreases entries.len(),
    {
        if entries.len() == 0 {
            ABSENT_WORD
        } else if entries[0].0 == address {
            entries[0].1
        } else {
            Self::spec_lookup(entries.drop_first(), address)
        }
    }

    pub fn new() -> (r: Self)
        ensures
            forall|a: u32| r.read_spec(a) == ABSENT_WORD,
    {
        SimulatedConfigSpace { entries: Vec::new() }
    }

    /// Set the data word read at one raw address word.
    pub fn set_word(&mut self, address: u32, value: u32)
        ensures
            forall|a: u32|
                final(self).read_spec(a) == if a == address {
                    value
                } else {
                    old(self).read_spec(a)
                },
    {
        self.entries.insert(0, (address, value));
        proof {
            let e_new = self.entries@;
            let e_old = old(self).entries@;
            assert(e_new[0] == (address, value));
            assert(e_new.drop_first() =~= e_old);
        }
    }

    /// Set the data word read at register `offset` of
    /// (`bus`, `device`, `function`).
    pub fn set_register(&mut self, bus: u8, device: u8, function: u8, offset: u8, value: u32)
        requires
            device < 32,
            function < 8,
        ensures
            forall|a: u32|
                final(self).read_spec(a) == if a == spec_make_address(bus, device, function, offset) {
                    value
                } else {
                    old(self).read_spec(a)
                },
    {
        let reader = PCIConfigurationReader::new(bus, device, function);
        let address = reader.make_address(offset);
        self.set_word(address, value);
    }

    fn lookup_from(entries: &Vec<(u32, u32)>, i: usize, address: u32) -> (r: u32)
        requires
            i <= entries.len(),
        ensures
            r == Self::spec_lookup(entries@.skip(i as int), address),
        decreases entries.len() - i,
    {
        if i == entries.len() {
            proof {
                assert(entries@.skip(i as int) =~= Seq::<(u32, u32)>::empty());
            }
            ABSENT_WORD
        } else {
            let (a, v) = entries[i];
            proof {
                assert(entries@.skip(i as int)[0] == entries@[i as int]);
                assert(entries@.skip(i as int).drop_first() =~= entries@.skip(i as int + 1));
            }
            if a == address {
                v
            } else {
                Self::lookup_from(entries, i + 1, address)
            }
        }
    }
}

impl ConfigAccess for SimulatedConfigSpace {
    closed spec fn read_spec(&self, address: u32) -> u32 {
        Self::spec_lookup(self.entries@, address)
    }

    fn read_config(&mut self, address: u32) -> (r: u32) {
        let r = Self::lookup_from(&self.entries, 0, address);
        proof {
            assert(self.entries@.skip(0) =~= self.entries@);
        }
        r
    }
}

} // verus!
