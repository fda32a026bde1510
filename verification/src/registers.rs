//! The register bank: one type per register, each addressable through a
//! fixed one-byte code.
//!
//! Three kinds exist: the boolean strip-state register, three narrow
//! (one-byte) color channel registers, and five wide (four-byte) general
//! purpose registers.  The codes are globally unique across the kinds.

use vstd::prelude::*;

verus! {

/// Code of the boolean strip-state register.
pub const RCS: u8 = 0x01;

/// Code of the red channel register.
pub const RCR: u8 = 0x02;

/// Code of the green channel register.
pub const RCG: u8 = 0x03;

/// Code of the blue channel register.
pub const RCB: u8 = 0x04;

/// Code of the general data register.
pub const RGD: u8 = 0x05;

/// Code of the general pointer register.
pub const RGP: u8 = 0x06;

/// Code of the general input register.
pub const RGI: u8 = 0x07;

/// Code of the general output register.
pub const RGO: u8 = 0x08;

/// Code of the general label-target register.
pub const RGL: u8 = 0x09;

/// A storage cell that can be written and read back.
pub trait Register<T> {
    /// The value the register currently holds.
    spec fn spec_get(&self) -> T;

    fn set(&mut self, value: T)
        ensures
            final(self).spec_get() == value;

    fn get(&self) -> (value: T)
        ensures
            value == self.spec_get();
}

/// The boolean strip-state register; writes to it are forwarded to the
/// hardware bridge by the execution loop.
pub struct Rcs {
    pub value: bool,
}

/// The red channel register (one byte).
pub struct Rcr {
    pub value: u8,
}

/// The green channel register (one byte).
pub struct Rcg {
    pub value: u8,
}

/// The blue channel register (one byte).
pub struct Rcb {
    pub value: u8,
}

/// The general data register (four bytes).
pub struct Rgd {
    pub value: u32,
}

/// The general pointer register (four bytes).
pub struct Rgp {
    pub value: u32,
}

/// The general input register (four bytes).
pub struct Rgi {
    pub value: u32,
}

/// The general output register (four bytes).
pub struct Rgo {
    pub value: u32,
}

/// The general label-target register (four bytes).
pub struct Rgl {
    pub value: u32,
}

impl Rcs {
    pub fn new() -> (r: Self)
        ensures
            r.spec_get() == false,
    {
        Rcs { value: false }
    }
}

impl Rcr {
    pub fn new() -> (r: Self)
        ensures
            r.spec_get() == 0u8,
    {
        Rcr { value: 0 }
    }
}

impl Rcg {
    pub fn new() -> (r: Self)
        ensures
            r.spec_get() == 0u8,
    {
        Rcg { value: 0 }
    }
}

impl Rcb {
    pub fn new() -> (r: Self)
        ensures
            r.spec_get() == 0u8,
    {
        Rcb { value: 0 }
    }
}

impl Rgd {
    pub fn new() -> (r: Self)
        ensures
            r.spec_get() == 0u32,
    {
        Rgd { value: 0 }
    }
}

impl Rgp {
    pub fn new() -> (r: Self)
        ensures
            r.spec_get() == 0u32,
    {
        Rgp { value: 0 }
    }
}

impl Rgi {
    pub fn new() -> (r: Self)
        ensures
            r.spec_get() == 0u32,
    {
        Rgi { value: 0 }
    }
}

impl Rgo {
    pub fn new() -> (r: Self)
        ensures
            r.spec_get() == 0u32,
    {
        Rgo { value: 0 }
    }
}

impl Rgl {
    pub fn new() -> (r: Self)
        ensures
            r.spec_get() == 0u32,
    {
        Rgl { value: 0 }
    }
}

impl Register<bool> for Rcs {
    open spec fn spec_get(&self) -> bool {
        self.value
    }

    fn set(&mut self, value: bool) {
        self.value = value;
    }

    fn get(&self) -> bool {
        self.value
    }
}

impl Register<u8> for Rcr {
    open spec fn spec_get(&self) -> u8 {
        self.value
    }

    fn set(&mut self, value: u8) {
        self.value = value;
    }

    fn get(&self) -> u8 {
        self.value
    }
}

impl Register<u8> for Rcg {
    open spec fn spec_get(&self) -> u8 {
        self.value
    }

    fn set(&mut self, value: u8) {
        self.value = value;
    }

    fn get(&self) -> u8 {
        self.value
    }
}

impl Register<u8> for Rcb {
    open spec fn spec_get(&self) -> u8 {
        self.value
    }

    fn set(&mut self, value: u8) {
        self.value = value;
    }

    fn get(&self) -> u8 {
        self.value
    }
}

impl Register<u32> for Rgd {
    open spec fn spec_get(&self) -> u32 {
        self.value
    }

    fn set(&mut self, value: u32) {
        self.value = value;
    }

    fn get(&self) -> u32 {
        self.value
    }
}

impl Register<u32> for Rgp {
    open spec fn spec_get(&self) -> u32 {
        self.value
    }

    fn set(&mut self, value: u32) {
        self.value = value;
    }

    fn get(&self) -> u32 {
        self.value
    }
}

impl Register<u32> for Rgi {
    open spec fn spec_get(&self) -> u32 {
        self.value
    }

    fn set(&mut self, value: u32) {
        self.value = value;
    }

    fn get(&self) -> u32 {
        self.value
    }
}

impl Register<u32> for Rgo {
    open spec fn spec_get(&self) -> u32 {
        self.value
    }

    fn set(&mut self, value: u32) {
        self.value = value;
    }

    fn get(&self) -> u32 {
        self.value
    }
}

impl Register<u32> for Rgl {
    open spec fn spec_get(&self) -> u32 {
        self.value
    }

    fn set(&mut self, value: u32) {
        self.value = value;
    }

    fn get(&self) -> u32 {
        self.value
    }
}

/// The code a register name denotes, or `None` for an unknown name.
pub open spec fn spec_register_code(name: Seq<char>) -> Option<u8> {
    if name.len() != 3 || name[0] != 'r' {
        None
    } else if name[1] == 'c' {
        if name[2] == 's' {
            Some(RCS)
        } else if name[2] == 'r' {
            Some(RCR)
        } else if name[2] == 'g' {
            Some(RCG)
        } else if name[2] == 'b' {
            Some(RCB)
        } else {
            None
        }
    } else if name[1] == 'g' {
        if name[2] == 'd' {
            Some(RGD)
        } else if name[2] == 'p' {
            Some(RGP)
        } else if name[2] == 'i' {
            Some(RGI)
        } else if name[2] == 'o' {
            Some(RGO)
        } else if name[2] == 'l' {
            Some(RGL)
        } else {
            None
        }
    } else {
        None
    }
}

/// Maps a register name to its bytecode value.
pub fn get_register_by_name(name: &str) -> (r: Option<u8>)
    ensures
        r == spec_register_code(name@),
{
    if name.unicode_len() != 3 {
        return None;
    }
    if name.get_char(0) != 'r' {
        return None;
    }
    let c1 = name.get_char(1);
    let c2 = name.get_char(2);
    if c1 == 'c' {
        if c2 == 's' {
            Some(RCS)
        } else if c2 == 'r' {
            Some(RCR)
        } else if c2 == 'g' {
            Some(RCG)
        } else if c2 == 'b' {
            Some(RCB)
        } else {
            None
        }
    } else if c1 == 'g' {
        if c2 == 'd' {
            Some(RGD)
        } else if c2 == 'p' {
            Some(RGP)
        } else if c2 == 'i' {
            Some(RGI)
        } else if c2 == 'o' {
            Some(RGO)
        } else if c2 == 'l' {
            Some(RGL)
        } else {
            None
        }
    } else {
        None
    }
}

} // verus!
