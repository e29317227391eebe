//! The 6809 register file: 8-bit A, B, DP and CC, 16-bit X, Y, U, S and PC.
//! D is an aliased view of the pair (A high, B low); reading or writing D goes
//! through A and B so the two views can never disagree.

use vstd::prelude::*;

verus! {

/// Names of the registers a 6809 instruction can address.
#[derive(Clone, Copy, PartialEq, Eq, Structural, Debug)]
pub enum Name {
    A,
    B,
    D,
    X,
    Y,
    U,
    S,
    PC,
    DP,
    CC,
}

/// The named bits of the condition-code register.
#[derive(Clone, Copy, PartialEq, Eq, Structural, Debug)]
pub enum CCBit {
    E,
    F,
    H,
    I,
    N,
    Z,
    V,
    C,
}

/// The bit mask that a condition-code bit occupies within CC.
pub open spec fn cc_mask_spec(bit: CCBit) -> u8 {
    match bit {
        CCBit::E => 0x80,
        CCBit::F => 0x40,
        CCBit::H => 0x20,
        CCBit::I => 0x10,
        CCBit::N => 0x08,
        CCBit::Z => 0x04,
        CCBit::V => 0x02,
        CCBit::C => 0x01,
    }
}

/// Number of bytes a register occupies when pushed on a stack.
pub open spec fn reg_size_spec(r: Name) -> u16 {
    match r {
        Name::A | Name::B | Name::DP | Name::CC => 1,
        _ => 2,
    }
}

/// Returns the number of bytes the register occupies on a stack frame.
pub fn reg_size(r: Name) -> (n: u16)
    ensures
        n == reg_size_spec(r),
        1 <= n <= 2,
{
    match r {
        Name::A | Name::B | Name::DP | Name::CC => 1,
        _ => 2,
    }
}

/// The full 6809 register set. D is not stored: it is the pair (A, B).
#[derive(Clone, Copy, PartialEq, Eq, Structural, Debug)]
pub struct RegisterSet {
    pub a: u8,
    pub b: u8,
    pub dp: u8,
    pub cc: u8,
    pub x: u16,
    pub y: u16,
    pub u: u16,
    pub s: u16,
    pub pc: u16,
}

impl RegisterSet {
    /// The aliased 16-bit D view: A is the high byte, B the low byte.
    pub open spec fn d_spec(self) -> u16 {
        (self.a as u16) << 8 | (self.b as u16)
    }

    /// The value a register holds, widened to 16 bits for the 8-bit registers.
    pub open spec fn get_spec(self, r: Name) -> u16 {
        match r {
            Name::A => self.a as u16,
            Name::B => self.b as u16,
            Name::D => self.d_spec(),
            Name::X => self.x,
            Name::Y => self.y,
            Name::U => self.u,
            Name::S => self.s,
            Name::PC => self.pc,
            Name::DP => self.dp as u16,
            Name::CC => self.cc as u16,
        }
    }

    /// The register set after writing `v` to register `r` (8-bit registers
    /// take the low byte; D splits into A and B).
    pub open spec fn set_spec(self, r: Name, v: u16) -> RegisterSet {
        match r {
            Name::A => RegisterSet { a: v as u8, ..self },
            Name::B => RegisterSet { b: v as u8, ..self },
            Name::D => RegisterSet { a: (v >> 8) as u8, b: v as u8, ..self },
            Name::X => RegisterSet { x: v, ..self },
            Name::Y => RegisterSet { y: v, ..self },
            Name::U => RegisterSet { u: v, ..self },
            Name::S => RegisterSet { s: v, ..self },
            Name::PC => RegisterSet { pc: v, ..self },
            Name::DP => RegisterSet { dp: v as u8, ..self },
            Name::CC => RegisterSet { cc: v as u8, ..self },
        }
    }

    /// A register set with every register zero.
    pub open spec fn cleared_spec() -> RegisterSet {
        RegisterSet { a: 0, b: 0, dp: 0, cc: 0, x: 0, y: 0, u: 0, s: 0, pc: 0 }
    }

    /// Whether a condition-code bit is set.
    pub open spec fn cc_is_set_spec(self, bit: CCBit) -> bool {
        self.cc & cc_mask_spec(bit) != 0
    }

    pub fn new() -> (r: RegisterSet)
        ensures
            r == RegisterSet::cleared_spec(),
    {
        RegisterSet { a: 0, b: 0, dp: 0, cc: 0, x: 0, y: 0, u: 0, s: 0, pc: 0 }
    }

    /// Clears every register (the first half of a CPU reset).
    pub fn reset(&mut self)
        ensures
            *final(self) == RegisterSet::cleared_spec(),
    {
        *self = RegisterSet { a: 0, b: 0, dp: 0, cc: 0, x: 0, y: 0, u: 0, s: 0, pc: 0 };
    }

    /// Reads the aliased 16-bit D register.
    pub fn get_d(&self) -> (v: u16)
        ensures
            v == self.d_spec(),
    {
        (self.a as u16) << 8 | (self.b as u16)
    }

    /// Writes the aliased 16-bit D register through A and B.
    pub fn set_d(&mut self, v: u16)
        ensures
            *final(self) == old(self).set_spec(Name::D, v),
    {
        self.a = (v >> 8) as u8;
        self.b = v as u8;
    }

    /// Reads any register by name, widened to 16 bits.
    pub fn get_register(&self, r: Name) -> (v: u16)
        ensures
            v == self.get_spec(r),
    {
        match r {
            Name::A => self.a as u16,
            Name::B => self.b as u16,
            Name::D => self.get_d(),
            Name::X => self.x,
            Name::Y => self.y,
            Name::U => self.u,
            Name::S => self.s,
            Name::PC => self.pc,
            Name::DP => self.dp as u16,
            Name::CC => self.cc as u16,
        }
    }

    /// Writes any register by name; 8-bit registers take the low byte.
    pub fn set_register(&mut self, r: Name, v: u16)
        ensures
            *final(self) == old(self).set_spec(r, v),
    {
        match r {
            Name::A => self.a = v as u8,
            Name::B => self.b = v as u8,
            Name::D => self.set_d(v),
            Name::X => self.x = v,
            Name::Y => self.y = v,
            Name::U => self.u = v,
            Name::S => self.s = v,
            Name::PC => self.pc = v,
            Name::DP => self.dp = v as u8,
            Name::CC => self.cc = v as u8,
        }
    }

    /// Returns the mask of a condition-code bit.
    pub fn cc_mask(bit: CCBit) -> (m: u8)
        ensures
            m == cc_mask_spec(bit),
    {
        match bit {
            CCBit::E => 0x80,
            CCBit::F => 0x40,
            CCBit::H => 0x20,
            CCBit::I => 0x10,
            CCBit::N => 0x08,
            CCBit::Z => 0x04,
            CCBit::V => 0x02,
            CCBit::C => 0x01,
        }
    }

    /// Whether the given condition-code bit is set.
    pub fn cc_is_set(&self, bit: CCBit) -> (r: bool)
        ensures
            r == self.cc_is_set_spec(bit),
    {
        self.cc & RegisterSet::cc_mask(bit) != 0
    }

    /// Sets or clears one condition-code bit, leaving the others alone.
    pub fn cc_set(&mut self, bit: CCBit, value: bool)
        ensures
            value ==> final(self).cc == old(self).cc | cc_mask_spec(bit),
            !value ==> final(self).cc == old(self).cc & !cc_mask_spec(bit),
            final(self).a == old(self).a,
            final(self).b == old(self).b,
            final(self).dp == old(self).dp,
            final(self).x == old(self).x,
            final(self).y == old(self).y,
            final(self).u == old(self).u,
            final(self).s == old(self).s,
            final(self).pc == old(self).pc,
    {
        let m = RegisterSet::cc_mask(bit);
        if value {
            self.cc = self.cc | m;
        } else {
            self.cc = self.cc & !m;
        }
    }

    /// ORs a mask of condition-code bits into CC (used on interrupt entry).
    pub fn cc_or_with_byte(&mut self, mask: u8)
        ensures
            final(self).cc == old(self).cc | mask,
            final(self).a == old(self).a,
            final(self).b == old(self).b,
            final(self).dp == old(self).dp,
            final(self).x == old(self).x,
            final(self).y == old(self).y,
            final(self).u == old(self).u,
            final(self).s == old(self).s,
            final(self).pc == old(self).pc,
    {
        self.cc = self.cc | mask;
    }
}

} // verus!
