use vstd::prelude::*;

verus! {

/// The value of `x` reduced into a byte.
pub open spec fn wrap8(x: int) -> u8 {
    (x % 256) as u8
}

/// The value of `x` reduced into a 16-bit word.
pub open spec fn wrap16(x: int) -> u16 {
    (x % 65536) as u16
}

/// The two's-complement value of a byte.
pub open spec fn signed8(b: u8) -> int {
    if b < 128 { b as int } else { b - 256 }
}

/// The 16-bit value of a register pair.
pub open spec fn pair(high: u8, low: u8) -> u16 {
    (high as int * 256 + low as int) as u16
}

/// One of the four flags held in the upper nibble of F.
#[derive(Clone, Copy, Debug, PartialEq, Eq, Structural)]
pub enum Flag {
    Zero,
    Subtraction,
    HalfCarry,
    Carry,
}

/// The register file of the Sharp LR35902, with the flags kept as booleans.
pub struct GbcCpu {
    pub a: u8,
    pub b: u8,
    pub c: u8,
    pub d: u8,
    pub e: u8,
    pub h: u8,
    pub l: u8,
    pub zero: bool,
    pub subtraction: bool,
    pub half_carry: bool,
    pub carry: bool,
    pub stack_pointer: u16,
    pub program_counter: u16,
    /// The master interrupt enable latch (IME).
    pub mie: bool,
    /// Set by EI: IME is latched before the next instruction.
    pub pending_mie: bool,
    pub halt: bool,
    pub stop: bool,
}

impl GbcCpu {
    pub open spec fn flag_spec(&self, flag: Flag) -> bool {
        match flag {
            Flag::Zero => self.zero,
            Flag::Subtraction => self.subtraction,
            Flag::HalfCarry => self.half_carry,
            Flag::Carry => self.carry,
        }
    }

    /// The F register: Z, N, H and C in bits 7 to 4, the low nibble zero.
    pub open spec fn f_spec(&self) -> u8 {
        ((if self.zero { 128int } else { 0 }) + (if self.subtraction { 64int } else { 0 })
            + (if self.half_carry { 32int } else { 0 }) + (if self.carry { 16int } else { 0 })) as u8
    }

    /// Condition `cc` of JR/JP/CALL/RET cc, encoded as in opcode bits 4-3:
    /// NZ, Z, NC, C.
    pub open spec fn condition_spec(&self, cc: int) -> bool {
        if cc == 0 {
            !self.zero
        } else if cc == 1 {
            self.zero
        } else if cc == 2 {
            !self.carry
        } else {
            self.carry
        }
    }

    pub open spec fn hl_spec(&self) -> u16 {
        pair(self.h, self.l)
    }

    /// Every field but the flags is the same in `self` and `o`.
    pub open spec fn same_but_flags(&self, o: &GbcCpu) -> bool {
        self.a == o.a && self.b == o.b && self.c == o.c && self.d == o.d && self.e == o.e
            && self.h == o.h && self.l == o.l && self.stack_pointer == o.stack_pointer
            && self.program_counter == o.program_counter && self.mie == o.mie
            && self.pending_mie == o.pending_mie && self.halt == o.halt && self.stop == o.stop
    }

    pub fn get_flag(&self, flag: Flag) -> (r: bool)
        ensures
            r == self.flag_spec(flag),
    {
        match flag {
            Flag::Zero => self.zero,
            Flag::Subtraction => self.subtraction,
            Flag::HalfCarry => self.half_carry,
            Flag::Carry => self.carry,
        }
    }

    pub fn set_flag(&mut self, flag: Flag, value: bool)
        ensures
            final(self).flag_spec(flag) == value,
            forall|g: Flag| g != flag ==> final(self).flag_spec(g) == old(self).flag_spec(g),
            final(self).same_but_flags(old(self)),
    {
        match flag {
            Flag::Zero => self.zero = value,
            Flag::Subtraction => self.subtraction = value,
            Flag::HalfCarry => self.half_carry = value,
            Flag::Carry => self.carry = value,
        }
    }

    /// The F register; its low nibble always reads as zero.
    pub fn get_f(&self) -> (r: u8)
        ensures
            r == self.f_spec(),
            r % 16 == 0,
    {
        let mut r: u8 = 0;
        if self.zero {
            r = r + 128;
        }
        if self.subtraction {
            r = r + 64;
        }
        if self.half_carry {
            r = r + 32;
        }
        if self.carry {
            r = r + 16;
        }
        r
    }

    /// The HL register pair.
    pub fn hl(&self) -> (r: u16)
        ensures
            r == self.hl_spec(),
    {
        (self.h as u16) * 256 + self.l as u16
    }

    /// Stores `value` into the HL register pair.
    pub fn set_hl(&mut self, value: u16)
        ensures
            final(self).hl_spec() == value,
            final(self).h == value / 256,
            final(self).l == value % 256,
            final(self).a == old(self).a,
            final(self).zero == old(self).zero,
            final(self).subtraction == old(self).subtraction,
            final(self).half_carry == old(self).half_carry,
            final(self).carry == old(self).carry,
            final(self).stack_pointer == old(self).stack_pointer,
            final(self).program_counter == old(self).program_counter,
    {
        self.h = (value / 256) as u8;
        self.l = (value % 256) as u8;
    }
}

impl Default for GbcCpu {
    fn default() -> (r: GbcCpu)
        ensures
            r.a == 0 && r.b == 0 && r.c == 0 && r.d == 0 && r.e == 0 && r.h == 0 && r.l == 0,
            !r.zero && !r.subtraction && !r.half_carry && !r.carry,
            r.stack_pointer == 0 && r.program_counter == 0,
            !r.mie && !r.pending_mie && !r.halt && !r.stop,
    {
        GbcCpu {
            a: 0,
            b: 0,
            c: 0,
            d: 0,
            e: 0,
            h: 0,
            l: 0,
            zero: false,
            subtraction: false,
            half_carry: false,
            carry: false,
            stack_pointer: 0,
            program_counter: 0,
            mie: false,
            pending_mie: false,
            halt: false,
            stop: false,
        }
    }
}

} // verus!
