use vstd::prelude::*;

verus! {

/// One of the eight 8-bit registers.
#[derive(Copy, Clone, Debug, PartialEq, Eq, Structural)]
pub enum Reg {
    A,
    F,
    B,
    C,
    D,
    E,
    H,
    L,
}

/// One of the four 16-bit register pairs.
#[derive(Copy, Clone, Debug, PartialEq, Eq, Structural)]
pub enum RegW {
    AF,
    BC,
    DE,
    HL,
}

/// One of the four condition flags held in the top nibble of `F`.
#[derive(Copy, Clone, Debug, PartialEq, Eq, Structural)]
pub enum Flag {
    Z,
    N,
    C,
    H,
}

/// The bit of `F` that holds a flag.
pub open spec fn flag_mask(f: Flag) -> u8 {
    match f {
        Flag::Z => 0x80,
        Flag::N => 0x40,
        Flag::H => 0x20,
        Flag::C => 0x10,
    }
}

/// Whether flag `f` is set in the flags byte `fl`.
pub open spec fn flag_in(fl: u8, f: Flag) -> bool {
    match f {
        Flag::Z => fl >= 0x80,
        Flag::N => fl % 0x80 >= 0x40,
        Flag::H => fl % 0x40 >= 0x20,
        Flag::C => fl % 0x20 >= 0x10,
    }
}

/// The flags byte with exactly the given flags set and a clear low nibble.
pub open spec fn flags_byte(z: bool, n: bool, h: bool, c: bool) -> u8 {
    ((if z { 0x80int } else { 0 }) + (if n { 0x40int } else { 0 }) + (if h { 0x20int } else { 0 })
        + (if c { 0x10int } else { 0 })) as u8
}

/// The flags byte `fl` with flag `f` set to `v` and every other bit kept.
pub open spec fn with_flag(fl: u8, f: Flag, v: bool) -> u8 {
    if flag_in(fl, f) == v {
        fl
    } else if v {
        (fl + flag_mask(f)) as u8
    } else {
        (fl - flag_mask(f)) as u8
    }
}

/// `x` reduced modulo 256.
pub open spec fn wrap8(x: int) -> u8 {
    (x % 256) as u8
}

/// `x` reduced modulo 65536.
pub open spec fn wrap16(x: int) -> u16 {
    (x % 65536) as u16
}

/// A 16-bit value made of a high and a low byte.
pub open spec fn word(hi: u8, lo: u8) -> u16 {
    (hi as int * 256 + lo as int) as u16
}

/// A flags byte whose four flags are as given is exactly `flags_byte` of them,
/// and `flags_byte` has each flag as given.
pub proof fn lemma_flags_byte(z: bool, n: bool, h: bool, c: bool)
    ensures
        flags_byte(z, n, h, c) % 16 == 0,
        flag_in(flags_byte(z, n, h, c), Flag::Z) == z,
        flag_in(flags_byte(z, n, h, c), Flag::N) == n,
        flag_in(flags_byte(z, n, h, c), Flag::H) == h,
        flag_in(flags_byte(z, n, h, c), Flag::C) == c,
{
}

/// Setting one flag leaves the low nibble and the other three flags alone.
pub proof fn lemma_with_flag(fl: u8, f: Flag, v: bool)
    ensures
        with_flag(fl, f, v) % 16 == fl % 16,
        flag_in(with_flag(fl, f, v), f) == v,
        f != Flag::Z ==> flag_in(with_flag(fl, f, v), Flag::Z) == flag_in(fl, Flag::Z),
        f != Flag::N ==> flag_in(with_flag(fl, f, v), Flag::N) == flag_in(fl, Flag::N),
        f != Flag::H ==> flag_in(with_flag(fl, f, v), Flag::H) == flag_in(fl, Flag::H),
        f != Flag::C ==> flag_in(with_flag(fl, f, v), Flag::C) == flag_in(fl, Flag::C),
{
    let r = with_flag(fl, f, v);
    assert(r % 16 == fl % 16 && flag_in(r, f) == v && (f != Flag::Z ==> flag_in(r, Flag::Z) == flag_in(fl, Flag::Z))
        && (f != Flag::N ==> flag_in(r, Flag::N) == flag_in(fl, Flag::N))
        && (f != Flag::H ==> flag_in(r, Flag::H) == flag_in(fl, Flag::H))
        && (f != Flag::C ==> flag_in(r, Flag::C) == flag_in(fl, Flag::C))) by (nonlinear_arith)
        requires
            r == with_flag(fl, f, v),
    ;
}

/// The register file.
#[derive(Copy, Clone, Debug)]
pub struct Registers {
    pub A: u8,
    pub F: u8,
    pub B: u8,
    pub C: u8,
    pub D: u8,
    pub E: u8,
    pub H: u8,
    pub L: u8,
}

impl Registers {
    /// The bits of `F` outside the four flags are clear.
    pub open spec fn wf(&self) -> bool {
        self.F % 16 == 0
    }

    pub open spec fn reg(&self, r: Reg) -> u8 {
        match r {
            Reg::A => self.A,
            Reg::F => self.F,
            Reg::B => self.B,
            Reg::C => self.C,
            Reg::D => self.D,
            Reg::E => self.E,
            Reg::H => self.H,
            Reg::L => self.L,
        }
    }

    pub open spec fn reg_w(&self, r: RegW) -> u16 {
        match r {
            RegW::AF => word(self.A, self.F),
            RegW::BC => word(self.B, self.C),
            RegW::DE => word(self.D, self.E),
            RegW::HL => word(self.H, self.L),
        }
    }

    pub open spec fn flag(&self, f: Flag) -> bool {
        flag_in(self.F, f)
    }

    /// `self` with register `r` holding `v`; a value written to `F` loses its low nibble.
    pub open spec fn with_reg(self, r: Reg, v: u8) -> Registers {
        match r {
            Reg::A => Registers { A: v, ..self },
            Reg::F => Registers { F: (v - v % 16) as u8, ..self },
            Reg::B => Registers { B: v, ..self },
            Reg::C => Registers { C: v, ..self },
            Reg::D => Registers { D: v, ..self },
            Reg::E => Registers { E: v, ..self },
            Reg::H => Registers { H: v, ..self },
            Reg::L => Registers { L: v, ..self },
        }
    }

    /// `self` with pair `r` holding `v`.
    pub open spec fn with_reg_w(self, r: RegW, v: u16) -> Registers {
        let hi = (v / 256) as u8;
        let lo = (v % 256) as u8;
        match r {
            RegW::AF => Registers { A: hi, F: (lo - lo % 16) as u8, ..self },
            RegW::BC => Registers { B: hi, C: lo, ..self },
            RegW::DE => Registers { D: hi, E: lo, ..self },
            RegW::HL => Registers { H: hi, L: lo, ..self },
        }
    }

    /// `self` with `F` replaced by the four given flags.
    pub open spec fn with_flags(self, z: bool, n: bool, h: bool, c: bool) -> Registers {
        Registers { F: flags_byte(z, n, h, c), ..self }
    }

    /// The register file at power-on.
    pub open spec fn new_spec() -> Registers {
        Registers { A: 0x01, F: 0xB0, B: 0x00, C: 0x13, D: 0x00, E: 0xD8, H: 0x01, L: 0x4D }
    }

    /// The register file at power-on, after the boot program has run.
    pub fn new() -> (r: Self)
        ensures
            r.wf(),
            r == Self::new_spec(),
    {
        Registers { A: 0x01, F: 0xB0, B: 0x00, C: 0x13, D: 0x00, E: 0xD8, H: 0x01, L: 0x4D }
    }

    pub fn get_reg(&self, src: Reg) -> (r: u8)
        ensures
            r == self.reg(src),
    {
        match src {
            Reg::A => self.A,
            Reg::F => self.F,
            Reg::B => self.B,
            Reg::C => self.C,
            Reg::D => self.D,
            Reg::E => self.E,
            Reg::H => self.H,
            Reg::L => self.L,
        }
    }

    pub fn get_regW(&self, src: RegW) -> (r: u16)
        ensures
            r == self.reg_w(src),
    {
        match src {
            RegW::AF => self.A as u16 * 256 + self.F as u16,
            RegW::BC => self.B as u16 * 256 + self.C as u16,
            RegW::DE => self.D as u16 * 256 + self.E as u16,
            RegW::HL => self.H as u16 * 256 + self.L as u16,
        }
    }

    /// Writes one register; a write to `F` keeps only the four flag bits.
    pub fn set_reg(&mut self, dst: Reg, src: u8)
        requires
            old(self).wf(),
        ensures
            final(self).wf(),
            *final(self) == old(self).with_reg(dst, src),
    {
        match dst {
            Reg::A => { self.A = src },
            Reg::F => { self.F = src - src % 16 },
            Reg::B => { self.B = src },
            Reg::C => { self.C = src },
            Reg::D => { self.D = src },
            Reg::E => { self.E = src },
            Reg::H => { self.H = src },
            Reg::L => { self.L = src },
        };
    }

    /// Writes one register pair, high byte to the first register.
    pub fn set_regW(&mut self, dst: RegW, src: u16)
        requires
            old(self).wf(),
        ensures
            final(self).wf(),
            *final(self) == old(self).with_reg_w(dst, src),
    {
        let hi = (src / 256) as u8;
        let lo = (src % 256) as u8;
        match dst {
            RegW::AF => {
                self.A = hi;
                self.F = lo - lo % 16;
            },
            RegW::BC => {
                self.B = hi;
                self.C = lo;
            },
            RegW::DE => {
                self.D = hi;
                self.E = lo;
            },
            RegW::HL => {
                self.H = hi;
                self.L = lo;
            },
        };
    }

    pub fn get_flag(&self, f: Flag) -> (r: bool)
        ensures
            r == self.flag(f),
    {
        match f {
            Flag::Z => self.F >= 0x80,
            Flag::N => self.F % 0x80 >= 0x40,
            Flag::H => self.F % 0x40 >= 0x20,
            Flag::C => self.F % 0x20 >= 0x10,
        }
    }

    /// Sets or clears one flag, keeping the other bits of `F`.
    pub fn set_flag(&mut self, f: Flag, set: bool)
        requires
            old(self).wf(),
        ensures
            final(self).wf(),
            *final(self) == (Registers { F: with_flag(old(self).F, f, set), ..*old(self) }),
            final(self).flag(f) == set,
            f != Flag::Z ==> final(self).flag(Flag::Z) == old(self).flag(Flag::Z),
            f != Flag::N ==> final(self).flag(Flag::N) == old(self).flag(Flag::N),
            f != Flag::H ==> final(self).flag(Flag::H) == old(self).flag(Flag::H),
            f != Flag::C ==> final(self).flag(Flag::C) == old(self).flag(Flag::C),
    {
        proof {
            lemma_with_flag(self.F, f, set);
        }
        if self.get_flag(f) != set {
            let mask: u8 = match f {
                Flag::Z => 0x80,
                Flag::N => 0x40,
                Flag::H => 0x20,
                Flag::C => 0x10,
            };
            if set {
                self.F = self.F + mask;
            } else {
                self.F = self.F - mask;
            }
        }
    }

    /// Replaces all four flags at once, clearing the low nibble.
    pub fn set_flags(&mut self, z: bool, n: bool, h: bool, c: bool)
        ensures
            final(self).wf(),
            *final(self) == old(self).with_flags(z, n, h, c),
            final(self).flag(Flag::Z) == z && final(self).flag(Flag::N) == n,
            final(self).flag(Flag::H) == h && final(self).flag(Flag::C) == c,
    {
        proof {
            lemma_flags_byte(z, n, h, c);
        }
        let mut fl: u8 = 0;
        if z {
            fl = fl + 0x80;
        }
        if n {
            fl = fl + 0x40;
        }
        if h {
            fl = fl + 0x20;
        }
        if c {
            fl = fl + 0x10;
        }
        self.F = fl;
    }
}

} // verus!
