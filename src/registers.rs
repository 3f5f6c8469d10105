use vstd::prelude::*;

verus! {

/// The eight 8-bit registers.
#[derive(Clone, Copy, Debug, PartialEq, Eq, Structural)]
pub enum Reg8 {
    A,
    F,
    B,
    C,
    D,
    E,
    H,
    L,
}

/// The register pairs and the two 16-bit registers.
#[derive(Clone, Copy, Debug, PartialEq, Eq, Structural)]
pub enum Reg16 {
    AF,
    BC,
    DE,
    HL,
    SP,
    PC,
}

/// The four condition flags held in the top nibble of F.
#[derive(Clone, Copy, Debug, PartialEq, Eq, Structural)]
pub enum Flags {
    Carry,
    HalfCarry,
    Negative,
    Zero,
}

/// The bit of F that holds a flag.
pub open spec fn flag_mask(f: Flags) -> u8 {
    match f {
        Flags::Carry => 0x10,
        Flags::HalfCarry => 0x20,
        Flags::Negative => 0x40,
        Flags::Zero => 0x80,
    }
}

impl Flags {
    pub fn mask(self) -> (r: u8)
        ensures
            r == flag_mask(self),
    {
        match self {
            Flags::Carry => 0x10,
            Flags::HalfCarry => 0x20,
            Flags::Negative => 0x40,
            Flags::Zero => 0x80,
        }
    }
}

/// The four flags as booleans.
#[derive(Clone, Copy, Debug, PartialEq, Eq, Structural)]
pub struct FlagSet {
    pub zero: bool,
    pub negative: bool,
    pub half_carry: bool,
    pub carry: bool,
}

/// The F byte that holds a set of flags; its low nibble is zero.
pub open spec fn pack_flags(fs: FlagSet) -> u8 {
    (if fs.zero { 0x80u8 } else { 0u8 }) | (if fs.negative { 0x40u8 } else { 0u8 }) | (if fs.half_carry {
        0x20u8
    } else {
        0u8
    }) | (if fs.carry { 0x10u8 } else { 0u8 })
}

/// The flags that an F byte holds.
pub open spec fn unpack_flags(f: u8) -> FlagSet {
    FlagSet {
        zero: f & 0x80 != 0,
        negative: f & 0x40 != 0,
        half_carry: f & 0x20 != 0,
        carry: f & 0x10 != 0,
    }
}

/// A 16-bit value from its high and low bytes.
pub open spec fn join16(hi: u8, lo: u8) -> u16 {
    (hi as int * 256 + lo as int) as u16
}

pub open spec fn high_byte(v: u16) -> u8 {
    (v as int / 256) as u8
}

pub open spec fn low_byte(v: u16) -> u8 {
    (v as int % 256) as u8
}

pub fn join_bytes(hi: u8, lo: u8) -> (r: u16)
    ensures
        r == join16(hi, lo),
{
    hi as u16 * 256 + lo as u16
}

pub fn split_word(v: u16) -> (r: (u8, u8))
    ensures
        r.0 == high_byte(v),
        r.1 == low_byte(v),
        join16(r.0, r.1) == v,
{
    ((v / 256) as u8, (v % 256) as u8)
}

/// The register file: eight 8-bit registers, the stack pointer and the
/// program counter.
#[derive(Clone, Copy, Debug, PartialEq, Eq, Structural)]
pub struct Registers {
    pub a: u8,
    pub f: u8,
    pub b: u8,
    pub c: u8,
    pub d: u8,
    pub e: u8,
    pub h: u8,
    pub l: u8,
    pub sp: u16,
    pub pc: u16,
}

impl Registers {
    /// The low nibble of F is zero.
    pub open spec fn wf(&self) -> bool {
        self.f & 0x0F == 0
    }

    pub open spec fn r8(&self, r: Reg8) -> u8 {
        match r {
            Reg8::A => self.a,
            Reg8::F => self.f,
            Reg8::B => self.b,
            Reg8::C => self.c,
            Reg8::D => self.d,
            Reg8::E => self.e,
            Reg8::H => self.h,
            Reg8::L => self.l,
        }
    }

    pub open spec fn r16(&self, r: Reg16) -> u16 {
        match r {
            Reg16::AF => join16(self.a, self.f),
            Reg16::BC => join16(self.b, self.c),
            Reg16::DE => join16(self.d, self.e),
            Reg16::HL => join16(self.h, self.l),
            Reg16::SP => self.sp,
            Reg16::PC => self.pc,
        }
    }

    /// The register file after an 8-bit write; F keeps only its top nibble.
    pub open spec fn with_r8(self, r: Reg8, v: u8) -> Registers {
        match r {
            Reg8::A => Registers { a: v, ..self },
            Reg8::F => Registers { f: v & 0xF0, ..self },
            Reg8::B => Registers { b: v, ..self },
            Reg8::C => Registers { c: v, ..self },
            Reg8::D => Registers { d: v, ..self },
            Reg8::E => Registers { e: v, ..self },
            Reg8::H => Registers { h: v, ..self },
            Reg8::L => Registers { l: v, ..self },
        }
    }

    /// The register file after a 16-bit write; F keeps only its top nibble.
    pub open spec fn with_r16(self, r: Reg16, v: u16) -> Registers {
        match r {
            Reg16::AF => Registers { a: high_byte(v), f: low_byte(v) & 0xF0, ..self },
            Reg16::BC => Registers { b: high_byte(v), c: low_byte(v), ..self },
            Reg16::DE => Registers { d: high_byte(v), e: low_byte(v), ..self },
            Reg16::HL => Registers { h: high_byte(v), l: low_byte(v), ..self },
            Reg16::SP => Registers { sp: v, ..self },
            Reg16::PC => Registers { pc: v, ..self },
        }
    }

    pub open spec fn flag(&self, fl: Flags) -> bool {
        self.f & flag_mask(fl) != 0
    }

    pub open spec fn flags(&self) -> FlagSet {
        unpack_flags(self.f)
    }

    /// The register file after the flags are replaced.
    pub open spec fn with_flags(self, fs: FlagSet) -> Registers {
        Registers { f: pack_flags(fs), ..self }
    }

    /// The state after power-on.
    pub fn new() -> (r: Registers)
        ensures
            r.wf(),
            r == (Registers {
                a: 0x01,
                f: 0xB0,
                b: 0x00,
                c: 0x13,
                d: 0x00,
                e: 0xD8,
                h: 0x01,
                l: 0x4D,
                sp: 0xFFFE,
                pc: 0x0100,
            }),
    {
        let r = Registers {
            a: 0x01,
            f: 0xB0,
            b: 0x00,
            c: 0x13,
            d: 0x00,
            e: 0xD8,
            h: 0x01,
            l: 0x4D,
            sp: 0xfffe,
            pc: 0x0100,
        };
        assert(0xB0u8 & 0x0F == 0) by (bit_vector);
        r
    }

    pub fn read_r16(&self, r: Reg16) -> (v: u16)
        ensures
            v == self.r16(r),
    {
        match r {
            Reg16::AF => join_bytes(self.a, self.f),
            Reg16::BC => join_bytes(self.b, self.c),
            Reg16::DE => join_bytes(self.d, self.e),
            Reg16::HL => join_bytes(self.h, self.l),
            Reg16::SP => self.sp,
            Reg16::PC => self.pc,
        }
    }

    pub fn read_r8(&self, r: Reg8) -> (v: u8)
        ensures
            v == self.r8(r),
    {
        match r {
            Reg8::A => self.a,
            Reg8::F => self.f,
            Reg8::B => self.b,
            Reg8::C => self.c,
            Reg8::D => self.d,
            Reg8::E => self.e,
            Reg8::H => self.h,
            Reg8::L => self.l,
        }
    }

    pub fn write_r16(&mut self, r: Reg16, val: u16)
        requires
            old(self).wf(),
        ensures
            *final(self) == old(self).with_r16(r, val),
            final(self).wf(),
            final(self).r16(r) == (if r == Reg16::AF { val & 0xFFF0 } else { val }),
    {
        let (hi, lo) = split_word(val);
        proof {
            lemma_join_split(val);
        }
        match r {
            Reg16::AF => {
                self.a = hi;
                self.f = lo & 0xF0;
                assert(lo & 0xF0 & 0x0F == 0) by (bit_vector);
            },
            Reg16::BC => {
                self.b = hi;
                self.c = lo;
            },
            Reg16::DE => {
                self.d = hi;
                self.e = lo;
            },
            Reg16::HL => {
                self.h = hi;
                self.l = lo;
            },
            Reg16::SP => self.sp = val,
            Reg16::PC => self.pc = val,
        }
    }

    /// Raises one flag.
    pub fn set(&mut self, f: Flags)
        requires
            old(self).wf(),
        ensures
            *final(self) == (Registers { f: old(self).f | flag_mask(f), ..*old(self) }),
            final(self).wf(),
            forall|g: Flags| #[trigger] final(self).flag(g) == (g == f || old(self).flag(g)),
    {
        let m = f.mask();
        let old_f = self.f;
        self.f = self.f | m;
        proof {
            lemma_flag_or(old_f, f);
        }
    }

    /// Tells whether one flag is raised.
    pub fn check(&self, f: Flags) -> (r: bool)
        ensures
            r == self.flag(f),
    {
        self.f & f.mask() > 0
    }

    /// Lowers one flag.
    pub fn clear(&mut self, f: Flags)
        requires
            old(self).wf(),
        ensures
            *final(self) == (Registers { f: old(self).f & !flag_mask(f), ..*old(self) }),
            final(self).wf(),
            forall|g: Flags| #[trigger] final(self).flag(g) == (g != f && old(self).flag(g)),
    {
        let m = f.mask();
        let old_f = self.f;
        self.f = self.f & !m;
        proof {
            lemma_flag_and_not(old_f, f);
        }
    }

    pub fn write_r8(&mut self, r: Reg8, val: u8)
        requires
            old(self).wf(),
        ensures
            *final(self) == old(self).with_r8(r, val),
            final(self).wf(),
    {
        match r {
            Reg8::A => self.a = val,
            Reg8::F => {
                self.f = val & 0xF0;
                assert(val & 0xF0 & 0x0F == 0) by (bit_vector);
            },
            Reg8::B => self.b = val,
            Reg8::C => self.c = val,
            Reg8::D => self.d = val,
            Reg8::E => self.e = val,
            Reg8::H => self.h = val,
            Reg8::L => self.l = val,
        }
    }

    /// Replaces all four flags.
    pub fn set_flags(&mut self, fs: FlagSet)
        requires
            old(self).wf(),
        ensures
            *final(self) == old(self).with_flags(fs),
            final(self).wf(),
            final(self).flags() == fs,
    {
        let z: u8 = if fs.zero { 0x80 } else { 0 };
        let n: u8 = if fs.negative { 0x40 } else { 0 };
        let h: u8 = if fs.half_carry { 0x20 } else { 0 };
        let c: u8 = if fs.carry { 0x10 } else { 0 };
        self.f = z | n | h | c;
        proof {
            lemma_pack_unpack(fs);
        }
    }

    /// The flags as booleans.
    pub fn get_flags(&self) -> (r: FlagSet)
        ensures
            r == self.flags(),
    {
        FlagSet {
            zero: self.f & 0x80 != 0,
            negative: self.f & 0x40 != 0,
            half_carry: self.f & 0x20 != 0,
            carry: self.f & 0x10 != 0,
        }
    }
}

pub proof fn lemma_join_split(v: u16)
    ensures
        join16(high_byte(v), low_byte(v)) == v,
        join16(high_byte(v), low_byte(v) & 0xF0) == v & 0xFFF0,
        high_byte(join16(high_byte(v), low_byte(v))) == high_byte(v),
{
    let lo = low_byte(v);
    assert(lo == v & 0xFF) by (bit_vector)
        requires lo == (v as int % 256) as u8;
    assert((v / 256) * 256 + ((v & 0xFF) & 0xF0) == v & 0xFFF0) by (bit_vector);
}

proof fn lemma_flag_or(x: u8, f: Flags)
    requires
        x & 0x0F == 0,
    ensures
        (x | flag_mask(f)) & 0x0F == 0,
        forall|g: Flags| #![trigger flag_mask(g)]
            ((x | flag_mask(f)) & flag_mask(g) != 0) == (g == f || x & flag_mask(g) != 0),
{
    assert forall|m: u8, n: u8|
        (m == 0x10 || m == 0x20 || m == 0x40 || m == 0x80) && (n == 0x10 || n == 0x20 || n == 0x40
            || n == 0x80) implies ((x | m) & n != 0) == (m == n || x & n != 0) by {
        assert((m == 0x10 || m == 0x20 || m == 0x40 || m == 0x80) && (n == 0x10 || n == 0x20 || n
            == 0x40 || n == 0x80) ==> ((x | m) & n != 0) == (m == n || x & n != 0)) by (bit_vector);
    }
    let m = flag_mask(f);
    assert((m == 0x10 || m == 0x20 || m == 0x40 || m == 0x80) && x & 0x0F == 0 ==> (x | m) & 0x0F
        == 0) by (bit_vector);
}

proof fn lemma_flag_and_not(x: u8, f: Flags)
    requires
        x & 0x0F == 0,
    ensures
        (x & !flag_mask(f)) & 0x0F == 0,
        forall|g: Flags| #![trigger flag_mask(g)]
            ((x & !flag_mask(f)) & flag_mask(g) != 0) == (g != f && x & flag_mask(g) != 0),
{
    assert forall|m: u8, n: u8|
        (m == 0x10 || m == 0x20 || m == 0x40 || m == 0x80) && (n == 0x10 || n == 0x20 || n == 0x40
            || n == 0x80) implies ((x & !m) & n != 0) == (m != n && x & n != 0) by {
        assert((m == 0x10 || m == 0x20 || m == 0x40 || m == 0x80) && (n == 0x10 || n == 0x20 || n
            == 0x40 || n == 0x80) ==> ((x & !m) & n != 0) == (m != n && x & n != 0)) by (bit_vector);
    }
    let m = flag_mask(f);
    assert(x & 0x0F == 0 ==> (x & !m) & 0x0F == 0) by (bit_vector);
}

pub proof fn lemma_pack_unpack(fs: FlagSet)
    ensures
        unpack_flags(pack_flags(fs)) == fs,
        pack_flags(fs) & 0x0F == 0,
{
    let z: u8 = if fs.zero { 0x80 } else { 0 };
    let n: u8 = if fs.negative { 0x40 } else { 0 };
    let h: u8 = if fs.half_carry { 0x20 } else { 0 };
    let c: u8 = if fs.carry { 0x10 } else { 0 };
    assert((z == 0x80 || z == 0) && (n == 0x40 || n == 0) && (h == 0x20 || h == 0) && (c == 0x10
        || c == 0) ==> {
        let p = z | n | h | c;
        &&& (p & 0x80 != 0) == (z == 0x80)
        &&& (p & 0x40 != 0) == (n == 0x40)
        &&& (p & 0x20 != 0) == (h == 0x20)
        &&& (p & 0x10 != 0) == (c == 0x10)
        &&& p & 0x0F == 0
    }) by (bit_vector);
}

} // verus!
