//! The registers and flags of the 65C816.

use vstd::prelude::*;

verus! {

/// The processor status: the eight bits of `P`, and the hidden emulation and
/// break flags.
#[derive(Clone, Copy, Debug, PartialEq, Eq, Structural)]
pub struct Flags {
    /// Negative
    pub n: bool,
    /// Overflow
    pub v: bool,
    /// Memory width: the accumulator is 8 bits wide when set
    pub m: bool,
    /// Index register width: `X` and `Y` are 8 bits wide when set
    pub x: bool,
    /// Decimal mode
    pub d: bool,
    /// Interrupt disable
    pub i: bool,
    /// Zero
    pub z: bool,
    /// Carry
    pub c: bool,
    /// Emulation mode
    pub e: bool,
    /// Break
    pub b: bool,
}

/// The 65C816 CPU
#[allow(non_snake_case)]
#[derive(Clone, Copy, Debug, PartialEq, Eq, Structural)]
pub struct CPU {
    /// Accumulator (16 bit)
    pub A: u16,
    /// X Register (16 bit)
    pub X: u16,
    /// Y Register (16 bit)
    pub Y: u16,
    /// Stack Pointer (16 bit)
    pub S: u16,
    /// Data Bank Register (8 bit)
    pub DBR: u8,
    /// Direct Page Register (16 bit)
    pub D: u16,
    /// Program Bank Register (8 bit)
    pub K: u8,
    /// Flags Register
    pub P: Flags,
    /// Program Counter (16 bit)
    pub PC: u16,
}

/// 1 for a set flag, 0 for a clear one.
pub open spec fn bit_value(b: bool) -> int {
    if b {
        1
    } else {
        0
    }
}

/// Whether bit `k` of `p` is set, for `k` in `0..8`.
pub open spec fn bit_of(p: u8, k: int) -> bool {
    if k == 0 {
        p % 2 == 1
    } else if k == 1 {
        (p / 2) % 2 == 1
    } else if k == 2 {
        (p / 4) % 2 == 1
    } else if k == 3 {
        (p / 8) % 2 == 1
    } else if k == 4 {
        (p / 16) % 2 == 1
    } else if k == 5 {
        (p / 32) % 2 == 1
    } else if k == 6 {
        (p / 64) % 2 == 1
    } else {
        p / 128 == 1
    }
}

impl Flags {
    /// The flags after reset: emulation mode, which holds both widths at
    /// 8 bits.
    pub open spec fn reset() -> Flags {
        Flags {
            n: false,
            v: false,
            m: true,
            x: true,
            d: false,
            i: false,
            z: false,
            c: false,
            e: true,
            b: false,
        }
    }

    pub fn new() -> (r: Flags)
        ensures
            r == Flags::reset(),
    {
        Flags {
            n: false,
            v: false,
            m: true,
            x: true,
            d: false,
            i: false,
            z: false,
            c: false,
            e: true,
            b: false,
        }
    }

    /// The byte that `PHP` pushes: `N V M X D I Z C` from bit 7 down. In
    /// emulation mode bit 4 is not the index width and reads as zero.
    pub open spec fn to_byte(self) -> int {
        128 * bit_value(self.n) + 64 * bit_value(self.v) + 32 * bit_value(self.m) + 16
            * bit_value(self.x && !self.e) + 8 * bit_value(self.d) + 4 * bit_value(self.i) + 2
            * bit_value(self.z) + bit_value(self.c)
    }

    /// The flags after `p` was loaded into `P`. The hidden flags stay, and
    /// emulation mode holds both widths at 8 bits whatever `p` says.
    pub open spec fn with_byte(self, p: u8) -> Flags {
        Flags {
            n: bit_of(p, 7),
            v: bit_of(p, 6),
            m: bit_of(p, 5) || self.e,
            x: bit_of(p, 4) || self.e,
            d: bit_of(p, 3),
            i: bit_of(p, 2),
            z: bit_of(p, 1),
            c: bit_of(p, 0),
            e: self.e,
            b: self.b,
        }
    }
}

impl CPU {
    /// The processor after reset: emulation mode, the stack in page 1,
    /// every register at zero.
    pub open spec fn reset() -> CPU {
        CPU { A: 0, X: 0, Y: 0, S: 0x0100, DBR: 0, D: 0, K: 0, P: Flags::reset(), PC: 0 }
    }

    /// The invariant of emulation mode: both widths are 8 bits and the stack
    /// lies in page 1.
    pub open spec fn valid(self) -> bool {
        self.P.e ==> self.P.m && self.P.x && self.S / 256 == 1
    }

    /// The logical program counter `K:PC`.
    pub open spec fn pc(self) -> int {
        self.K * 0x10000 + self.PC
    }

    /// The processor with `K:PC` set to the low 24 bits of `addr`.
    pub open spec fn with_pc(self, addr: u32) -> CPU {
        CPU { PC: (addr % 0x10000) as u16, K: ((addr / 0x10000) % 0x100) as u8, ..self }
    }

    /// Init CPU to its state after reset
    pub fn new() -> (r: CPU)
        ensures
            r == CPU::reset(),
            r.valid(),
    {
        CPU { A: 0, X: 0, Y: 0, S: 0x0100, DBR: 0, D: 0, K: 0, P: Flags::new(), PC: 0 }
    }

    pub fn p_byte(&self) -> (p: u8)
        ensures
            p == self.P.to_byte(),
    {
        let n: u8 = if self.P.n { 128 } else { 0 };
        let v: u8 = if self.P.v { 64 } else { 0 };
        let m: u8 = if self.P.m { 32 } else { 0 };
        let x: u8 = if self.P.x && !self.P.e { 16 } else { 0 };
        let d: u8 = if self.P.d { 8 } else { 0 };
        let i: u8 = if self.P.i { 4 } else { 0 };
        let z: u8 = if self.P.z { 2 } else { 0 };
        let c: u8 = if self.P.c { 1 } else { 0 };
        n + v + m + x + d + i + z + c
    }

    #[verifier::rlimit(50)]
    pub fn set_p(&mut self, p: u8)
        ensures
            *final(self) == (CPU { P: old(self).P.with_byte(p), ..*old(self) }),
            old(self).valid() ==> final(self).valid(),
    {
        let e: bool = self.P.e;
        self.P.c = p % 2 == 1;
        self.P.z = (p / 2) % 2 == 1;
        self.P.i = (p / 4) % 2 == 1;
        self.P.d = (p / 8) % 2 == 1;
        self.P.x = (p / 16) % 2 == 1 || e;
        self.P.m = (p / 32) % 2 == 1 || e;
        self.P.v = (p / 64) % 2 == 1;
        self.P.n = p / 128 == 1;
    }

    pub fn get_pc(&self) -> (r: u32)
        ensures
            r == self.pc(),
    {
        self.PC as u32 + (self.K as u32) * 0x10000
    }

    pub fn set_pc(&mut self, addr: u32)
        ensures
            *final(self) == old(self).with_pc(addr),
    {
        self.PC = (addr % 0x10000) as u16;
        self.K = ((addr / 0x10000) % 0x100) as u8;
    }
}

} // verus!
