//! The meaning of the instructions: a mathematical model of the executor.
//!
//! Every function here is a specification. [`execute`] says what one
//! instruction makes of a [`Machine`]; the executor is proved to do exactly
//! that. The operations fall into a few classes that share their plumbing:
//! those that read an operand, those that modify a value in place, the
//! stores, the pushes and pulls, those that touch registers only, and the
//! transfers of control.

use vstd::prelude::*;
use crate::address::{join, wrap16};
use crate::console::Machine;
use crate::cpu::{bit_of, bit_value, Flags, CPU};
use crate::error::{EmuError, Feature};
use crate::memory::{high_byte, load_byte, load_word, low_byte, store_byte, store_word};
use crate::opcode::{instruction_length, AddrMode, InstructionContext, OpCode};

verus! {

/// How an instruction ended, for the caller that follows the flow of
/// control.
#[derive(Clone, Copy, Debug, PartialEq, Eq, Structural)]
pub enum CPUExecutionResult {
    /// The program counter moved on by the length of the instruction.
    Normal,
    /// A branch was taken: the program counter is its target.
    BranchTaken,
    /// A jump: the program counter is its target, nothing was pushed.
    Jump,
    /// A call to the given address: the return address was pushed.
    Subroutine(u32),
    /// A return: the program counter was pulled.
    Return,
    /// A software interrupt: the program counter is the vector.
    Interrupt,
}

/// What one step leaves behind: the machine, and how the step ended.
pub type Outcome = (Machine, Result<CPUExecutionResult, EmuError>);

// ---------------------------------------------------------------------
// Values at a width
// ---------------------------------------------------------------------
/// `v` reduced to the width: to 8 bits where `w8` holds, else to 16.
pub open spec fn wrap(v: int, w8: bool) -> u16 {
    if w8 {
        (v % 0x100) as u16
    } else {
        (v % 0x10000) as u16
    }
}

/// The first number past the width.
pub open spec fn modulus(w8: bool) -> int {
    if w8 {
        0x100
    } else {
        0x10000
    }
}

/// The mask of the sign bit of the width.
pub open spec fn sign_mask(w8: bool) -> u16 {
    if w8 {
        0x80
    } else {
        0x8000
    }
}

/// Whether the bit below the sign bit of the width is set in `v`.
pub open spec fn second_bit(v: u16, w8: bool) -> bool {
    if w8 {
        (v / 0x40) % 2 == 1
    } else {
        (v / 0x4000) % 2 == 1
    }
}

/// The part of a register that an operation of the width works on.
pub open spec fn low_part(v: u16, w8: bool) -> u16 {
    wrap(v as int, w8)
}

/// The accumulator after `v` was written to it at the width: at 8 bits the
/// high byte stays.
pub open spec fn merge(old: u16, v: u16, w8: bool) -> u16 {
    if w8 {
        (old / 256 * 256 + v % 256) as u16
    } else {
        v
    }
}

/// The flags with `N` and `Z` taken from `v` at the width.
pub open spec fn with_nz(p: Flags, v: u16, w8: bool) -> Flags {
    Flags { n: low_part(v, w8) >= sign_mask(w8), z: low_part(v, w8) == 0, ..p }
}

/// The processor with its program counter moved on by `len` within the
/// bank.
pub open spec fn advance(cpu: CPU, len: int) -> CPU {
    CPU { PC: wrap16(cpu.PC + len), ..cpu }
}

/// What a read of the operand at `addr` returns: a byte where `w8` holds,
/// else a word.
pub open spec fn load_operand(m: Machine, addr: u32, w8: bool) -> Result<u16, EmuError> {
    if w8 {
        match load_byte(m, addr) {
            Ok(v) => Ok(v as u16),
            Err(e) => Err(e),
        }
    } else {
        load_word(m, addr)
    }
}

/// The machine after `v` was written to `addr` at the width.
pub open spec fn store_operand(m: Machine, addr: u32, w8: bool, v: u16) -> (
    Machine,
    Result<(), EmuError>,
) {
    if w8 {
        store_byte(m, addr, low_byte(v))
    } else {
        store_word(m, addr, v)
    }
}

// ---------------------------------------------------------------------
// The stack
// ---------------------------------------------------------------------
/// Where the stack pointer points: in bank 0, and in emulation mode in
/// page 1.
pub open spec fn stack_address(cpu: CPU) -> u32 {
    if cpu.P.e {
        (0x0100 + cpu.S % 256) as u32
    } else {
        cpu.S as u32
    }
}

/// The stack pointer moved by `delta`. In emulation mode only its low byte
/// moves.
pub open spec fn stack_moved(cpu: CPU, delta: int) -> u16 {
    if cpu.P.e {
        (cpu.S / 256 * 256 + (cpu.S % 256 + 256 + delta) % 256) as u16
    } else {
        wrap16(cpu.S + 0x10000 + delta)
    }
}

/// Push of a byte: the write goes to where `S` points, then `S` goes down.
/// A write that fails leaves everything as it was.
pub open spec fn push8(m: Machine, v: u8) -> (Machine, Result<(), EmuError>) {
    let written = store_byte(m, stack_address(m.cpu), v);
    match written.1 {
        Ok(_) => (
            Machine { cpu: CPU { S: stack_moved(m.cpu, -1), ..written.0.cpu }, ..written.0 },
            Ok(()),
        ),
        Err(e) => (m, Err(e)),
    }
}

/// Pull of a byte: `S` goes up, then the byte where it points is read. `S`
/// has moved even where the read fails.
pub open spec fn pull8(m: Machine) -> (Machine, Result<u8, EmuError>) {
    let moved = Machine { cpu: CPU { S: stack_moved(m.cpu, 1), ..m.cpu }, ..m };
    (moved, load_byte(moved, stack_address(moved.cpu)))
}

/// Push of a word: the high byte first.
pub open spec fn push16(m: Machine, v: u16) -> (Machine, Result<(), EmuError>) {
    let first = push8(m, high_byte(v));
    match first.1 {
        Ok(_) => push8(first.0, low_byte(v)),
        Err(e) => first,
    }
}

/// Pull of a word: the low byte first.
pub open spec fn pull16(m: Machine) -> (Machine, Result<u16, EmuError>) {
    let first = pull8(m);
    match first.1 {
        Ok(lo) => {
            let second = pull8(first.0);
            match second.1 {
                Ok(hi) => (second.0, Ok((lo + hi * 256) as u16)),
                Err(e) => (second.0, Err(e)),
            }
        },
        Err(e) => (first.0, Err(e)),
    }
}

/// Push at a width: a byte where `w8` holds, else a word.
pub open spec fn push_value(m: Machine, v: u16, w8: bool) -> (Machine, Result<(), EmuError>) {
    if w8 {
        push8(m, low_byte(v))
    } else {
        push16(m, v)
    }
}

/// Pull at a width: a byte where `w8` holds, else a word.
pub open spec fn pull_value(m: Machine, w8: bool) -> (Machine, Result<u16, EmuError>) {
    if w8 {
        let pulled = pull8(m);
        match pulled.1 {
            Ok(v) => (pulled.0, Ok(v as u16)),
            Err(e) => (pulled.0, Err(e)),
        }
    } else {
        pull16(m)
    }
}

// ---------------------------------------------------------------------
// The classes
// ---------------------------------------------------------------------
/// The operations that read an operand and then change registers only.
pub open spec fn is_read_op(op: OpCode) -> bool {
    matches!(
        op,
        OpCode::ADC | OpCode::SBC | OpCode::AND | OpCode::ORA | OpCode::EOR | OpCode::CMP
            | OpCode::CPX | OpCode::CPY | OpCode::BIT | OpCode::LDA | OpCode::LDX | OpCode::LDY
            | OpCode::REP | OpCode::SEP
    )
}

/// The operations that read a value, change it and write it back where it
/// came from: the accumulator or memory.
pub open spec fn is_modify_op(op: OpCode) -> bool {
    matches!(
        op,
        OpCode::ASL | OpCode::LSR | OpCode::ROL | OpCode::ROR | OpCode::INC | OpCode::DEC
            | OpCode::TRB | OpCode::TSB
    )
}

/// The stores.
pub open spec fn is_store_op(op: OpCode) -> bool {
    matches!(op, OpCode::STA | OpCode::STX | OpCode::STY | OpCode::STZ)
}

/// The pushes of a register.
pub open spec fn is_push_op(op: OpCode) -> bool {
    matches!(
        op,
        OpCode::PHA | OpCode::PHX | OpCode::PHY | OpCode::PHP | OpCode::PHB | OpCode::PHD
            | OpCode::PHK
    )
}

/// The pushes of a word that the instruction names: `PEA`, `PEI`, `PER`.
pub open spec fn is_push_effective_op(op: OpCode) -> bool {
    matches!(op, OpCode::PEA | OpCode::PEI | OpCode::PER)
}

/// The pulls.
pub open spec fn is_pull_op(op: OpCode) -> bool {
    matches!(
        op,
        OpCode::PLA | OpCode::PLX | OpCode::PLY | OpCode::PLP | OpCode::PLB | OpCode::PLD
    )
}

/// The operations that touch registers and flags only.
pub open spec fn is_register_op(op: OpCode) -> bool {
    matches!(
        op,
        OpCode::CLC | OpCode::CLD | OpCode::CLI | OpCode::CLV | OpCode::SEC | OpCode::SED
            | OpCode::SEI | OpCode::DEX | OpCode::DEY | OpCode::INX | OpCode::INY | OpCode::NOP
            | OpCode::WDM | OpCode::TAX | OpCode::TAY | OpCode::TCD | OpCode::TCS | OpCode::TDC
            | OpCode::TSC | OpCode::TSX | OpCode::TXA | OpCode::TXS | OpCode::TXY | OpCode::TYA
            | OpCode::TYX | OpCode::XBA | OpCode::XCE
    )
}

/// The branches, short and long.
pub open spec fn is_branch_op(op: OpCode) -> bool {
    op.is_branch_spec() || op == OpCode::BRL
}

/// The width of the memory operand of an operation: 8 bits where the
/// result holds. `REP` and `SEP` take a byte; the index operations go by
/// `X`, the others by `M`.
pub open spec fn operand_is_byte(op: OpCode, p: Flags) -> bool {
    if op == OpCode::REP || op == OpCode::SEP {
        true
    } else if op.uses_x_spec() {
        p.x
    } else {
        p.m
    }
}

// ---------------------------------------------------------------------
// Operations that read an operand
// ---------------------------------------------------------------------
/// Binary addition with carry: `A + operand + C` at the width. `C` is the
/// unsigned overflow, `V` the signed one.
pub open spec fn adc(cpu: CPU, operand: u16) -> CPU {
    let w8 = cpu.P.m;
    let a = low_part(cpu.A, w8);
    let sum = a + operand + bit_value(cpu.P.c);
    let result = wrap(sum, w8);
    let p = Flags {
        c: sum >= modulus(w8),
        v: ((a ^ result) & (operand ^ result) & sign_mask(w8)) != 0,
        ..with_nz(cpu.P, result, w8)
    };
    CPU { A: merge(cpu.A, result, w8), P: p, ..cpu }
}

/// Binary subtraction with borrow: `A - operand - (1 - C)` at the width.
/// `C` is set where no borrow was needed.
pub open spec fn sbc(cpu: CPU, operand: u16) -> CPU {
    let w8 = cpu.P.m;
    let a = low_part(cpu.A, w8);
    let difference = a - operand - (1 - bit_value(cpu.P.c));
    let result = wrap(difference + 0x20000, w8);
    let p = Flags {
        c: difference >= 0,
        v: ((a ^ operand) & (a ^ result) & sign_mask(w8)) != 0,
        ..with_nz(cpu.P, result, w8)
    };
    CPU { A: merge(cpu.A, result, w8), P: p, ..cpu }
}

/// `AND`, `ORA`, `EOR`: the accumulator combined with the operand, `N` and
/// `Z` from the result.
pub open spec fn logic(op: OpCode, cpu: CPU, operand: u16) -> CPU {
    let w8 = cpu.P.m;
    let a = low_part(cpu.A, w8);
    let result = if op == OpCode::AND {
        a & operand
    } else if op == OpCode::ORA {
        a | operand
    } else {
        a ^ operand
    };
    CPU { A: merge(cpu.A, result, w8), P: with_nz(cpu.P, result, w8), ..cpu }
}

/// `CMP`, `CPX`, `CPY`: the flags of `register - operand` at the width. No
/// register changes.
pub open spec fn compare(cpu: CPU, register: u16, operand: u16, w8: bool) -> CPU {
    let r = low_part(register, w8);
    let result = wrap(r - operand + 0x10000, w8);
    CPU { P: Flags { c: r >= operand, ..with_nz(cpu.P, result, w8) }, ..cpu }
}

/// `BIT`: `Z` from `A & operand`; `N` and `V` from the top two bits of the
/// operand, unless the operand is immediate.
pub open spec fn bit_test(cpu: CPU, operand: u16, immediate: bool) -> CPU {
    let w8 = cpu.P.m;
    let a = low_part(cpu.A, w8);
    let z = (a & operand) == 0;
    if immediate {
        CPU { P: Flags { z: z, ..cpu.P }, ..cpu }
    } else {
        CPU {
            P: Flags {
                z: z,
                n: low_part(operand, w8) >= sign_mask(w8),
                v: second_bit(operand, w8),
                ..cpu.P
            },
            ..cpu
        }
    }
}

/// `REP` clears and `SEP` sets the flags whose bits are set in the operand.
/// Emulation mode holds `M` and `X` set, and 8-bit index registers lose
/// their high bytes.
pub open spec fn change_flags(cpu: CPU, operand: u8, set: bool) -> CPU {
    let p = cpu.P;
    let changed = Flags {
        n: if bit_of(operand, 7) {
            set
        } else {
            p.n
        },
        v: if bit_of(operand, 6) {
            set
        } else {
            p.v
        },
        m: if bit_of(operand, 5) {
            set
        } else {
            p.m
        } || p.e,
        x: if bit_of(operand, 4) {
            set
        } else {
            p.x
        } || p.e,
        d: if bit_of(operand, 3) {
            set
        } else {
            p.d
        },
        i: if bit_of(operand, 2) {
            set
        } else {
            p.i
        },
        z: if bit_of(operand, 1) {
            set
        } else {
            p.z
        },
        c: if bit_of(operand, 0) {
            set
        } else {
            p.c
        },
        ..p
    };
    CPU {
        P: changed,
        X: low_part(cpu.X, changed.x),
        Y: low_part(cpu.Y, changed.x),
        ..cpu
    }
}

/// What an operation of the reading class makes of the processor, given
/// its operand. Decimal arithmetic is refused before this is asked.
pub open spec fn read_effect(op: OpCode, mode: AddrMode, cpu: CPU, operand: u16) -> CPU {
    match op {
        OpCode::ADC => adc(cpu, operand),
        OpCode::SBC => sbc(cpu, operand),
        OpCode::AND | OpCode::ORA | OpCode::EOR => logic(op, cpu, operand),
        OpCode::CMP => compare(cpu, cpu.A, operand, cpu.P.m),
        OpCode::CPX => compare(cpu, cpu.X, operand, cpu.P.x),
        OpCode::CPY => compare(cpu, cpu.Y, operand, cpu.P.x),
        OpCode::BIT => bit_test(cpu, operand, mode == AddrMode::Immediate),
        OpCode::LDA => CPU {
            A: merge(cpu.A, operand, cpu.P.m),
            P: with_nz(cpu.P, operand, cpu.P.m),
            ..cpu
        },
        OpCode::LDX => CPU {
            X: low_part(operand, cpu.P.x),
            P: with_nz(cpu.P, operand, cpu.P.x),
            ..cpu
        },
        OpCode::LDY => CPU {
            Y: low_part(operand, cpu.P.x),
            P: with_nz(cpu.P, operand, cpu.P.x),
            ..cpu
        },
        OpCode::REP => change_flags(cpu, low_byte(operand), false),
        OpCode::SEP => change_flags(cpu, low_byte(operand), true),
        _ => cpu,
    }
}

// ---------------------------------------------------------------------
// Operations that modify a value in place
// ---------------------------------------------------------------------
/// The value that a modifying operation writes back, from the value it
/// read.
pub open spec fn modified_value(op: OpCode, cpu: CPU, value: u16) -> u16 {
    let w8 = cpu.P.m;
    let v = low_part(value, w8);
    match op {
        OpCode::ASL => wrap(v * 2, w8),
        OpCode::LSR => (v / 2) as u16,
        OpCode::ROL => wrap(v * 2 + bit_value(cpu.P.c), w8),
        OpCode::ROR => (v / 2 + bit_value(cpu.P.c) * sign_mask(w8)) as u16,
        OpCode::INC => wrap(v + 1, w8),
        OpCode::DEC => wrap(v + 0x10000 - 1, w8),
        OpCode::TRB => v & (low_part(cpu.A, w8) ^ 0xFFFF),
        OpCode::TSB => v | low_part(cpu.A, w8),
        _ => v,
    }
}

/// The flags after a modifying operation. The shifts and rotates put the
/// bit that left the value into `C`; `TRB` and `TSB` change `Z` only.
pub open spec fn modified_flags(op: OpCode, cpu: CPU, value: u16) -> Flags {
    let w8 = cpu.P.m;
    let v = low_part(value, w8);
    let result = modified_value(op, cpu, value);
    match op {
        OpCode::ASL | OpCode::ROL => Flags { c: v >= sign_mask(w8), ..with_nz(cpu.P, result, w8) },
        OpCode::LSR | OpCode::ROR => Flags { c: v % 2 == 1, ..with_nz(cpu.P, result, w8) },
        OpCode::INC | OpCode::DEC => with_nz(cpu.P, result, w8),
        OpCode::TRB | OpCode::TSB => Flags { z: low_part(result, w8) == 0, ..cpu.P },
        _ => cpu.P,
    }
}

// ---------------------------------------------------------------------
// Stores, pushes, pulls
// ---------------------------------------------------------------------
/// The value that a store writes.
pub open spec fn stored_value(op: OpCode, cpu: CPU) -> u16 {
    match op {
        OpCode::STA => cpu.A,
        OpCode::STX => cpu.X,
        OpCode::STY => cpu.Y,
        _ => 0,
    }
}

/// The value that a push of a register writes.
pub open spec fn pushed_value(op: OpCode, cpu: CPU) -> u16 {
    match op {
        OpCode::PHA => cpu.A,
        OpCode::PHX => cpu.X,
        OpCode::PHY => cpu.Y,
        OpCode::PHP => cpu.P.to_byte() as u16,
        OpCode::PHB => cpu.DBR as u16,
        OpCode::PHD => cpu.D,
        OpCode::PHK => cpu.K as u16,
        _ => 0,
    }
}

/// Whether a push or pull moves a byte rather than a word.
pub open spec fn stack_is_byte(op: OpCode, p: Flags) -> bool {
    match op {
        OpCode::PHA | OpCode::PLA => p.m,
        OpCode::PHX | OpCode::PHY | OpCode::PLX | OpCode::PLY => p.x,
        OpCode::PHD | OpCode::PLD => false,
        _ => true,
    }
}

/// What a pull makes of the processor, given the value it pulled. All but
/// `PLP` take `N` and `Z` from the value.
pub open spec fn pull_effect(op: OpCode, cpu: CPU, value: u16) -> CPU {
    match op {
        OpCode::PLA => CPU {
            A: merge(cpu.A, value, cpu.P.m),
            P: with_nz(cpu.P, value, cpu.P.m),
            ..cpu
        },
        OpCode::PLX => CPU {
            X: low_part(value, cpu.P.x),
            P: with_nz(cpu.P, value, cpu.P.x),
            ..cpu
        },
        OpCode::PLY => CPU {
            Y: low_part(value, cpu.P.x),
            P: with_nz(cpu.P, value, cpu.P.x),
            ..cpu
        },
        OpCode::PLP => CPU { P: cpu.P.with_byte(low_byte(value)), ..cpu },
        OpCode::PLB => CPU { DBR: low_byte(value), P: with_nz(cpu.P, value, true), ..cpu },
        OpCode::PLD => CPU { D: value, P: with_nz(cpu.P, value, false), ..cpu },
        _ => cpu,
    }
}

// ---------------------------------------------------------------------
// Operations on registers only
// ---------------------------------------------------------------------
/// The stack pointer after `v` was moved into it: emulation mode holds it
/// in page 1.
pub open spec fn stack_pointer_from(cpu: CPU, v: u16) -> u16 {
    if cpu.P.e {
        (0x0100 + v % 256) as u16
    } else {
        v
    }
}

/// `XCE`: carry and emulation flag change places. Entering emulation mode
/// sets `M` and `X` and puts the stack into page 1.
pub open spec fn exchange_carry_emulation(cpu: CPU) -> CPU {
    let e = cpu.P.c;
    let p = Flags { c: cpu.P.e, e: e, m: cpu.P.m || e, x: cpu.P.x || e, ..cpu.P };
    CPU {
        P: p,
        S: if e {
            (0x0100 + cpu.S % 256) as u16
        } else {
            cpu.S
        },
        ..cpu
    }
}

/// What an operation that touches registers only makes of the processor.
pub open spec fn register_effect(op: OpCode, cpu: CPU) -> CPU {
    let p = cpu.P;
    match op {
        OpCode::CLC => CPU { P: Flags { c: false, ..p }, ..cpu },
        OpCode::CLD => CPU { P: Flags { d: false, ..p }, ..cpu },
        OpCode::CLI => CPU { P: Flags { i: false, ..p }, ..cpu },
        OpCode::CLV => CPU { P: Flags { v: false, ..p }, ..cpu },
        OpCode::SEC => CPU { P: Flags { c: true, ..p }, ..cpu },
        OpCode::SED => CPU { P: Flags { d: true, ..p }, ..cpu },
        OpCode::SEI => CPU { P: Flags { i: true, ..p }, ..cpu },
        OpCode::INX => CPU {
            X: wrap(low_part(cpu.X, p.x) + 1, p.x),
            P: with_nz(p, wrap(low_part(cpu.X, p.x) + 1, p.x), p.x),
            ..cpu
        },
        OpCode::INY => CPU {
            Y: wrap(low_part(cpu.Y, p.x) + 1, p.x),
            P: with_nz(p, wrap(low_part(cpu.Y, p.x) + 1, p.x), p.x),
            ..cpu
        },
        OpCode::DEX => CPU {
            X: wrap(low_part(cpu.X, p.x) + 0xFFFF, p.x),
            P: with_nz(p, wrap(low_part(cpu.X, p.x) + 0xFFFF, p.x), p.x),
            ..cpu
        },
        OpCode::DEY => CPU {
            Y: wrap(low_part(cpu.Y, p.x) + 0xFFFF, p.x),
            P: with_nz(p, wrap(low_part(cpu.Y, p.x) + 0xFFFF, p.x), p.x),
            ..cpu
        },
        OpCode::TAX => CPU { X: low_part(cpu.A, p.x), P: with_nz(p, cpu.A, p.x), ..cpu },
        OpCode::TAY => CPU { Y: low_part(cpu.A, p.x), P: with_nz(p, cpu.A, p.x), ..cpu },
        OpCode::TSX => CPU { X: low_part(cpu.S, p.x), P: with_nz(p, cpu.S, p.x), ..cpu },
        OpCode::TXY => CPU { Y: low_part(cpu.X, p.x), P: with_nz(p, cpu.X, p.x), ..cpu },
        OpCode::TYX => CPU { X: low_part(cpu.Y, p.x), P: with_nz(p, cpu.Y, p.x), ..cpu },
        OpCode::TXA => CPU { A: merge(cpu.A, cpu.X, p.m), P: with_nz(p, cpu.X, p.m), ..cpu },
        OpCode::TYA => CPU { A: merge(cpu.A, cpu.Y, p.m), P: with_nz(p, cpu.Y, p.m), ..cpu },
        OpCode::TXS => CPU {
            S: stack_pointer_from(cpu, cpu.X),
            P: with_nz(p, stack_pointer_from(cpu, cpu.X), false),
            ..cpu
        },
        OpCode::TCS => CPU { S: stack_pointer_from(cpu, cpu.A), ..cpu },
        OpCode::TCD => CPU { D: cpu.A, P: with_nz(p, cpu.A, false), ..cpu },
        OpCode::TDC => CPU { A: cpu.D, P: with_nz(p, cpu.D, false), ..cpu },
        OpCode::TSC => CPU { A: cpu.S, P: with_nz(p, cpu.S, false), ..cpu },
        OpCode::XBA => CPU { A: (cpu.A % 256 * 256 + cpu.A / 256) as u16, ..cpu },
        OpCode::XCE => exchange_carry_emulation(cpu),
        _ => cpu,
    }
}

// ---------------------------------------------------------------------
// Transfers of control
// ---------------------------------------------------------------------
/// Whether a branch is taken.
pub open spec fn branch_taken(op: OpCode, p: Flags) -> bool {
    match op {
        OpCode::BCC => !p.c,
        OpCode::BCS => p.c,
        OpCode::BEQ => p.z,
        OpCode::BNE => !p.z,
        OpCode::BMI => p.n,
        OpCode::BPL => !p.n,
        OpCode::BVC => !p.v,
        OpCode::BVS => p.v,
        _ => true,
    }
}

/// The entry point of a software interrupt or of the NMI, native or
/// emulation by `E`.
pub open spec fn interrupt_vector(m: Machine, op: OpCode) -> u16 {
    let vectors = m.cartridge.vectors;
    if op == OpCode::BRK {
        if m.cpu.P.e {
            vectors.brk_emu
        } else {
            vectors.brk
        }
    } else if op == OpCode::COP {
        if m.cpu.P.e {
            vectors.cop_emu
        } else {
            vectors.cop
        }
    } else {
        if m.cpu.P.e {
            vectors.nmi_emu
        } else {
            vectors.nmi
        }
    }
}

/// The status byte with the break bit, bit 4, set where `break_bit` holds.
pub open spec fn status_with_break(status: u8, break_bit: bool) -> u8 {
    if break_bit && !bit_of(status, 4) {
        (status + 16) as u8
    } else {
        status
    }
}

/// The entry into an interrupt: `K` is pushed, then the return address,
/// then `P`, with the break bit set in the pushed byte where `break_bit`
/// holds. Then decimal mode is off, interrupts are disabled, and `K:PC` is
/// the vector in bank 0.
pub open spec fn enter_interrupt(m: Machine, return_pc: u16, vector: u16, break_bit: bool) -> (
    Machine,
    Result<(), EmuError>,
) {
    let bank = push8(m, m.cpu.K);
    match bank.1 {
        Ok(_) => {
            let address = push16(bank.0, return_pc);
            match address.1 {
                Ok(_) => {
                    let status = push8(
                        address.0,
                        status_with_break(m.cpu.P.to_byte() as u8, break_bit),
                    );
                    match status.1 {
                        Ok(_) => (
                            Machine {
                                cpu: CPU {
                                    K: 0,
                                    PC: vector,
                                    P: Flags { d: false, i: true, ..status.0.cpu.P },
                                    ..status.0.cpu
                                },
                                ..status.0
                            },
                            Ok(()),
                        ),
                        Err(e) => status,
                    }
                },
                Err(e) => address,
            }
        },
        Err(e) => bank,
    }
}

/// The non-maskable interrupt: the entry into an interrupt with the
/// program counter as it stands as the return address.
pub open spec fn nmi(m: Machine) -> (Machine, Result<(), EmuError>) {
    enter_interrupt(m, m.cpu.PC, interrupt_vector(m, OpCode::NOP), false)
}

/// `BRK` and `COP`.
pub open spec fn execute_interrupt(m: Machine, i: InstructionContext) -> Outcome {
    let entered = enter_interrupt(
        m,
        wrap16(i.inst_addr % 0x10000 + 2),
        interrupt_vector(m, i.opcode),
        i.opcode == OpCode::BRK && m.cpu.P.e,
    );
    match entered.1 {
        Ok(_) => (entered.0, Ok(CPUExecutionResult::Interrupt)),
        Err(e) => (entered.0, Err(e)),
    }
}

/// `JSR` and `JSL`: the return address is pushed, for `JSL` behind `K`, and
/// `K:PC` is the target.
pub open spec fn execute_call(m: Machine, i: InstructionContext) -> Outcome {
    let return_pc = wrap16(i.inst_addr % 0x10000 + 2);
    let banked = if i.opcode == OpCode::JSL {
        push8(m, m.cpu.K)
    } else {
        (m, Ok(()))
    };
    match banked.1 {
        Ok(_) => {
            let pushed = push16(banked.0, return_pc);
            match pushed.1 {
                Ok(_) => (
                    Machine { cpu: pushed.0.cpu.with_pc(i.data_addr), ..pushed.0 },
                    Ok(CPUExecutionResult::Subroutine(i.data_addr)),
                ),
                Err(e) => (pushed.0, Err(e)),
            }
        },
        Err(e) => (banked.0, Err(e)),
    }
}

/// `RTS` and `RTL`: the program counter is the pulled address and one; `RTL`
/// pulls `K` after it.
pub open spec fn execute_return(m: Machine, i: InstructionContext) -> Outcome {
    let address = pull16(m);
    match address.1 {
        Ok(pc) => {
            let there = Machine { cpu: CPU { PC: wrap16(pc + 1), ..address.0.cpu }, ..address.0 };
            if i.opcode == OpCode::RTL {
                let bank = pull8(there);
                match bank.1 {
                    Ok(k) => (
                        Machine { cpu: CPU { K: k, ..bank.0.cpu }, ..bank.0 },
                        Ok(CPUExecutionResult::Return),
                    ),
                    Err(e) => (bank.0, Err(e)),
                }
            } else {
                (there, Ok(CPUExecutionResult::Return))
            }
        },
        Err(e) => (address.0, Err(e)),
    }
}

/// `RTI`: `P` is pulled, then the program counter, then `K`.
pub open spec fn execute_return_from_interrupt(m: Machine) -> Outcome {
    let status = pull8(m);
    match status.1 {
        Ok(p) => {
            let flagged = Machine {
                cpu: CPU { P: status.0.cpu.P.with_byte(p), ..status.0.cpu },
                ..status.0
            };
            let address = pull16(flagged);
            match address.1 {
                Ok(pc) => {
                    let there = Machine { cpu: CPU { PC: pc, ..address.0.cpu }, ..address.0 };
                    let bank = pull8(there);
                    match bank.1 {
                        Ok(k) => (
                            Machine { cpu: CPU { K: k, ..bank.0.cpu }, ..bank.0 },
                            Ok(CPUExecutionResult::Return),
                        ),
                        Err(e) => (bank.0, Err(e)),
                    }
                },
                Err(e) => (address.0, Err(e)),
            }
        },
        Err(e) => (status.0, Err(e)),
    }
}

// ---------------------------------------------------------------------
// One instruction
// ---------------------------------------------------------------------
/// The machine after an instruction that ends normally: the program
/// counter has moved on by `len`.
pub open spec fn finish(m: Machine, len: int) -> Outcome {
    (Machine { cpu: advance(m.cpu, len), ..m }, Ok(CPUExecutionResult::Normal))
}

/// An operation of the reading class.
pub open spec fn execute_read(m: Machine, i: InstructionContext, len: int) -> Outcome {
    match load_operand(m, i.data_addr, operand_is_byte(i.opcode, m.cpu.P)) {
        Ok(operand) => finish(
            Machine { cpu: read_effect(i.opcode, i.mode, m.cpu, operand), ..m },
            len,
        ),
        Err(e) => (m, Err(e)),
    }
}

/// An operation of the modifying class, on the accumulator or on memory.
pub open spec fn execute_modify(m: Machine, i: InstructionContext, len: int) -> Outcome {
    let w8 = m.cpu.P.m;
    if i.mode == AddrMode::Accumulator {
        finish(
            Machine {
                cpu: CPU {
                    A: merge(m.cpu.A, modified_value(i.opcode, m.cpu, m.cpu.A), w8),
                    P: modified_flags(i.opcode, m.cpu, m.cpu.A),
                    ..m.cpu
                },
                ..m
            },
            len,
        )
    } else {
        match load_operand(m, i.data_addr, w8) {
            Ok(value) => {
                let written = store_operand(
                    m,
                    i.data_addr,
                    w8,
                    modified_value(i.opcode, m.cpu, value),
                );
                match written.1 {
                    Ok(_) => finish(
                        Machine {
                            cpu: CPU { P: modified_flags(i.opcode, m.cpu, value), ..written.0.cpu },
                            ..written.0
                        },
                        len,
                    ),
                    Err(e) => (written.0, Err(e)),
                }
            },
            Err(e) => (m, Err(e)),
        }
    }
}

/// A store.
pub open spec fn execute_store(m: Machine, i: InstructionContext, len: int) -> Outcome {
    let written = store_operand(
        m,
        i.data_addr,
        operand_is_byte(i.opcode, m.cpu.P),
        stored_value(i.opcode, m.cpu),
    );
    match written.1 {
        Ok(_) => finish(written.0, len),
        Err(e) => (written.0, Err(e)),
    }
}

/// A push of a register.
pub open spec fn execute_push(m: Machine, i: InstructionContext, len: int) -> Outcome {
    let pushed = push_value(m, pushed_value(i.opcode, m.cpu), stack_is_byte(i.opcode, m.cpu.P));
    match pushed.1 {
        Ok(_) => finish(pushed.0, len),
        Err(e) => (pushed.0, Err(e)),
    }
}

/// `PEA`, `PEI` and `PER`: the word at the data address is pushed; `PER`
/// adds the address of the next instruction to it first.
pub open spec fn execute_push_effective(m: Machine, i: InstructionContext, len: int) -> Outcome {
    match load_word(m, i.data_addr) {
        Ok(word) => {
            let value = if i.opcode == OpCode::PER {
                wrap16(i.inst_addr % 0x10000 + 3 + word)
            } else {
                word
            };
            let pushed = push16(m, value);
            match pushed.1 {
                Ok(_) => finish(pushed.0, len),
                Err(e) => (pushed.0, Err(e)),
            }
        },
        Err(e) => (m, Err(e)),
    }
}

/// A pull.
pub open spec fn execute_pull(m: Machine, i: InstructionContext, len: int) -> Outcome {
    let pulled = pull_value(m, stack_is_byte(i.opcode, m.cpu.P));
    match pulled.1 {
        Ok(value) => finish(
            Machine { cpu: pull_effect(i.opcode, pulled.0.cpu, value), ..pulled.0 },
            len,
        ),
        Err(e) => (pulled.0, Err(e)),
    }
}

/// A branch: to the data address where it is taken, else on to the next
/// instruction.
pub open spec fn execute_branch(m: Machine, i: InstructionContext, len: int) -> Outcome {
    if branch_taken(i.opcode, m.cpu.P) {
        (
            Machine { cpu: CPU { PC: (i.data_addr % 0x10000) as u16, ..m.cpu }, ..m },
            Ok(CPUExecutionResult::BranchTaken),
        )
    } else {
        finish(m, len)
    }
}

/// The part of the processor that an operation names but the core does not
/// emulate, if any.
pub open spec fn unimplemented_feature(op: OpCode, p: Flags) -> Option<Feature> {
    match op {
        OpCode::ADC | OpCode::SBC => if p.d {
            Some(Feature::Decimal)
        } else {
            None
        },
        OpCode::MVN | OpCode::MVP => Some(Feature::BlockMove),
        OpCode::WAI => Some(Feature::Wait),
        OpCode::STP => Some(Feature::Stop),
        _ => None,
    }
}

/// What one instruction makes of the machine.
///
/// An instruction that fails leaves the machine as it was just before the
/// read or write that failed. The definition is opaque, to keep it out of
/// proofs that do not need it: `reveal(execute)` opens it.
#[verifier::opaque]
pub open spec fn execute(m: Machine, i: InstructionContext) -> Outcome {
    let op = i.opcode;
    let len = instruction_length(op, i.mode, m.cpu.P.m, m.cpu.P.x);
    match unimplemented_feature(op, m.cpu.P) {
        Some(feature) => (m, Err(EmuError::Unimplemented(feature))),
        None => if is_read_op(op) {
            execute_read(m, i, len)
        } else if is_modify_op(op) {
            execute_modify(m, i, len)
        } else if is_store_op(op) {
            execute_store(m, i, len)
        } else if is_push_op(op) {
            execute_push(m, i, len)
        } else if is_push_effective_op(op) {
            execute_push_effective(m, i, len)
        } else if is_pull_op(op) {
            execute_pull(m, i, len)
        } else if is_register_op(op) {
            finish(Machine { cpu: register_effect(op, m.cpu), ..m }, len)
        } else if is_branch_op(op) {
            execute_branch(m, i, len)
        } else if op == OpCode::JMP || op == OpCode::JML {
            (Machine { cpu: m.cpu.with_pc(i.data_addr), ..m }, Ok(CPUExecutionResult::Jump))
        } else if op == OpCode::JSR || op == OpCode::JSL {
            execute_call(m, i)
        } else if op == OpCode::RTS || op == OpCode::RTL {
            execute_return(m, i)
        } else if op == OpCode::RTI {
            execute_return_from_interrupt(m)
        } else {
            execute_interrupt(m, i)
        },
    }
}

} // verus!
