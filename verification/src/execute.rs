//! The executor: one instruction at a time, on the console.

use vstd::prelude::*;
use crate::console::{Console, Machine};
use crate::cpu::{bit_of, Flags, CPU};
use crate::error::{EmuError, Feature};
use crate::memory::{read_byte, read_word, write_byte, write_word};
use crate::opcode::{AddrMode, InstructionContext, OpCode};
use crate::semantics;
use crate::semantics::CPUExecutionResult;

verus! {

// ---------------------------------------------------------------------
// Values at a width
// ---------------------------------------------------------------------
fn wrap(v: u32, w8: bool) -> (r: u16)
    ensures
        r == semantics::wrap(v as int, w8),
{
    if w8 {
        (v % 0x100) as u16
    } else {
        (v % 0x10000) as u16
    }
}

fn sign_mask(w8: bool) -> (r: u16)
    ensures
        r == semantics::sign_mask(w8),
{
    if w8 {
        0x80
    } else {
        0x8000
    }
}

fn low_part(v: u16, w8: bool) -> (r: u16)
    ensures
        r == semantics::low_part(v, w8),
{
    if w8 {
        v % 0x100
    } else {
        v
    }
}

fn merge(old: u16, v: u16, w8: bool) -> (r: u16)
    ensures
        r == semantics::merge(old, v, w8),
{
    if w8 {
        old / 256 * 256 + v % 256
    } else {
        v
    }
}

fn with_nz(p: Flags, v: u16, w8: bool) -> (r: Flags)
    ensures
        r == semantics::with_nz(p, v, w8),
{
    let low: u16 = low_part(v, w8);
    let mut r: Flags = p;
    r.n = low >= sign_mask(w8);
    r.z = low == 0;
    r
}

fn bit(p: u8, k: u8) -> (r: bool)
    ensures
        r == bit_of(p, k as int),
{
    match k {
        0 => p % 2 == 1,
        1 => (p / 2) % 2 == 1,
        2 => (p / 4) % 2 == 1,
        3 => (p / 8) % 2 == 1,
        4 => (p / 16) % 2 == 1,
        5 => (p / 32) % 2 == 1,
        6 => (p / 64) % 2 == 1,
        _ => p / 128 == 1,
    }
}

fn load_operand(snes: &Console, addr: u32, w8: bool) -> (r: Result<u16, EmuError>)
    ensures
        r == semantics::load_operand(snes@, addr, w8),
{
    if w8 {
        match read_byte(snes, addr) {
            Ok(v) => Ok(v as u16),
            Err(e) => Err(e),
        }
    } else {
        read_word(snes, addr)
    }
}

fn store_operand(snes: &mut Console, addr: u32, w8: bool, v: u16) -> (r: Result<(), EmuError>)
    ensures
        final(snes)@ == semantics::store_operand(old(snes)@, addr, w8, v).0,
        r == semantics::store_operand(old(snes)@, addr, w8, v).1,
{
    if w8 {
        write_byte(snes, addr, (v % 256) as u8)
    } else {
        write_word(snes, addr, v)
    }
}

// ---------------------------------------------------------------------
// The stack
// ---------------------------------------------------------------------
fn stack_address(cpu: &CPU) -> (r: u32)
    ensures
        r == semantics::stack_address(*cpu),
{
    if cpu.P.e {
        0x0100 + (cpu.S % 256) as u32
    } else {
        cpu.S as u32
    }
}

fn stack_down(cpu: &CPU) -> (r: u16)
    ensures
        r == semantics::stack_moved(*cpu, -1),
{
    if cpu.P.e {
        cpu.S / 256 * 256 + (cpu.S % 256 + 255) % 256
    } else {
        ((cpu.S as u32 + 0xFFFF) % 0x10000) as u16
    }
}

fn stack_up(cpu: &CPU) -> (r: u16)
    ensures
        r == semantics::stack_moved(*cpu, 1),
{
    if cpu.P.e {
        cpu.S / 256 * 256 + (cpu.S % 256 + 257) % 256
    } else {
        ((cpu.S as u32 + 0x10001) % 0x10000) as u16
    }
}

fn push_byte(snes: &mut Console, data: u8) -> (r: Result<(), EmuError>)
    ensures
        final(snes)@ == semantics::push8(old(snes)@, data).0,
        r == semantics::push8(old(snes)@, data).1,
{
    let addr: u32 = stack_address(&snes.cpu);
    let down: u16 = stack_down(&snes.cpu);
    match write_byte(snes, addr, data) {
        Ok(_) => {
            snes.cpu.S = down;
            Ok(())
        },
        Err(e) => Err(e),
    }
}

fn pull_byte(snes: &mut Console) -> (r: Result<u8, EmuError>)
    ensures
        final(snes)@ == semantics::pull8(old(snes)@).0,
        r == semantics::pull8(old(snes)@).1,
{
    snes.cpu.S = stack_up(&snes.cpu);
    read_byte(snes, stack_address(&snes.cpu))
}

fn push_word(snes: &mut Console, data: u16) -> (r: Result<(), EmuError>)
    ensures
        final(snes)@ == semantics::push16(old(snes)@, data).0,
        r == semantics::push16(old(snes)@, data).1,
{
    match push_byte(snes, (data / 256) as u8) {
        Ok(_) => push_byte(snes, (data % 256) as u8),
        Err(e) => Err(e),
    }
}

fn pull_word(snes: &mut Console) -> (r: Result<u16, EmuError>)
    ensures
        final(snes)@ == semantics::pull16(old(snes)@).0,
        r == semantics::pull16(old(snes)@).1,
{
    match pull_byte(snes) {
        Ok(lo) => match pull_byte(snes) {
            Ok(hi) => Ok(lo as u16 + (hi as u16) * 256),
            Err(e) => Err(e),
        },
        Err(e) => Err(e),
    }
}

fn push_value(snes: &mut Console, v: u16, w8: bool) -> (r: Result<(), EmuError>)
    ensures
        final(snes)@ == semantics::push_value(old(snes)@, v, w8).0,
        r == semantics::push_value(old(snes)@, v, w8).1,
{
    if w8 {
        push_byte(snes, (v % 256) as u8)
    } else {
        push_word(snes, v)
    }
}

fn pull_value(snes: &mut Console, w8: bool) -> (r: Result<u16, EmuError>)
    ensures
        final(snes)@ == semantics::pull_value(old(snes)@, w8).0,
        r == semantics::pull_value(old(snes)@, w8).1,
{
    if w8 {
        match pull_byte(snes) {
            Ok(v) => Ok(v as u16),
            Err(e) => Err(e),
        }
    } else {
        pull_word(snes)
    }
}

// ---------------------------------------------------------------------
// Operations that read an operand
// ---------------------------------------------------------------------
fn operand_is_byte(op: OpCode, p: &Flags) -> (r: bool)
    ensures
        r == semantics::operand_is_byte(op, *p),
{
    if matches!(op, OpCode::REP | OpCode::SEP) {
        true
    } else if op.uses_x() {
        p.x
    } else {
        p.m
    }
}

fn adc(cpu: CPU, operand: u16) -> (r: CPU)
    ensures
        r == semantics::adc(cpu, operand),
{
    let w8: bool = cpu.P.m;
    let a: u16 = low_part(cpu.A, w8);
    let carry: u32 = if cpu.P.c { 1 } else { 0 };
    let sum: u32 = a as u32 + operand as u32 + carry;
    let result: u16 = wrap(sum, w8);
    let mut p: Flags = with_nz(cpu.P, result, w8);
    p.c = if w8 { sum >= 0x100 } else { sum >= 0x10000 };
    p.v = ((a ^ result) & (operand ^ result) & sign_mask(w8)) != 0;
    let mut r: CPU = cpu;
    r.A = merge(cpu.A, result, w8);
    r.P = p;
    r
}

fn sbc(cpu: CPU, operand: u16) -> (r: CPU)
    ensures
        r == semantics::sbc(cpu, operand),
{
    let w8: bool = cpu.P.m;
    let a: u16 = low_part(cpu.A, w8);
    let borrow: u32 = if cpu.P.c { 0 } else { 1 };
    let lifted: u32 = a as u32 + 0x20000 - operand as u32 - borrow;
    let result: u16 = wrap(lifted, w8);
    let mut p: Flags = with_nz(cpu.P, result, w8);
    p.c = lifted >= 0x20000;
    p.v = ((a ^ operand) & (a ^ result) & sign_mask(w8)) != 0;
    let mut r: CPU = cpu;
    r.A = merge(cpu.A, result, w8);
    r.P = p;
    r
}

fn logic(op: OpCode, cpu: CPU, operand: u16) -> (r: CPU)
    ensures
        r == semantics::logic(op, cpu, operand),
{
    let w8: bool = cpu.P.m;
    let a: u16 = low_part(cpu.A, w8);
    let result: u16 = match op {
        OpCode::AND => a & operand,
        OpCode::ORA => a | operand,
        _ => a ^ operand,
    };
    let mut r: CPU = cpu;
    r.A = merge(cpu.A, result, w8);
    r.P = with_nz(cpu.P, result, w8);
    r
}

fn compare(cpu: CPU, register: u16, operand: u16, w8: bool) -> (r: CPU)
    ensures
        r == semantics::compare(cpu, register, operand, w8),
{
    let v: u16 = low_part(register, w8);
    let result: u16 = wrap(v as u32 + 0x10000 - operand as u32, w8);
    let mut p: Flags = with_nz(cpu.P, result, w8);
    p.c = v >= operand;
    let mut r: CPU = cpu;
    r.P = p;
    r
}

fn bit_test(cpu: CPU, operand: u16, immediate: bool) -> (r: CPU)
    ensures
        r == semantics::bit_test(cpu, operand, immediate),
{
    let w8: bool = cpu.P.m;
    let a: u16 = low_part(cpu.A, w8);
    let mut r: CPU = cpu;
    r.P.z = (a & operand) == 0;
    if !immediate {
        r.P.n = low_part(operand, w8) >= sign_mask(w8);
        r.P.v = if w8 {
            (operand / 0x40) % 2 == 1
        } else {
            (operand / 0x4000) % 2 == 1
        };
    }
    r
}

fn pick(selected: bool, set: bool, old: bool) -> (r: bool)
    ensures
        r == if selected {
            set
        } else {
            old
        },
{
    if selected {
        set
    } else {
        old
    }
}

fn change_flags(cpu: CPU, operand: u8, set: bool) -> (r: CPU)
    ensures
        r == semantics::change_flags(cpu, operand, set),
{
    let p: Flags = cpu.P;
    let changed: Flags = Flags {
        n: pick(bit(operand, 7), set, p.n),
        v: pick(bit(operand, 6), set, p.v),
        m: pick(bit(operand, 5), set, p.m) || p.e,
        x: pick(bit(operand, 4), set, p.x) || p.e,
        d: pick(bit(operand, 3), set, p.d),
        i: pick(bit(operand, 2), set, p.i),
        z: pick(bit(operand, 1), set, p.z),
        c: pick(bit(operand, 0), set, p.c),
        e: p.e,
        b: p.b,
    };
    let mut r: CPU = cpu;
    r.P = changed;
    r.X = low_part(cpu.X, changed.x);
    r.Y = low_part(cpu.Y, changed.x);
    r
}

fn read_effect(op: OpCode, mode: AddrMode, cpu: CPU, operand: u16) -> (r: CPU)
    ensures
        r == semantics::read_effect(op, mode, cpu, operand),
{
    let mut r: CPU = cpu;
    match op {
        OpCode::ADC => adc(cpu, operand),
        OpCode::SBC => sbc(cpu, operand),
        OpCode::AND | OpCode::ORA | OpCode::EOR => logic(op, cpu, operand),
        OpCode::CMP => compare(cpu, cpu.A, operand, cpu.P.m),
        OpCode::CPX => compare(cpu, cpu.X, operand, cpu.P.x),
        OpCode::CPY => compare(cpu, cpu.Y, operand, cpu.P.x),
        OpCode::BIT => bit_test(cpu, operand, matches!(mode, AddrMode::Immediate)),
        OpCode::LDA => {
            r.A = merge(cpu.A, operand, cpu.P.m);
            r.P = with_nz(cpu.P, operand, cpu.P.m);
            r
        },
        OpCode::LDX => {
            r.X = low_part(operand, cpu.P.x);
            r.P = with_nz(cpu.P, operand, cpu.P.x);
            r
        },
        OpCode::LDY => {
            r.Y = low_part(operand, cpu.P.x);
            r.P = with_nz(cpu.P, operand, cpu.P.x);
            r
        },
        OpCode::REP => change_flags(cpu, (operand % 256) as u8, false),
        OpCode::SEP => change_flags(cpu, (operand % 256) as u8, true),
        _ => cpu,
    }
}

// ---------------------------------------------------------------------
// Operations that modify a value in place
// ---------------------------------------------------------------------
fn modified_value(op: OpCode, cpu: &CPU, value: u16) -> (r: u16)
    ensures
        r == semantics::modified_value(op, *cpu, value),
{
    let w8: bool = cpu.P.m;
    let v: u16 = low_part(value, w8);
    let carry: u32 = if cpu.P.c { 1 } else { 0 };
    match op {
        OpCode::ASL => wrap(v as u32 * 2, w8),
        OpCode::LSR => v / 2,
        OpCode::ROL => wrap(v as u32 * 2 + carry, w8),
        OpCode::ROR => if cpu.P.c {
            v / 2 + sign_mask(w8)
        } else {
            v / 2
        },
        OpCode::INC => wrap(v as u32 + 1, w8),
        OpCode::DEC => wrap(v as u32 + 0x10000 - 1, w8),
        OpCode::TRB => v & (low_part(cpu.A, w8) ^ 0xFFFF),
        OpCode::TSB => v | low_part(cpu.A, w8),
        _ => v,
    }
}

fn modified_flags(op: OpCode, cpu: &CPU, value: u16) -> (r: Flags)
    ensures
        r == semantics::modified_flags(op, *cpu, value),
{
    let w8: bool = cpu.P.m;
    let v: u16 = low_part(value, w8);
    let result: u16 = modified_value(op, cpu, value);
    match op {
        OpCode::ASL | OpCode::ROL => {
            let mut p: Flags = with_nz(cpu.P, result, w8);
            p.c = v >= sign_mask(w8);
            p
        },
        OpCode::LSR | OpCode::ROR => {
            let mut p: Flags = with_nz(cpu.P, result, w8);
            p.c = v % 2 == 1;
            p
        },
        OpCode::INC | OpCode::DEC => with_nz(cpu.P, result, w8),
        OpCode::TRB | OpCode::TSB => {
            let mut p: Flags = cpu.P;
            p.z = low_part(result, w8) == 0;
            p
        },
        _ => cpu.P,
    }
}

// ---------------------------------------------------------------------
// Stores, pushes, pulls
// ---------------------------------------------------------------------
fn stored_value(op: OpCode, cpu: &CPU) -> (r: u16)
    ensures
        r == semantics::stored_value(op, *cpu),
{
    match op {
        OpCode::STA => cpu.A,
        OpCode::STX => cpu.X,
        OpCode::STY => cpu.Y,
        _ => 0,
    }
}

fn pushed_value(op: OpCode, cpu: &CPU) -> (r: u16)
    ensures
        r == semantics::pushed_value(op, *cpu),
{
    match op {
        OpCode::PHA => cpu.A,
        OpCode::PHX => cpu.X,
        OpCode::PHY => cpu.Y,
        OpCode::PHP => cpu.p_byte() as u16,
        OpCode::PHB => cpu.DBR as u16,
        OpCode::PHD => cpu.D,
        OpCode::PHK => cpu.K as u16,
        _ => 0,
    }
}

fn stack_is_byte(op: OpCode, p: &Flags) -> (r: bool)
    ensures
        r == semantics::stack_is_byte(op, *p),
{
    match op {
        OpCode::PHA | OpCode::PLA => p.m,
        OpCode::PHX | OpCode::PHY | OpCode::PLX | OpCode::PLY => p.x,
        OpCode::PHD | OpCode::PLD => false,
        _ => true,
    }
}

fn pull_effect(op: OpCode, cpu: CPU, value: u16) -> (r: CPU)
    ensures
        r == semantics::pull_effect(op, cpu, value),
{
    let mut r: CPU = cpu;
    match op {
        OpCode::PLA => {
            r.A = merge(cpu.A, value, cpu.P.m);
            r.P = with_nz(cpu.P, value, cpu.P.m);
        },
        OpCode::PLX => {
            r.X = low_part(value, cpu.P.x);
            r.P = with_nz(cpu.P, value, cpu.P.x);
        },
        OpCode::PLY => {
            r.Y = low_part(value, cpu.P.x);
            r.P = with_nz(cpu.P, value, cpu.P.x);
        },
        OpCode::PLP => {
            r.set_p((value % 256) as u8);
        },
        OpCode::PLB => {
            r.DBR = (value % 256) as u8;
            r.P = with_nz(cpu.P, value, true);
        },
        OpCode::PLD => {
            r.D = value;
            r.P = with_nz(cpu.P, value, false);
        },
        _ => {},
    }
    r
}

// ---------------------------------------------------------------------
// Operations on registers only
// ---------------------------------------------------------------------
fn stack_pointer_from(cpu: &CPU, v: u16) -> (r: u16)
    ensures
        r == semantics::stack_pointer_from(*cpu, v),
{
    if cpu.P.e {
        0x0100 + v % 256
    } else {
        v
    }
}

fn exchange_carry_emulation(cpu: CPU) -> (r: CPU)
    ensures
        r == semantics::exchange_carry_emulation(cpu),
{
    let e: bool = cpu.P.c;
    let mut r: CPU = cpu;
    r.P.c = cpu.P.e;
    r.P.e = e;
    r.P.m = cpu.P.m || e;
    r.P.x = cpu.P.x || e;
    if e {
        r.S = 0x0100 + cpu.S % 256;
    }
    r
}

fn step_index(cpu: &CPU, register: u16, up: bool) -> (r: (u16, Flags))
    ensures
        r.0 == semantics::wrap(
            semantics::low_part(register, cpu.P.x) + if up {
                1int
            } else {
                0xFFFFint
            },
            cpu.P.x,
        ),
        r.1 == semantics::with_nz(cpu.P, r.0, cpu.P.x),
{
    let delta: u32 = if up { 1 } else { 0xFFFF };
    let v: u16 = wrap(low_part(register, cpu.P.x) as u32 + delta, cpu.P.x);
    (v, with_nz(cpu.P, v, cpu.P.x))
}

fn flag_effect(op: OpCode, cpu: CPU) -> (r: CPU)
    requires
        matches!(
            op,
            OpCode::CLC | OpCode::CLD | OpCode::CLI | OpCode::CLV | OpCode::SEC | OpCode::SED
                | OpCode::SEI
        ),
    ensures
        r == semantics::register_effect(op, cpu),
{
    let mut r: CPU = cpu;
    match op {
        OpCode::CLC => {
            r.P.c = false;
        },
        OpCode::CLD => {
            r.P.d = false;
        },
        OpCode::CLI => {
            r.P.i = false;
        },
        OpCode::CLV => {
            r.P.v = false;
        },
        OpCode::SEC => {
            r.P.c = true;
        },
        OpCode::SED => {
            r.P.d = true;
        },
        _ => {
            r.P.i = true;
        },
    }
    r
}

fn index_step_effect(op: OpCode, cpu: CPU) -> (r: CPU)
    requires
        matches!(op, OpCode::INX | OpCode::INY | OpCode::DEX | OpCode::DEY),
    ensures
        r == semantics::register_effect(op, cpu),
{
    let mut r: CPU = cpu;
    match op {
        OpCode::INX => {
            let stepped: (u16, Flags) = step_index(&cpu, cpu.X, true);
            r.X = stepped.0;
            r.P = stepped.1;
        },
        OpCode::INY => {
            let stepped: (u16, Flags) = step_index(&cpu, cpu.Y, true);
            r.Y = stepped.0;
            r.P = stepped.1;
        },
        OpCode::DEX => {
            let stepped: (u16, Flags) = step_index(&cpu, cpu.X, false);
            r.X = stepped.0;
            r.P = stepped.1;
        },
        _ => {
            let stepped: (u16, Flags) = step_index(&cpu, cpu.Y, false);
            r.Y = stepped.0;
            r.P = stepped.1;
        },
    }
    r
}

fn index_transfer_effect(op: OpCode, cpu: CPU) -> (r: CPU)
    requires
        matches!(op, OpCode::TAX | OpCode::TAY | OpCode::TSX | OpCode::TXY | OpCode::TYX),
    ensures
        r == semantics::register_effect(op, cpu),
{
    let p: Flags = cpu.P;
    let mut r: CPU = cpu;
    match op {
        OpCode::TAX => {
            r.X = low_part(cpu.A, p.x);
            r.P = with_nz(p, cpu.A, p.x);
        },
        OpCode::TAY => {
            r.Y = low_part(cpu.A, p.x);
            r.P = with_nz(p, cpu.A, p.x);
        },
        OpCode::TSX => {
            r.X = low_part(cpu.S, p.x);
            r.P = with_nz(p, cpu.S, p.x);
        },
        OpCode::TXY => {
            r.Y = low_part(cpu.X, p.x);
            r.P = with_nz(p, cpu.X, p.x);
        },
        _ => {
            r.X = low_part(cpu.Y, p.x);
            r.P = with_nz(p, cpu.Y, p.x);
        },
    }
    r
}

fn wide_transfer_effect(op: OpCode, cpu: CPU) -> (r: CPU)
    requires
        matches!(
            op,
            OpCode::TXA | OpCode::TYA | OpCode::TXS | OpCode::TCS | OpCode::TCD | OpCode::TDC
                | OpCode::TSC | OpCode::XBA
        ),
    ensures
        r == semantics::register_effect(op, cpu),
{
    let p: Flags = cpu.P;
    let mut r: CPU = cpu;
    match op {
        OpCode::TXA => {
            r.A = merge(cpu.A, cpu.X, p.m);
            r.P = with_nz(p, cpu.X, p.m);
        },
        OpCode::TYA => {
            r.A = merge(cpu.A, cpu.Y, p.m);
            r.P = with_nz(p, cpu.Y, p.m);
        },
        OpCode::TXS => {
            let s: u16 = stack_pointer_from(&cpu, cpu.X);
            r.S = s;
            r.P = with_nz(p, s, false);
        },
        OpCode::TCS => {
            r.S = stack_pointer_from(&cpu, cpu.A);
        },
        OpCode::TCD => {
            r.D = cpu.A;
            r.P = with_nz(p, cpu.A, false);
        },
        OpCode::TDC => {
            r.A = cpu.D;
            r.P = with_nz(p, cpu.D, false);
        },
        OpCode::TSC => {
            r.A = cpu.S;
            r.P = with_nz(p, cpu.S, false);
        },
        _ => {
            r.A = cpu.A % 256 * 256 + cpu.A / 256;
        },
    }
    r
}

fn register_effect(op: OpCode, cpu: CPU) -> (r: CPU)
    ensures
        r == semantics::register_effect(op, cpu),
{
    match op {
        OpCode::CLC | OpCode::CLD | OpCode::CLI | OpCode::CLV | OpCode::SEC | OpCode::SED
        | OpCode::SEI => flag_effect(op, cpu),
        OpCode::INX | OpCode::INY | OpCode::DEX | OpCode::DEY => index_step_effect(op, cpu),
        OpCode::TAX | OpCode::TAY | OpCode::TSX | OpCode::TXY | OpCode::TYX =>
            index_transfer_effect(op, cpu),
        OpCode::TXA | OpCode::TYA | OpCode::TXS | OpCode::TCS | OpCode::TCD | OpCode::TDC
        | OpCode::TSC | OpCode::XBA => wide_transfer_effect(op, cpu),
        OpCode::XCE => exchange_carry_emulation(cpu),
        _ => cpu,
    }
}

// ---------------------------------------------------------------------
// Transfers of control
// ---------------------------------------------------------------------
fn branch_taken(op: OpCode, p: &Flags) -> (r: bool)
    ensures
        r == semantics::branch_taken(op, *p),
{
    match op {
        OpCode::BCC => !p.c,
        OpCode::BCS => p.c,
        OpCode::BEQ => p.z,
        OpCode::BNE => !p.z,
        OpCode::BMI => p.n,
        OpCode::BPL => !p.n,
        OpCode::BVC => !p.v,
        OpCode::BVS => p.v,
        _ => true,
    }
}

fn interrupt_vector(snes: &Console, op: OpCode) -> (r: u16)
    ensures
        r == semantics::interrupt_vector(snes@, op),
{
    let e: bool = snes.cpu.P.e;
    match op {
        OpCode::BRK => if e {
            snes.cartridge.header.interrupt_vectors.brk_emu
        } else {
            snes.cartridge.header.interrupt_vectors.brk
        },
        OpCode::COP => if e {
            snes.cartridge.header.interrupt_vectors.cop_emu
        } else {
            snes.cartridge.header.interrupt_vectors.cop
        },
        _ => if e {
            snes.cartridge.header.interrupt_vectors.nmi_emu
        } else {
            snes.cartridge.header.interrupt_vectors.nmi
        },
    }
}

fn status_with_break(status: u8, break_bit: bool) -> (r: u8)
    ensures
        r == semantics::status_with_break(status, break_bit),
{
    if break_bit && !bit(status, 4) {
        status + 16
    } else {
        status
    }
}

#[verifier::rlimit(50)]
fn enter_interrupt(snes: &mut Console, return_pc: u16, vector: u16, break_bit: bool) -> (r: Result<
    (),
    EmuError,
>)
    ensures
        final(snes)@ == semantics::enter_interrupt(old(snes)@, return_pc, vector, break_bit).0,
        r == semantics::enter_interrupt(old(snes)@, return_pc, vector, break_bit).1,
{
    let pushed_status: u8 = status_with_break(snes.cpu.p_byte(), break_bit);
    let bank: u8 = snes.cpu.K;
    match push_byte(snes, bank) {
        Ok(_) => match push_word(snes, return_pc) {
            Ok(_) => match push_byte(snes, pushed_status) {
                Ok(_) => {
                    snes.cpu.K = 0;
                    snes.cpu.PC = vector;
                    snes.cpu.P.d = false;
                    snes.cpu.P.i = true;
                    Ok(())
                },
                Err(e) => Err(e),
            },
            Err(e) => Err(e),
        },
        Err(e) => Err(e),
    }
}

/// Raises the non-maskable interrupt: pushes `K`, the program counter and
/// `P`, and goes to the NMI vector in bank 0 with decimal mode off and
/// interrupts disabled.
pub fn execute_nmi(snes: &mut Console) -> (r: Result<(), EmuError>)
    ensures
        final(snes)@ == semantics::nmi(old(snes)@).0,
        r == semantics::nmi(old(snes)@).1,
{
    let vector: u16 = interrupt_vector(snes, OpCode::NOP);
    let pc: u16 = snes.cpu.PC;
    enter_interrupt(snes, pc, vector, false)
}

fn wrap_pc(v: u32) -> (r: u16)
    ensures
        r == crate::address::wrap16(v as int),
{
    (v % 0x10000) as u16
}

fn finish(snes: &mut Console, len: usize) -> (r: Result<CPUExecutionResult, EmuError>)
    requires
        len <= 4,
    ensures
        final(snes)@ == semantics::finish(old(snes)@, len as int).0,
        r == semantics::finish(old(snes)@, len as int).1,
{
    snes.cpu.PC = wrap_pc(snes.cpu.PC as u32 + len as u32);
    Ok(CPUExecutionResult::Normal)
}

fn execute_read(snes: &mut Console, i: &InstructionContext, len: usize) -> (r: Result<
    CPUExecutionResult,
    EmuError,
>)
    requires
        len <= 4,
    ensures
        final(snes)@ == semantics::execute_read(old(snes)@, *i, len as int).0,
        r == semantics::execute_read(old(snes)@, *i, len as int).1,
{
    let w8: bool = operand_is_byte(i.opcode, &snes.cpu.P);
    match load_operand(snes, i.data_addr, w8) {
        Ok(operand) => {
            snes.cpu = read_effect(i.opcode, i.mode, snes.cpu, operand);
            finish(snes, len)
        },
        Err(e) => Err(e),
    }
}

fn execute_modify(snes: &mut Console, i: &InstructionContext, len: usize) -> (r: Result<
    CPUExecutionResult,
    EmuError,
>)
    requires
        len <= 4,
    ensures
        final(snes)@ == semantics::execute_modify(old(snes)@, *i, len as int).0,
        r == semantics::execute_modify(old(snes)@, *i, len as int).1,
{
    let w8: bool = snes.cpu.P.m;
    let before: CPU = snes.cpu;
    if matches!(i.mode, AddrMode::Accumulator) {
        snes.cpu.A = merge(before.A, modified_value(i.opcode, &before, before.A), w8);
        snes.cpu.P = modified_flags(i.opcode, &before, before.A);
        finish(snes, len)
    } else {
        match load_operand(snes, i.data_addr, w8) {
            Ok(value) => {
                let result: u16 = modified_value(i.opcode, &before, value);
                match store_operand(snes, i.data_addr, w8, result) {
                    Ok(_) => {
                        snes.cpu.P = modified_flags(i.opcode, &before, value);
                        finish(snes, len)
                    },
                    Err(e) => Err(e),
                }
            },
            Err(e) => Err(e),
        }
    }
}

fn execute_store(snes: &mut Console, i: &InstructionContext, len: usize) -> (r: Result<
    CPUExecutionResult,
    EmuError,
>)
    requires
        len <= 4,
    ensures
        final(snes)@ == semantics::execute_store(old(snes)@, *i, len as int).0,
        r == semantics::execute_store(old(snes)@, *i, len as int).1,
{
    let w8: bool = operand_is_byte(i.opcode, &snes.cpu.P);
    let value: u16 = stored_value(i.opcode, &snes.cpu);
    match store_operand(snes, i.data_addr, w8, value) {
        Ok(_) => finish(snes, len),
        Err(e) => Err(e),
    }
}

fn execute_push(snes: &mut Console, i: &InstructionContext, len: usize) -> (r: Result<
    CPUExecutionResult,
    EmuError,
>)
    requires
        len <= 4,
    ensures
        final(snes)@ == semantics::execute_push(old(snes)@, *i, len as int).0,
        r == semantics::execute_push(old(snes)@, *i, len as int).1,
{
    let w8: bool = stack_is_byte(i.opcode, &snes.cpu.P);
    let value: u16 = pushed_value(i.opcode, &snes.cpu);
    match push_value(snes, value, w8) {
        Ok(_) => finish(snes, len),
        Err(e) => Err(e),
    }
}

fn execute_push_effective(snes: &mut Console, i: &InstructionContext, len: usize) -> (r: Result<
    CPUExecutionResult,
    EmuError,
>)
    requires
        len <= 4,
    ensures
        final(snes)@ == semantics::execute_push_effective(old(snes)@, *i, len as int).0,
        r == semantics::execute_push_effective(old(snes)@, *i, len as int).1,
{
    match read_word(snes, i.data_addr) {
        Ok(word) => {
            let value: u16 = if matches!(i.opcode, OpCode::PER) {
                wrap_pc(i.inst_addr % 0x10000 + 3 + word as u32)
            } else {
                word
            };
            match push_word(snes, value) {
                Ok(_) => finish(snes, len),
                Err(e) => Err(e),
            }
        },
        Err(e) => Err(e),
    }
}

fn execute_pull(snes: &mut Console, i: &InstructionContext, len: usize) -> (r: Result<
    CPUExecutionResult,
    EmuError,
>)
    requires
        len <= 4,
    ensures
        final(snes)@ == semantics::execute_pull(old(snes)@, *i, len as int).0,
        r == semantics::execute_pull(old(snes)@, *i, len as int).1,
{
    let w8: bool = stack_is_byte(i.opcode, &snes.cpu.P);
    match pull_value(snes, w8) {
        Ok(value) => {
            snes.cpu = pull_effect(i.opcode, snes.cpu, value);
            finish(snes, len)
        },
        Err(e) => Err(e),
    }
}

fn execute_branch(snes: &mut Console, i: &InstructionContext, len: usize) -> (r: Result<
    CPUExecutionResult,
    EmuError,
>)
    requires
        len <= 4,
    ensures
        final(snes)@ == semantics::execute_branch(old(snes)@, *i, len as int).0,
        r == semantics::execute_branch(old(snes)@, *i, len as int).1,
{
    if branch_taken(i.opcode, &snes.cpu.P) {
        snes.cpu.PC = (i.data_addr % 0x10000) as u16;
        Ok(CPUExecutionResult::BranchTaken)
    } else {
        finish(snes, len)
    }
}

fn execute_interrupt(snes: &mut Console, i: &InstructionContext) -> (r: Result<
    CPUExecutionResult,
    EmuError,
>)
    ensures
        final(snes)@ == semantics::execute_interrupt(old(snes)@, *i).0,
        r == semantics::execute_interrupt(old(snes)@, *i).1,
{
    let vector: u16 = interrupt_vector(snes, i.opcode);
    let break_bit: bool = matches!(i.opcode, OpCode::BRK) && snes.cpu.P.e;
    match enter_interrupt(snes, wrap_pc(i.inst_addr % 0x10000 + 2), vector, break_bit) {
        Ok(_) => Ok(CPUExecutionResult::Interrupt),
        Err(e) => Err(e),
    }
}

fn execute_call(snes: &mut Console, i: &InstructionContext) -> (r: Result<
    CPUExecutionResult,
    EmuError,
>)
    ensures
        final(snes)@ == semantics::execute_call(old(snes)@, *i).0,
        r == semantics::execute_call(old(snes)@, *i).1,
{
    let return_pc: u16 = wrap_pc(i.inst_addr % 0x10000 + 2);
    if matches!(i.opcode, OpCode::JSL) {
        let bank: u8 = snes.cpu.K;
        match push_byte(snes, bank) {
            Ok(_) => {},
            Err(e) => {
                return Err(e);
            },
        }
    }
    match push_word(snes, return_pc) {
        Ok(_) => {
            snes.cpu.set_pc(i.data_addr);
            Ok(CPUExecutionResult::Subroutine(i.data_addr))
        },
        Err(e) => Err(e),
    }
}

fn execute_return(snes: &mut Console, i: &InstructionContext) -> (r: Result<
    CPUExecutionResult,
    EmuError,
>)
    ensures
        final(snes)@ == semantics::execute_return(old(snes)@, *i).0,
        r == semantics::execute_return(old(snes)@, *i).1,
{
    match pull_word(snes) {
        Ok(pc) => {
            snes.cpu.PC = wrap_pc(pc as u32 + 1);
            if matches!(i.opcode, OpCode::RTL) {
                match pull_byte(snes) {
                    Ok(k) => {
                        snes.cpu.K = k;
                        Ok(CPUExecutionResult::Return)
                    },
                    Err(e) => Err(e),
                }
            } else {
                Ok(CPUExecutionResult::Return)
            }
        },
        Err(e) => Err(e),
    }
}

fn execute_return_from_interrupt(snes: &mut Console) -> (r: Result<CPUExecutionResult, EmuError>)
    ensures
        final(snes)@ == semantics::execute_return_from_interrupt(old(snes)@).0,
        r == semantics::execute_return_from_interrupt(old(snes)@).1,
{
    match pull_byte(snes) {
        Ok(p) => {
            snes.cpu.set_p(p);
            match pull_word(snes) {
                Ok(pc) => {
                    snes.cpu.PC = pc;
                    match pull_byte(snes) {
                        Ok(k) => {
                            snes.cpu.K = k;
                            Ok(CPUExecutionResult::Return)
                        },
                        Err(e) => Err(e),
                    }
                },
                Err(e) => Err(e),
            }
        },
        Err(e) => Err(e),
    }
}

fn unimplemented_feature(op: OpCode, p: &Flags) -> (r: Option<Feature>)
    ensures
        r == semantics::unimplemented_feature(op, *p),
{
    match op {
        OpCode::ADC | OpCode::SBC => if p.d {
            Some(Feature::Decimal)
        } else {
            None
        },
        OpCode::MVN | OpCode::MVP => Some(Feature::BlockMove),
        OpCode::WAI => Some(Feature::Wait),
        OpCode::STP => Some(Feature::Stop),
        _ => None,
    }
}

/// Executes one decoded instruction on the console.
///
/// What it makes of the machine, and how it ends, is what
/// [`semantics::execute`] says, for every machine and every instruction;
/// it never panics.
#[verifier::rlimit(50)]
pub fn execute_instruction(snes: &mut Console, instruction: &InstructionContext) -> (r: Result<
    CPUExecutionResult,
    EmuError,
>)
    ensures
        final(snes)@ == semantics::execute(old(snes)@, *instruction).0,
        r == semantics::execute(old(snes)@, *instruction).1,
{
    proof {
        reveal(semantics::execute);
    }
    let op: OpCode = instruction.opcode;
    let len: usize = instruction.length(snes.cpu.P.m, snes.cpu.P.x);
    match unimplemented_feature(op, &snes.cpu.P) {
        Some(feature) => {
            return Err(EmuError::Unimplemented(feature));
        },
        None => {},
    }
    match op {
        OpCode::ADC | OpCode::SBC | OpCode::AND | OpCode::ORA | OpCode::EOR | OpCode::CMP
        | OpCode::CPX | OpCode::CPY | OpCode::BIT | OpCode::LDA | OpCode::LDX | OpCode::LDY
        | OpCode::REP | OpCode::SEP => execute_read(snes, instruction, len),
        OpCode::ASL | OpCode::LSR | OpCode::ROL | OpCode::ROR | OpCode::INC | OpCode::DEC
        | OpCode::TRB | OpCode::TSB => execute_modify(snes, instruction, len),
        OpCode::STA | OpCode::STX | OpCode::STY | OpCode::STZ => execute_store(
            snes,
            instruction,
            len,
        ),
        OpCode::PHA | OpCode::PHX | OpCode::PHY | OpCode::PHP | OpCode::PHB | OpCode::PHD
        | OpCode::PHK => execute_push(snes, instruction, len),
        OpCode::PEA | OpCode::PEI | OpCode::PER => execute_push_effective(snes, instruction, len),
        OpCode::PLA | OpCode::PLX | OpCode::PLY | OpCode::PLP | OpCode::PLB | OpCode::PLD =>
            execute_pull(snes, instruction, len),
        OpCode::CLC | OpCode::CLD | OpCode::CLI | OpCode::CLV | OpCode::SEC | OpCode::SED
        | OpCode::SEI | OpCode::DEX | OpCode::DEY | OpCode::INX | OpCode::INY | OpCode::NOP
        | OpCode::WDM | OpCode::TAX | OpCode::TAY | OpCode::TCD | OpCode::TCS | OpCode::TDC
        | OpCode::TSC | OpCode::TSX | OpCode::TXA | OpCode::TXS | OpCode::TXY | OpCode::TYA
        | OpCode::TYX | OpCode::XBA | OpCode::XCE => {
            snes.cpu = register_effect(op, snes.cpu);
            finish(snes, len)
        },
        OpCode::BRA | OpCode::BCC | OpCode::BCS | OpCode::BEQ | OpCode::BMI | OpCode::BNE
        | OpCode::BPL | OpCode::BVC | OpCode::BVS | OpCode::BRL => execute_branch(
            snes,
            instruction,
            len,
        ),
        OpCode::JMP | OpCode::JML => {
            snes.cpu.set_pc(instruction.data_addr);
            Ok(CPUExecutionResult::Jump)
        },
        OpCode::JSR | OpCode::JSL => execute_call(snes, instruction),
        OpCode::RTS | OpCode::RTL => execute_return(snes, instruction),
        OpCode::RTI => execute_return_from_interrupt(snes),
        _ => execute_interrupt(snes, instruction),
    }
}

} // verus!
