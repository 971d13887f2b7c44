//! The address resolver: from an addressing mode, the registers and the
//! operand bytes behind the opcode to the address that the instruction
//! works on.

use vstd::prelude::*;
use crate::console::{Console, Machine};
use crate::cpu::CPU;
use crate::error::EmuError;
use crate::memory::{load_byte, load_word, next_address, read_byte, read_word};
use crate::opcode::{
    addressing_mode, decode_addressing_mode, decode_opcode, mnemonic, AddrMode,
    InstructionContext, OpCode,
};

verus! {

/// The address of offset `off` in bank `bank`.
pub open spec fn join(bank: u8, off: u16) -> u32 {
    (bank * 0x10000 + off) as u32
}

/// `v` on the 16 bits of an offset.
pub open spec fn wrap16(v: int) -> u16 {
    (v % 0x10000) as u16
}

/// `v` on the 24 bits of the bus.
pub open spec fn wrap24(v: int) -> u32 {
    (v % 0x1000000) as u32
}

/// The three bytes at `addr`, low byte first, as one number.
pub open spec fn load_long(m: Machine, addr: u32) -> Result<u32, EmuError> {
    match load_word(m, addr) {
        Ok(low) => match load_byte(m, next_address(next_address(addr))) {
            Ok(bank) => Ok(join(bank, low)),
            Err(e) => Err(e),
        },
        Err(e) => Err(e),
    }
}

/// The operand byte behind the opcode at `loc`.
pub open spec fn operand8(m: Machine, loc: u32) -> Result<u8, EmuError> {
    load_byte(m, next_address(loc))
}

/// The two operand bytes behind the opcode at `loc`, low byte first.
pub open spec fn operand16(m: Machine, loc: u32) -> Result<u16, EmuError> {
    load_word(m, next_address(loc))
}

/// The three operand bytes behind the opcode at `loc`, low byte first.
pub open spec fn operand24(m: Machine, loc: u32) -> Result<u32, EmuError> {
    load_long(m, next_address(loc))
}

/// The direct-page address of operand `l` and an index, in bank 0. In
/// emulation mode with the direct page on a page boundary the sum wraps
/// within that page; otherwise it wraps within the bank.
pub open spec fn direct_address(cpu: CPU, l: u8, index: u16) -> u32 {
    if cpu.P.e && cpu.D % 256 == 0 {
        (cpu.D + (l + index) % 256) as u32
    } else {
        wrap16(cpu.D + l + index) as u32
    }
}

/// The target of a relative branch with displacement `l`, a signed byte,
/// from the instruction at `loc`: in the bank of `loc`, two bytes on.
pub open spec fn branch_target(loc: u32, l: u8) -> u32 {
    let displacement = if l <= 0x7F {
        l as int
    } else {
        l - 256
    };
    let base = loc % 0x1000000;
    (base / 0x10000 * 0x10000 + (base % 0x10000 + 0x10000 + 2 + displacement) % 0x10000) as u32
}

/// The target of a long relative branch with the 16-bit displacement `hl`
/// from the instruction at `loc`: in the bank of `loc`, three bytes on.
pub open spec fn long_branch_target(loc: u32, hl: u16) -> u32 {
    let base = loc % 0x1000000;
    (base / 0x10000 * 0x10000 + (base % 0x10000 + 3 + hl) % 0x10000) as u32
}

/// The address that an instruction at `loc` with this operation and mode
/// works on, and for a block move its destination.
pub open spec fn effective_address(m: Machine, op: OpCode, mode: AddrMode, loc: u32) -> Result<
    (u32, Option<u32>),
    EmuError,
> {
    let cpu = m.cpu;
    match mode {
        AddrMode::Absolute => match operand16(m, loc) {
            Ok(hl) => Ok(
                (
                    join(
                        if op.is_jump_spec() {
                            cpu.K
                        } else {
                            cpu.DBR
                        },
                        hl,
                    ),
                    None,
                ),
            ),
            Err(e) => Err(e),
        },
        AddrMode::AbsoluteWord | AddrMode::AbsoluteSWord => match operand16(m, loc) {
            Ok(hl) => Ok((hl as u32, None)),
            Err(e) => Err(e),
        },
        AddrMode::AbsoluteX => match operand16(m, loc) {
            Ok(hl) => Ok((join(cpu.DBR, wrap16(hl + cpu.X)), None)),
            Err(e) => Err(e),
        },
        AddrMode::AbsoluteY => match operand16(m, loc) {
            Ok(hl) => Ok((join(cpu.DBR, wrap16(hl + cpu.Y)), None)),
            Err(e) => Err(e),
        },
        AddrMode::AbsoluteIndirectWord => match operand16(m, loc) {
            Ok(hl) => match load_word(m, hl as u32) {
                Ok(pointer) => Ok((join(cpu.K, pointer), None)),
                Err(e) => Err(e),
            },
            Err(e) => Err(e),
        },
        AddrMode::AbsoluteIndirectSWord => match operand16(m, loc) {
            Ok(hl) => match load_long(m, hl as u32) {
                Ok(pointer) => Ok((pointer, None)),
                Err(e) => Err(e),
            },
            Err(e) => Err(e),
        },
        AddrMode::AbsoluteIndexedIndirect => match operand16(m, loc) {
            Ok(hl) => match load_word(m, join(cpu.K, wrap16(hl + cpu.X))) {
                Ok(pointer) => Ok((join(cpu.K, pointer), None)),
                Err(e) => Err(e),
            },
            Err(e) => Err(e),
        },
        AddrMode::Accumulator | AddrMode::Implied => Ok((loc, None)),
        AddrMode::Immediate => Ok((next_address(loc), None)),
        AddrMode::Direct => match operand8(m, loc) {
            Ok(l) => Ok((direct_address(cpu, l, 0), None)),
            Err(e) => Err(e),
        },
        AddrMode::DirectX => match operand8(m, loc) {
            Ok(l) => Ok((direct_address(cpu, l, cpu.X), None)),
            Err(e) => Err(e),
        },
        AddrMode::DirectY => match operand8(m, loc) {
            Ok(l) => Ok((direct_address(cpu, l, cpu.Y), None)),
            Err(e) => Err(e),
        },
        AddrMode::DirectWord => match operand8(m, loc) {
            Ok(l) => match load_word(m, direct_address(cpu, l, 0)) {
                Ok(pointer) => Ok((join(cpu.DBR, pointer), None)),
                Err(e) => Err(e),
            },
            Err(e) => Err(e),
        },
        AddrMode::DirectSWord => match operand8(m, loc) {
            Ok(l) => match load_long(m, direct_address(cpu, l, 0)) {
                Ok(pointer) => Ok((pointer, None)),
                Err(e) => Err(e),
            },
            Err(e) => Err(e),
        },
        AddrMode::IndexedDirectWord => match operand8(m, loc) {
            Ok(l) => match load_word(m, direct_address(cpu, l, cpu.X)) {
                Ok(pointer) => Ok((join(cpu.DBR, pointer), None)),
                Err(e) => Err(e),
            },
            Err(e) => Err(e),
        },
        AddrMode::DirectIndexedWord => match operand8(m, loc) {
            Ok(l) => match load_word(m, direct_address(cpu, l, 0)) {
                Ok(pointer) => Ok((wrap24(join(cpu.DBR, pointer) + cpu.Y), None)),
                Err(e) => Err(e),
            },
            Err(e) => Err(e),
        },
        AddrMode::DirectIndexedSWord => match operand8(m, loc) {
            Ok(l) => match load_long(m, direct_address(cpu, l, 0)) {
                Ok(pointer) => Ok((wrap24(pointer + cpu.Y), None)),
                Err(e) => Err(e),
            },
            Err(e) => Err(e),
        },
        AddrMode::Long => match operand24(m, loc) {
            Ok(bhl) => Ok((bhl, None)),
            Err(e) => Err(e),
        },
        AddrMode::LongX => match operand24(m, loc) {
            Ok(bhl) => Ok((wrap24(bhl + cpu.X), None)),
            Err(e) => Err(e),
        },
        AddrMode::RelativeByte => match operand8(m, loc) {
            Ok(l) => Ok((branch_target(loc, l), None)),
            Err(e) => Err(e),
        },
        AddrMode::RelativeWord => match operand16(m, loc) {
            Ok(hl) => Ok((long_branch_target(loc, hl), None)),
            Err(e) => Err(e),
        },
        AddrMode::SourceDestination => match operand16(m, loc) {
            Ok(hl) => Ok(
                (
                    join((hl / 256) as u8, cpu.Y),
                    Some(join((hl % 256) as u8, cpu.X)),
                ),
            ),
            Err(e) => Err(e),
        },
        AddrMode::Stack => match operand8(m, loc) {
            Ok(l) => Ok((wrap16(l + cpu.S) as u32, None)),
            Err(e) => Err(e),
        },
        AddrMode::StackIndexed => match operand8(m, loc) {
            Ok(l) => match load_word(m, wrap16(l + cpu.S) as u32) {
                Ok(pointer) => Ok((wrap24(join(cpu.DBR, pointer) + cpu.Y), None)),
                Err(e) => Err(e),
            },
            Err(e) => Err(e),
        },
    }
}

/// The decoded form of the instruction whose opcode byte `instruction`
/// stands at `loc`.
pub open spec fn decode(m: Machine, instruction: u8, loc: u32) -> Result<
    InstructionContext,
    EmuError,
> {
    match addressing_mode(instruction) {
        Some(mode) => match effective_address(m, mnemonic(instruction), mode, loc) {
            Ok(address) => Ok(
                InstructionContext {
                    opcode: mnemonic(instruction),
                    mode: mode,
                    inst_addr: loc,
                    data_addr: address.0,
                    dest_addr: address.1,
                },
            ),
            Err(e) => Err(e),
        },
        None => Err(EmuError::UnknownOpcode(instruction)),
    }
}

fn join_exec(bank: u8, off: u16) -> (r: u32)
    ensures
        r == join(bank, off),
        r < 0x1000000,
{
    (bank as u32) * 0x10000 + off as u32
}

fn read_long(snes: &Console, addr: u32) -> (r: Result<u32, EmuError>)
    ensures
        r == load_long(snes@, addr),
{
    let low: u16 = read_word(snes, addr)?;
    let a1: u32 = step_addr(addr);
    let bank: u8 = read_byte(snes, step_addr(a1))?;
    Ok(join_exec(bank, low))
}

fn step_addr(addr: u32) -> (r: u32)
    ensures
        r == next_address(addr),
{
    if addr >= 0xFFFFFF {
        0
    } else {
        addr + 1
    }
}

fn direct_exec(cpu: &CPU, l: u8, index: u16) -> (r: u32)
    ensures
        r == direct_address(*cpu, l, index),
{
    if cpu.P.e && cpu.D % 256 == 0 {
        cpu.D as u32 + (l as u32 + index as u32) % 256
    } else {
        (cpu.D as u32 + l as u32 + index as u32) % 0x10000
    }
}

/// Resolves the address that the instruction at `loc` works on.
#[verifier::rlimit(50)]
pub fn calculate_address(snes: &Console, op: OpCode, mode: AddrMode, loc: u32) -> (r: Result<
    (u32, Option<u32>),
    EmuError,
>)
    ensures
        r == effective_address(snes@, op, mode, loc),
{
    let first: u32 = step_addr(loc);
    match mode {
        AddrMode::Absolute => {
            let hl: u16 = read_word(snes, first)?;
            let bank: u8 = if op.is_jump() {
                snes.cpu.K
            } else {
                snes.cpu.DBR
            };
            Ok((join_exec(bank, hl), None))
        },
        AddrMode::AbsoluteWord | AddrMode::AbsoluteSWord => {
            let hl: u16 = read_word(snes, first)?;
            Ok((hl as u32, None))
        },
        AddrMode::AbsoluteX => {
            let hl: u16 = read_word(snes, first)?;
            let off: u16 = ((hl as u32 + snes.cpu.X as u32) % 0x10000) as u16;
            Ok((join_exec(snes.cpu.DBR, off), None))
        },
        AddrMode::AbsoluteY => {
            let hl: u16 = read_word(snes, first)?;
            let off: u16 = ((hl as u32 + snes.cpu.Y as u32) % 0x10000) as u16;
            Ok((join_exec(snes.cpu.DBR, off), None))
        },
        AddrMode::AbsoluteIndirectWord => {
            let hl: u16 = read_word(snes, first)?;
            let pointer: u16 = read_word(snes, hl as u32)?;
            Ok((join_exec(snes.cpu.K, pointer), None))
        },
        AddrMode::AbsoluteIndirectSWord => {
            let hl: u16 = read_word(snes, first)?;
            let pointer: u32 = read_long(snes, hl as u32)?;
            Ok((pointer, None))
        },
        AddrMode::AbsoluteIndexedIndirect => {
            let hl: u16 = read_word(snes, first)?;
            let off: u16 = ((hl as u32 + snes.cpu.X as u32) % 0x10000) as u16;
            let pointer: u16 = read_word(snes, join_exec(snes.cpu.K, off))?;
            Ok((join_exec(snes.cpu.K, pointer), None))
        },
        AddrMode::Accumulator | AddrMode::Implied => Ok((loc, None)),
        AddrMode::Immediate => Ok((first, None)),
        AddrMode::Direct => {
            let l: u8 = read_byte(snes, first)?;
            Ok((direct_exec(&snes.cpu, l, 0), None))
        },
        AddrMode::DirectX => {
            let l: u8 = read_byte(snes, first)?;
            Ok((direct_exec(&snes.cpu, l, snes.cpu.X), None))
        },
        AddrMode::DirectY => {
            let l: u8 = read_byte(snes, first)?;
            Ok((direct_exec(&snes.cpu, l, snes.cpu.Y), None))
        },
        AddrMode::DirectWord => {
            let l: u8 = read_byte(snes, first)?;
            let pointer: u16 = read_word(snes, direct_exec(&snes.cpu, l, 0))?;
            Ok((join_exec(snes.cpu.DBR, pointer), None))
        },
        AddrMode::DirectSWord => {
            let l: u8 = read_byte(snes, first)?;
            let pointer: u32 = read_long(snes, direct_exec(&snes.cpu, l, 0))?;
            Ok((pointer, None))
        },
        AddrMode::IndexedDirectWord => {
            let l: u8 = read_byte(snes, first)?;
            let pointer: u16 = read_word(snes, direct_exec(&snes.cpu, l, snes.cpu.X))?;
            Ok((join_exec(snes.cpu.DBR, pointer), None))
        },
        AddrMode::DirectIndexedWord => {
            let l: u8 = read_byte(snes, first)?;
            let pointer: u16 = read_word(snes, direct_exec(&snes.cpu, l, 0))?;
            Ok(((join_exec(snes.cpu.DBR, pointer) + snes.cpu.Y as u32) % 0x1000000, None))
        },
        AddrMode::DirectIndexedSWord => {
            let l: u8 = read_byte(snes, first)?;
            let pointer: u32 = read_long(snes, direct_exec(&snes.cpu, l, 0))?;
            Ok(((pointer + snes.cpu.Y as u32) % 0x1000000, None))
        },
        AddrMode::Long => {
            let bhl: u32 = read_long(snes, first)?;
            Ok((bhl, None))
        },
        AddrMode::LongX => {
            let bhl: u32 = read_long(snes, first)?;
            Ok(((bhl + snes.cpu.X as u32) % 0x1000000, None))
        },
        AddrMode::RelativeByte => {
            let l: u8 = read_byte(snes, first)?;
            let base: u32 = loc % 0x1000000;
            let moved: u32 = if l <= 0x7F {
                base % 0x10000 + 0x10000 + 2 + l as u32
            } else {
                base % 0x10000 + 0x10000 + 2 + l as u32 - 256
            };
            Ok((base / 0x10000 * 0x10000 + moved % 0x10000, None))
        },
        AddrMode::RelativeWord => {
            let hl: u16 = read_word(snes, first)?;
            let base: u32 = loc % 0x1000000;
            Ok((base / 0x10000 * 0x10000 + (base % 0x10000 + 3 + hl as u32) % 0x10000, None))
        },
        AddrMode::SourceDestination => {
            let hl: u16 = read_word(snes, first)?;
            let source: u32 = join_exec((hl / 256) as u8, snes.cpu.Y);
            let dest: u32 = join_exec((hl % 256) as u8, snes.cpu.X);
            Ok((source, Some(dest)))
        },
        AddrMode::Stack => {
            let l: u8 = read_byte(snes, first)?;
            Ok(((l as u32 + snes.cpu.S as u32) % 0x10000, None))
        },
        AddrMode::StackIndexed => {
            let l: u8 = read_byte(snes, first)?;
            let pointer: u16 = read_word(snes, (l as u32 + snes.cpu.S as u32) % 0x10000)?;
            Ok(((join_exec(snes.cpu.DBR, pointer) + snes.cpu.Y as u32) % 0x1000000, None))
        },
    }
}

/// Decodes the instruction whose opcode byte `instruction` stands at `loc`.
pub fn decode_instruction(snes: &Console, instruction: u8, loc: u32) -> (r: Result<
    InstructionContext,
    EmuError,
>)
    ensures
        r == decode(snes@, instruction, loc),
{
    let opcode: OpCode = decode_opcode(instruction);
    let mode: AddrMode = decode_addressing_mode(instruction)?;
    let address: (u32, Option<u32>) = calculate_address(snes, opcode, mode, loc)?;
    Ok(
        InstructionContext {
            opcode,
            mode,
            inst_addr: loc,
            data_addr: address.0,
            dest_addr: address.1,
        },
    )
}

} // verus!
