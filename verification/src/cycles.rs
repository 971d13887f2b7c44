//! Cycle accounting, and the step that ties fetch, decode, count and
//! execute together.

use vstd::prelude::*;
use crate::address::{decode, decode_instruction};
use crate::console::{Console, Machine};
use crate::cpu::{bit_value, CPU};
use crate::error::EmuError;
use crate::execute::execute_instruction;
use crate::memory::{load_byte, read_byte};
use crate::opcode::{addressing_mode, mnemonic, AddrMode, InstructionContext, OpCode};
use crate::semantics::{branch_taken, execute, CPUExecutionResult};

verus! {

/// The index register that an indexed mode adds.
pub open spec fn index_of(cpu: CPU, mode: AddrMode) -> u16 {
    if mode == AddrMode::AbsoluteX {
        cpu.X
    } else {
        cpu.Y
    }
}

/// Whether adding the index carried into the next page: the page of the
/// address before the index was added is not the page of the address after.
pub open spec fn index_crossed_page(cpu: CPU, i: InstructionContext) -> bool {
    let after = i.data_addr % 0x10000;
    let before = (after + 0x10000 - index_of(cpu, i.mode)) % 0x10000;
    before / 256 != after / 256
}

/// The correction of an indexed mode: one cycle more where the index
/// registers are 8 bits wide or the index carried into the next page, on a
/// count that is one less at 8 bits.
pub open spec fn index_penalty(cpu: CPU, i: InstructionContext) -> int {
    bit_value(cpu.P.x || index_crossed_page(cpu, i)) - bit_value(cpu.P.x)
}

/// Whether the target of a branch lies in another page than the
/// instruction behind the branch.
pub open spec fn branch_crossed_page(i: InstructionContext) -> bool {
    ((i.inst_addr % 0x10000 + 2) % 0x10000) / 256 != (i.data_addr % 0x10000) / 256
}

/// The cycles of an operation of the accumulator that reads or writes
/// memory, by mode. `m` is 1 at 8 bits, `w` is 1 where the direct page does
/// not start on a page boundary.
pub open spec fn accumulator_cost(mode: AddrMode, m: int, w: int, penalty: int) -> Option<int> {
    match mode {
        AddrMode::IndexedDirectWord => Some(7 - m + w),
        AddrMode::Stack => Some(5 - m),
        AddrMode::Direct => Some(4 - m + w),
        AddrMode::DirectSWord => Some(7 - m + w),
        AddrMode::Immediate => Some(3 - m),
        AddrMode::Absolute => Some(5 - m),
        AddrMode::Long => Some(6 - m),
        AddrMode::DirectIndexedWord => Some(7 - m + w + penalty),
        AddrMode::DirectWord => Some(6 - m + w),
        AddrMode::StackIndexed => Some(8 - m),
        AddrMode::DirectX => Some(5 - m + w),
        AddrMode::DirectIndexedSWord => Some(7 - m + w),
        AddrMode::AbsoluteY | AddrMode::AbsoluteX => Some(6 - m + penalty),
        AddrMode::LongX => Some(6 - m),
        _ => None,
    }
}

/// The cycles of an operation that modifies a value in place, by mode.
pub open spec fn modify_cost(mode: AddrMode, m: int, w: int) -> Option<int> {
    match mode {
        AddrMode::Accumulator | AddrMode::Implied => Some(2),
        AddrMode::Direct => Some(7 - 2 * m + w),
        AddrMode::Absolute => Some(8 - 2 * m),
        AddrMode::DirectX => Some(8 - 2 * m + w),
        AddrMode::AbsoluteX => Some(9 - 2 * m),
        _ => None,
    }
}

/// The cycles of a load or store of an index register, by mode. `x` is 1
/// at 8 bits.
pub open spec fn index_cost(mode: AddrMode, x: int, w: int, penalty: int) -> Option<int> {
    match mode {
        AddrMode::Immediate => Some(3 - x),
        AddrMode::Direct => Some(4 - x + w),
        AddrMode::Absolute => Some(5 - x),
        AddrMode::DirectY | AddrMode::DirectX => Some(5 - x + w),
        AddrMode::AbsoluteY | AddrMode::AbsoluteX => Some(6 - x + penalty),
        _ => None,
    }
}

/// The cycles that an instruction takes on a processor in this state;
/// `None` for a pairing of operation and mode that no opcode encodes.
pub open spec fn cycle_count(cpu: CPU, i: InstructionContext) -> Option<int> {
    let m = bit_value(cpu.P.m);
    let x = bit_value(cpu.P.x);
    let e = bit_value(cpu.P.e);
    let w = bit_value(cpu.D % 256 != 0);
    let penalty = index_penalty(cpu, i);
    match i.opcode {
        OpCode::JMP | OpCode::JML => match i.mode {
            AddrMode::Absolute => Some(3),
            AddrMode::Long => Some(4),
            AddrMode::AbsoluteIndirectWord => Some(5),
            AddrMode::AbsoluteIndexedIndirect | AddrMode::AbsoluteIndirectSWord => Some(6),
            _ => None,
        },
        OpCode::JSL | OpCode::JSR => match i.mode {
            AddrMode::Long => Some(8),
            AddrMode::Absolute => Some(6),
            AddrMode::AbsoluteIndexedIndirect => Some(8),
            _ => None,
        },
        OpCode::RTL | OpCode::RTS => Some(6),
        OpCode::RTI => Some(7 - e),
        OpCode::MVN | OpCode::MVP => Some(7),
        OpCode::NOP | OpCode::WDM => Some(2),
        OpCode::PEA => Some(5),
        OpCode::PER => Some(6),
        OpCode::PEI => Some(6 + w),
        OpCode::ADC | OpCode::SBC | OpCode::CMP | OpCode::AND | OpCode::EOR | OpCode::ORA
        | OpCode::LDA | OpCode::STA => accumulator_cost(i.mode, m, w, penalty),
        OpCode::CPX | OpCode::CPY => match i.mode {
            AddrMode::Immediate => Some(3 - x),
            AddrMode::Direct => Some(4 - x + w),
            AddrMode::Absolute => Some(5 - x),
            _ => None,
        },
        OpCode::DEC | OpCode::DEX | OpCode::DEY | OpCode::INC | OpCode::INX | OpCode::INY =>
            modify_cost(i.mode, m, w),
        OpCode::BIT => match i.mode {
            AddrMode::Direct => Some(4 - m + w),
            AddrMode::Absolute => Some(5 - m),
            AddrMode::DirectX => Some(5 - m + w),
            AddrMode::AbsoluteX => Some(6 - m + penalty),
            AddrMode::Immediate => Some(3 - m),
            _ => None,
        },
        OpCode::TRB | OpCode::TSB => match i.mode {
            AddrMode::Direct => Some(7 - 2 * m + w),
            AddrMode::Absolute => Some(8 - 2 * m),
            _ => None,
        },
        OpCode::ASL | OpCode::LSR | OpCode::ROL | OpCode::ROR => match i.mode {
            AddrMode::Implied => None,
            _ => modify_cost(i.mode, m, w),
        },
        OpCode::BRA | OpCode::BCC | OpCode::BCS | OpCode::BEQ | OpCode::BMI | OpCode::BNE
        | OpCode::BPL | OpCode::BVC | OpCode::BVS => if branch_taken(i.opcode, cpu.P) {
            Some(3 + bit_value(cpu.P.e && branch_crossed_page(i)))
        } else {
            Some(2)
        },
        OpCode::BRL => Some(4),
        OpCode::BRK | OpCode::COP => Some(8 - e),
        OpCode::CLC | OpCode::CLD | OpCode::CLI | OpCode::CLV | OpCode::SEC | OpCode::SED
        | OpCode::SEI => Some(2),
        OpCode::REP | OpCode::SEP => Some(3),
        OpCode::LDX | OpCode::LDY | OpCode::STX | OpCode::STY => index_cost(
            i.mode,
            x,
            w,
            penalty,
        ),
        OpCode::STZ => match i.mode {
            AddrMode::Direct => Some(4 - m + w),
            AddrMode::DirectX => Some(5 - m + w),
            AddrMode::Absolute => Some(5 - m),
            AddrMode::AbsoluteX => Some(6 - m),
            _ => None,
        },
        OpCode::PHA => Some(4 - m),
        OpCode::PHX | OpCode::PHY => Some(4 - x),
        OpCode::PLA => Some(5 - m),
        OpCode::PLX | OpCode::PLY => Some(5 - x),
        OpCode::PHB | OpCode::PHK | OpCode::PHP => Some(3),
        OpCode::PHD | OpCode::PLB | OpCode::PLP => Some(4),
        OpCode::PLD => Some(5),
        OpCode::STP | OpCode::WAI => Some(3),
        OpCode::TAX | OpCode::TAY | OpCode::TSX | OpCode::TXA | OpCode::TXS | OpCode::TXY
        | OpCode::TYA | OpCode::TYX | OpCode::TCD | OpCode::TCS | OpCode::TDC | OpCode::TSC => Some(
            2,
        ),
        OpCode::XBA => Some(3),
        OpCode::XCE => Some(2),
    }
}

/// Every instruction that the decoder produces has a cycle count, between
/// 2 and 10.
#[verifier::rlimit(50)]
pub proof fn lemma_decoded_has_cycles(cpu: CPU, i: InstructionContext, opcode: u8)
    requires
        i.opcode == mnemonic(opcode),
        addressing_mode(opcode) == Some(i.mode),
    ensures
        cycle_count(cpu, i) is Some,
        2 <= cycle_count(cpu, i).unwrap() <= 10,
{
}

fn flag(b: bool) -> (r: u8)
    ensures
        r == bit_value(b),
{
    if b {
        1
    } else {
        0
    }
}

fn index_penalty_of(cpu: &CPU, i: &InstructionContext) -> (r: u8)
    ensures
        r == index_penalty(*cpu, *i),
{
    let index: u16 = if matches!(i.mode, AddrMode::AbsoluteX) {
        cpu.X
    } else {
        cpu.Y
    };
    let after: u32 = i.data_addr % 0x10000;
    let before: u32 = (after + 0x10000 - index as u32) % 0x10000;
    if !cpu.P.x && before / 256 != after / 256 {
        1
    } else {
        0
    }
}

fn accumulator_cycles(mode: AddrMode, m: u8, w: u8, penalty: u8) -> (r: Option<u8>)
    requires
        m <= 1,
        w <= 1,
        penalty <= 1,
    ensures
        r is Some <==> accumulator_cost(mode, m as int, w as int, penalty as int) is Some,
        r matches Some(n) ==> accumulator_cost(mode, m as int, w as int, penalty as int) == Some(
            n as int,
        ),
{
    match mode {
        AddrMode::IndexedDirectWord => Some(7 - m + w),
        AddrMode::Stack => Some(5 - m),
        AddrMode::Direct => Some(4 - m + w),
        AddrMode::DirectSWord => Some(7 - m + w),
        AddrMode::Immediate => Some(3 - m),
        AddrMode::Absolute => Some(5 - m),
        AddrMode::Long => Some(6 - m),
        AddrMode::DirectIndexedWord => Some(7 - m + w + penalty),
        AddrMode::DirectWord => Some(6 - m + w),
        AddrMode::StackIndexed => Some(8 - m),
        AddrMode::DirectX => Some(5 - m + w),
        AddrMode::DirectIndexedSWord => Some(7 - m + w),
        AddrMode::AbsoluteY | AddrMode::AbsoluteX => Some(6 - m + penalty),
        AddrMode::LongX => Some(6 - m),
        _ => None,
    }
}

fn modify_cycles(mode: AddrMode, m: u8, w: u8) -> (r: Option<u8>)
    requires
        m <= 1,
        w <= 1,
    ensures
        r is Some <==> modify_cost(mode, m as int, w as int) is Some,
        r matches Some(n) ==> modify_cost(mode, m as int, w as int) == Some(n as int),
{
    match mode {
        AddrMode::Accumulator | AddrMode::Implied => Some(2),
        AddrMode::Direct => Some(7 - 2 * m + w),
        AddrMode::Absolute => Some(8 - 2 * m),
        AddrMode::DirectX => Some(8 - 2 * m + w),
        AddrMode::AbsoluteX => Some(9 - 2 * m),
        _ => None,
    }
}

fn index_cycles(mode: AddrMode, x: u8, w: u8, penalty: u8) -> (r: Option<u8>)
    requires
        x <= 1,
        w <= 1,
        penalty <= 1,
    ensures
        r is Some <==> index_cost(mode, x as int, w as int, penalty as int) is Some,
        r matches Some(n) ==> index_cost(mode, x as int, w as int, penalty as int) == Some(
            n as int,
        ),
{
    match mode {
        AddrMode::Immediate => Some(3 - x),
        AddrMode::Direct => Some(4 - x + w),
        AddrMode::Absolute => Some(5 - x),
        AddrMode::DirectY | AddrMode::DirectX => Some(5 - x + w),
        AddrMode::AbsoluteY | AddrMode::AbsoluteX => Some(6 - x + penalty),
        _ => None,
    }
}

fn branch_cycles(cpu: &CPU, i: &InstructionContext) -> (r: u8)
    requires
        i.opcode.is_branch_spec(),
    ensures
        cycle_count(*cpu, *i) == Some(r as int),
{
    let taken: bool = match i.opcode {
        OpCode::BCC => !cpu.P.c,
        OpCode::BCS => cpu.P.c,
        OpCode::BEQ => cpu.P.z,
        OpCode::BNE => !cpu.P.z,
        OpCode::BMI => cpu.P.n,
        OpCode::BPL => !cpu.P.n,
        OpCode::BVC => !cpu.P.v,
        OpCode::BVS => cpu.P.v,
        _ => true,
    };
    let next: u32 = (i.inst_addr % 0x10000 + 2) % 0x10000;
    let crossed: bool = next / 256 != (i.data_addr % 0x10000) / 256;
    if taken {
        3 + flag(cpu.P.e && crossed)
    } else {
        2
    }
}

/// The cycles that `instruction` takes on the console as it stands; `None`
/// for a pairing of operation and mode that no opcode encodes.
#[verifier::rlimit(50)]
pub fn calculate_cycles(snes: &Console, instruction: &InstructionContext) -> (r: Option<u8>)
    ensures
        r is Some <==> cycle_count(snes@.cpu, *instruction) is Some,
        r matches Some(n) ==> cycle_count(snes@.cpu, *instruction) == Some(n as int),
{
    let cpu: &CPU = &snes.cpu;
    let m: u8 = flag(cpu.P.m);
    let x: u8 = flag(cpu.P.x);
    let e: u8 = flag(cpu.P.e);
    let w: u8 = flag(cpu.D % 256 != 0);
    let penalty: u8 = index_penalty_of(cpu, instruction);
    let mode: AddrMode = instruction.mode;
    match instruction.opcode {
        OpCode::JMP | OpCode::JML => match mode {
            AddrMode::Absolute => Some(3),
            AddrMode::Long => Some(4),
            AddrMode::AbsoluteIndirectWord => Some(5),
            AddrMode::AbsoluteIndexedIndirect | AddrMode::AbsoluteIndirectSWord => Some(6),
            _ => None,
        },
        OpCode::JSL | OpCode::JSR => match mode {
            AddrMode::Long => Some(8),
            AddrMode::Absolute => Some(6),
            AddrMode::AbsoluteIndexedIndirect => Some(8),
            _ => None,
        },
        OpCode::RTL | OpCode::RTS => Some(6),
        OpCode::RTI => Some(7 - e),
        OpCode::MVN | OpCode::MVP => Some(7),
        OpCode::NOP | OpCode::WDM => Some(2),
        OpCode::PEA => Some(5),
        OpCode::PER => Some(6),
        OpCode::PEI => Some(6 + w),
        OpCode::ADC | OpCode::SBC | OpCode::CMP | OpCode::AND | OpCode::EOR | OpCode::ORA
        | OpCode::LDA | OpCode::STA => accumulator_cycles(mode, m, w, penalty),
        OpCode::CPX | OpCode::CPY => match mode {
            AddrMode::Immediate => Some(3 - x),
            AddrMode::Direct => Some(4 - x + w),
            AddrMode::Absolute => Some(5 - x),
            _ => None,
        },
        OpCode::DEC | OpCode::DEX | OpCode::DEY | OpCode::INC | OpCode::INX | OpCode::INY =>
            modify_cycles(mode, m, w),
        OpCode::BIT => match mode {
            AddrMode::Direct => Some(4 - m + w),
            AddrMode::Absolute => Some(5 - m),
            AddrMode::DirectX => Some(5 - m + w),
            AddrMode::AbsoluteX => Some(6 - m + penalty),
            AddrMode::Immediate => Some(3 - m),
            _ => None,
        },
        OpCode::TRB | OpCode::TSB => match mode {
            AddrMode::Direct => Some(7 - 2 * m + w),
            AddrMode::Absolute => Some(8 - 2 * m),
            _ => None,
        },
        OpCode::ASL | OpCode::LSR | OpCode::ROL | OpCode::ROR => match mode {
            AddrMode::Implied => None,
            _ => modify_cycles(mode, m, w),
        },
        OpCode::BRA | OpCode::BCC | OpCode::BCS | OpCode::BEQ | OpCode::BMI | OpCode::BNE
        | OpCode::BPL | OpCode::BVC | OpCode::BVS => Some(branch_cycles(cpu, instruction)),
        OpCode::BRL => Some(4),
        OpCode::BRK | OpCode::COP => Some(8 - e),
        OpCode::CLC | OpCode::CLD | OpCode::CLI | OpCode::CLV | OpCode::SEC | OpCode::SED
        | OpCode::SEI => Some(2),
        OpCode::REP | OpCode::SEP => Some(3),
        OpCode::LDX | OpCode::LDY | OpCode::STX | OpCode::STY => index_cycles(
            mode,
            x,
            w,
            penalty,
        ),
        OpCode::STZ => match mode {
            AddrMode::Direct => Some(4 - m + w),
            AddrMode::DirectX => Some(5 - m + w),
            AddrMode::Absolute => Some(5 - m),
            AddrMode::AbsoluteX => Some(6 - m),
            _ => None,
        },
        OpCode::PHA => Some(4 - m),
        OpCode::PHX | OpCode::PHY => Some(4 - x),
        OpCode::PLA => Some(5 - m),
        OpCode::PLX | OpCode::PLY => Some(5 - x),
        OpCode::PHB | OpCode::PHK | OpCode::PHP => Some(3),
        OpCode::PHD | OpCode::PLB | OpCode::PLP => Some(4),
        OpCode::PLD => Some(5),
        OpCode::STP | OpCode::WAI => Some(3),
        OpCode::TAX | OpCode::TAY | OpCode::TSX | OpCode::TXA | OpCode::TXS | OpCode::TXY
        | OpCode::TYA | OpCode::TYX | OpCode::TCD | OpCode::TCS | OpCode::TDC | OpCode::TSC => Some(
            2,
        ),
        OpCode::XBA => Some(3),
        OpCode::XCE => Some(2),
    }
}

/// What one step makes of the machine: the instruction at `K:PC` is
/// fetched, decoded, counted and executed. The cycles are those of the
/// machine before the instruction ran.
pub open spec fn step_spec(m: Machine) -> (Machine, Result<(CPUExecutionResult, u8), EmuError>) {
    let pc = m.cpu.pc() as u32;
    match load_byte(m, pc) {
        Ok(opcode) => match decode(m, opcode, pc) {
            Ok(i) => {
                let done = execute(m, i);
                match done.1 {
                    Ok(result) => (done.0, Ok((result, cycle_count(m.cpu, i).unwrap() as u8))),
                    Err(e) => (done.0, Err(e)),
                }
            },
            Err(e) => (m, Err(e)),
        },
        Err(e) => (m, Err(e)),
    }
}

/// Runs the instruction at the program counter and says how it ended and
/// how many cycles it took.
pub fn step(snes: &mut Console) -> (r: Result<(CPUExecutionResult, u8), EmuError>)
    ensures
        final(snes)@ == step_spec(old(snes)@).0,
        r == step_spec(old(snes)@).1,
{
    let pc: u32 = snes.cpu.get_pc();
    let opcode: u8 = match read_byte(snes, pc) {
        Ok(b) => b,
        Err(e) => {
            return Err(e);
        },
    };
    let instruction: InstructionContext = match decode_instruction(snes, opcode, pc) {
        Ok(i) => i,
        Err(e) => {
            return Err(e);
        },
    };
    proof {
        lemma_decoded_has_cycles(snes@.cpu, instruction, opcode);
    }
    let cycles: u8 = match calculate_cycles(snes, &instruction) {
        Some(n) => n,
        None => 0,
    };
    match execute_instruction(snes, &instruction) {
        Ok(result) => Ok((result, cycles)),
        Err(e) => Err(e),
    }
}

} // verus!
