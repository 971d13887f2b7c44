//! The text of the listing: how an instruction, the flags, the registers
//! and an error read in a debugger.

use vstd::prelude::*;
use crate::console::{Console, Machine};
use crate::cpu::{Flags, CPU};
use crate::debugger::{InstructionWrapper, WrapperView};
use crate::disassembler::{
    wrapper_views, DisassemblerError, DisassemblyError, DisassemblyErrorView,
};
use crate::error::{EmuError, Feature, HeaderFault};
use crate::memory::{peek_byte, peek_word};
use crate::opcode::{AddrMode, InstructionContext, OpCode};
use crate::semantics::load_operand;

verus! {

/// `String::push_str`: the text of `tail` is appended to `text`.
#[verifier::external_body]
fn append(text: &mut String, tail: &str)
    ensures
        final(text)@ == old(text)@ + tail@,
{
    text.push_str(tail);
}

/// `String::push`: the character is appended to `text`.
#[verifier::external_body]
fn append_char(text: &mut String, c: char)
    ensures
        final(text)@ == old(text)@.push(c),
{
    text.push(c);
}

/// The upper-case hexadecimal digit of a number below 16.
pub open spec fn hex_digit(d: int) -> char {
    if d == 0 {
        '0'
    } else if d == 1 {
        '1'
    } else if d == 2 {
        '2'
    } else if d == 3 {
        '3'
    } else if d == 4 {
        '4'
    } else if d == 5 {
        '5'
    } else if d == 6 {
        '6'
    } else if d == 7 {
        '7'
    } else if d == 8 {
        '8'
    } else if d == 9 {
        '9'
    } else if d == 10 {
        'A'
    } else if d == 11 {
        'B'
    } else if d == 12 {
        'C'
    } else if d == 13 {
        'D'
    } else if d == 14 {
        'E'
    } else {
        'F'
    }
}

/// The last `digits` hexadecimal digits of `v`, upper case, the most
/// significant first.
pub open spec fn hex(v: int, digits: nat) -> Seq<char>
    decreases digits,
{
    if digits == 0 {
        Seq::empty()
    } else {
        hex(v / 16, (digits - 1) as nat).push(hex_digit(v % 16))
    }
}

fn digit(d: u32) -> (c: char)
    requires
        d < 16,
    ensures
        c == hex_digit(d as int),
{
    match d {
        0 => '0',
        1 => '1',
        2 => '2',
        3 => '3',
        4 => '4',
        5 => '5',
        6 => '6',
        7 => '7',
        8 => '8',
        9 => '9',
        10 => 'A',
        11 => 'B',
        12 => 'C',
        13 => 'D',
        14 => 'E',
        _ => 'F',
    }
}

fn append_hex2(text: &mut String, v: u32)
    ensures
        final(text)@ == old(text)@ + hex(v as int, 2),
{
    reveal_with_fuel(hex, 3);
    let ghost before = text@;
    append_char(text, digit((v / 0x10) % 16));
    append_char(text, digit(v % 16));
    assert(text@ =~= before + hex(v as int, 2));
}

fn append_hex4(text: &mut String, v: u32)
    ensures
        final(text)@ == old(text)@ + hex(v as int, 4),
{
    reveal_with_fuel(hex, 3);
    let ghost before = text@;
    append_hex2(text, v / 0x100);
    append_hex2(text, v);
    assert(hex(v as int, 4) =~= hex(v as int / 0x100, 2) + hex(v as int, 2));
    assert(text@ =~= before + hex(v as int, 4));
}

fn append_hex6(text: &mut String, v: u32)
    ensures
        final(text)@ == old(text)@ + hex(v as int, 6),
{
    reveal_with_fuel(hex, 5);
    let ghost before = text@;
    append_hex2(text, v / 0x10000);
    append_hex4(text, v);
    assert(hex(v as int, 6) =~= hex(v as int / 0x10000, 2) + hex(v as int, 4));
    assert(text@ =~= before + hex(v as int, 6));
}

// ---------------------------------------------------------------------
// Flags and registers
// ---------------------------------------------------------------------
/// One letter of the flag string: upper case where the flag is set.
pub open spec fn flag_letter(set: bool, upper: char, lower: char) -> char {
    if set {
        upper
    } else {
        lower
    }
}

/// The flags as ten letters, `N V M X D I Z C E B`, each in upper case
/// where the flag is set.
pub open spec fn flags_text(p: Flags) -> Seq<char> {
    seq![
        flag_letter(p.n, 'N', 'n'),
        flag_letter(p.v, 'V', 'v'),
        flag_letter(p.m, 'M', 'm'),
        flag_letter(p.x, 'X', 'x'),
        flag_letter(p.d, 'D', 'd'),
        flag_letter(p.i, 'I', 'i'),
        flag_letter(p.z, 'Z', 'z'),
        flag_letter(p.c, 'C', 'c'),
        flag_letter(p.e, 'E', 'e'),
        flag_letter(p.b, 'B', 'b'),
    ]
}

fn append_flag(text: &mut String, set: bool, upper: char, lower: char)
    ensures
        final(text)@ == old(text)@.push(flag_letter(set, upper, lower)),
{
    if set {
        append_char(text, upper);
    } else {
        append_char(text, lower);
    }
}

#[verifier::rlimit(50)]
fn append_flags(text: &mut String, p: &Flags)
    ensures
        final(text)@ == old(text)@ + flags_text(*p),
{
    let ghost before = text@;
    append_flag(text, p.n, 'N', 'n');
    append_flag(text, p.v, 'V', 'v');
    append_flag(text, p.m, 'M', 'm');
    append_flag(text, p.x, 'X', 'x');
    append_flag(text, p.d, 'D', 'd');
    append_flag(text, p.i, 'I', 'i');
    append_flag(text, p.z, 'Z', 'z');
    append_flag(text, p.c, 'C', 'c');
    append_flag(text, p.e, 'E', 'e');
    append_flag(text, p.b, 'B', 'b');
    assert(text@ =~= before + flags_text(*p));
}

impl Flags {
    /// The flags as ten letters, upper case where set.
    pub fn to_string(&self) -> (s: String)
        ensures
            s@ == flags_text(*self),
    {
        let mut text: String = String::new();
        append_flags(&mut text, self);
        assert(text@ =~= flags_text(*self));
        text
    }
}

/// The registers, one to a line.
pub open spec fn cpu_text(cpu: CPU) -> Seq<char> {
    "A:   "@ + hex(cpu.A as int, 4) + "\nX:   "@ + hex(cpu.X as int, 4) + "\nY:   "@ + hex(
        cpu.Y as int,
        4,
    ) + "\nS:   "@ + hex(cpu.S as int, 4) + "\nDBR: "@ + hex(cpu.DBR as int, 4) + "\nD:   "@ + hex(
        cpu.D as int,
        4,
    ) + "\nK:   "@ + hex(cpu.K as int, 2) + "\nP:   "@ + flags_text(cpu.P) + "\nPC:  $"@ + hex(
        cpu.PC as int,
        4,
    )
}

impl CPU {
    /// The registers, one to a line, in hexadecimal.
    pub fn to_string(&self) -> (s: String)
        ensures
            s@ == cpu_text(*self),
    {
        let mut text: String = String::new();
        append(&mut text, "A:   ");
        append_hex4(&mut text, self.A as u32);
        append(&mut text, "\nX:   ");
        append_hex4(&mut text, self.X as u32);
        append(&mut text, "\nY:   ");
        append_hex4(&mut text, self.Y as u32);
        append(&mut text, "\nS:   ");
        append_hex4(&mut text, self.S as u32);
        append(&mut text, "\nDBR: ");
        append_hex4(&mut text, self.DBR as u32);
        append(&mut text, "\nD:   ");
        append_hex4(&mut text, self.D as u32);
        append(&mut text, "\nK:   ");
        append_hex2(&mut text, self.K as u32);
        append(&mut text, "\nP:   ");
        append_flags(&mut text, &self.P);
        append(&mut text, "\nPC:  $");
        append_hex4(&mut text, self.PC as u32);
        assert(text@ =~= cpu_text(*self));
        text
    }
}

// ---------------------------------------------------------------------
// Instructions
// ---------------------------------------------------------------------
/// Whether the immediate operand of a line shows as one byte: always for
/// `REP`, `SEP` and `WDM`, never for `PEA` and `PER`, and else by the width
/// that the operation was decoded under.
pub open spec fn shows_byte(w: WrapperView) -> bool {
    let op = w.instruction.opcode;
    if op == OpCode::REP || op == OpCode::SEP || op == OpCode::WDM {
        true
    } else if op == OpCode::PEA || op == OpCode::PER {
        false
    } else if op.uses_x_spec() {
        w.status.x
    } else {
        w.status.m
    }
}

/// The operand of a line, as the listing shows it.
pub open spec fn operand_text(w: WrapperView) -> Seq<char> {
    let i = w.instruction;
    match i.mode {
        AddrMode::SourceDestination => " $"@ + hex(i.data_addr as int, 6) + ", $"@ + hex(
            match i.dest_addr {
                Some(d) => d as int,
                None => 0,
            },
            6,
        ),
        AddrMode::Accumulator | AddrMode::Implied => Seq::empty(),
        AddrMode::Immediate => if shows_byte(w) {
            " #$"@ + hex(w.data as int, 2)
        } else {
            " #$"@ + hex(w.data as int, 4)
        },
        _ => " $"@ + hex(i.data_addr as int, 6),
    }
}

/// One line of the listing: the address, the mnemonic, the operand and,
/// in brackets, the mode.
pub open spec fn wrapper_text(w: WrapperView) -> Seq<char> {
    let i = w.instruction;
    "$"@ + hex(i.inst_addr as int, 6) + ": "@ + i.opcode.name_spec() + operand_text(w) + " ("@
        + i.mode.name_spec() + ")"@
}

fn append_operand(text: &mut String, w: &InstructionWrapper)
    ensures
        final(text)@ == old(text)@ + operand_text(w@),
{
    let ghost before = text@;
    let op: OpCode = w.instruction.opcode;
    match w.instruction.mode {
        AddrMode::SourceDestination => {
            append(text, " $");
            append_hex6(text, w.instruction.data_addr);
            append(text, ", $");
            let dest: u32 = match w.instruction.dest_addr {
                Some(d) => d,
                None => 0,
            };
            append_hex6(text, dest);
        },
        AddrMode::Accumulator | AddrMode::Implied => {},
        AddrMode::Immediate => {
            let byte: bool = if matches!(op, OpCode::REP | OpCode::SEP | OpCode::WDM) {
                true
            } else if matches!(op, OpCode::PEA | OpCode::PER) {
                false
            } else if op.uses_x() {
                w.status.x
            } else {
                w.status.m
            };
            append(text, " #$");
            if byte {
                append_hex2(text, w.data as u32);
            } else {
                append_hex4(text, w.data as u32);
            }
        },
        _ => {
            append(text, " $");
            append_hex6(text, w.instruction.data_addr);
        },
    }
    assert(text@ =~= before + operand_text(w@));
}

fn append_wrapper(text: &mut String, w: &InstructionWrapper)
    ensures
        final(text)@ == old(text)@ + wrapper_text(w@),
{
    let ghost before = text@;
    append(text, "$");
    append_hex6(text, w.instruction.inst_addr);
    append(text, ": ");
    append(text, w.instruction.opcode.name());
    append_operand(text, w);
    append(text, " (");
    append(text, w.instruction.mode.name());
    append(text, ")");
    assert(text@ =~= before + wrapper_text(w@));
}

impl InstructionWrapper {
    /// The line as the listing shows it.
    pub fn to_string(&self) -> (s: String)
        ensures
            s@ == wrapper_text(self@),
    {
        let mut text: String = String::new();
        append_wrapper(&mut text, self);
        assert(text@ =~= wrapper_text(self@));
        text
    }
}

/// A decoded instruction together with the console it was decoded on, for
/// printing: the immediate operand is read from that console.
pub struct InstructionContextWrapper<'a> {
    pub context: &'a InstructionContext,
    pub snes: &'a Console,
}

impl InstructionContext {
    /// The instruction together with the console it was decoded on.
    pub fn with_source<'a>(&'a self, snes: &'a Console) -> (r: InstructionContextWrapper<'a>)
        ensures
            *r.context == *self,
            *r.snes == *snes,
    {
        InstructionContextWrapper { context: self, snes: snes }
    }
}

/// Whether the immediate operand of an instruction is one byte on a
/// machine in this state.
pub open spec fn immediate_is_byte(m: Machine, i: InstructionContext) -> bool {
    let op = i.opcode;
    if op == OpCode::REP || op == OpCode::SEP || op == OpCode::WDM {
        true
    } else if op == OpCode::PEA || op == OpCode::PER {
        false
    } else if op.uses_x_spec() {
        m.cpu.P.x
    } else {
        m.cpu.P.m
    }
}

/// An instruction as the trace shows it: the address, the mnemonic and
/// the operand. An immediate operand that cannot be read shows as `??`.
pub open spec fn context_text(m: Machine, i: InstructionContext) -> Seq<char> {
    let head = "$"@ + hex(i.inst_addr as int, 6) + ": "@ + i.opcode.name_spec();
    match i.mode {
        AddrMode::SourceDestination => head + " $"@ + hex(i.data_addr as int, 6) + ", $"@ + hex(
            match i.dest_addr {
                Some(d) => d as int,
                None => 0,
            },
            6,
        ),
        AddrMode::Accumulator | AddrMode::Implied => head,
        AddrMode::Immediate => match load_operand(m, i.data_addr, immediate_is_byte(m, i)) {
            Ok(v) => if immediate_is_byte(m, i) {
                head + " #$"@ + hex(v as int, 2)
            } else {
                head + " #$"@ + hex(v as int, 4)
            },
            Err(e) => head + " #$??"@,
        },
        _ => head + " $"@ + hex(i.data_addr as int, 6),
    }
}

impl<'a> InstructionContextWrapper<'a> {
    /// The instruction as the trace shows it.
    pub fn to_string(&self) -> (s: String)
        ensures
            s@ == context_text(self.snes@, *self.context),
    {
        let i: &InstructionContext = self.context;
        let op: OpCode = i.opcode;
        let mut text: String = String::new();
        append(&mut text, "$");
        append_hex6(&mut text, i.inst_addr);
        append(&mut text, ": ");
        append(&mut text, op.name());
        match i.mode {
            AddrMode::SourceDestination => {
                append(&mut text, " $");
                append_hex6(&mut text, i.data_addr);
                append(&mut text, ", $");
                let dest: u32 = match i.dest_addr {
                    Some(d) => d,
                    None => 0,
                };
                append_hex6(&mut text, dest);
            },
            AddrMode::Accumulator | AddrMode::Implied => {},
            AddrMode::Immediate => {
                let byte: bool = if matches!(op, OpCode::REP | OpCode::SEP | OpCode::WDM) {
                    true
                } else if matches!(op, OpCode::PEA | OpCode::PER) {
                    false
                } else if op.uses_x() {
                    self.snes.cpu.P.x
                } else {
                    self.snes.cpu.P.m
                };
                if byte {
                    match peek_byte(self.snes, i.data_addr) {
                        Ok(v) => {
                            append(&mut text, " #$");
                            append_hex2(&mut text, v as u32);
                        },
                        Err(e) => {
                            append(&mut text, " #$??");
                        },
                    }
                } else {
                    match peek_word(self.snes, i.data_addr) {
                        Ok(v) => {
                            append(&mut text, " #$");
                            append_hex4(&mut text, v as u32);
                        },
                        Err(e) => {
                            append(&mut text, " #$??");
                        },
                    }
                }
            },
            _ => {
                append(&mut text, " $");
                append_hex6(&mut text, i.data_addr);
            },
        }
        assert(text@ =~= context_text(self.snes@, *self.context));
        text
    }
}

// ---------------------------------------------------------------------
// Errors
// ---------------------------------------------------------------------
/// What an unemulated part of the processor is called.
pub open spec fn feature_text(f: Feature) -> Seq<char> {
    match f {
        Feature::Decimal => "decimal"@,
        Feature::BlockMove => "block move"@,
        Feature::Wait => "wait for interrupt"@,
        Feature::Stop => "stop"@,
    }
}

/// Why a header was not accepted, in words.
pub open spec fn fault_text(f: HeaderFault) -> Seq<char> {
    match f {
        HeaderFault::NotPowerOfTwo => "the image is not a power of two in size"@,
        HeaderFault::NoChecksum => "no header holds the checksum of the image"@,
        HeaderFault::BadTitle => "the title is not valid UTF-8"@,
        HeaderFault::UnknownHardware(b) => "unknown hardware $"@ + hex(b as int, 2),
        HeaderFault::UnknownCoprocessor(b) => "unknown coprocessor $"@ + hex(b as int, 2),
        HeaderFault::UnknownRegion(b) => "unknown region $"@ + hex(b as int, 2),
        HeaderFault::SizeTooLarge(b) => "size exponent too large: $"@ + hex(b as int, 2),
        HeaderFault::BadCode => "the maker or game code is not valid UTF-8"@,
        HeaderFault::UnknownChipset(b) => "unknown chipset subtype $"@ + hex(b as int, 2),
    }
}

/// An error in words.
pub open spec fn error_text(e: EmuError) -> Seq<char> {
    match e {
        EmuError::BadAddress(a) => "bad address $"@ + hex(a as int, 6),
        EmuError::OutOfRomBounds { offset, rom_size } => "ROM offset $"@ + hex(
            offset as int % 0x1000000,
            6,
        ) + " lies outside the image of $"@ + hex(rom_size as int % 0x1000000, 6) + " bytes"@,
        EmuError::WriteToReadOnly(a) => "write to ROM at $"@ + hex(a as int, 6),
        EmuError::UnknownRegister(a) => "unknown register at $"@ + hex(a as int, 6),
        EmuError::UnknownOpcode(b) => "unknown opcode $"@ + hex(b as int, 2),
        EmuError::Unimplemented(f) => "unimplemented: "@ + feature_text(f),
        EmuError::HeaderInvalid(f) => "invalid header: "@ + fault_text(f),
    }
}

fn append_fault(text: &mut String, f: &HeaderFault)
    ensures
        final(text)@ == old(text)@ + fault_text(*f),
{
    let ghost before = text@;
    match f {
        HeaderFault::NotPowerOfTwo => {
            append(text, "the image is not a power of two in size");
        },
        HeaderFault::NoChecksum => {
            append(text, "no header holds the checksum of the image");
        },
        HeaderFault::BadTitle => {
            append(text, "the title is not valid UTF-8");
        },
        HeaderFault::UnknownHardware(b) => {
            append(text, "unknown hardware $");
            append_hex2(text, *b as u32);
        },
        HeaderFault::UnknownCoprocessor(b) => {
            append(text, "unknown coprocessor $");
            append_hex2(text, *b as u32);
        },
        HeaderFault::UnknownRegion(b) => {
            append(text, "unknown region $");
            append_hex2(text, *b as u32);
        },
        HeaderFault::SizeTooLarge(b) => {
            append(text, "size exponent too large: $");
            append_hex2(text, *b as u32);
        },
        HeaderFault::BadCode => {
            append(text, "the maker or game code is not valid UTF-8");
        },
        HeaderFault::UnknownChipset(b) => {
            append(text, "unknown chipset subtype $");
            append_hex2(text, *b as u32);
        },
    }
    assert(text@ =~= before + fault_text(*f));
}

fn append_size(text: &mut String, v: usize)
    ensures
        final(text)@ == old(text)@ + hex(v as int % 0x1000000, 6),
{
    append_hex6(text, (v % 0x1000000) as u32);
}

fn append_error(text: &mut String, e: &EmuError)
    ensures
        final(text)@ == old(text)@ + error_text(*e),
{
    let ghost before = text@;
    match e {
        EmuError::BadAddress(a) => {
            append(text, "bad address $");
            append_hex6(text, *a);
        },
        EmuError::OutOfRomBounds { offset, rom_size } => {
            append(text, "ROM offset $");
            append_size(text, *offset);
            append(text, " lies outside the image of $");
            append_size(text, *rom_size);
            append(text, " bytes");
        },
        EmuError::WriteToReadOnly(a) => {
            append(text, "write to ROM at $");
            append_hex6(text, *a);
        },
        EmuError::UnknownRegister(a) => {
            append(text, "unknown register at $");
            append_hex6(text, *a);
        },
        EmuError::UnknownOpcode(b) => {
            append(text, "unknown opcode $");
            append_hex2(text, *b as u32);
        },
        EmuError::Unimplemented(f) => {
            append(text, "unimplemented: ");
            match f {
                Feature::Decimal => {
                    append(text, "decimal");
                },
                Feature::BlockMove => {
                    append(text, "block move");
                },
                Feature::Wait => {
                    append(text, "wait for interrupt");
                },
                Feature::Stop => {
                    append(text, "stop");
                },
            }
        },
        EmuError::HeaderInvalid(f) => {
            append(text, "invalid header: ");
            append_fault(text, f);
        },
    }
    assert(text@ =~= before + error_text(*e));
}

impl EmuError {
    /// The error in words.
    pub fn to_string(&self) -> (s: String)
        ensures
            s@ == error_text(*self),
    {
        let mut text: String = String::new();
        append_error(&mut text, self);
        assert(text@ =~= error_text(*self));
        text
    }
}

/// The first `upto` lines of a stalled walk, one to a line, the last of
/// all marked as the one that failed.
pub open spec fn stalled_lines_text(lines: Seq<WrapperView>, upto: int) -> Seq<char>
    decreases upto,
{
    if upto <= 0 {
        Seq::empty()
    } else if upto == lines.len() {
        stalled_lines_text(lines, upto - 1) + "=> "@ + wrapper_text(lines[upto - 1]) + " <=\n"@
    } else {
        stalled_lines_text(lines, upto - 1) + wrapper_text(lines[upto - 1]) + "\n"@
    }
}

/// A stalled walk in words: its lines, then the error.
pub open spec fn stalled_text(e: DisassemblyErrorView) -> Seq<char> {
    stalled_lines_text(e.instructions, e.instructions.len() as int) + "error: "@ + error_text(
        e.source,
    )
}

impl DisassemblyError {
    /// The lines of the walk, the last marked, and the error behind them.
    pub fn to_string(&self) -> (s: String)
        ensures
            s@ == stalled_text(self@),
    {
        let mut text: String = String::new();
        let n: usize = self.instructions.len();
        let ghost lines = wrapper_views(self.instructions@);
        let mut k: usize = 0;
        assert(text@ =~= stalled_lines_text(lines, 0));
        while k < n
            invariant
                n == self.instructions.len(),
                lines == wrapper_views(self.instructions@),
                k <= n,
                text@ == stalled_lines_text(lines, k as int),
            decreases n - k,
        {
            let ghost before = text@;
            if k + 1 == n {
                append(&mut text, "=> ");
                append_wrapper(&mut text, &self.instructions[k]);
                append(&mut text, " <=\n");
            } else {
                append_wrapper(&mut text, &self.instructions[k]);
                append(&mut text, "\n");
            }
            k = k + 1;
            assert(text@ =~= stalled_lines_text(lines, k as int));
        }
        append(&mut text, "error: ");
        append_error(&mut text, &self.source);
        assert(text@ =~= stalled_text(self@));
        text
    }
}

/// Why the disassembler gave no listing, in words.
pub open spec fn failure_text(e: DisassemblerError) -> Seq<char> {
    match e {
        DisassemblerError::DisassemblyError(stalled) => stalled_text(stalled@),
        DisassemblerError::Other(error) => error_text(error),
    }
}

impl DisassemblerError {
    /// The failure in words.
    pub fn to_string(&self) -> (s: String)
        ensures
            s@ == failure_text(*self),
    {
        match self {
            DisassemblerError::DisassemblyError(stalled) => stalled.to_string(),
            DisassemblerError::Other(error) => error.to_string(),
        }
    }
}

} // verus!
