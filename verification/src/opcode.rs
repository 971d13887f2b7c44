//! The instruction set: the operations, the addressing modes, and the two
//! tables that decode an opcode byte.

use vstd::prelude::*;
use crate::cpu::bit_value;
use crate::error::EmuError;

verus! {

/// The operations of the 65C816.
#[derive(Clone, Copy, Debug, PartialEq, Eq, Structural)]
pub enum OpCode {
    ADC,
    AND,
    ASL,
    BCC,
    BCS,
    BEQ,
    BIT,
    BMI,
    BNE,
    BPL,
    BRA,
    BRK,
    BRL,
    BVC,
    BVS,
    CLC,
    CLD,
    CLI,
    CLV,
    CMP,
    CPX,
    CPY,
    COP,
    DEC,
    DEX,
    DEY,
    EOR,
    INC,
    INX,
    INY,
    JMP,
    JML,
    JSR,
    JSL,
    LDA,
    LDX,
    LDY,
    LSR,
    MVN,
    MVP,
    NOP,
    ORA,
    PEA,
    PEI,
    PER,
    PHA,
    PHB,
    PHD,
    PHK,
    PHP,
    PHX,
    PHY,
    PLA,
    PLB,
    PLD,
    PLP,
    PLX,
    PLY,
    REP,
    ROL,
    ROR,
    RTI,
    RTS,
    RTL,
    SBC,
    SEC,
    SED,
    SEI,
    SEP,
    STA,
    STX,
    STY,
    STP,
    STZ,
    TAX,
    TAY,
    TCD,
    TCS,
    TDC,
    TSC,
    TSX,
    TXA,
    TXS,
    TXY,
    TYA,
    TYX,
    TRB,
    TSB,
    WAI,
    WDM,
    XBA,
    XCE,
}

impl Default for OpCode {
    fn default() -> (r: OpCode)
        ensures
            r == OpCode::NOP,
    {
        OpCode::NOP
    }
}

impl OpCode {
    /// The short relative branches.
    pub open spec fn is_branch_spec(&self) -> bool {
        matches!(self, OpCode::BRA | OpCode::BCC | OpCode::BCS | OpCode::BEQ | OpCode::BMI | OpCode::BNE | OpCode::BPL | OpCode::BVC | OpCode::BVS)
    }

    #[verifier::when_used_as_spec(is_branch_spec)]
    pub fn is_branch(&self) -> (r: bool)
        ensures
            r == self.is_branch_spec(),
    {
        matches!(self, OpCode::BRA | OpCode::BCC | OpCode::BCS | OpCode::BEQ | OpCode::BMI | OpCode::BNE | OpCode::BPL | OpCode::BVC | OpCode::BVS)
    }

    /// The jumps, with and without a return address.
    pub open spec fn is_jump_spec(&self) -> bool {
        matches!(self, OpCode::JMP | OpCode::JSR | OpCode::JML | OpCode::JSL)
    }

    #[verifier::when_used_as_spec(is_jump_spec)]
    pub fn is_jump(&self) -> (r: bool)
        ensures
            r == self.is_jump_spec(),
    {
        matches!(self, OpCode::JMP | OpCode::JSR | OpCode::JML | OpCode::JSL)
    }

    /// The software interrupts.
    pub open spec fn is_interrupt_spec(&self) -> bool {
        matches!(self, OpCode::BRK | OpCode::COP)
    }

    #[verifier::when_used_as_spec(is_interrupt_spec)]
    pub fn is_interrupt(&self) -> (r: bool)
        ensures
            r == self.is_interrupt_spec(),
    {
        matches!(self, OpCode::BRK | OpCode::COP)
    }

    /// The calls: the jumps that push a return address.
    pub open spec fn is_subroutine_spec(&self) -> bool {
        matches!(self, OpCode::JSR | OpCode::JSL)
    }

    #[verifier::when_used_as_spec(is_subroutine_spec)]
    pub fn is_subroutine(&self) -> (r: bool)
        ensures
            r == self.is_subroutine_spec(),
    {
        matches!(self, OpCode::JSR | OpCode::JSL)
    }

    /// The returns.
    pub open spec fn is_return_spec(&self) -> bool {
        matches!(self, OpCode::RTS | OpCode::RTI | OpCode::RTL)
    }

    #[verifier::when_used_as_spec(is_return_spec)]
    pub fn is_return(&self) -> (r: bool)
        ensures
            r == self.is_return_spec(),
    {
        matches!(self, OpCode::RTS | OpCode::RTI | OpCode::RTL)
    }

    /// The operations that the 6502 already had.
    pub open spec fn is_old_spec(&self) -> bool {
        matches!(self, OpCode::LDA | OpCode::LDX | OpCode::LDY | OpCode::STA | OpCode::STX | OpCode::STY | OpCode::STZ | OpCode::PHA | OpCode::PHX | OpCode::PHY | OpCode::PHP | OpCode::PLA | OpCode::PLX | OpCode::PLY | OpCode::PLP | OpCode::TSX | OpCode::TXS | OpCode::INX | OpCode::INY | OpCode::DEX | OpCode::DEY | OpCode::INC | OpCode::DEC | OpCode::ASL | OpCode::LSR | OpCode::ROL | OpCode::ROR | OpCode::AND | OpCode::ORA | OpCode::EOR | OpCode::BIT | OpCode::CMP | OpCode::CPX | OpCode::CPY | OpCode::TRB | OpCode::TSB | OpCode::ADC | OpCode::SBC | OpCode::JMP | OpCode::JSR | OpCode::RTS | OpCode::RTI | OpCode::BRA | OpCode::BEQ | OpCode::BNE | OpCode::BCC | OpCode::BCS | OpCode::BVC | OpCode::BVS | OpCode::BMI | OpCode::BPL | OpCode::CLC | OpCode::CLD | OpCode::CLI | OpCode::CLV | OpCode::SEC | OpCode::SED | OpCode::SEI | OpCode::TAX | OpCode::TAY | OpCode::TXA | OpCode::TYA | OpCode::NOP | OpCode::BRK | OpCode::PEI)
    }

    #[verifier::when_used_as_spec(is_old_spec)]
    pub fn is_old(&self) -> (r: bool)
        ensures
            r == self.is_old_spec(),
    {
        matches!(self, OpCode::LDA | OpCode::LDX | OpCode::LDY | OpCode::STA | OpCode::STX | OpCode::STY | OpCode::STZ | OpCode::PHA | OpCode::PHX | OpCode::PHY | OpCode::PHP | OpCode::PLA | OpCode::PLX | OpCode::PLY | OpCode::PLP | OpCode::TSX | OpCode::TXS | OpCode::INX | OpCode::INY | OpCode::DEX | OpCode::DEY | OpCode::INC | OpCode::DEC | OpCode::ASL | OpCode::LSR | OpCode::ROL | OpCode::ROR | OpCode::AND | OpCode::ORA | OpCode::EOR | OpCode::BIT | OpCode::CMP | OpCode::CPX | OpCode::CPY | OpCode::TRB | OpCode::TSB | OpCode::ADC | OpCode::SBC | OpCode::JMP | OpCode::JSR | OpCode::RTS | OpCode::RTI | OpCode::BRA | OpCode::BEQ | OpCode::BNE | OpCode::BCC | OpCode::BCS | OpCode::BVC | OpCode::BVS | OpCode::BMI | OpCode::BPL | OpCode::CLC | OpCode::CLD | OpCode::CLI | OpCode::CLV | OpCode::SEC | OpCode::SED | OpCode::SEI | OpCode::TAX | OpCode::TAY | OpCode::TXA | OpCode::TYA | OpCode::NOP | OpCode::BRK | OpCode::PEI)
    }

    /// The operations that may change the index width.
    pub open spec fn changes_x_spec(&self) -> bool {
        matches!(self, OpCode::PLP | OpCode::RTI | OpCode::REP | OpCode::SEP)
    }

    #[verifier::when_used_as_spec(changes_x_spec)]
    pub fn changes_x(&self) -> (r: bool)
        ensures
            r == self.changes_x_spec(),
    {
        matches!(self, OpCode::PLP | OpCode::RTI | OpCode::REP | OpCode::SEP)
    }

    /// The operations that may change the accumulator width.
    pub open spec fn changes_m_spec(&self) -> bool {
        matches!(self, OpCode::PLP | OpCode::RTI | OpCode::REP | OpCode::SEP)
    }

    #[verifier::when_used_as_spec(changes_m_spec)]
    pub fn changes_m(&self) -> (r: bool)
        ensures
            r == self.changes_m_spec(),
    {
        matches!(self, OpCode::PLP | OpCode::RTI | OpCode::REP | OpCode::SEP)
    }

    /// The operations whose width is the index width.
    pub open spec fn uses_x_spec(&self) -> bool {
        matches!(self, OpCode::CPX | OpCode::CPY | OpCode::DEX | OpCode::DEY | OpCode::INX | OpCode::INY | OpCode::LDX | OpCode::LDY | OpCode::STX | OpCode::STY | OpCode::PHX | OpCode::PHY | OpCode::PLX | OpCode::PLY | OpCode::TAX | OpCode::TAY | OpCode::TSX | OpCode::TXS | OpCode::TXY | OpCode::TYX)
    }

    #[verifier::when_used_as_spec(uses_x_spec)]
    pub fn uses_x(&self) -> (r: bool)
        ensures
            r == self.uses_x_spec(),
    {
        matches!(self, OpCode::CPX | OpCode::CPY | OpCode::DEX | OpCode::DEY | OpCode::INX | OpCode::INY | OpCode::LDX | OpCode::LDY | OpCode::STX | OpCode::STY | OpCode::PHX | OpCode::PHY | OpCode::PLX | OpCode::PLY | OpCode::TAX | OpCode::TAY | OpCode::TSX | OpCode::TXS | OpCode::TXY | OpCode::TYX)
    }

    /// The operations whose width is the accumulator width.
    pub open spec fn uses_m_spec(&self) -> bool {
        matches!(self, OpCode::ADC | OpCode::SBC | OpCode::AND | OpCode::EOR | OpCode::ORA | OpCode::ASL | OpCode::LSR | OpCode::ROL | OpCode::ROR | OpCode::BIT | OpCode::CMP | OpCode::DEC | OpCode::INC | OpCode::LDA | OpCode::STA | OpCode::STZ | OpCode::PHA | OpCode::PLA | OpCode::TRB | OpCode::TSB | OpCode::TXA | OpCode::TYA)
    }

    #[verifier::when_used_as_spec(uses_m_spec)]
    pub fn uses_m(&self) -> (r: bool)
        ensures
            r == self.uses_m_spec(),
    {
        matches!(self, OpCode::ADC | OpCode::SBC | OpCode::AND | OpCode::EOR | OpCode::ORA | OpCode::ASL | OpCode::LSR | OpCode::ROL | OpCode::ROR | OpCode::BIT | OpCode::CMP | OpCode::DEC | OpCode::INC | OpCode::LDA | OpCode::STA | OpCode::STZ | OpCode::PHA | OpCode::PLA | OpCode::TRB | OpCode::TSB | OpCode::TXA | OpCode::TYA)
    }

    /// The three letters of the mnemonic.
    pub open spec fn name_spec(self) -> Seq<char> {
        match self {
            OpCode::ADC => "ADC"@,
            OpCode::AND => "AND"@,
            OpCode::ASL => "ASL"@,
            OpCode::BCC => "BCC"@,
            OpCode::BCS => "BCS"@,
            OpCode::BEQ => "BEQ"@,
            OpCode::BIT => "BIT"@,
            OpCode::BMI => "BMI"@,
            OpCode::BNE => "BNE"@,
            OpCode::BPL => "BPL"@,
            OpCode::BRA => "BRA"@,
            OpCode::BRK => "BRK"@,
            OpCode::BRL => "BRL"@,
            OpCode::BVC => "BVC"@,
            OpCode::BVS => "BVS"@,
            OpCode::CLC => "CLC"@,
            OpCode::CLD => "CLD"@,
            OpCode::CLI => "CLI"@,
            OpCode::CLV => "CLV"@,
            OpCode::CMP => "CMP"@,
            OpCode::CPX => "CPX"@,
            OpCode::CPY => "CPY"@,
            OpCode::COP => "COP"@,
            OpCode::DEC => "DEC"@,
            OpCode::DEX => "DEX"@,
            OpCode::DEY => "DEY"@,
            OpCode::EOR => "EOR"@,
            OpCode::INC => "INC"@,
            OpCode::INX => "INX"@,
            OpCode::INY => "INY"@,
            OpCode::JMP => "JMP"@,
            OpCode::JML => "JML"@,
            OpCode::JSR => "JSR"@,
            OpCode::JSL => "JSL"@,
            OpCode::LDA => "LDA"@,
            OpCode::LDX => "LDX"@,
            OpCode::LDY => "LDY"@,
            OpCode::LSR => "LSR"@,
            OpCode::MVN => "MVN"@,
            OpCode::MVP => "MVP"@,
            OpCode::NOP => "NOP"@,
            OpCode::ORA => "ORA"@,
            OpCode::PEA => "PEA"@,
            OpCode::PEI => "PEI"@,
            OpCode::PER => "PER"@,
            OpCode::PHA => "PHA"@,
            OpCode::PHB => "PHB"@,
            OpCode::PHD => "PHD"@,
            OpCode::PHK => "PHK"@,
            OpCode::PHP => "PHP"@,
            OpCode::PHX => "PHX"@,
            OpCode::PHY => "PHY"@,
            OpCode::PLA => "PLA"@,
            OpCode::PLB => "PLB"@,
            OpCode::PLD => "PLD"@,
            OpCode::PLP => "PLP"@,
            OpCode::PLX => "PLX"@,
            OpCode::PLY => "PLY"@,
            OpCode::REP => "REP"@,
            OpCode::ROL => "ROL"@,
            OpCode::ROR => "ROR"@,
            OpCode::RTI => "RTI"@,
            OpCode::RTS => "RTS"@,
            OpCode::RTL => "RTL"@,
            OpCode::SBC => "SBC"@,
            OpCode::SEC => "SEC"@,
            OpCode::SED => "SED"@,
            OpCode::SEI => "SEI"@,
            OpCode::SEP => "SEP"@,
            OpCode::STA => "STA"@,
            OpCode::STX => "STX"@,
            OpCode::STY => "STY"@,
            OpCode::STP => "STP"@,
            OpCode::STZ => "STZ"@,
            OpCode::TAX => "TAX"@,
            OpCode::TAY => "TAY"@,
            OpCode::TCD => "TCD"@,
            OpCode::TCS => "TCS"@,
            OpCode::TDC => "TDC"@,
            OpCode::TSC => "TSC"@,
            OpCode::TSX => "TSX"@,
            OpCode::TXA => "TXA"@,
            OpCode::TXS => "TXS"@,
            OpCode::TXY => "TXY"@,
            OpCode::TYA => "TYA"@,
            OpCode::TYX => "TYX"@,
            OpCode::TRB => "TRB"@,
            OpCode::TSB => "TSB"@,
            OpCode::WAI => "WAI"@,
            OpCode::WDM => "WDM"@,
            OpCode::XBA => "XBA"@,
            OpCode::XCE => "XCE"@,
        }
    }

    /// The mnemonic, as the disassembler prints it.
    pub fn name(&self) -> (s: &'static str)
        ensures
            s@ == self.name_spec(),
    {
        match self {
            OpCode::ADC => "ADC",
            OpCode::AND => "AND",
            OpCode::ASL => "ASL",
            OpCode::BCC => "BCC",
            OpCode::BCS => "BCS",
            OpCode::BEQ => "BEQ",
            OpCode::BIT => "BIT",
            OpCode::BMI => "BMI",
            OpCode::BNE => "BNE",
            OpCode::BPL => "BPL",
            OpCode::BRA => "BRA",
            OpCode::BRK => "BRK",
            OpCode::BRL => "BRL",
            OpCode::BVC => "BVC",
            OpCode::BVS => "BVS",
            OpCode::CLC => "CLC",
            OpCode::CLD => "CLD",
            OpCode::CLI => "CLI",
            OpCode::CLV => "CLV",
            OpCode::CMP => "CMP",
            OpCode::CPX => "CPX",
            OpCode::CPY => "CPY",
            OpCode::COP => "COP",
            OpCode::DEC => "DEC",
            OpCode::DEX => "DEX",
            OpCode::DEY => "DEY",
            OpCode::EOR => "EOR",
            OpCode::INC => "INC",
            OpCode::INX => "INX",
            OpCode::INY => "INY",
            OpCode::JMP => "JMP",
            OpCode::JML => "JML",
            OpCode::JSR => "JSR",
            OpCode::JSL => "JSL",
            OpCode::LDA => "LDA",
            OpCode::LDX => "LDX",
            OpCode::LDY => "LDY",
            OpCode::LSR => "LSR",
            OpCode::MVN => "MVN",
            OpCode::MVP => "MVP",
            OpCode::NOP => "NOP",
            OpCode::ORA => "ORA",
            OpCode::PEA => "PEA",
            OpCode::PEI => "PEI",
            OpCode::PER => "PER",
            OpCode::PHA => "PHA",
            OpCode::PHB => "PHB",
            OpCode::PHD => "PHD",
            OpCode::PHK => "PHK",
            OpCode::PHP => "PHP",
            OpCode::PHX => "PHX",
            OpCode::PHY => "PHY",
            OpCode::PLA => "PLA",
            OpCode::PLB => "PLB",
            OpCode::PLD => "PLD",
            OpCode::PLP => "PLP",
            OpCode::PLX => "PLX",
            OpCode::PLY => "PLY",
            OpCode::REP => "REP",
            OpCode::ROL => "ROL",
            OpCode::ROR => "ROR",
            OpCode::RTI => "RTI",
            OpCode::RTS => "RTS",
            OpCode::RTL => "RTL",
            OpCode::SBC => "SBC",
            OpCode::SEC => "SEC",
            OpCode::SED => "SED",
            OpCode::SEI => "SEI",
            OpCode::SEP => "SEP",
            OpCode::STA => "STA",
            OpCode::STX => "STX",
            OpCode::STY => "STY",
            OpCode::STP => "STP",
            OpCode::STZ => "STZ",
            OpCode::TAX => "TAX",
            OpCode::TAY => "TAY",
            OpCode::TCD => "TCD",
            OpCode::TCS => "TCS",
            OpCode::TDC => "TDC",
            OpCode::TSC => "TSC",
            OpCode::TSX => "TSX",
            OpCode::TXA => "TXA",
            OpCode::TXS => "TXS",
            OpCode::TXY => "TXY",
            OpCode::TYA => "TYA",
            OpCode::TYX => "TYX",
            OpCode::TRB => "TRB",
            OpCode::TSB => "TSB",
            OpCode::WAI => "WAI",
            OpCode::WDM => "WDM",
            OpCode::XBA => "XBA",
            OpCode::XCE => "XCE",
        }
    }
}

/// The operation that an opcode byte encodes.
pub open spec fn mnemonic(opcode: u8) -> OpCode {
    match opcode {
        0x61 | 0x63 | 0x65 | 0x67 | 0x69 | 0x6D | 0x6F | 0x71 | 0x72 | 0x73 | 0x75 | 0x77 | 0x79 | 0x7D | 0x7F => OpCode::ADC,
        0x21 | 0x23 | 0x25 | 0x27 | 0x29 | 0x2D | 0x2F | 0x31 | 0x32 | 0x33 | 0x35 | 0x37 | 0x39 | 0x3D | 0x3F => OpCode::AND,
        0x06 | 0x0A | 0x0E | 0x16 | 0x1E => OpCode::ASL,
        0x90 => OpCode::BCC,
        0xB0 => OpCode::BCS,
        0xF0 => OpCode::BEQ,
        0x24 | 0x2C | 0x34 | 0x3C | 0x89 => OpCode::BIT,
        0x30 => OpCode::BMI,
        0xD0 => OpCode::BNE,
        0x10 => OpCode::BPL,
        0x80 => OpCode::BRA,
        0x00 => OpCode::BRK,
        0x82 => OpCode::BRL,
        0x50 => OpCode::BVC,
        0x70 => OpCode::BVS,
        0x18 => OpCode::CLC,
        0xD8 => OpCode::CLD,
        0x58 => OpCode::CLI,
        0xB8 => OpCode::CLV,
        0xC1 | 0xC3 | 0xC5 | 0xC7 | 0xC9 | 0xCD | 0xCF | 0xD1 | 0xD2 | 0xD3 | 0xD5 | 0xD7 | 0xD9 | 0xDD | 0xDF => OpCode::CMP,
        0xE0 | 0xE4 | 0xEC => OpCode::CPX,
        0xC0 | 0xC4 | 0xCC => OpCode::CPY,
        0x02 => OpCode::COP,
        0x3A | 0xC6 | 0xCE | 0xD6 | 0xDE => OpCode::DEC,
        0xCA => OpCode::DEX,
        0x88 => OpCode::DEY,
        0x41 | 0x43 | 0x45 | 0x47 | 0x49 | 0x4D | 0x4F | 0x51 | 0x52 | 0x53 | 0x55 | 0x57 | 0x59 | 0x5D | 0x5F => OpCode::EOR,
        0x1A | 0xE6 | 0xEE | 0xF6 | 0xFE => OpCode::INC,
        0xE8 => OpCode::INX,
        0xC8 => OpCode::INY,
        0x4C | 0x5C | 0x6C | 0x7C => OpCode::JMP,
        0xDC => OpCode::JML,
        0x20 | 0xFC => OpCode::JSR,
        0x22 => OpCode::JSL,
        0xA1 | 0xA3 | 0xA5 | 0xA7 | 0xA9 | 0xAD | 0xAF | 0xB1 | 0xB2 | 0xB3 | 0xB5 | 0xB7 | 0xB9 | 0xBD | 0xBF => OpCode::LDA,
        0xA2 | 0xA6 | 0xAE | 0xB6 | 0xBE => OpCode::LDX,
        0xA0 | 0xA4 | 0xAC | 0xB4 | 0xBC => OpCode::LDY,
        0x46 | 0x4A | 0x4E | 0x56 | 0x5E => OpCode::LSR,
        0x54 => OpCode::MVN,
        0x44 => OpCode::MVP,
        0xEA => OpCode::NOP,
        0x01 | 0x03 | 0x05 | 0x07 | 0x09 | 0x0D | 0x0F | 0x11 | 0x12 | 0x13 | 0x15 | 0x17 | 0x19 | 0x1D | 0x1F => OpCode::ORA,
        0xF4 => OpCode::PEA,
        0xD4 => OpCode::PEI,
        0x62 => OpCode::PER,
        0x48 => OpCode::PHA,
        0x8B => OpCode::PHB,
        0x0B => OpCode::PHD,
        0x4B => OpCode::PHK,
        0x08 => OpCode::PHP,
        0xDA => OpCode::PHX,
        0x5A => OpCode::PHY,
        0x68 => OpCode::PLA,
        0xAB => OpCode::PLB,
        0x2B => OpCode::PLD,
        0x28 => OpCode::PLP,
        0xFA => OpCode::PLX,
        0x7A => OpCode::PLY,
        0xC2 => OpCode::REP,
        0x26 | 0x2A | 0x2E | 0x36 | 0x3E => OpCode::ROL,
        0x66 | 0x6A | 0x6E | 0x76 | 0x7E => OpCode::ROR,
        0x40 => OpCode::RTI,
        0x60 => OpCode::RTS,
        0x6B => OpCode::RTL,
        0xE1 | 0xE3 | 0xE5 | 0xE7 | 0xE9 | 0xED | 0xEF | 0xF1 | 0xF2 | 0xF3 | 0xF5 | 0xF7 | 0xF9 | 0xFD | 0xFF => OpCode::SBC,
        0x38 => OpCode::SEC,
        0xF8 => OpCode::SED,
        0x78 => OpCode::SEI,
        0xE2 => OpCode::SEP,
        0x81 | 0x83 | 0x85 | 0x87 | 0x8D | 0x8F | 0x91 | 0x92 | 0x93 | 0x95 | 0x97 | 0x99 | 0x9D | 0x9F => OpCode::STA,
        0x86 | 0x8E | 0x96 => OpCode::STX,
        0x84 | 0x8C | 0x94 => OpCode::STY,
        0xDB => OpCode::STP,
        0x64 | 0x74 | 0x9C | 0x9E => OpCode::STZ,
        0xAA => OpCode::TAX,
        0xA8 => OpCode::TAY,
        0x5B => OpCode::TCD,
        0x1B => OpCode::TCS,
        0x7B => OpCode::TDC,
        0x3B => OpCode::TSC,
        0xBA => OpCode::TSX,
        0x8A => OpCode::TXA,
        0x9A => OpCode::TXS,
        0x9B => OpCode::TXY,
        0x98 => OpCode::TYA,
        0xBB => OpCode::TYX,
        0x14 | 0x1C => OpCode::TRB,
        0x04 | 0x0C => OpCode::TSB,
        0xCB => OpCode::WAI,
        0x42 => OpCode::WDM,
        0xEB => OpCode::XBA,
        0xFB => OpCode::XCE,
    }
}

/// The first table of the decoder: every byte encodes an operation.
pub fn decode_opcode(opcode: u8) -> (op: OpCode)
    ensures
        op == mnemonic(opcode),
{
    match opcode {
        0x61 | 0x63 | 0x65 | 0x67 | 0x69 | 0x6D | 0x6F | 0x71 | 0x72 | 0x73 | 0x75 | 0x77 | 0x79 | 0x7D | 0x7F => OpCode::ADC,
        0x21 | 0x23 | 0x25 | 0x27 | 0x29 | 0x2D | 0x2F | 0x31 | 0x32 | 0x33 | 0x35 | 0x37 | 0x39 | 0x3D | 0x3F => OpCode::AND,
        0x06 | 0x0A | 0x0E | 0x16 | 0x1E => OpCode::ASL,
        0x90 => OpCode::BCC,
        0xB0 => OpCode::BCS,
        0xF0 => OpCode::BEQ,
        0x24 | 0x2C | 0x34 | 0x3C | 0x89 => OpCode::BIT,
        0x30 => OpCode::BMI,
        0xD0 => OpCode::BNE,
        0x10 => OpCode::BPL,
        0x80 => OpCode::BRA,
        0x00 => OpCode::BRK,
        0x82 => OpCode::BRL,
        0x50 => OpCode::BVC,
        0x70 => OpCode::BVS,
        0x18 => OpCode::CLC,
        0xD8 => OpCode::CLD,
        0x58 => OpCode::CLI,
        0xB8 => OpCode::CLV,
        0xC1 | 0xC3 | 0xC5 | 0xC7 | 0xC9 | 0xCD | 0xCF | 0xD1 | 0xD2 | 0xD3 | 0xD5 | 0xD7 | 0xD9 | 0xDD | 0xDF => OpCode::CMP,
        0xE0 | 0xE4 | 0xEC => OpCode::CPX,
        0xC0 | 0xC4 | 0xCC => OpCode::CPY,
        0x02 => OpCode::COP,
        0x3A | 0xC6 | 0xCE | 0xD6 | 0xDE => OpCode::DEC,
        0xCA => OpCode::DEX,
        0x88 => OpCode::DEY,
        0x41 | 0x43 | 0x45 | 0x47 | 0x49 | 0x4D | 0x4F | 0x51 | 0x52 | 0x53 | 0x55 | 0x57 | 0x59 | 0x5D | 0x5F => OpCode::EOR,
        0x1A | 0xE6 | 0xEE | 0xF6 | 0xFE => OpCode::INC,
        0xE8 => OpCode::INX,
        0xC8 => OpCode::INY,
        0x4C | 0x5C | 0x6C | 0x7C => OpCode::JMP,
        0xDC => OpCode::JML,
        0x20 | 0xFC => OpCode::JSR,
        0x22 => OpCode::JSL,
        0xA1 | 0xA3 | 0xA5 | 0xA7 | 0xA9 | 0xAD | 0xAF | 0xB1 | 0xB2 | 0xB3 | 0xB5 | 0xB7 | 0xB9 | 0xBD | 0xBF => OpCode::LDA,
        0xA2 | 0xA6 | 0xAE | 0xB6 | 0xBE => OpCode::LDX,
        0xA0 | 0xA4 | 0xAC | 0xB4 | 0xBC => OpCode::LDY,
        0x46 | 0x4A | 0x4E | 0x56 | 0x5E => OpCode::LSR,
        0x54 => OpCode::MVN,
        0x44 => OpCode::MVP,
        0xEA => OpCode::NOP,
        0x01 | 0x03 | 0x05 | 0x07 | 0x09 | 0x0D | 0x0F | 0x11 | 0x12 | 0x13 | 0x15 | 0x17 | 0x19 | 0x1D | 0x1F => OpCode::ORA,
        0xF4 => OpCode::PEA,
        0xD4 => OpCode::PEI,
        0x62 => OpCode::PER,
        0x48 => OpCode::PHA,
        0x8B => OpCode::PHB,
        0x0B => OpCode::PHD,
        0x4B => OpCode::PHK,
        0x08 => OpCode::PHP,
        0xDA => OpCode::PHX,
        0x5A => OpCode::PHY,
        0x68 => OpCode::PLA,
        0xAB => OpCode::PLB,
        0x2B => OpCode::PLD,
        0x28 => OpCode::PLP,
        0xFA => OpCode::PLX,
        0x7A => OpCode::PLY,
        0xC2 => OpCode::REP,
        0x26 | 0x2A | 0x2E | 0x36 | 0x3E => OpCode::ROL,
        0x66 | 0x6A | 0x6E | 0x76 | 0x7E => OpCode::ROR,
        0x40 => OpCode::RTI,
        0x60 => OpCode::RTS,
        0x6B => OpCode::RTL,
        0xE1 | 0xE3 | 0xE5 | 0xE7 | 0xE9 | 0xED | 0xEF | 0xF1 | 0xF2 | 0xF3 | 0xF5 | 0xF7 | 0xF9 | 0xFD | 0xFF => OpCode::SBC,
        0x38 => OpCode::SEC,
        0xF8 => OpCode::SED,
        0x78 => OpCode::SEI,
        0xE2 => OpCode::SEP,
        0x81 | 0x83 | 0x85 | 0x87 | 0x8D | 0x8F | 0x91 | 0x92 | 0x93 | 0x95 | 0x97 | 0x99 | 0x9D | 0x9F => OpCode::STA,
        0x86 | 0x8E | 0x96 => OpCode::STX,
        0x84 | 0x8C | 0x94 => OpCode::STY,
        0xDB => OpCode::STP,
        0x64 | 0x74 | 0x9C | 0x9E => OpCode::STZ,
        0xAA => OpCode::TAX,
        0xA8 => OpCode::TAY,
        0x5B => OpCode::TCD,
        0x1B => OpCode::TCS,
        0x7B => OpCode::TDC,
        0x3B => OpCode::TSC,
        0xBA => OpCode::TSX,
        0x8A => OpCode::TXA,
        0x9A => OpCode::TXS,
        0x9B => OpCode::TXY,
        0x98 => OpCode::TYA,
        0xBB => OpCode::TYX,
        0x14 | 0x1C => OpCode::TRB,
        0x04 | 0x0C => OpCode::TSB,
        0xCB => OpCode::WAI,
        0x42 => OpCode::WDM,
        0xEB => OpCode::XBA,
        0xFB => OpCode::XCE,
    }
}


/// The addressing modes.
#[derive(Clone, Copy, Debug, PartialEq, Eq, Structural)]
pub enum AddrMode {
    Absolute,
    AbsoluteWord,
    AbsoluteSWord,
    /// Absolute,X
    AbsoluteX,
    /// Absolute,Y
    AbsoluteY,
    /// (Absolute)
    AbsoluteIndirectWord,
    /// [Absolute]
    AbsoluteIndirectSWord,
    /// (Absolute,X)
    AbsoluteIndexedIndirect,
    Accumulator,
    Direct,
    /// Direct,X
    DirectX,
    /// Direct,Y
    DirectY,
    /// (Direct)
    DirectWord,
    /// [Direct]
    DirectSWord,
    /// (Direct,X)
    IndexedDirectWord,
    /// (Direct), Y
    DirectIndexedWord,
    /// [Direct], Y
    DirectIndexedSWord,
    Immediate,
    Implied,
    Long,
    /// Long,X
    LongX,
    RelativeByte,
    RelativeWord,
    SourceDestination,
    /// (Stack,S)
    Stack,
    /// (Stack,S),Y
    StackIndexed,
}

impl Default for AddrMode {
    fn default() -> (r: AddrMode)
        ensures
            r == AddrMode::Implied,
    {
        AddrMode::Implied
    }
}

impl AddrMode {
    /// How the disassembler names the mode.
    pub open spec fn name_spec(self) -> Seq<char> {
        match self {
            AddrMode::Absolute => "Absolute"@,
            AddrMode::AbsoluteWord => "(Absolute)"@,
            AddrMode::AbsoluteSWord => "[Absolute]"@,
            AddrMode::AbsoluteX => "Absolute, X"@,
            AddrMode::AbsoluteY => "Absolute, Y"@,
            AddrMode::AbsoluteIndirectWord => "(Absolute)"@,
            AddrMode::AbsoluteIndirectSWord => "[Absolute]"@,
            AddrMode::AbsoluteIndexedIndirect => "(Absolute, X)"@,
            AddrMode::Accumulator => "Accumulator"@,
            AddrMode::Direct => "Direct"@,
            AddrMode::DirectX => "Direct, X"@,
            AddrMode::DirectY => "Direct, Y"@,
            AddrMode::DirectWord => "(Direct)"@,
            AddrMode::DirectSWord => "[Direct]"@,
            AddrMode::IndexedDirectWord => "(Direct, X)"@,
            AddrMode::DirectIndexedWord => "(Direct), Y"@,
            AddrMode::DirectIndexedSWord => "[Direct], Y"@,
            AddrMode::Immediate => "Immediate"@,
            AddrMode::Implied => "Implied"@,
            AddrMode::Long => "Long"@,
            AddrMode::LongX => "Long, X"@,
            AddrMode::RelativeByte => "Relative8"@,
            AddrMode::RelativeWord => "Relative16"@,
            AddrMode::SourceDestination => "src, dst"@,
            AddrMode::Stack => "(Stack, S)"@,
            AddrMode::StackIndexed => "(Stack, S), Y"@,
        }
    }

    /// The name of the mode, as the disassembler prints it.
    pub fn name(&self) -> (s: &'static str)
        ensures
            s@ == self.name_spec(),
    {
        match self {
            AddrMode::Absolute => "Absolute",
            AddrMode::AbsoluteWord => "(Absolute)",
            AddrMode::AbsoluteSWord => "[Absolute]",
            AddrMode::AbsoluteX => "Absolute, X",
            AddrMode::AbsoluteY => "Absolute, Y",
            AddrMode::AbsoluteIndirectWord => "(Absolute)",
            AddrMode::AbsoluteIndirectSWord => "[Absolute]",
            AddrMode::AbsoluteIndexedIndirect => "(Absolute, X)",
            AddrMode::Accumulator => "Accumulator",
            AddrMode::Direct => "Direct",
            AddrMode::DirectX => "Direct, X",
            AddrMode::DirectY => "Direct, Y",
            AddrMode::DirectWord => "(Direct)",
            AddrMode::DirectSWord => "[Direct]",
            AddrMode::IndexedDirectWord => "(Direct, X)",
            AddrMode::DirectIndexedWord => "(Direct), Y",
            AddrMode::DirectIndexedSWord => "[Direct], Y",
            AddrMode::Immediate => "Immediate",
            AddrMode::Implied => "Implied",
            AddrMode::Long => "Long",
            AddrMode::LongX => "Long, X",
            AddrMode::RelativeByte => "Relative8",
            AddrMode::RelativeWord => "Relative16",
            AddrMode::SourceDestination => "src, dst",
            AddrMode::Stack => "(Stack, S)",
            AddrMode::StackIndexed => "(Stack, S), Y",
        }
    }
}

/// The mode of an opcode whose encoding follows no pattern; `None` for the
/// opcodes that the regular decode covers.
pub open spec fn irregular_mode(opcode: u8) -> Option<AddrMode> {
    match opcode {
        0x00 | 0x08 | 0x0B | 0x18 | 0x1B | 0x28 | 0x2B | 0x38 | 0x3B | 0x40 | 0x48 | 0x4B | 0x58
        | 0x5A | 0x5B | 0x60 | 0x68 | 0x6B | 0x78 | 0x7A | 0x7B | 0x88 | 0x8A | 0x8B | 0x98 | 0x9A
        | 0x9B | 0xA8 | 0xAA | 0xAB | 0xB8 | 0xBA | 0xBB | 0xC8 | 0xCA | 0xCB | 0xD8 | 0xDA | 0xDB
        | 0xE8 | 0xEA | 0xEB | 0xF8 | 0xFA | 0xFB => Some(AddrMode::Implied),
        0x0A | 0x1A | 0x2A | 0x3A | 0x4A | 0x6A => Some(AddrMode::Accumulator),
        0x14 | 0x64 | 0xD4 => Some(AddrMode::Direct),
        0x1C | 0x20 | 0x9C => Some(AddrMode::Absolute),
        0x22 | 0x5C => Some(AddrMode::Long),
        0x44 | 0x54 => Some(AddrMode::SourceDestination),
        0xDC => Some(AddrMode::AbsoluteIndirectSWord),
        0x6C => Some(AddrMode::AbsoluteIndirectWord),
        0x74 => Some(AddrMode::DirectX),
        0x7C | 0xFC => Some(AddrMode::AbsoluteIndexedIndirect),
        0x10 | 0x30 | 0x50 | 0x70 | 0x80 | 0x90 | 0xB0 | 0xD0 | 0xF0 => Some(
            AddrMode::RelativeByte,
        ),
        0x82 => Some(AddrMode::RelativeWord),
        0x02 | 0x42 | 0x62 | 0x89 | 0xC2 | 0xE2 | 0xF4 => Some(AddrMode::Immediate),
        0x9E => Some(AddrMode::AbsoluteX),
        _ => None,
    }
}

/// The regular decode: the mode that the low two bits `cc` and the middle
/// three bits `bbb` of an opcode select. `None` marks the cells that hold
/// irregular opcodes only.
pub open spec fn regular_mode(cc: int, bbb: int) -> Option<AddrMode> {
    if cc == 0 {
        if bbb == 0 {
            Some(AddrMode::Immediate)
        } else if bbb == 1 {
            Some(AddrMode::Direct)
        } else if bbb == 3 {
            Some(AddrMode::Absolute)
        } else if bbb == 5 {
            Some(AddrMode::DirectX)
        } else if bbb == 7 {
            Some(AddrMode::AbsoluteX)
        } else {
            None
        }
    } else if cc == 1 {
        if bbb == 0 {
            Some(AddrMode::IndexedDirectWord)
        } else if bbb == 1 {
            Some(AddrMode::Direct)
        } else if bbb == 2 {
            Some(AddrMode::Immediate)
        } else if bbb == 3 {
            Some(AddrMode::Absolute)
        } else if bbb == 4 {
            Some(AddrMode::DirectIndexedWord)
        } else if bbb == 5 {
            Some(AddrMode::DirectX)
        } else if bbb == 6 {
            Some(AddrMode::AbsoluteY)
        } else {
            Some(AddrMode::AbsoluteX)
        }
    } else if cc == 2 {
        if bbb == 0 {
            Some(AddrMode::Immediate)
        } else if bbb == 1 {
            Some(AddrMode::Direct)
        } else if bbb == 2 {
            Some(AddrMode::Accumulator)
        } else if bbb == 3 {
            Some(AddrMode::Absolute)
        } else if bbb == 4 {
            Some(AddrMode::DirectWord)
        } else if bbb == 5 {
            Some(AddrMode::DirectX)
        } else if bbb == 7 {
            Some(AddrMode::AbsoluteX)
        } else {
            None
        }
    } else {
        if bbb == 0 {
            Some(AddrMode::Stack)
        } else if bbb == 1 {
            Some(AddrMode::DirectSWord)
        } else if bbb == 3 {
            Some(AddrMode::Long)
        } else if bbb == 4 {
            Some(AddrMode::StackIndexed)
        } else if bbb == 5 {
            Some(AddrMode::DirectIndexedSWord)
        } else if bbb == 7 {
            Some(AddrMode::LongX)
        } else {
            None
        }
    }
}

/// The second table of the decoder: the addressing mode of an opcode byte,
/// by the irregular entries first and the regular decode after them.
pub open spec fn addressing_mode(opcode: u8) -> Option<AddrMode> {
    match irregular_mode(opcode) {
        Some(mode) => Some(mode),
        None => regular_mode(opcode as int % 4, (opcode as int / 4) % 8),
    }
}

/// The table has no gap: every one of the 256 opcode bytes has a mode.
pub proof fn law_every_opcode_has_a_mode(opcode: u8)
    ensures
        addressing_mode(opcode) is Some,
{
}

pub fn decode_addressing_mode(opcode: u8) -> (r: Result<AddrMode, EmuError>)
    ensures
        r is Ok,
        addressing_mode(opcode) == Some(r.unwrap()),
{
    proof {
        law_every_opcode_has_a_mode(opcode);
    }
    let bbb: u8 = (opcode / 4) % 8;
    let cc: u8 = opcode % 4;
    match opcode {
        0x00 | 0x08 | 0x0B | 0x18 | 0x1B | 0x28 | 0x2B | 0x38 | 0x3B | 0x40 | 0x48 | 0x4B | 0x58
        | 0x5A | 0x5B | 0x60 | 0x68 | 0x6B | 0x78 | 0x7A | 0x7B | 0x88 | 0x8A | 0x8B | 0x98 | 0x9A
        | 0x9B | 0xA8 | 0xAA | 0xAB | 0xB8 | 0xBA | 0xBB | 0xC8 | 0xCA | 0xCB | 0xD8 | 0xDA | 0xDB
        | 0xE8 | 0xEA | 0xEB | 0xF8 | 0xFA | 0xFB => {
            return Ok(AddrMode::Implied);
        },
        0x0A | 0x1A | 0x2A | 0x3A | 0x4A | 0x6A => {
            return Ok(AddrMode::Accumulator);
        },
        0x14 | 0x64 | 0xD4 => {
            return Ok(AddrMode::Direct);
        },
        0x1C | 0x20 | 0x9C => {
            return Ok(AddrMode::Absolute);
        },
        0x22 | 0x5C => {
            return Ok(AddrMode::Long);
        },
        0x44 | 0x54 => {
            return Ok(AddrMode::SourceDestination);
        },
        0xDC => {
            return Ok(AddrMode::AbsoluteIndirectSWord);
        },
        0x6C => {
            return Ok(AddrMode::AbsoluteIndirectWord);
        },
        0x74 => {
            return Ok(AddrMode::DirectX);
        },
        0x7C | 0xFC => {
            return Ok(AddrMode::AbsoluteIndexedIndirect);
        },
        0x10 | 0x30 | 0x50 | 0x70 | 0x80 | 0x90 | 0xB0 | 0xD0 | 0xF0 => {
            return Ok(AddrMode::RelativeByte);
        },
        0x82 => {
            return Ok(AddrMode::RelativeWord);
        },
        0x02 | 0x42 | 0x62 | 0x89 | 0xC2 | 0xE2 | 0xF4 => {
            return Ok(AddrMode::Immediate);
        },
        0x9E => {
            return Ok(AddrMode::AbsoluteX);
        },
        _ => {},
    }
    let mode: AddrMode = match cc {
        0 => match bbb {
            0 => AddrMode::Immediate,
            1 => AddrMode::Direct,
            3 => AddrMode::Absolute,
            5 => AddrMode::DirectX,
            7 => AddrMode::AbsoluteX,
            _ => {
                return Err(EmuError::UnknownOpcode(opcode));
            },
        },
        1 => match bbb {
            0 => AddrMode::IndexedDirectWord,
            1 => AddrMode::Direct,
            2 => AddrMode::Immediate,
            3 => AddrMode::Absolute,
            4 => AddrMode::DirectIndexedWord,
            5 => AddrMode::DirectX,
            6 => AddrMode::AbsoluteY,
            _ => AddrMode::AbsoluteX,
        },
        2 => match bbb {
            0 => AddrMode::Immediate,
            1 => AddrMode::Direct,
            2 => AddrMode::Accumulator,
            3 => AddrMode::Absolute,
            4 => AddrMode::DirectWord,
            5 => AddrMode::DirectX,
            7 => AddrMode::AbsoluteX,
            _ => {
                return Err(EmuError::UnknownOpcode(opcode));
            },
        },
        _ => match bbb {
            0 => AddrMode::Stack,
            1 => AddrMode::DirectSWord,
            3 => AddrMode::Long,
            4 => AddrMode::StackIndexed,
            5 => AddrMode::DirectIndexedSWord,
            7 => AddrMode::LongX,
            _ => {
                return Err(EmuError::UnknownOpcode(opcode));
            },
        },
    };
    Ok(mode)
}

/// One decoded instruction: the operation, its mode, where it stands and
/// which address it works on. The destination is there for block moves only.
#[derive(Clone, Copy, Debug, PartialEq, Eq, Structural)]
pub struct InstructionContext {
    pub opcode: OpCode,
    pub mode: AddrMode,
    pub inst_addr: u32,
    pub data_addr: u32,
    pub dest_addr: Option<u32>,
}

impl Default for InstructionContext {
    fn default() -> (r: InstructionContext)
        ensures
            r == (InstructionContext {
                opcode: OpCode::NOP,
                mode: AddrMode::Implied,
                inst_addr: 0,
                data_addr: 0,
                dest_addr: None,
            }),
    {
        InstructionContext {
            opcode: OpCode::NOP,
            mode: AddrMode::Implied,
            inst_addr: 0,
            data_addr: 0,
            dest_addr: None,
        }
    }
}

/// The length in bytes of an instruction with an immediate operand: one
/// byte of opcode, then two of operand where the operation works on the
/// accumulator at 16 bits or on an index register at 16 bits, and one
/// otherwise.
pub open spec fn immediate_length(op: OpCode, m: bool, x: bool) -> int {
    if op.uses_m_spec() {
        if m {
            2
        } else {
            3
        }
    } else if op.uses_x_spec() {
        if x {
            2
        } else {
            3
        }
    } else {
        2
    }
}

/// The length in bytes of an encoded instruction. `REP` and `SEP` take two
/// bytes and `PEA` and `PER` three, whatever the widths.
pub open spec fn instruction_length(op: OpCode, mode: AddrMode, m: bool, x: bool) -> int {
    if op == OpCode::REP || op == OpCode::SEP {
        2
    } else if op == OpCode::PEA || op == OpCode::PER {
        3
    } else {
        match mode {
            AddrMode::Absolute => 3,
            AddrMode::AbsoluteWord => 3,
            AddrMode::AbsoluteSWord => 3,
            AddrMode::AbsoluteX => 3,
            AddrMode::AbsoluteY => 3,
            AddrMode::AbsoluteIndirectWord => 3,
            AddrMode::AbsoluteIndirectSWord => 3,
            AddrMode::AbsoluteIndexedIndirect => 3,
            AddrMode::Accumulator => 1,
            AddrMode::Direct => 2,
            AddrMode::DirectX => 2,
            AddrMode::DirectY => 2,
            AddrMode::DirectWord => 3,
            AddrMode::DirectSWord => 2,
            AddrMode::IndexedDirectWord => 2,
            AddrMode::DirectIndexedWord => 2,
            AddrMode::DirectIndexedSWord => 2,
            AddrMode::Immediate => immediate_length(op, m, x),
            AddrMode::Implied => 1,
            AddrMode::Long => 4,
            AddrMode::LongX => 4,
            AddrMode::RelativeByte => 2,
            AddrMode::RelativeWord => 3,
            AddrMode::SourceDestination => 3,
            AddrMode::Stack => 2,
            AddrMode::StackIndexed => 2,
        }
    }
}

/// The length of every immediate form that the decoder produces: two bytes
/// for `REP`, `SEP`, `WDM` and `COP`, three for `PEA` and `PER`, and for the
/// others one byte of opcode and an operand of the accumulator's or the
/// index registers' width.
pub proof fn law_immediate_length(opcode: u8, m: bool, x: bool)
    requires
        addressing_mode(opcode) == Some(AddrMode::Immediate),
    ensures
        ({
            let op = mnemonic(opcode);
            let len = instruction_length(op, AddrMode::Immediate, m, x);
            &&& len == 2 || len == 3
            &&& op == OpCode::REP || op == OpCode::SEP || op == OpCode::WDM || op == OpCode::COP
                ==> len == 2
            &&& op == OpCode::PEA || op == OpCode::PER ==> len == 3
            &&& op.uses_m_spec() ==> len == 3 - bit_value(m)
            &&& op.uses_x_spec() ==> len == 3 - bit_value(x)
            &&& op.uses_m_spec() || op.uses_x_spec() || op == OpCode::REP || op == OpCode::SEP || op
                == OpCode::WDM || op == OpCode::COP || op == OpCode::PEA || op == OpCode::PER
        }),
{
}

impl InstructionContext {
    /// The length in bytes of the encoded instruction, at the given widths.
    pub fn length(&self, m: bool, x: bool) -> (n: usize)
        ensures
            n == instruction_length(self.opcode, self.mode, m, x),
            1 <= n <= 4,
    {
        match self.opcode {
            OpCode::REP | OpCode::SEP => {
                return 2;
            },
            OpCode::PEA | OpCode::PER => {
                return 3;
            },
            _ => {},
        }
        match self.mode {
            AddrMode::Absolute => 3,
            AddrMode::AbsoluteWord => 3,
            AddrMode::AbsoluteSWord => 3,
            AddrMode::AbsoluteX | AddrMode::AbsoluteY => 3,
            AddrMode::AbsoluteIndirectWord => 3,
            AddrMode::AbsoluteIndirectSWord => 3,
            AddrMode::AbsoluteIndexedIndirect => 3,
            AddrMode::Accumulator => 1,
            AddrMode::Direct => 2,
            AddrMode::DirectX | AddrMode::DirectY => 2,
            AddrMode::DirectWord => 3,
            AddrMode::DirectSWord => 2,
            AddrMode::IndexedDirectWord => 2,
            AddrMode::DirectIndexedWord => 2,
            AddrMode::DirectIndexedSWord => 2,
            AddrMode::Immediate => {
                if self.opcode.uses_m() {
                    if m {
                        2
                    } else {
                        3
                    }
                } else if self.opcode.uses_x() {
                    if x {
                        2
                    } else {
                        3
                    }
                } else {
                    2
                }
            },
            AddrMode::Implied => 1,
            AddrMode::Long => 4,
            AddrMode::LongX => 4,
            AddrMode::RelativeByte => 2,
            AddrMode::RelativeWord => 3,
            AddrMode::SourceDestination => 3,
            AddrMode::Stack => 2,
            AddrMode::StackIndexed => 2,
        }
    }
}

} // verus!
