use snes_core::address::{calculate_address, decode_instruction};
use snes_core::cartridge::{
    cartridge_of, load_rom_header, CartHardware, Cartridge, Coprocessor, ExtraHardware,
    InterruptVectorTable, MapMode, Region, RomHeader, RomSpeed,
};
use snes_core::command::{
    execute_command, parse_command, CommandFault, DebuggerCommand, Request,
};
use snes_core::console::Console;
use snes_core::cpu::{Flags, CPU};
use snes_core::cycles::{calculate_cycles, step};
use snes_core::debugger::{render_wrapped_instructions, Flag};
use snes_core::disassembler::{debug_instructions, debug_simulation, DisassemblerError};
use snes_core::error::{EmuError, Feature, HeaderFault};
use snes_core::execute::{execute_instruction, execute_nmi};
use snes_core::memory::{
    decode_address, peek_word, read_byte, read_word, write_byte, write_word, Target,
};
use snes_core::opcode::{
    decode_addressing_mode, decode_opcode, AddrMode, InstructionContext, OpCode,
};
use snes_core::registers::{DMARegisters, MMIORegisters, PPURegisters};
use snes_core::semantics::CPUExecutionResult;

fn vectors() -> InterruptVectorTable {
    InterruptVectorTable {
        cop: 0x9000,
        brk: 0x9100,
        abort: 0x9200,
        nmi: 0x9300,
        irq: 0x9400,
        cop_emu: 0x9500,
        brk_emu: 0x9600,
        abort_emu: 0x9700,
        nmi_emu: 0x9800,
        reset: 0x8000,
        irq_emu: 0x9900,
    }
}

/// A native-mode console with 8-bit registers, a 64 KiB LoROM image that
/// starts with `program`, and the program counter on its first byte.
fn console_with(program: &[u8]) -> Console {
    let mut rom_data = vec![0u8; 0x10000];
    rom_data[..program.len()].copy_from_slice(program);
    let cartridge = Cartridge {
        header: RomHeader {
            title: "CORE".to_string(),
            map_mode: MapMode::LoROM,
            rom_speed: RomSpeed::Slow,
            extra_hardware: CartHardware::new(ExtraHardware::RomOnly, None),
            rom_size: 0x10000,
            ram_size: 0,
            country: Region::NTSC,
            developer_id: 0,
            rom_version: 0,
            checksum_complement: 0,
            checksum: 0,
            interrupt_vectors: vectors(),
            expanded_header: None,
        },
        rom_data,
    };
    let mut snes = Console {
        cpu: CPU::new(),
        cartridge,
        ram: vec![0; 0x20000],
        mmio: MMIORegisters::default(),
        dma: DMARegisters::default(),
    };
    snes.cpu.P.e = false;
    snes.cpu.S = 0x01FF;
    snes.cpu.set_pc(0x808000);
    snes
}

fn context(op: OpCode, mode: AddrMode) -> InstructionContext {
    InstructionContext { opcode: op, mode, inst_addr: 0x808000, data_addr: 0x808001, dest_addr: None }
}

// ---------------------------------------------------------------------
// The processor at reset
// ---------------------------------------------------------------------

#[test]
fn reset_state_is_emulation_mode() {
    let cpu = CPU::new();
    assert!(cpu.P.e && cpu.P.m && cpu.P.x);
    assert_eq!(cpu.S, 0x0100);
    assert_eq!((cpu.A, cpu.X, cpu.Y, cpu.D, cpu.DBR, cpu.K, cpu.PC), (0, 0, 0, 0, 0, 0, 0));
    assert_eq!(Flags::new(), cpu.P);
}

#[test]
fn console_is_switched_on_at_the_reset_vector() {
    let cartridge = console_with(&[0xEA]).cartridge;
    let snes = Console::new(cartridge);
    let mut expected = CPU::new();
    expected.PC = 0x8000;
    assert_eq!(snes.cpu, expected);
    assert_eq!(snes.ram, vec![0u8; 0x20000]);
    assert_eq!(snes.mmio, MMIORegisters::default());
    assert_eq!(snes.dma.A1TnL, vec![0u8; 8]);
    assert_eq!(snes.cartridge.rom_data[0], 0xEA);
}

#[test]
fn status_byte_has_the_documented_layout() {
    let mut cpu = CPU::new();
    cpu.P = Flags {
        n: true,
        v: false,
        m: true,
        x: true,
        d: false,
        i: true,
        z: false,
        c: true,
        e: false,
        b: false,
    };
    assert_eq!(cpu.p_byte(), 0b1011_0101);
    cpu.P.e = true;
    // Bit 4 is not the index width in emulation mode.
    assert_eq!(cpu.p_byte(), 0b1010_0101);
}

#[test]
fn set_p_keeps_widths_in_emulation_mode() {
    let mut cpu = CPU::new();
    cpu.set_p(0b0100_0011);
    assert!(cpu.P.v && cpu.P.z && cpu.P.c);
    assert!(!cpu.P.n && !cpu.P.d && !cpu.P.i);
    assert!(cpu.P.m && cpu.P.x && cpu.P.e);
    cpu.P.e = false;
    cpu.set_p(0);
    assert!(!cpu.P.m && !cpu.P.x);
}

#[test]
fn program_counter_is_bank_and_offset() {
    let mut cpu = CPU::new();
    cpu.set_pc(0x12_3456);
    assert_eq!((cpu.K, cpu.PC), (0x12, 0x3456));
    assert_eq!(cpu.get_pc(), 0x12_3456);
    cpu.set_pc(0xAB_12_3456);
    assert_eq!(cpu.get_pc(), 0x12_3456);
}

#[test]
fn register_banks_start_at_zero() {
    let mmio = MMIORegisters::default();
    assert_eq!((mmio.NMITIMEN, mmio.WRMPYA, mmio.MEMSEL, mmio.RDMPYH), (0, 0, 0, 0));
    let ppu = PPURegisters::default();
    assert_eq!((ppu.MPYL, ppu.CGDATAREAD, ppu.STAT78), (0, 0, 0));
    let dma = DMARegisters::default();
    assert_eq!(dma.DMAPn, vec![0u8; 8]);
    assert_eq!(dma.UNUSEDn.len(), 8);
    assert_eq!((dma.MDMAEN, dma.HDMAEN), (0, 0));
}

// ---------------------------------------------------------------------
// The map decoder and the gateway
// ---------------------------------------------------------------------

#[test]
fn map_decoder_classifies_every_region() {
    assert_eq!(decode_address(MapMode::LoROM, 0x00_1234), Target::Wram(0x1234));
    assert_eq!(decode_address(MapMode::LoROM, 0x80_1FFF), Target::Wram(0x1FFF));
    assert_eq!(decode_address(MapMode::LoROM, 0x7E_0000), Target::Wram(0));
    assert_eq!(decode_address(MapMode::LoROM, 0x7F_FFFF), Target::Wram(0x1FFFF));
    assert_eq!(decode_address(MapMode::LoROM, 0x00_4200), Target::Mmio(0x4200));
    assert_eq!(decode_address(MapMode::LoROM, 0xBF_421F), Target::Mmio(0x421F));
    assert_eq!(decode_address(MapMode::LoROM, 0x00_4358), Target::Dma(5, 8));
    assert_eq!(decode_address(MapMode::LoROM, 0x00_2100), Target::Ppu(0x2100));
    assert_eq!(decode_address(MapMode::LoROM, 0x00_4220), Target::Ppu(0x4220));
    assert_eq!(decode_address(MapMode::LoROM, 0x40_4200), Target::Rom(0x40 * 0x8000 + 0x4200 - 0x8000));
    assert_eq!(decode_address(MapMode::LoROM, 0x100_0000), Target::Invalid);
}

#[test]
fn rom_offsets_follow_the_map_mode() {
    assert_eq!(decode_address(MapMode::LoROM, 0x01_8000), Target::Rom(0x8000));
    assert_eq!(decode_address(MapMode::LoROM, 0x81_FFFF), Target::Rom(0xFFFF));
    assert_eq!(decode_address(MapMode::HiROM, 0xC1_2345), Target::Rom(0x01_2345));
    assert_eq!(decode_address(MapMode::HiROM, 0x40_0010), Target::Rom(0x10));
    assert_eq!(decode_address(MapMode::ExHiROM, 0xC1_2345), Target::Rom(0x01_2345));
    assert_eq!(decode_address(MapMode::ExHiROM, 0x40_0010), Target::Rom(0x40_0010));
    assert_eq!(decode_address(MapMode::ExHiROM, 0x00_8000), Target::Rom(0x40_8000));
}

#[test]
fn byte_round_trip_on_ram_latches_and_dma() {
    let mut snes = console_with(&[]);
    for addr in [0x7E_0000u32, 0x7F_FFFF, 0x00_1FFF, 0x00_4202, 0x00_420B, 0x80_420D, 0x00_4300, 0x00_437F] {
        write_byte(&mut snes, addr, 0x5A).unwrap();
        assert_eq!(read_byte(&snes, addr), Ok(0x5A), "at {:06X}", addr);
    }
    assert_eq!(snes.mmio.WRMPYA, 0x5A);
    assert_eq!(snes.dma.MDMAEN, 0x5A);
    assert_eq!(snes.mmio.MEMSEL, 0x5A);
    assert_eq!(snes.dma.UNUSEDn[7], 0x5A);
}

#[test]
fn word_round_trip_and_bus_wrap() {
    let mut snes = console_with(&[]);
    write_word(&mut snes, 0x00_4204, 0xBEEF).unwrap();
    assert_eq!((snes.mmio.WRDIVL, snes.mmio.WRDIVH), (0xEF, 0xBE));
    assert_eq!(read_word(&snes, 0x00_4204), Ok(0xBEEF));
    write_word(&mut snes, 0x00_4305, 0x1234).unwrap();
    assert_eq!((snes.dma.DASnL[0], snes.dma.DASnH[0]), (0x34, 0x12));
    write_word(&mut snes, 0x00_4318, 0xA55A).unwrap();
    assert_eq!((snes.dma.A2TnL[1], snes.dma.A2TnH[1]), (0x5A, 0xA5));
    // The word at the last address of bank $7F ends in bank $80.
    write_word(&mut snes, 0x7F_FFFF, 0xCAFE).unwrap();
    assert_eq!(snes.ram[0x1FFFF], 0xFE);
    assert_eq!(snes.ram[0], 0xCA);
    assert_eq!(peek_word(&snes, 0x7F_FFFF), Ok(0xCAFE));
}

#[test]
fn failed_word_write_keeps_first_byte() {
    let mut snes = console_with(&[]);
    // $420D is a latch, $420E holds nothing.
    assert_eq!(write_word(&mut snes, 0x00_420D, 0x1234), Err(EmuError::UnknownRegister(0x00_420E)));
    assert_eq!(snes.mmio.MEMSEL, 0x34);
}

#[test]
fn rom_is_read_only() {
    let mut snes = console_with(&[0x11]);
    let before = snes.cartridge.rom_data.clone();
    for addr in [0x00_8000u32, 0x80_FFFF, 0x40_0000, 0xC0_1234, 0xFF_FFFF] {
        assert_eq!(write_byte(&mut snes, addr, 0x99), Err(EmuError::WriteToReadOnly(addr)));
    }
    assert_eq!(snes.cartridge.rom_data, before);
    assert_eq!(write_word(&mut snes, 0x00_8000, 1), Err(EmuError::WriteToReadOnly(0x00_8000)));
}

#[test]
fn gateway_errors() {
    let mut snes = console_with(&[]);
    assert_eq!(read_byte(&snes, 0x100_0000), Err(EmuError::BadAddress(0x100_0000)));
    assert_eq!(write_byte(&mut snes, 0x100_0000, 0), Err(EmuError::BadAddress(0x100_0000)));
    // Beyond the size that the header gives.
    assert_eq!(read_byte(&snes, 0x02_8000), Err(EmuError::BadAddress(0x02_8000)));
    // Within that size, but beyond the image.
    snes.cartridge.header.rom_size = 0x20000;
    assert_eq!(
        read_byte(&snes, 0x02_8001),
        Err(EmuError::OutOfRomBounds { offset: 0x10001, rom_size: 0x10000 })
    );
    assert_eq!(read_byte(&snes, 0x00_2100), Err(EmuError::UnknownRegister(0x00_2100)));
    assert_eq!(read_byte(&snes, 0x00_420E), Err(EmuError::UnknownRegister(0x00_420E)));
    assert_eq!(write_byte(&mut snes, 0x00_4210, 1), Err(EmuError::UnknownRegister(0x00_4210)));
    assert_eq!(write_byte(&mut snes, 0x00_430C, 1), Err(EmuError::UnknownRegister(0x00_430C)));
    assert_eq!(read_byte(&snes, 0x00_430D), Err(EmuError::UnknownRegister(0x00_430D)));
    // A work RAM that is too short ends where it ends.
    snes.ram = vec![0; 0x100];
    assert_eq!(read_byte(&snes, 0x00_0100), Err(EmuError::BadAddress(0x00_0100)));
    assert_eq!(write_byte(&mut snes, 0x7E_0100, 1), Err(EmuError::BadAddress(0x7E_0100)));
    // A DMA bank that is too short holds no channel 7.
    snes.dma.DMAPn = vec![0; 4];
    assert_eq!(write_byte(&mut snes, 0x00_4370, 1), Err(EmuError::UnknownRegister(0x00_4370)));
}

#[test]
fn status_registers_read_as_documented() {
    let mut snes = console_with(&[]);
    assert_eq!(read_byte(&snes, 0x00_4210), Ok(0));
    assert_eq!(read_byte(&snes, 0x00_421F), Ok(0));
    assert_eq!(read_word(&snes, 0x00_4212), Ok(0x00FF));
    snes.cpu.P.n = true;
    assert_eq!(read_byte(&snes, 0x00_4212), Ok(0));
}

// ---------------------------------------------------------------------
// The decoder
// ---------------------------------------------------------------------

#[test]
fn opcode_table_samples() {
    assert_eq!(decode_opcode(0x00), OpCode::BRK);
    assert_eq!(decode_opcode(0xA9), OpCode::LDA);
    assert_eq!(decode_opcode(0x44), OpCode::MVP);
    assert_eq!(decode_opcode(0x54), OpCode::MVN);
    assert_eq!(decode_opcode(0xFB), OpCode::XCE);
    assert_eq!(decode_opcode(0xDC), OpCode::JML);
    assert_eq!(decode_opcode(0xFF), OpCode::SBC);
}

#[test]
fn irregular_modes() {
    assert_eq!(decode_addressing_mode(0x44), Ok(AddrMode::SourceDestination));
    assert_eq!(decode_addressing_mode(0x54), Ok(AddrMode::SourceDestination));
    assert_eq!(decode_addressing_mode(0x52), Ok(AddrMode::DirectWord));
    assert_eq!(decode_addressing_mode(0xDC), Ok(AddrMode::AbsoluteIndirectSWord));
    assert_eq!(decode_addressing_mode(0x6C), Ok(AddrMode::AbsoluteIndirectWord));
    assert_eq!(decode_addressing_mode(0x7C), Ok(AddrMode::AbsoluteIndexedIndirect));
    assert_eq!(decode_addressing_mode(0x82), Ok(AddrMode::RelativeWord));
    assert_eq!(decode_addressing_mode(0x80), Ok(AddrMode::RelativeByte));
    assert_eq!(decode_addressing_mode(0x9E), Ok(AddrMode::AbsoluteX));
    assert_eq!(decode_addressing_mode(0x22), Ok(AddrMode::Long));
    assert_eq!(decode_addressing_mode(0xEA), Ok(AddrMode::Implied));
    assert_eq!(decode_addressing_mode(0xBF), Ok(AddrMode::LongX));
    assert_eq!(decode_addressing_mode(0x63), Ok(AddrMode::Stack));
}

#[test]
fn immediate_lengths() {
    for byte in 0..=255u8 {
        if decode_addressing_mode(byte) != Ok(AddrMode::Immediate) {
            continue;
        }
        let op = decode_opcode(byte);
        let i = context(op, AddrMode::Immediate);
        for (m, x) in [(false, false), (false, true), (true, false), (true, true)] {
            let len = i.length(m, x);
            let expected = match op {
                OpCode::REP | OpCode::SEP | OpCode::WDM | OpCode::COP => 2,
                OpCode::PEA | OpCode::PER => 3,
                _ if op.uses_m() => 3 - m as usize,
                _ => {
                    assert!(op.uses_x(), "{:02X}", byte);
                    3 - x as usize
                }
            };
            assert_eq!(len, expected, "{:02X} m={} x={}", byte, m, x);
        }
    }
}

#[test]
fn lengths_by_mode() {
    assert_eq!(context(OpCode::NOP, AddrMode::Implied).length(true, true), 1);
    assert_eq!(context(OpCode::NOP, AddrMode::Immediate).length(false, false), 2);
    assert_eq!(context(OpCode::ASL, AddrMode::Accumulator).length(true, true), 1);
    assert_eq!(context(OpCode::LDA, AddrMode::Direct).length(false, false), 2);
    assert_eq!(context(OpCode::LDA, AddrMode::Absolute).length(true, true), 3);
    assert_eq!(context(OpCode::LDA, AddrMode::Long).length(true, true), 4);
    assert_eq!(context(OpCode::LDA, AddrMode::LongX).length(true, true), 4);
    assert_eq!(context(OpCode::BRL, AddrMode::RelativeWord).length(true, true), 3);
    assert_eq!(context(OpCode::JML, AddrMode::AbsoluteIndirectSWord).length(true, true), 3);
    assert_eq!(context(OpCode::JMP, AddrMode::AbsoluteIndexedIndirect).length(true, true), 3);
    assert_eq!(context(OpCode::MVN, AddrMode::SourceDestination).length(true, true), 3);
}

#[test]
fn opcode_classes() {
    assert!(OpCode::BEQ.is_branch() && !OpCode::BRL.is_branch());
    assert!(OpCode::JSL.is_jump() && OpCode::JMP.is_jump() && !OpCode::RTS.is_jump());
    assert!(OpCode::BRK.is_interrupt() && OpCode::COP.is_interrupt() && !OpCode::RTI.is_interrupt());
    assert!(OpCode::JSR.is_subroutine() && OpCode::JSL.is_subroutine() && !OpCode::JML.is_subroutine());
    assert!(OpCode::RTL.is_return() && !OpCode::JSR.is_return());
    assert!(OpCode::LDA.is_old() && OpCode::PEI.is_old() && !OpCode::XCE.is_old() && !OpCode::BRL.is_old());
    assert!(OpCode::REP.changes_m() && OpCode::PLP.changes_x() && !OpCode::LDA.changes_m());
    assert_eq!(OpCode::default(), OpCode::NOP);
    assert_eq!(AddrMode::default(), AddrMode::Implied);
    assert_eq!(OpCode::XBA.name(), "XBA");
    assert_eq!(AddrMode::StackIndexed.name(), "(Stack, S), Y");
    assert_eq!(InstructionContext::default().opcode, OpCode::NOP);
}

// ---------------------------------------------------------------------
// The address resolver
// ---------------------------------------------------------------------

#[test]
fn absolute_uses_program_bank_for_jumps() {
    let mut snes = console_with(&[0x4C, 0x34, 0x92]);
    snes.cpu.DBR = 0x7E;
    assert_eq!(
        calculate_address(&snes, OpCode::JMP, AddrMode::Absolute, 0x808000),
        Ok((0x80_9234, None))
    );
    assert_eq!(
        calculate_address(&snes, OpCode::LDA, AddrMode::Absolute, 0x808000),
        Ok((0x7E_9234, None))
    );
}

#[test]
fn absolute_indexed_stays_in_its_bank() {
    let mut snes = console_with(&[0xBD, 0xF0, 0xFF]);
    snes.cpu.DBR = 0x7E;
    snes.cpu.X = 0x0020;
    snes.cpu.Y = 0x0001;
    assert_eq!(
        calculate_address(&snes, OpCode::LDA, AddrMode::AbsoluteX, 0x808000),
        Ok((0x7E_0010, None))
    );
    assert_eq!(
        calculate_address(&snes, OpCode::LDA, AddrMode::AbsoluteY, 0x808000),
        Ok((0x7E_FFF1, None))
    );
    // Long indexed moves freely over the bus.
    let mut long = console_with(&[0xBF, 0xF0, 0xFF, 0x7E]);
    long.cpu.X = 0x0020;
    assert_eq!(
        calculate_address(&long, OpCode::LDA, AddrMode::LongX, 0x808000),
        Ok((0x7F_0010, None))
    );
    assert_eq!(
        calculate_address(&long, OpCode::LDA, AddrMode::Long, 0x808000),
        Ok((0x7E_FFF0, None))
    );
}

#[test]
fn direct_page_wraps_in_emulation_mode() {
    let mut snes = console_with(&[0xB5, 0xF0]);
    snes.cpu.D = 0x1200;
    snes.cpu.X = 0x0020;
    assert_eq!(
        calculate_address(&snes, OpCode::LDA, AddrMode::DirectX, 0x808000),
        Ok((0x00_1310, None))
    );
    snes.cpu.P.e = true;
    assert_eq!(
        calculate_address(&snes, OpCode::LDA, AddrMode::DirectX, 0x808000),
        Ok((0x00_1210, None))
    );
    snes.cpu.D = 0x1201;
    assert_eq!(
        calculate_address(&snes, OpCode::LDA, AddrMode::DirectX, 0x808000),
        Ok((0x00_1311, None))
    );
    snes.cpu.D = 0xFFFF;
    assert_eq!(
        calculate_address(&snes, OpCode::LDA, AddrMode::Direct, 0x808000),
        Ok((0x00_00EF, None))
    );
}

#[test]
fn indirect_modes_read_their_pointers() {
    let mut snes = console_with(&[0x6C, 0x10, 0x00, 0x20]);
    snes.cpu.DBR = 0x7F;
    snes.cpu.Y = 0x0003;
    // The pointer at $000010 is $7E:4321.
    write_byte(&mut snes, 0x10, 0x21).unwrap();
    write_byte(&mut snes, 0x11, 0x43).unwrap();
    write_byte(&mut snes, 0x12, 0x7E).unwrap();
    let at = |mode| calculate_address(&snes, OpCode::LDA, mode, 0x808000);
    assert_eq!(at(AddrMode::AbsoluteIndirectWord), Ok((0x80_4321, None)));
    assert_eq!(at(AddrMode::AbsoluteIndirectSWord), Ok((0x7E_4321, None)));
    assert_eq!(at(AddrMode::DirectWord), Ok((0x7F_4321, None)));
    assert_eq!(at(AddrMode::DirectSWord), Ok((0x7E_4321, None)));
    assert_eq!(at(AddrMode::IndexedDirectWord), Ok((0x7F_4321, None)));
    assert_eq!(at(AddrMode::DirectIndexedWord), Ok((0x7F_4324, None)));
    assert_eq!(at(AddrMode::DirectIndexedSWord), Ok((0x7E_4324, None)));
    assert_eq!(at(AddrMode::AbsoluteWord), Ok((0x00_0010, None)));
}

#[test]
fn indexed_indirect_jump_reads_in_program_bank() {
    // JMP ($8010,X) with X = 2: the pointer lies at $80:8012.
    let mut program = vec![0u8; 0x20];
    program[0] = 0x7C;
    program[1] = 0x10;
    program[2] = 0x80;
    program[0x12] = 0xCD;
    program[0x13] = 0xAB;
    let mut snes = console_with(&program);
    snes.cpu.X = 2;
    assert_eq!(
        calculate_address(&snes, OpCode::JMP, AddrMode::AbsoluteIndexedIndirect, 0x808000),
        Ok((0x80_ABCD, None))
    );
}

#[test]
fn relative_targets() {
    let snes = console_with(&[0x80, 0xFE, 0x7F]);
    // BRA -2 branches to itself.
    assert_eq!(
        calculate_address(&snes, OpCode::BRA, AddrMode::RelativeByte, 0x808000),
        Ok((0x80_8000, None))
    );
    // BRL +$7FFE, three bytes on, wraps within the bank.
    assert_eq!(
        calculate_address(&snes, OpCode::BRL, AddrMode::RelativeWord, 0x808000),
        Ok((0x80_0001, None))
    );
    let forward = console_with(&[0xF0, 0x7F]);
    assert_eq!(
        calculate_address(&forward, OpCode::BEQ, AddrMode::RelativeByte, 0x808000),
        Ok((0x80_8081, None))
    );
}

#[test]
fn block_move_and_stack_modes() {
    let mut snes = console_with(&[0x54, 0x7E, 0x7F]);
    snes.cpu.X = 0x1111;
    snes.cpu.Y = 0x2222;
    snes.cpu.S = 0x01F0;
    snes.cpu.DBR = 0x7E;
    // The destination bank comes first in the encoding.
    assert_eq!(
        calculate_address(&snes, OpCode::MVN, AddrMode::SourceDestination, 0x808000),
        Ok((0x7F_2222, Some(0x7E_1111)))
    );
    assert_eq!(
        calculate_address(&snes, OpCode::LDA, AddrMode::Stack, 0x808000),
        Ok((0x00_026E, None))
    );
    write_word(&mut snes, 0x00_026E, 0x1000).unwrap();
    assert_eq!(
        calculate_address(&snes, OpCode::LDA, AddrMode::StackIndexed, 0x808000),
        Ok((0x7E_3222, None))
    );
    assert_eq!(
        calculate_address(&snes, OpCode::LDA, AddrMode::Immediate, 0x808000),
        Ok((0x80_8001, None))
    );
    assert_eq!(
        calculate_address(&snes, OpCode::NOP, AddrMode::Implied, 0x808000),
        Ok((0x80_8000, None))
    );
}

#[test]
fn decode_fails_where_operand_is_unreadable() {
    let snes = console_with(&[]);
    // The operand of an instruction at the end of the bus lies behind it.
    assert_eq!(
        calculate_address(&snes, OpCode::LDA, AddrMode::Absolute, 0x00_20FF),
        Err(EmuError::UnknownRegister(0x00_2100))
    );
    assert_eq!(
        decode_instruction(&snes, 0xA5, 0x00_20FF),
        Err(EmuError::UnknownRegister(0x00_2100))
    );
    // An instruction without operand needs none.
    assert_eq!(
        decode_instruction(&snes, 0xEA, 0x00_20FF).map(|i| (i.opcode, i.data_addr)),
        Ok((OpCode::NOP, 0x00_20FF))
    );
}

// ---------------------------------------------------------------------
// The executor
// ---------------------------------------------------------------------

fn run(snes: &mut Console) -> CPUExecutionResult {
    step(snes).unwrap().0
}

#[test]
fn adc_with_zero_leaves_accumulator() {
    let mut snes = console_with(&[0x69, 0x00]);
    snes.cpu.A = 0x10;
    snes.cpu.P.c = false;
    assert_eq!(step(&mut snes), Ok((CPUExecutionResult::Normal, 2)));
    assert_eq!(snes.cpu.A, 0x10);
    assert!(!snes.cpu.P.z && !snes.cpu.P.n && !snes.cpu.P.c && !snes.cpu.P.v);
    assert_eq!(snes.cpu.get_pc(), 0x808002);
}

#[test]
fn adc_flags() {
    // $7F + $01 overflows the sign.
    let mut snes = console_with(&[0x69, 0x01]);
    snes.cpu.A = 0x127F;
    run(&mut snes);
    assert_eq!(snes.cpu.A, 0x1280);
    assert!(snes.cpu.P.v && snes.cpu.P.n && !snes.cpu.P.c && !snes.cpu.P.z);
    // $FF + $01 carries out and gives zero.
    let mut snes = console_with(&[0x69, 0x01]);
    snes.cpu.A = 0x00FF;
    run(&mut snes);
    assert_eq!(snes.cpu.A, 0x0000);
    assert!(!snes.cpu.P.v && !snes.cpu.P.n && snes.cpu.P.c && snes.cpu.P.z);
    // 16 bits, with carry in.
    let mut snes = console_with(&[0x69, 0xFF, 0x7F]);
    snes.cpu.P.m = false;
    snes.cpu.P.c = true;
    snes.cpu.A = 0x0000;
    run(&mut snes);
    assert_eq!(snes.cpu.A, 0x8000);
    assert!(snes.cpu.P.v && snes.cpu.P.n && !snes.cpu.P.c);
    assert_eq!(snes.cpu.PC, 0x8003);
}

#[test]
fn sbc_flags() {
    let mut snes = console_with(&[0xE9, 0x01]);
    snes.cpu.A = 0x0080;
    snes.cpu.P.c = true;
    run(&mut snes);
    assert_eq!(snes.cpu.A, 0x007F);
    assert!(snes.cpu.P.v && snes.cpu.P.c && !snes.cpu.P.n && !snes.cpu.P.z);
    let mut snes = console_with(&[0xE9, 0x00, 0x00]);
    snes.cpu.P.m = false;
    snes.cpu.A = 0x0000;
    snes.cpu.P.c = false;
    run(&mut snes);
    assert_eq!(snes.cpu.A, 0xFFFF);
    assert!(!snes.cpu.P.c && snes.cpu.P.n && !snes.cpu.P.v);
}

#[test]
fn decimal_arithmetic_is_unimplemented() {
    let mut snes = console_with(&[0x69, 0x01]);
    snes.cpu.P.d = true;
    let before = snes.cpu;
    assert_eq!(step(&mut snes), Err(EmuError::Unimplemented(Feature::Decimal)));
    assert_eq!(snes.cpu, before);
    let mut snes = console_with(&[0xE9, 0x01]);
    snes.cpu.P.d = true;
    assert_eq!(step(&mut snes), Err(EmuError::Unimplemented(Feature::Decimal)));
}

#[test]
fn unemulated_operations() {
    assert_eq!(step(&mut console_with(&[0x54, 0, 0])), Err(EmuError::Unimplemented(Feature::BlockMove)));
    assert_eq!(step(&mut console_with(&[0x44, 0, 0])), Err(EmuError::Unimplemented(Feature::BlockMove)));
    assert_eq!(step(&mut console_with(&[0xCB])), Err(EmuError::Unimplemented(Feature::Wait)));
    assert_eq!(step(&mut console_with(&[0xDB])), Err(EmuError::Unimplemented(Feature::Stop)));
}

#[test]
fn logic_operations() {
    let mut snes = console_with(&[0x29, 0x0F, 0x09, 0x80, 0x49, 0xFF]);
    snes.cpu.A = 0xAB3C;
    run(&mut snes);
    assert_eq!(snes.cpu.A, 0xAB0C);
    run(&mut snes);
    assert_eq!(snes.cpu.A, 0xAB8C);
    assert!(snes.cpu.P.n);
    run(&mut snes);
    assert_eq!(snes.cpu.A, 0xAB73);
    assert!(!snes.cpu.P.n && !snes.cpu.P.z);
}

#[test]
fn compare_sets_carry_without_changing_registers() {
    let mut snes = console_with(&[0xC9, 0x10, 0xE0, 0x11, 0xC0, 0x10]);
    snes.cpu.A = 0xFF10;
    snes.cpu.X = 0x0010;
    snes.cpu.Y = 0x0020;
    run(&mut snes);
    assert!(snes.cpu.P.z && snes.cpu.P.c && !snes.cpu.P.n);
    run(&mut snes);
    assert!(!snes.cpu.P.z && !snes.cpu.P.c && snes.cpu.P.n);
    run(&mut snes);
    assert!(!snes.cpu.P.z && snes.cpu.P.c && !snes.cpu.P.n);
    assert_eq!((snes.cpu.A, snes.cpu.X, snes.cpu.Y), (0xFF10, 0x0010, 0x0020));
}

#[test]
fn bit_takes_n_and_v_from_memory_only() {
    let mut snes = console_with(&[0x89, 0xC0, 0x24, 0x10]);
    snes.cpu.A = 0x003F;
    write_byte(&mut snes, 0x10, 0xC0).unwrap();
    run(&mut snes);
    assert!(snes.cpu.P.z && !snes.cpu.P.n && !snes.cpu.P.v);
    run(&mut snes);
    assert!(snes.cpu.P.z && snes.cpu.P.n && snes.cpu.P.v);
}

#[test]
fn shifts_and_rotates() {
    let mut snes = console_with(&[0x0A, 0x2A, 0x4A, 0x6A]);
    snes.cpu.A = 0x1281;
    run(&mut snes); // ASL A
    assert_eq!(snes.cpu.A, 0x1202);
    assert!(snes.cpu.P.c);
    run(&mut snes); // ROL A
    assert_eq!(snes.cpu.A, 0x1205);
    assert!(!snes.cpu.P.c);
    run(&mut snes); // LSR A
    assert_eq!(snes.cpu.A, 0x1202);
    assert!(snes.cpu.P.c && !snes.cpu.P.n);
    run(&mut snes); // ROR A
    assert_eq!(snes.cpu.A, 0x1281);
    assert!(!snes.cpu.P.c && snes.cpu.P.n);
    // 16 bits: the carry is the old bit 15.
    let mut snes = console_with(&[0x2A]);
    snes.cpu.P.m = false;
    snes.cpu.A = 0x4000;
    run(&mut snes);
    assert_eq!(snes.cpu.A, 0x8000);
    assert!(!snes.cpu.P.c && snes.cpu.P.n && !snes.cpu.P.z);
    let mut snes = console_with(&[0x2A]);
    snes.cpu.P.m = false;
    snes.cpu.A = 0x8000;
    run(&mut snes);
    assert_eq!(snes.cpu.A, 0x0000);
    assert!(snes.cpu.P.c && snes.cpu.P.z);
}

#[test]
fn memory_modify_operations() {
    let mut snes = console_with(&[0xE6, 0x10, 0xC6, 0x12, 0x14, 0x14, 0x04, 0x16, 0x06, 0x18]);
    snes.cpu.A = 0x000F;
    write_byte(&mut snes, 0x10, 0xFF).unwrap();
    write_byte(&mut snes, 0x12, 0x00).unwrap();
    write_byte(&mut snes, 0x14, 0x3C).unwrap();
    write_byte(&mut snes, 0x16, 0x30).unwrap();
    write_byte(&mut snes, 0x18, 0x81).unwrap();
    run(&mut snes); // INC $10
    assert_eq!(read_byte(&snes, 0x10), Ok(0x00));
    assert!(snes.cpu.P.z);
    run(&mut snes); // DEC $12
    assert_eq!(read_byte(&snes, 0x12), Ok(0xFF));
    assert!(snes.cpu.P.n);
    run(&mut snes); // TRB $14
    assert_eq!(read_byte(&snes, 0x14), Ok(0x30));
    run(&mut snes); // TSB $16
    assert_eq!(read_byte(&snes, 0x16), Ok(0x3F));
    run(&mut snes); // ASL $18
    assert_eq!(read_byte(&snes, 0x18), Ok(0x02));
    assert!(snes.cpu.P.c);
    assert_eq!(snes.cpu.A, 0x000F);
}

#[test]
fn inx_wraps_at_sixteen_bits() {
    let mut snes = console_with(&[0xE8]);
    snes.cpu.P.m = false;
    snes.cpu.P.x = false;
    snes.cpu.A = 0xFFFF;
    snes.cpu.X = 0xFFFF;
    assert_eq!(step(&mut snes), Ok((CPUExecutionResult::Normal, 2)));
    assert_eq!(snes.cpu.X, 0x0000);
    assert!(snes.cpu.P.z && !snes.cpu.P.n);
}

#[test]
fn index_registers_lose_high_byte_at_eight_bits() {
    let mut snes = console_with(&[0xA2, 0x7F, 0xCA, 0xAA, 0xE2, 0x10]);
    snes.cpu.X = 0x1200;
    snes.cpu.A = 0xAB80;
    run(&mut snes); // LDX #$7F
    assert_eq!(snes.cpu.X, 0x007F);
    run(&mut snes); // DEX
    assert_eq!(snes.cpu.X, 0x007E);
    run(&mut snes); // TAX
    assert_eq!(snes.cpu.X, 0x0080);
    assert!(snes.cpu.P.n);
    // SEP that sets X clears the high bytes of both.
    let mut wide = console_with(&[0xE2, 0x10]);
    wide.cpu.P.x = false;
    wide.cpu.X = 0x1234;
    wide.cpu.Y = 0xABCD;
    run(&mut wide);
    assert!(wide.cpu.P.x);
    assert_eq!((wide.cpu.X, wide.cpu.Y), (0x0034, 0x00CD));
}

#[test]
fn rep_and_sep_touch_the_named_flags_only() {
    let mut snes = console_with(&[0xE2, 0xC3, 0xC2, 0x81]);
    snes.cpu.P = Flags { n: false, v: false, m: true, x: true, d: false, i: true, z: false, c: false, e: false, b: false };
    assert_eq!(step(&mut snes), Ok((CPUExecutionResult::Normal, 3)));
    assert!(snes.cpu.P.n && snes.cpu.P.v && snes.cpu.P.z && snes.cpu.P.c);
    assert!(snes.cpu.P.m && snes.cpu.P.x && snes.cpu.P.i && !snes.cpu.P.d);
    run(&mut snes);
    assert!(!snes.cpu.P.n && snes.cpu.P.v && snes.cpu.P.z && !snes.cpu.P.c);
    assert_eq!(snes.cpu.PC, 0x8004);
}

#[test]
fn transfers() {
    let mut snes = console_with(&[0x9B, 0xBB, 0x1B, 0x3B, 0xBA, 0x9A, 0xEB, 0x98]);
    snes.cpu.P.m = false;
    snes.cpu.P.x = false;
    snes.cpu.A = 0x1234;
    snes.cpu.X = 0x8001;
    snes.cpu.Y = 0x0000;
    run(&mut snes); // TXY
    assert_eq!(snes.cpu.Y, 0x8001);
    assert!(snes.cpu.P.n);
    snes.cpu.Y = 0x0000;
    run(&mut snes); // TYX
    assert_eq!(snes.cpu.X, 0x0000);
    assert!(snes.cpu.P.z);
    run(&mut snes); // TCS
    assert_eq!(snes.cpu.S, 0x1234);
    snes.cpu.A = 0;
    run(&mut snes); // TSC
    assert_eq!(snes.cpu.A, 0x1234);
    run(&mut snes); // TSX
    assert_eq!(snes.cpu.X, 0x1234);
    snes.cpu.X = 0x01F0;
    run(&mut snes); // TXS
    assert_eq!(snes.cpu.S, 0x01F0);
    run(&mut snes); // XBA
    assert_eq!(snes.cpu.A, 0x3412);
    snes.cpu.Y = 0xBEEF;
    run(&mut snes); // TYA
    assert_eq!(snes.cpu.A, 0xBEEF);
}

#[test]
fn flag_instructions() {
    let mut snes = console_with(&[0x38, 0xF8, 0x78, 0x18, 0xD8, 0x58, 0xB8, 0xEA, 0x42, 0x00]);
    snes.cpu.P.v = true;
    run(&mut snes);
    run(&mut snes);
    run(&mut snes);
    assert!(snes.cpu.P.c && snes.cpu.P.d && snes.cpu.P.i);
    run(&mut snes);
    run(&mut snes);
    run(&mut snes);
    run(&mut snes);
    assert!(!snes.cpu.P.c && !snes.cpu.P.d && !snes.cpu.P.i && !snes.cpu.P.v);
    let before = snes.cpu;
    assert_eq!(step(&mut snes), Ok((CPUExecutionResult::Normal, 2))); // NOP
    assert_eq!(step(&mut snes), Ok((CPUExecutionResult::Normal, 2))); // WDM
    assert_eq!(snes.cpu.PC, before.PC + 3);
    assert_eq!(snes.cpu.P, before.P);
}

#[test]
fn pha_in_emulation_mode_stays_in_page_one() {
    let mut snes = console_with(&[0x48, 0x48]);
    snes.cpu.P.e = true;
    snes.cpu.S = 0x01FF;
    snes.cpu.A = 0x00AB;
    run(&mut snes);
    assert_eq!(read_byte(&snes, 0x0001FF), Ok(0xAB));
    assert_eq!(snes.cpu.S, 0x01FE);
    snes.cpu.S = 0x0100;
    run(&mut snes);
    assert_eq!(read_byte(&snes, 0x000100), Ok(0xAB));
    assert_eq!(snes.cpu.S, 0x01FF);
}

#[test]
fn pha_then_pla_restores_accumulator() {
    for (m, a) in [(true, 0x12ABu16), (false, 0xFEDC)] {
        let mut snes = console_with(&[0x48, 0x68]);
        snes.cpu.P.m = m;
        snes.cpu.A = a;
        snes.cpu.S = 0x0180;
        run(&mut snes);
        run(&mut snes);
        assert_eq!(snes.cpu.A, a);
        assert_eq!(snes.cpu.S, 0x0180);
    }
}

#[test]
fn pushes_and_pulls() {
    let mut snes = console_with(&[0x8B, 0x0B, 0x4B, 0xDA, 0x5A, 0x7A, 0xFA, 0x2B, 0xAB]);
    snes.cpu.P.x = false;
    snes.cpu.DBR = 0x7E;
    snes.cpu.D = 0x1234;
    snes.cpu.X = 0xAAAA;
    snes.cpu.Y = 0x5555;
    run(&mut snes); // PHB
    run(&mut snes); // PHD
    run(&mut snes); // PHK
    run(&mut snes); // PHX
    run(&mut snes); // PHY
    assert_eq!(snes.cpu.S, 0x01FF - 8);
    snes.cpu.X = 0;
    snes.cpu.Y = 0;
    run(&mut snes); // PLY
    run(&mut snes); // PLX
    assert_eq!((snes.cpu.X, snes.cpu.Y), (0xAAAA, 0x5555));
    run(&mut snes); // PLD: the bank byte and the low byte of D
    assert_eq!(snes.cpu.D, 0x3480);
    run(&mut snes); // PLB
    assert_eq!(snes.cpu.DBR, 0x12);
    assert_eq!(snes.cpu.S, 0x01FE);
}

#[test]
fn push_effective_addresses() {
    let mut snes = console_with(&[0xF4, 0x34, 0x12, 0x62, 0x10, 0x00, 0xD4, 0x20]);
    write_word(&mut snes, 0x20, 0xBEEF).unwrap();
    assert_eq!(step(&mut snes), Ok((CPUExecutionResult::Normal, 5))); // PEA $1234
    assert_eq!(read_word(&snes, 0x01FE), Ok(0x1234));
    assert_eq!(step(&mut snes), Ok((CPUExecutionResult::Normal, 6))); // PER +$10
    assert_eq!(read_word(&snes, 0x01FC), Ok(0x8003 + 3 + 0x10));
    assert_eq!(step(&mut snes), Ok((CPUExecutionResult::Normal, 6))); // PEI ($20)
    assert_eq!(read_word(&snes, 0x01FA), Ok(0xBEEF));
    assert_eq!(snes.cpu.S, 0x01F9);
    assert_eq!(snes.cpu.PC, 0x8008);
}

#[test]
fn push_into_rom_fails_and_changes_nothing() {
    let mut snes = console_with(&[0x48]);
    snes.cpu.S = 0x9000;
    let before = snes.cpu;
    assert_eq!(step(&mut snes), Err(EmuError::WriteToReadOnly(0x00_9000)));
    assert_eq!(snes.cpu, before);
}

#[test]
fn branches() {
    let taken: [(u8, fn(&mut Flags)); 8] = [
        (0x90, |p| p.c = false),
        (0xB0, |p| p.c = true),
        (0xF0, |p| p.z = true),
        (0xD0, |p| p.z = false),
        (0x30, |p| p.n = true),
        (0x10, |p| p.n = false),
        (0x50, |p| p.v = false),
        (0x70, |p| p.v = true),
    ];
    for (byte, prepare) in taken {
        let mut snes = console_with(&[byte, 0x10]);
        snes.cpu.P.c = !snes.cpu.P.c;
        prepare(&mut snes.cpu.P);
        assert_eq!(step(&mut snes), Ok((CPUExecutionResult::BranchTaken, 3)), "{:02X}", byte);
        assert_eq!(snes.cpu.get_pc(), 0x808012);
    }
    let mut snes = console_with(&[0xF0, 0x10]);
    snes.cpu.P.z = false;
    assert_eq!(step(&mut snes), Ok((CPUExecutionResult::Normal, 2)));
    assert_eq!(snes.cpu.get_pc(), 0x808002);
    let mut snes = console_with(&[0x82, 0x00, 0x10]);
    assert_eq!(step(&mut snes), Ok((CPUExecutionResult::BranchTaken, 4)));
    assert_eq!(snes.cpu.get_pc(), 0x809003);
}

#[test]
fn branch_across_a_page_costs_a_cycle_in_emulation_mode() {
    let mut snes = console_with(&[0x80, 0xFD]);
    assert_eq!(step(&mut snes), Ok((CPUExecutionResult::BranchTaken, 3)));
    assert_eq!(snes.cpu.get_pc(), 0x807FFF);
    let mut snes = console_with(&[0x80, 0xFD]);
    snes.cpu.P.e = true;
    assert_eq!(step(&mut snes), Ok((CPUExecutionResult::BranchTaken, 4)));
}

#[test]
fn jumps_calls_and_returns() {
    let mut snes = console_with(&[0x5C, 0x00, 0x90, 0x81]);
    assert_eq!(step(&mut snes), Ok((CPUExecutionResult::Jump, 4)));
    assert_eq!(snes.cpu.get_pc(), 0x819000);

    let mut snes = console_with(&[0x22, 0x00, 0x90, 0x81]);
    assert_eq!(step(&mut snes), Ok((CPUExecutionResult::Subroutine(0x819000), 8)));
    assert_eq!(snes.cpu.get_pc(), 0x819000);
    assert_eq!(snes.cpu.S, 0x01FC);
    assert_eq!(read_byte(&snes, 0x01FF), Ok(0x80));
    assert_eq!(read_word(&snes, 0x01FD), Ok(0x8002));

    let mut snes = console_with(&[0x6B]);
    snes.cpu.S = 0x01FC;
    write_word(&mut snes, 0x01FD, 0x1233).unwrap();
    write_byte(&mut snes, 0x01FF, 0x7E).unwrap();
    assert_eq!(step(&mut snes), Ok((CPUExecutionResult::Return, 6)));
    assert_eq!(snes.cpu.get_pc(), 0x7E1234);
    assert_eq!(snes.cpu.S, 0x01FF);

    let mut snes = console_with(&[0x40]);
    snes.cpu.S = 0x01FB;
    write_byte(&mut snes, 0x01FC, 0b1100_0011).unwrap();
    write_word(&mut snes, 0x01FD, 0x4321).unwrap();
    write_byte(&mut snes, 0x01FF, 0x7F).unwrap();
    assert_eq!(step(&mut snes), Ok((CPUExecutionResult::Return, 7)));
    assert_eq!(snes.cpu.get_pc(), 0x7F4321);
    assert_eq!(snes.cpu.p_byte(), 0b1100_0011);
}

#[test]
fn software_interrupts() {
    let mut snes = console_with(&[0x00]);
    snes.cpu.P.d = true;
    snes.cpu.P.i = false;
    snes.cpu.P.c = true;
    let status = snes.cpu.p_byte();
    assert_eq!(step(&mut snes), Ok((CPUExecutionResult::Interrupt, 8)));
    assert_eq!(snes.cpu.get_pc(), 0x009100);
    assert!(!snes.cpu.P.d && snes.cpu.P.i);
    assert_eq!(read_byte(&snes, 0x01FF), Ok(0x80));
    assert_eq!(read_word(&snes, 0x01FD), Ok(0x8002));
    assert_eq!(read_byte(&snes, 0x01FC), Ok(status));
    assert_eq!(snes.cpu.S, 0x01FB);

    let mut snes = console_with(&[0x02, 0x00]);
    assert_eq!(step(&mut snes), Ok((CPUExecutionResult::Interrupt, 8)));
    assert_eq!(snes.cpu.get_pc(), 0x009000);

    // In emulation mode the emulation vector is taken and BRK pushes the
    // break bit.
    let mut snes = console_with(&[0x00]);
    snes.cpu.P.e = true;
    snes.cpu.S = 0x01FF;
    assert_eq!(step(&mut snes), Ok((CPUExecutionResult::Interrupt, 7)));
    assert_eq!(snes.cpu.get_pc(), 0x009600);
    assert_eq!(read_byte(&snes, 0x01FC).unwrap() & 0x10, 0x10);
}

#[test]
fn nmi_enters_through_its_vector() {
    let mut snes = console_with(&[0xEA]);
    snes.cpu.P.d = true;
    let status = snes.cpu.p_byte();
    execute_nmi(&mut snes).unwrap();
    assert_eq!(snes.cpu.get_pc(), 0x009300);
    assert!(snes.cpu.P.i && !snes.cpu.P.d);
    assert_eq!(read_byte(&snes, 0x01FF), Ok(0x80));
    assert_eq!(read_word(&snes, 0x01FD), Ok(0x8000));
    assert_eq!(read_byte(&snes, 0x01FC), Ok(status));
    snes.cpu.P.e = true;
    snes.cpu.S = 0x01FF;
    execute_nmi(&mut snes).unwrap();
    assert_eq!(snes.cpu.get_pc(), 0x009800);
}

#[test]
fn xce_leaves_emulation_mode() {
    let mut snes = console_with(&[0xFB]);
    snes.cpu.set_pc(0x008000);
    snes.cpu.P.e = true;
    snes.cpu.P.c = false;
    snes.cpu.S = 0x01F0;
    assert_eq!(step(&mut snes), Ok((CPUExecutionResult::Normal, 2)));
    assert!(!snes.cpu.P.e && snes.cpu.P.c);
    assert!(snes.cpu.P.m && snes.cpu.P.x);
    assert_eq!(snes.cpu.S >> 8, 0x01);
}

#[test]
fn xce_twice_changes_only_the_program_counter() {
    let mut snes = console_with(&[0xFB, 0xFB]);
    snes.cpu.P.e = true;
    snes.cpu.P.c = false;
    snes.cpu.A = 0x1234;
    let before = snes.cpu;
    let ram = snes.ram.clone();
    run(&mut snes);
    run(&mut snes);
    let mut expected = before;
    expected.PC = before.PC + 2;
    assert_eq!(snes.cpu, expected);
    assert_eq!(snes.ram, ram);
}

fn emulation_invariant(cpu: &CPU) -> bool {
    !cpu.P.e || (cpu.P.m && cpu.P.x && cpu.S >> 8 == 0x01)
}

#[test]
fn emulation_invariant_holds_after_every_operation() {
    for byte in 0..=255u8 {
        let mut snes = console_with(&[byte, 0x30, 0x00, 0x00]);
        snes.cpu.P.e = true;
        snes.cpu.P.c = byte & 1 == 1;
        snes.cpu.A = 0x1234;
        snes.cpu.X = 0x00F0;
        snes.cpu.S = 0x0100 | byte as u16;
        assert!(emulation_invariant(&snes.cpu));
        let _ = step(&mut snes);
        assert!(emulation_invariant(&snes.cpu), "after {:02X}", byte);
    }
}

#[test]
fn failing_instruction_reports_the_error() {
    let mut snes = console_with(&[0xAD, 0x00, 0x21]);
    snes.cpu.DBR = 0;
    let before = snes.cpu;
    assert_eq!(step(&mut snes), Err(EmuError::UnknownRegister(0x00_2100)));
    assert_eq!(snes.cpu, before);
    // A step from an unreadable address fails before anything is decoded.
    snes.cpu.set_pc(0x002100);
    assert_eq!(step(&mut snes), Err(EmuError::UnknownRegister(0x00_2100)));
}

#[test]
fn executing_a_hand_made_instruction() {
    let mut snes = console_with(&[]);
    snes.cpu.A = 0x0042;
    let store = InstructionContext {
        opcode: OpCode::STA,
        mode: AddrMode::Absolute,
        inst_addr: 0x808000,
        data_addr: 0x7E_0010,
        dest_addr: None,
    };
    assert_eq!(execute_instruction(&mut snes, &store), Ok(CPUExecutionResult::Normal));
    assert_eq!(snes.ram[0x10], 0x42);
    assert_eq!(snes.cpu.PC, 0x8003);
}

// ---------------------------------------------------------------------
// Cycles
// ---------------------------------------------------------------------

#[test]
fn cycle_table_samples() {
    let mut snes = console_with(&[]);
    let cycles = |snes: &Console, op, mode| calculate_cycles(snes, &context(op, mode));
    assert_eq!(cycles(&snes, OpCode::LDA, AddrMode::Immediate), Some(2));
    assert_eq!(cycles(&snes, OpCode::LDA, AddrMode::Absolute), Some(4));
    assert_eq!(cycles(&snes, OpCode::LDA, AddrMode::LongX), Some(5));
    assert_eq!(cycles(&snes, OpCode::INC, AddrMode::Direct), Some(5));
    assert_eq!(cycles(&snes, OpCode::PHA, AddrMode::Implied), Some(3));
    assert_eq!(cycles(&snes, OpCode::RTI, AddrMode::Implied), Some(7));
    assert_eq!(cycles(&snes, OpCode::JSR, AddrMode::Absolute), Some(6));
    assert_eq!(cycles(&snes, OpCode::XBA, AddrMode::Implied), Some(3));
    snes.cpu.P.m = false;
    snes.cpu.P.x = false;
    snes.cpu.D = 0x0001;
    assert_eq!(cycles(&snes, OpCode::LDA, AddrMode::Immediate), Some(3));
    assert_eq!(cycles(&snes, OpCode::LDA, AddrMode::Direct), Some(5));
    assert_eq!(cycles(&snes, OpCode::INC, AddrMode::Direct), Some(8));
    assert_eq!(cycles(&snes, OpCode::LDX, AddrMode::Immediate), Some(3));
    assert_eq!(cycles(&snes, OpCode::PEI, AddrMode::Direct), Some(7));
    snes.cpu.P.e = true;
    assert_eq!(cycles(&snes, OpCode::RTI, AddrMode::Implied), Some(6));
    assert_eq!(cycles(&snes, OpCode::BRK, AddrMode::Implied), Some(7));
    // A pairing that no opcode encodes has no count.
    assert_eq!(cycles(&snes, OpCode::JMP, AddrMode::Immediate), None);
    assert_eq!(cycles(&snes, OpCode::STZ, AddrMode::Long), None);
}

#[test]
fn index_page_crossing_costs_a_cycle_with_wide_index() {
    let mut snes = console_with(&[]);
    snes.cpu.P.x = false;
    snes.cpu.X = 0x0020;
    let mut i = context(OpCode::LDA, AddrMode::AbsoluteX);
    i.data_addr = 0x7E_1010; // from $7E:0FF0
    assert_eq!(calculate_cycles(&snes, &i), Some(6));
    i.data_addr = 0x7E_1030; // from $7E:1010
    assert_eq!(calculate_cycles(&snes, &i), Some(5));
    snes.cpu.P.x = true;
    i.data_addr = 0x7E_1010;
    assert_eq!(calculate_cycles(&snes, &i), Some(5));
}

#[test]
fn every_opcode_has_a_cycle_count() {
    for byte in 0..=255u8 {
        let snes = console_with(&[byte, 0, 0, 0]);
        let i = decode_instruction(&snes, byte, 0x808000).unwrap();
        let cycles = calculate_cycles(&snes, &i);
        assert!(matches!(cycles, Some(2..=10)), "{:02X}: {:?}", byte, cycles);
    }
}

// ---------------------------------------------------------------------
// The disassembler
// ---------------------------------------------------------------------

#[test]
fn walk_follows_width_changes() {
    let mut snes = console_with(&[0xC2, 0x30, 0xA9, 0x34, 0x12, 0xEA, 0x00]);
    snes.cpu.P.m = true;
    snes.cpu.P.x = true;
    let before = snes.cpu;
    let listing = debug_simulation(&snes, 10).unwrap();
    assert_eq!(snes.cpu, before);
    assert_eq!(listing.lines.len(), 4);
    let second = &listing.lines[1].disassembled;
    assert_eq!(second.location, 0x808002);
    assert_eq!(second.instruction.opcode, OpCode::LDA);
    assert!(!second.status.m && !second.status.x);
    assert_eq!(second.instruction.length(second.status.m, second.status.x), 3);
    assert_eq!(second.data, 0x1234);
    assert_eq!(listing.lines[0].disassembled.data, 0xA930);
    assert_eq!(listing.lines[2].location, 0x808005);
    assert_eq!(listing.lines[3].disassembled.instruction.opcode, OpCode::BRK);
    assert_eq!(listing.startloc, 0x808000);
    // The walk ran the BRK and stands at its vector.
    assert_eq!(listing.endloc, 0x009100);
    assert!(listing.branchtable.is_empty());
}

#[test]
fn walk_stops_at_the_line_limit() {
    let snes = console_with(&[0xEA; 64]);
    assert_eq!(debug_simulation(&snes, 0).unwrap().lines.len(), 0);
    let listing = debug_simulation(&snes, 7).unwrap();
    assert_eq!(listing.lines.len(), 7);
    assert_eq!(listing.endloc, 0x808007);
    for (k, line) in listing.lines.iter().enumerate() {
        assert_eq!(line.location, 0x808000 + k as u32);
        assert_eq!(line.disassembled.location, line.location);
        assert!(line.flags.is_empty());
    }
    assert_eq!(debug_instructions(&snes, 0x808000).unwrap().len(), 31);
}

#[test]
fn branch_targets_resolve_or_are_reset() {
    // BNE +2; NOP; NOP; NOP; BRA +$10
    let snes = console_with(&[0xD0, 0x02, 0xEA, 0xEA, 0xEA, 0x80, 0x10]);
    let listing = debug_simulation(&snes, 20).unwrap();
    assert_eq!(listing.lines.len(), 5);
    assert_eq!(listing.branchtable, vec![0, 4]);
    assert_eq!(listing.lines[0].disassembled.branchto, Some(0x808004));
    assert_eq!(listing.lines[3].disassembled.branchfrom, vec![0x808000]);
    // The target of the BRA lies behind the window.
    assert_eq!(listing.lines[4].disassembled.branchto, None);
    for line in &listing.lines {
        if let Some(target) = line.disassembled.branchto {
            assert!(listing.lines.iter().any(|l| l.location == target));
        }
    }
    for k in [0, 1, 2, 4] {
        assert!(listing.lines[k].disassembled.branchfrom.is_empty());
    }

    let drawn = render_wrapped_instructions(listing);
    assert_eq!(drawn.branchdepth, 1);
    assert_eq!(drawn.lines[0].flags, vec![Flag::BranchStart(0x808000)]);
    assert_eq!(drawn.lines[1].flags, vec![Flag::BranchCont(0x808002)]);
    assert_eq!(drawn.lines[2].flags, vec![Flag::BranchCont(0x808003)]);
    assert_eq!(drawn.lines[3].flags, vec![Flag::BranchEnd(0x808004)]);
    assert!(drawn.lines[4].flags.is_empty());
}

#[test]
fn branch_between_instructions_is_reset() {
    // BNE +1 lands in the middle of LDA #$EA; then BRK.
    let snes = console_with(&[0xD0, 0x01, 0xA9, 0xEA, 0x00]);
    let listing = debug_simulation(&snes, 20).unwrap();
    assert_eq!(listing.lines.len(), 3);
    assert_eq!(listing.branchtable, vec![0]);
    assert_eq!(listing.lines[0].disassembled.branchto, None);
}

#[test]
fn backward_branch_draws_upward() {
    // NOP; NOP; BNE -3 (to the second NOP); BRK
    let snes = console_with(&[0xEA, 0xEA, 0xD0, 0xFD, 0x00]);
    let listing = debug_simulation(&snes, 20).unwrap();
    assert_eq!(listing.lines[2].disassembled.branchto, Some(0x808001));
    assert_eq!(listing.lines[1].disassembled.branchfrom, vec![0x808002]);
    let drawn = render_wrapped_instructions(listing);
    assert!(drawn.lines[0].flags.is_empty());
    assert_eq!(drawn.lines[1].flags, vec![Flag::BranchStart(0x808001)]);
    assert_eq!(drawn.lines[2].flags, vec![Flag::BranchEnd(0x808002)]);
    assert!(drawn.lines[3].flags.is_empty());
    assert_eq!(drawn.branchdepth, 1);
}

#[test]
fn nested_arrows_stack() {
    // BNE +4; BEQ +1; NOP; NOP; NOP; BRK
    let snes = console_with(&[0xD0, 0x04, 0xF0, 0x01, 0xEA, 0xEA, 0xEA, 0x00]);
    let listing = debug_simulation(&snes, 20).unwrap();
    assert_eq!(listing.branchtable, vec![0, 1]);
    let drawn = render_wrapped_instructions(listing);
    assert_eq!(drawn.branchdepth, 2);
    assert_eq!(drawn.lines[1].flags, vec![Flag::BranchCont(0x808002), Flag::BranchStart(0x808002)]);
    assert_eq!(drawn.lines[3].flags, vec![Flag::BranchCont(0x808005), Flag::BranchEnd(0x808005)]);
    assert_eq!(drawn.lines[4].flags, vec![Flag::BranchEnd(0x808006)]);
}

#[test]
fn stalled_walk_carries_lines_and_machine() {
    // NOP; LDA $2100 cannot be read.
    let mut snes = console_with(&[0xEA, 0xAD, 0x00, 0x21, 0xEA]);
    snes.cpu.DBR = 0;
    match debug_simulation(&snes, 10) {
        Err(DisassemblerError::DisassemblyError(stalled)) => {
            assert_eq!(stalled.source, EmuError::UnknownRegister(0x00_2100));
            assert_eq!(stalled.instructions.len(), 2);
            assert_eq!(stalled.instructions[1].location, 0x808001);
            assert_eq!(stalled.status.cpu.get_pc(), 0x808001);
            let text = stalled.to_string();
            assert_eq!(
                text,
                "$808000: NOP (Implied)\n=> $808001: LDA $002100 (Absolute) <=\nerror: unknown register at $002100"
            );
        }
        other => panic!("{:?}", other),
    }
    snes.cpu.set_pc(0x002100);
    match debug_simulation(&snes, 10) {
        Err(DisassemblerError::Other(e)) => assert_eq!(e, EmuError::UnknownRegister(0x00_2100)),
        other => panic!("{:?}", other),
    }
}

#[test]
fn static_walk_follows_flags_without_executing() {
    let mut snes = console_with(&[0xC2, 0x20, 0xA9, 0x34, 0x12, 0xE2, 0x30, 0xA2, 0x01, 0xFB, 0x4C, 0x00, 0x80]);
    snes.cpu.P.e = true;
    snes.cpu.P.c = true;
    let listed = debug_instructions(&snes, 0x808000).unwrap();
    let shape: Vec<(u32, OpCode, bool, bool, bool)> = listed
        .iter()
        .map(|w| (w.location, w.instruction.opcode, w.status.m, w.status.x, w.status.e))
        .collect();
    assert_eq!(
        shape,
        vec![
            (0x808000, OpCode::REP, true, true, true),
            (0x808002, OpCode::LDA, false, true, true),
            (0x808005, OpCode::SEP, false, true, true),
            (0x808007, OpCode::LDX, true, true, true),
            (0x808009, OpCode::XCE, true, true, true),
            (0x80800A, OpCode::JMP, true, true, false),
        ]
    );
    assert_eq!(listed[1].data, 0x1234);
    // Nothing was executed.
    assert!(snes.cpu.P.e && snes.cpu.P.m);
}

// ---------------------------------------------------------------------
// Text
// ---------------------------------------------------------------------

#[test]
fn texts() {
    let mut cpu = CPU::new();
    cpu.A = 0x12AB;
    cpu.DBR = 0x7E;
    cpu.K = 0x80;
    cpu.PC = 0x8000;
    assert_eq!(cpu.P.to_string(), "nvMXdizcEb");
    assert_eq!(
        cpu.to_string(),
        "A:   12AB\nX:   0000\nY:   0000\nS:   0100\nDBR: 007E\nD:   0000\nK:   80\nP:   nvMXdizcEb\nPC:  $8000"
    );
    assert_eq!(EmuError::BadAddress(0xABCDEF).to_string(), "bad address $ABCDEF");
    assert_eq!(EmuError::WriteToReadOnly(0x8000).to_string(), "write to ROM at $008000");
    assert_eq!(EmuError::UnknownOpcode(0x0F).to_string(), "unknown opcode $0F");
    assert_eq!(
        EmuError::OutOfRomBounds { offset: 0x10001, rom_size: 0x10000 }.to_string(),
        "ROM offset $010001 lies outside the image of $010000 bytes"
    );
    assert_eq!(EmuError::Unimplemented(Feature::Decimal).to_string(), "unimplemented: decimal");
    assert_eq!(
        EmuError::HeaderInvalid(HeaderFault::UnknownRegion(0x7F)).to_string(),
        "invalid header: unknown region $7F"
    );
}

#[test]
fn instruction_text_with_source() {
    let mut snes = console_with(&[0xA9, 0x34, 0x12]);
    let i = decode_instruction(&snes, 0xA9, 0x808000).unwrap();
    assert_eq!(i.with_source(&snes).to_string(), "$808000: LDA #$34");
    snes.cpu.P.m = false;
    assert_eq!(i.with_source(&snes).to_string(), "$808000: LDA #$1234");
    let absolute = context(OpCode::STA, AddrMode::Absolute);
    assert_eq!(absolute.with_source(&snes).to_string(), "$808000: STA $808001");
    let mut unreadable = context(OpCode::LDA, AddrMode::Immediate);
    unreadable.data_addr = 0x002100;
    assert_eq!(unreadable.with_source(&snes).to_string(), "$808000: LDA #$??");
}

// ---------------------------------------------------------------------
// The loader
// ---------------------------------------------------------------------

/// An image of `len` bytes with a header at `base` and the checksum of the
/// whole in it.
fn image(len: usize, base: usize) -> Vec<u8> {
    let mut rom = vec![0u8; len];
    rom[base..base + 0x15].copy_from_slice(b"VERIFIED CARTRIDGE   ");
    rom[base + 0x15] = 0x30;
    rom[base + 0x16] = 0x02;
    rom[base + 0x17] = 0x08;
    rom[base + 0x18] = 0x03;
    rom[base + 0x19] = 0x01;
    rom[base + 0x1A] = 0xC3;
    rom[base + 0x1B] = 0x02;
    for k in 0..14 {
        rom[base + 0x24 + 2 * k] = k as u8;
        rom[base + 0x25 + 2 * k] = 0x80 + k as u8;
    }
    seal(&mut rom, base);
    rom
}

/// Writes the checksum of the image, and its complement, into the header
/// at `base`.
fn seal(rom: &mut Vec<u8>, base: usize) {
    rom[base + 0x1C..base + 0x20].copy_from_slice(&[0xFF, 0xFF, 0, 0]);
    let mut head = 0x8000;
    while head * 2 <= rom.len() {
        head *= 2;
    }
    let sum = |bytes: &[u8]| bytes.iter().fold(0u16, |s, b| s.wrapping_add(*b as u16));
    let checksum = sum(&rom[..head]).wrapping_add(sum(&rom[head..]).wrapping_mul(2));
    rom[base + 0x1C..base + 0x1E].copy_from_slice(&(!checksum).to_le_bytes());
    rom[base + 0x1E..base + 0x20].copy_from_slice(&checksum.to_le_bytes());
}

#[test]
fn header_fields() {
    let rom = image(0x8000, 0x7FC0);
    let header = load_rom_header(&rom, false).unwrap();
    assert_eq!(header.title, "VERIFIED CARTRIDGE   ");
    assert_eq!(header.map_mode, MapMode::LoROM);
    assert_eq!(header.rom_speed, RomSpeed::Fast);
    assert_eq!(header.extra_hardware, CartHardware::new(ExtraHardware::RomRamBattery, None));
    assert_eq!(header.rom_size, 256 * 1024);
    assert_eq!(header.ram_size, 8 * 1024);
    assert_eq!(header.country, Region::NTSC);
    assert_eq!(header.developer_id, 0xC3);
    assert_eq!(header.rom_version, 2);
    assert_eq!(header.checksum, u16::from_le_bytes([rom[0x7FDE], rom[0x7FDF]]));
    assert_eq!(header.checksum_complement, !header.checksum);
    let v = header.interrupt_vectors;
    assert_eq!(
        (v.cop, v.brk, v.abort, v.nmi, v.irq),
        (0x8000, 0x8101, 0x8202, 0x8303, 0x8505)
    );
    assert_eq!(
        (v.cop_emu, v.brk_emu, v.abort_emu, v.nmi_emu, v.reset, v.irq_emu),
        (0x8808, 0x8909, 0x8A0A, 0x8B0B, 0x8C0C, 0x8D0D)
    );
    assert!(header.expanded_header.is_none());
    let cartridge = cartridge_of(rom.clone(), false).unwrap();
    assert_eq!(cartridge.rom_data, rom);
    assert_eq!(cartridge.header.title, header.title);
}

#[test]
fn map_mode_detection() {
    assert_eq!(load_rom_header(&image(0x10000, 0x7FC0), false).unwrap().map_mode, MapMode::LoROM);
    assert_eq!(load_rom_header(&image(0x10000, 0xFFC0), false).unwrap().map_mode, MapMode::HiROM);
    let big = image(0x410000 + 0x3F0000, 0x40FFC0);
    assert_eq!(load_rom_header(&big, false).unwrap().map_mode, MapMode::ExHiROM);
    // An image of a head and a tail: the bytes of the tail count twice.
    let mut split = image(0x18000, 0x7FC0);
    split[0x17000] = 0x55;
    assert_eq!(
        load_rom_header(&split, false).err(),
        Some(EmuError::HeaderInvalid(HeaderFault::NoChecksum))
    );
    seal(&mut split, 0x7FC0);
    let header = load_rom_header(&split, false).unwrap();
    let plain: u16 = split.iter().fold(0u16, |s, b| s.wrapping_add(*b as u16));
    assert_eq!(header.checksum.wrapping_sub(plain), 0x55);
}

#[test]
fn bypassing_the_checksum() {
    let mut rom = image(0x800000, 0x40FFC0);
    rom[0] = 1;
    assert_eq!(
        load_rom_header(&rom, false).err(),
        Some(EmuError::HeaderInvalid(HeaderFault::NoChecksum))
    );
    let header = load_rom_header(&rom, true).unwrap();
    assert_eq!(header.map_mode, MapMode::ExHiROM);
    assert_eq!(header.title, "VERIFIED CARTRIDGE   ");
    let mut small = image(0x8000, 0x7FC0);
    small[0] = 1;
    assert_eq!(
        load_rom_header(&small, true).err(),
        Some(EmuError::HeaderInvalid(HeaderFault::NoChecksum))
    );
}

#[test]
fn header_faults() {
    let fault = |rom: &Vec<u8>| match load_rom_header(rom, false) {
        Err(EmuError::HeaderInvalid(f)) => f,
        other => panic!("{:?}", other.map(|h| h.title)),
    };
    assert_eq!(fault(&vec![0u8; 0x100]), HeaderFault::NotPowerOfTwo);
    assert_eq!(fault(&vec![0u8; 0x9000]), HeaderFault::NotPowerOfTwo);
    assert_eq!(fault(&vec![0u8; 0x1C000]), HeaderFault::NotPowerOfTwo);
    assert_eq!(fault(&vec![0u8; 0x8000]), HeaderFault::NoChecksum);
    let with = |at: usize, value: u8| {
        let mut rom = image(0x8000, 0x7FC0);
        rom[0x7FC0 + at] = value;
        seal(&mut rom, 0x7FC0);
        rom
    };
    assert_eq!(fault(&with(0x03, 0xFF)), HeaderFault::BadTitle);
    assert_eq!(fault(&with(0x16, 0x07)), HeaderFault::UnknownHardware(7));
    assert_eq!(fault(&with(0x16, 0x63)), HeaderFault::UnknownCoprocessor(6));
    assert_eq!(fault(&with(0x17, 22)), HeaderFault::SizeTooLarge(22));
    assert_eq!(fault(&with(0x18, 0xFF)), HeaderFault::SizeTooLarge(0xFF));
    assert_eq!(fault(&with(0x19, 2)), HeaderFault::UnknownRegion(2));
    let coprocessor = load_rom_header(&with(0x16, 0xF5), false).unwrap().extra_hardware;
    assert_eq!(
        coprocessor,
        CartHardware::new(ExtraHardware::RomCoprocessorRamBattery, Some(Coprocessor::Custom))
    );
    assert_eq!(load_rom_header(&with(0x17, 21), false).unwrap().rom_size, 0x8000_0000);
    assert_eq!(load_rom_header(&with(0x19, 0), false).unwrap().country, Region::PAL);
}

#[test]
fn expanded_header() {
    let expanded = |patch: &dyn Fn(&mut Vec<u8>)| {
        let mut rom = image(0x8000, 0x7FC0);
        rom[0x7FC0 + 0x1A] = 0x33;
        rom[0x7FB0..0x7FB4].copy_from_slice(b"01AB");
        rom[0x7FBC] = 1;
        rom[0x7FBD] = 2;
        rom[0x7FBE] = 9;
        rom[0x7FBF] = 0x30;
        patch(&mut rom);
        seal(&mut rom, 0x7FC0);
        load_rom_header(&rom, false)
    };
    let header = expanded(&|_| {}).unwrap().expanded_header.unwrap();
    assert_eq!(header.maker_code, "01");
    assert_eq!(header.game_code, "AB");
    assert_eq!(header.expansion_rom_size, 2048);
    assert_eq!(header.expansion_ram_size, 4096);
    assert_eq!(header.special_version, 9);
    assert_eq!(format!("{:?}", header.chipset_subtype), "CX4");
    assert_eq!(
        expanded(&|rom| rom[0x7FB1] = 0xC0).err(),
        Some(EmuError::HeaderInvalid(HeaderFault::BadCode))
    );
    assert_eq!(
        expanded(&|rom| rom[0x7FB3] = 0xFF).err(),
        Some(EmuError::HeaderInvalid(HeaderFault::BadCode))
    );
    assert_eq!(
        expanded(&|rom| rom[0x7FBF] = 0x40).err(),
        Some(EmuError::HeaderInvalid(HeaderFault::UnknownChipset(4)))
    );
    assert_eq!(
        expanded(&|rom| rom[0x7FBC] = 40).err(),
        Some(EmuError::HeaderInvalid(HeaderFault::SizeTooLarge(40)))
    );
    // A title that starts with a zero byte announces one as well.
    let mut rom = image(0x8000, 0x7FC0);
    rom[0x7FC0] = 0;
    rom[0x7FB0..0x7FB4].copy_from_slice(b"ZZYY");
    seal(&mut rom, 0x7FC0);
    assert_eq!(load_rom_header(&rom, false).unwrap().expanded_header.unwrap().game_code, "YY");
}

// ---------------------------------------------------------------------
// The command line of the debugger
// ---------------------------------------------------------------------

#[test]
fn command_words_and_numbers() {
    assert_eq!(parse_command(""), Ok(Request::Nothing));
    assert_eq!(parse_command("   \t "), Ok(Request::Nothing));
    assert_eq!(parse_command("help me"), Ok(Request::Nothing));
    assert_eq!(parse_command("nmi"), Ok(Request::NMI));
    assert_eq!(parse_command("  NMI  now"), Ok(Request::NMI));
    assert_eq!(parse_command("nmix"), Ok(Request::Nothing));
    assert_eq!(parse_command("x 1f"), Ok(Request::SetX(0x001F)));
    assert_eq!(parse_command("X\tFFFF trailing"), Ok(Request::SetX(0xFFFF)));
    assert_eq!(parse_command("x 10000"), Err(CommandFault::TooLarge));
    assert_eq!(parse_command("x"), Err(CommandFault::MissingNumber));
    assert_eq!(parse_command("x 12g4"), Err(CommandFault::BadDigit));
    assert_eq!(parse_command("x fffffffffffffffffffffg"), Err(CommandFault::BadDigit));
    assert_eq!(parse_command("b 808000"), Ok(Request::Breakpoint(0x808000)));
    assert_eq!(parse_command("b 0000000000FFFFFFFF"), Ok(Request::Breakpoint(0xFFFF_FFFF)));
    assert_eq!(parse_command("b 100000000"), Err(CommandFault::TooLarge));
    assert_eq!(parse_command("p 00110000"), Ok(Request::SetP(0x30)));
    assert_eq!(parse_command("p 11111111"), Ok(Request::SetP(0xFF)));
    assert_eq!(parse_command("p 100000000"), Err(CommandFault::TooLarge));
    assert_eq!(parse_command("p 2"), Err(CommandFault::BadDigit));
}

#[test]
fn commands_on_the_console() {
    let mut snes = console_with(&[]);
    let before = snes.cpu;
    assert_eq!(execute_command("x beef", &mut snes), Ok(DebuggerCommand::Default));
    assert_eq!(snes.cpu.X, 0xBEEF);
    assert_eq!(execute_command("p 11000011", &mut snes), Ok(DebuggerCommand::Default));
    assert_eq!(snes.cpu.p_byte(), 0b1100_0011);
    let changed = snes.cpu;
    assert_eq!(execute_command("b 80ABCD", &mut snes), Ok(DebuggerCommand::Breakpoint(0x80ABCD)));
    assert_eq!(execute_command("nmi", &mut snes), Ok(DebuggerCommand::NMI));
    assert_eq!(execute_command("x zz", &mut snes), Err(CommandFault::BadDigit));
    assert_eq!(execute_command("", &mut snes), Ok(DebuggerCommand::Default));
    assert_eq!(snes.cpu, changed);
    assert_eq!((before.A, before.S), (changed.A, changed.S));
}
