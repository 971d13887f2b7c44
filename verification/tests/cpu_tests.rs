use snes_core::address::decode_instruction;
use snes_core::cartridge::{
    CartHardware, Cartridge, ExtraHardware, InterruptVectorTable, MapMode, Region, RomHeader,
    RomSpeed,
};
use snes_core::console::Console;
use snes_core::cpu::CPU;
use snes_core::error::EmuError;
use snes_core::execute::execute_instruction;
use snes_core::memory;
use snes_core::opcode::{decode_addressing_mode, AddrMode};
use snes_core::registers::{DMARegisters, MMIORegisters};
use snes_core::semantics::CPUExecutionResult;

#[test]
fn test_addrmode_decode() {
    for x in 0..=0xFF {
        let addrmode = decode_addressing_mode(x);
        match addrmode {
            Result::Ok(_) => assert!(true),
            Err(_) => {
                assert!(false, "{:02X}: {:?}", x, addrmode);
            }
        }
    }
}

#[test]
fn test_accumulator_mode_opcodes() {
    // Test that shift/rotate and increment/decrement instructions on accumulator
    // use the correct Accumulator addressing mode
    let test_cases = [
        (0x0A, "ASL A"),
        (0x2A, "ROL A"),
        (0x4A, "LSR A"),
        (0x6A, "ROR A"),
        (0x1A, "INC A"),
        (0x3A, "DEC A"),
    ];

    for (opcode, name) in test_cases {
        let result = decode_addressing_mode(opcode).unwrap();
        assert_eq!(
            result,
            AddrMode::Accumulator,
            "{} (0x{:02X}) should be Accumulator mode, got {:?}",
            name,
            opcode,
            result
        );
    }
}

fn setup_test_console() -> Console {
    // A minimal console for testing
    let cartridge = Cartridge {
        header: RomHeader {
            title: "Test ROM".to_string(),
            map_mode: MapMode::LoROM,
            rom_speed: RomSpeed::Slow,
            extra_hardware: CartHardware::new(ExtraHardware::RomOnly, None),
            rom_size: 32 * 1024,
            ram_size: 8 * 1024,
            country: Region::NTSC,
            developer_id: 0,
            rom_version: 0,
            checksum_complement: 0,
            checksum: 0,
            interrupt_vectors: InterruptVectorTable {
                cop: 0,
                brk: 0xFFE6,
                abort: 0,
                nmi: 0,
                irq: 0xFFEE,
                cop_emu: 0,
                brk_emu: 0xFFFE,
                abort_emu: 0,
                nmi_emu: 0,
                reset: 0x8000,
                irq_emu: 0xFFFE,
            },
            expanded_header: None,
        },
        rom_data: vec![0; 32 * 1024],
    };

    let mut snes = Console {
        cpu: CPU::new(),
        cartridge,
        ram: vec![0; 0x200000],
        mmio: MMIORegisters::default(),
        dma: DMARegisters::default(),
    };
    snes.cpu.P.e = false; // native mode
    snes.cpu.P.m = true; // 8-bit accumulator by default for tests
    snes.cpu.P.x = true; // 8-bit index by default for tests
    snes.cpu.P.i = true; // interrupts disabled by default for tests
    snes.cpu.set_pc(0x7E0000); // Point to RAM instead of ROM
    snes
}

// Helper to run a single instruction from a byte slice
fn run_test_instruction(
    snes: &mut Console,
    opcode: &[u8],
) -> Result<CPUExecutionResult, EmuError> {
    // Write opcode to memory at current PC
    for (i, byte) in opcode.iter().enumerate() {
        memory::write_byte(snes, snes.cpu.get_pc() + i as u32, *byte).unwrap();
    }

    let op = memory::read_byte(snes, snes.cpu.get_pc())?;
    let instruction = decode_instruction(snes, op, snes.cpu.get_pc())?;
    execute_instruction(snes, &instruction)
}

#[test]
fn lda_immediate_8bit() {
    let mut snes = setup_test_console();
    snes.cpu.P.m = true; // 8-bit accumulator
    run_test_instruction(&mut snes, &[0xA9, 0x42]).unwrap();
    assert_eq!(snes.cpu.A & 0xFF, 0x42);
    assert_eq!(snes.cpu.P.z, false);
    assert_eq!(snes.cpu.P.n, false);
}

#[test]
fn lda_immediate_16bit() {
    let mut snes = setup_test_console();
    snes.cpu.P.m = false; // 16-bit accumulator
    run_test_instruction(&mut snes, &[0xA9, 0x34, 0x12]).unwrap();
    assert_eq!(snes.cpu.A, 0x1234);
    assert_eq!(snes.cpu.P.z, false);
    assert_eq!(snes.cpu.P.n, false);
}

#[test]
fn ldx_immediate_8bit() {
    let mut snes = setup_test_console();
    snes.cpu.P.x = true; // 8-bit index
    run_test_instruction(&mut snes, &[0xA2, 0x42]).unwrap();
    assert_eq!(snes.cpu.X & 0xFF, 0x42);
}

#[test]
fn ldy_absolute_16bit() {
    let mut snes = setup_test_console();
    snes.cpu.P.x = false; // 16-bit index
    snes.cpu.DBR = 0;
    memory::write_word(&mut snes, 0x1234, 0xABCD).unwrap();
    run_test_instruction(&mut snes, &[0xAC, 0x34, 0x12]).unwrap();
    assert_eq!(snes.cpu.Y, 0xABCD);
}

#[test]
fn sta_absolute_16bit() {
    let mut snes = setup_test_console();
    snes.cpu.P.m = false; // 16-bit accumulator
    snes.cpu.A = 0xABCD;
    snes.cpu.DBR = 0;
    run_test_instruction(&mut snes, &[0x8D, 0x34, 0x12]).unwrap();
    assert_eq!(memory::read_word(&snes, 0x1234).unwrap(), 0xABCD);
}

#[test]
fn stz_direct() {
    let mut snes = setup_test_console();
    snes.cpu.P.m = false; // 16-bit
    snes.cpu.D = 0x1000;
    memory::write_word(&mut snes, 0x1020, 0xFFFF).unwrap();
    run_test_instruction(&mut snes, &[0x64, 0x20]).unwrap();
    assert_eq!(memory::read_word(&snes, 0x1020).unwrap(), 0x0000);
}

#[test]
fn adc_immediate_8bit_no_carry() {
    let mut snes = setup_test_console();
    snes.cpu.P.m = true;
    snes.cpu.A = 0x10;
    snes.cpu.P.c = false;
    run_test_instruction(&mut snes, &[0x69, 0x10]).unwrap();
    assert_eq!(snes.cpu.A & 0xFF, 0x20);
    assert!(!snes.cpu.P.c);
    assert!(!snes.cpu.P.v);
}

#[test]
fn sbc_immediate_8bit_borrow() {
    let mut snes = setup_test_console();
    snes.cpu.P.m = true;
    snes.cpu.A = 0x10;
    snes.cpu.P.c = true; // No borrow
    run_test_instruction(&mut snes, &[0xE9, 0x12]).unwrap();
    assert_eq!(snes.cpu.A & 0xFF, 0xFE); // 16 - 18 = -2
    assert!(!snes.cpu.P.c); // Borrow occurred
}

#[test]
fn inx_16bit_wrap() {
    let mut snes = setup_test_console();
    snes.cpu.P.x = false; // 16-bit index
    snes.cpu.X = 0xFFFF;
    run_test_instruction(&mut snes, &[0xE8]).unwrap();
    assert_eq!(snes.cpu.X, 0x0000);
    assert!(snes.cpu.P.z);
}

#[test]
fn dey_8bit() {
    let mut snes = setup_test_console();
    snes.cpu.P.x = true; // 8-bit index
    snes.cpu.Y = 0x01;
    run_test_instruction(&mut snes, &[0x88]).unwrap();
    assert_eq!(snes.cpu.Y & 0xFF, 0x00);
    assert!(snes.cpu.P.z);
}

#[test]
fn dec_absolute() {
    let mut snes = setup_test_console();
    snes.cpu.P.m = true; // 8-bit mode
    snes.cpu.DBR = 0;
    memory::write_byte(&mut snes, 0x1234, 0x80).unwrap();
    run_test_instruction(&mut snes, &[0xCE, 0x34, 0x12]).unwrap();
    assert_eq!(memory::read_byte(&snes, 0x1234).unwrap(), 0x7F);
}

#[test]
fn beq_not_taken() {
    let mut snes = setup_test_console();
    snes.cpu.P.z = false;
    let start_pc = snes.cpu.get_pc();
    run_test_instruction(&mut snes, &[0xF0, 0x10]).unwrap();
    assert_eq!(snes.cpu.get_pc(), start_pc + 2);
}

#[test]
fn beq_taken() {
    let mut snes = setup_test_console();
    snes.cpu.P.z = true;
    let start_pc = snes.cpu.get_pc();
    run_test_instruction(&mut snes, &[0xF0, 0x10]).unwrap();
    assert_eq!(snes.cpu.get_pc(), start_pc + 2 + 0x10);
}

#[test]
fn jsr_and_rts() {
    let mut snes = setup_test_console();
    snes.cpu.S = 0x1FF;
    let start_pc = snes.cpu.get_pc();

    // JSR $9034
    run_test_instruction(&mut snes, &[0x20, 0x34, 0x90]).unwrap();
    assert_eq!(snes.cpu.get_pc() & 0xFFFF, 0x9034);
    assert_eq!(snes.cpu.S, 0x1FD);

    // RTS
    run_test_instruction(&mut snes, &[0x60]).unwrap();
    assert_eq!(snes.cpu.get_pc(), start_pc + 3);
    assert_eq!(snes.cpu.S, 0x1FF);
}

#[test]
fn pha_pla_16bit() {
    let mut snes = setup_test_console();
    snes.cpu.P.m = false; // 16-bit
    snes.cpu.A = 0xABCD;
    snes.cpu.S = 0x1FF;

    run_test_instruction(&mut snes, &[0x48]).unwrap(); // PHA
    assert_eq!(snes.cpu.S, 0x1FD);
    snes.cpu.A = 0; // Clear accumulator

    run_test_instruction(&mut snes, &[0x68]).unwrap(); // PLA
    assert_eq!(snes.cpu.S, 0x1FF);
    assert_eq!(snes.cpu.A, 0xABCD);
    assert!(snes.cpu.P.n);
}

#[test]
fn php_plp() {
    let mut snes = setup_test_console();
    snes.cpu.S = 0x1FF;
    snes.cpu.P.c = true;
    snes.cpu.P.n = true;

    run_test_instruction(&mut snes, &[0x08]).unwrap(); // PHP

    snes.cpu.P.c = false;
    snes.cpu.P.n = false;

    run_test_instruction(&mut snes, &[0x28]).unwrap(); // PLP
    assert_eq!(snes.cpu.p_byte(), 0b10110101); // N, M, X, I, C should be set as per initial state
}

#[test]
fn tax_16bit() {
    let mut snes = setup_test_console();
    snes.cpu.P.x = false; // 16-bit index
    snes.cpu.A = 0xABCD;
    run_test_instruction(&mut snes, &[0xAA]).unwrap();
    assert_eq!(snes.cpu.X, 0xABCD);
    assert!(snes.cpu.P.n);
}

#[test]
fn txa_8bit() {
    let mut snes = setup_test_console();
    snes.cpu.P.m = true; // 8-bit accumulator
    snes.cpu.A = 0xFF00; // Will be ignored
    snes.cpu.X = 0x12AD;
    run_test_instruction(&mut snes, &[0x8A]).unwrap();
    assert_eq!(snes.cpu.A & 0xFF, 0xAD);
    assert!(snes.cpu.P.n);
}

#[test]
fn tcd_and_tdc() {
    let mut snes = setup_test_console();
    snes.cpu.A = 0x1234;
    run_test_instruction(&mut snes, &[0x5B]).unwrap(); // TCD
    assert_eq!(snes.cpu.D, 0x1234);

    snes.cpu.A = 0;
    run_test_instruction(&mut snes, &[0x7B]).unwrap(); // TDC
    assert_eq!(snes.cpu.A, 0x1234);
}

#[test]
fn clc_sec() {
    let mut snes = setup_test_console();
    snes.cpu.P.c = true;
    run_test_instruction(&mut snes, &[0x18]).unwrap(); // CLC
    assert!(!snes.cpu.P.c);
    run_test_instruction(&mut snes, &[0x38]).unwrap(); // SEC
    assert!(snes.cpu.P.c);
}

#[test]
fn sep_rep_flags() {
    let mut snes = setup_test_console();
    snes.cpu.P.m = false;
    snes.cpu.P.x = false;

    // Set M and X flags
    run_test_instruction(&mut snes, &[0xE2, 0x30]).unwrap(); // SEP #$30
    assert!(snes.cpu.P.m);
    assert!(snes.cpu.P.x);

    // Reset M and X flags
    run_test_instruction(&mut snes, &[0xC2, 0x30]).unwrap(); // REP #$30
    assert!(!snes.cpu.P.m);
    assert!(!snes.cpu.P.x);
}

#[test]
fn xce_native_to_emu() {
    let mut snes = setup_test_console();
    snes.cpu.P.e = false;
    snes.cpu.P.c = true; // C=1 to set E=1
    snes.cpu.P.m = false;
    snes.cpu.P.x = false;
    snes.cpu.S = 0xFFDD;

    run_test_instruction(&mut snes, &[0xFB]).unwrap(); // XCE

    assert!(snes.cpu.P.e);
    assert!(!snes.cpu.P.c); // C becomes old E
    assert!(snes.cpu.P.m); // forced
    assert!(snes.cpu.P.x); // forced
    assert_eq!(snes.cpu.S, 0x01DD); // SH forced to 01
}
