//! The address bus: the map decoder, which says what a 24-bit address
//! selects, and the gateway, which reads and writes bytes and words there.

use vstd::prelude::*;
use crate::cartridge::MapMode;
use crate::console::{Console, Machine};
use crate::error::EmuError;
use crate::registers::{DmaState, MMIORegisters};

verus! {

/// What an address selects.
#[derive(Clone, Copy, Debug, PartialEq, Eq, Structural)]
pub enum Target {
    /// Work RAM, at this offset into its 128 KiB.
    Wram(u32),
    /// A CPU register at `$4200..$4220`, named by its 16-bit offset.
    Mmio(u16),
    /// A register of a DMA channel: the channel, then the register.
    Dma(u8, u8),
    /// The PPU and APU window, named by the 16-bit offset.
    Ppu(u16),
    /// The cartridge's ROM, at this offset into the image.
    Rom(u32),
    /// Nothing: the address has more than 24 bits.
    Invalid,
}

/// The first address past the 24-bit bus.
pub const BUS_SIZE: u32 = 0x1000000;

/// The bank of an address: its bits 16 to 23.
pub open spec fn bank_of(addr: u32) -> int {
    ((addr / 0x10000) % 0x100) as int
}

/// The offset of an address within its bank.
pub open spec fn offset_of(addr: u32) -> int {
    (addr % 0x10000) as int
}

/// Banks `$00..$40` and their mirrors `$80..$C0`, whose lower half holds the
/// system area.
pub open spec fn is_system_bank(bank: int) -> bool {
    bank % 0x80 < 0x40
}

/// The address after `addr` on the 24-bit bus.
pub open spec fn next_address(addr: u32) -> u32 {
    if addr >= 0xFFFFFF {
        0
    } else {
        (addr + 1) as u32
    }
}

/// Where in the image a ROM address lies, by map mode.
pub open spec fn rom_offset(mode: MapMode, addr: u32) -> int {
    match mode {
        MapMode::LoROM => (bank_of(addr) % 0x80) * 0x8000 + offset_of(addr) - 0x8000,
        MapMode::HiROM => (addr % 0x400000) as int,
        MapMode::ExHiROM => (addr % 0x400000) as int + if bank_of(addr) < 0x80 {
            0x400000int
        } else {
            0int
        },
    }
}

/// The map decoder. In the system banks the registers come first, then the
/// low 8 KiB mirror of work RAM, then the rest of the PPU window; banks
/// `$7E` and `$7F` are work RAM; everything else is ROM.
pub open spec fn map_address(mode: MapMode, addr: u32) -> Target {
    let bank = bank_of(addr);
    let off = offset_of(addr);
    if addr >= BUS_SIZE {
        Target::Invalid
    } else if is_system_bank(bank) && off < 0x2000 {
        Target::Wram(off as u32)
    } else if is_system_bank(bank) && 0x4200 <= off < 0x4220 {
        Target::Mmio(off as u16)
    } else if is_system_bank(bank) && 0x4300 <= off < 0x4380 {
        Target::Dma(((off / 16) % 8) as u8, (off % 16) as u8)
    } else if is_system_bank(bank) && off < 0x8000 {
        Target::Ppu(off as u16)
    } else if 0x7E <= bank < 0x80 {
        Target::Wram(((bank - 0x7E) * 0x10000 + off) as u32)
    } else {
        Target::Rom(rom_offset(mode, addr) as u32)
    }
}

pub fn decode_address(mode: MapMode, addr: u32) -> (t: Target)
    ensures
        t == map_address(mode, addr),
{
    if addr >= BUS_SIZE {
        return Target::Invalid;
    }
    let bank: u32 = addr / 0x10000;
    let off: u32 = addr % 0x10000;
    let system: bool = bank % 0x80 < 0x40;
    if system && off < 0x2000 {
        Target::Wram(off)
    } else if system && 0x4200 <= off && off < 0x4220 {
        Target::Mmio(off as u16)
    } else if system && 0x4300 <= off && off < 0x4380 {
        Target::Dma(((off / 16) % 8) as u8, (off % 16) as u8)
    } else if system && off < 0x8000 {
        Target::Ppu(off as u16)
    } else if 0x7E <= bank && bank < 0x80 {
        Target::Wram((bank - 0x7E) * 0x10000 + off)
    } else {
        match mode {
            MapMode::LoROM => Target::Rom((bank % 0x80) * 0x8000 + off - 0x8000),
            MapMode::HiROM => Target::Rom(addr % 0x400000),
            MapMode::ExHiROM => {
                let high: u32 = if bank < 0x80 { 0x400000 } else { 0 };
                Target::Rom(addr % 0x400000 + high)
            },
        }
    }
}

/// What a read of a CPU register returns. The latches give back what was
/// written; the status registers read as zero, but for `HBVJOY`, which
/// reads `$FF` while the negative flag is clear; `$420E` and `$420F` hold
/// nothing.
pub open spec fn mmio_load(m: Machine, off: u16) -> Option<u8> {
    if off == 0x4200 {
        Some(m.mmio.NMITIMEN)
    } else if off == 0x4201 {
        Some(m.mmio.WRIO)
    } else if off == 0x4202 {
        Some(m.mmio.WRMPYA)
    } else if off == 0x4203 {
        Some(m.mmio.WRMPYB)
    } else if off == 0x4204 {
        Some(m.mmio.WRDIVL)
    } else if off == 0x4205 {
        Some(m.mmio.WRDIVH)
    } else if off == 0x4206 {
        Some(m.mmio.WRDIVB)
    } else if off == 0x4207 {
        Some(m.mmio.HTIMEL)
    } else if off == 0x4208 {
        Some(m.mmio.HTIMEH)
    } else if off == 0x4209 {
        Some(m.mmio.VTIMEL)
    } else if off == 0x420A {
        Some(m.mmio.VTIMEH)
    } else if off == 0x420B {
        Some(m.dma.MDMAEN)
    } else if off == 0x420C {
        Some(m.dma.HDMAEN)
    } else if off == 0x420D {
        Some(m.mmio.MEMSEL)
    } else if off == 0x4212 {
        Some(if m.cpu.P.n { 0x00u8 } else { 0xFFu8 })
    } else if 0x4210 <= off < 0x4220 {
        Some(0u8)
    } else {
        None
    }
}

/// The machine after `v` was written to the latch at `off`; `None` where no
/// latch is there.
pub open spec fn mmio_store(m: Machine, off: u16, v: u8) -> Option<Machine> {
    if off == 0x4200 {
        Some(Machine { mmio: MMIORegisters { NMITIMEN: v, ..m.mmio }, ..m })
    } else if off == 0x4201 {
        Some(Machine { mmio: MMIORegisters { WRIO: v, ..m.mmio }, ..m })
    } else if off == 0x4202 {
        Some(Machine { mmio: MMIORegisters { WRMPYA: v, ..m.mmio }, ..m })
    } else if off == 0x4203 {
        Some(Machine { mmio: MMIORegisters { WRMPYB: v, ..m.mmio }, ..m })
    } else if off == 0x4204 {
        Some(Machine { mmio: MMIORegisters { WRDIVL: v, ..m.mmio }, ..m })
    } else if off == 0x4205 {
        Some(Machine { mmio: MMIORegisters { WRDIVH: v, ..m.mmio }, ..m })
    } else if off == 0x4206 {
        Some(Machine { mmio: MMIORegisters { WRDIVB: v, ..m.mmio }, ..m })
    } else if off == 0x4207 {
        Some(Machine { mmio: MMIORegisters { HTIMEL: v, ..m.mmio }, ..m })
    } else if off == 0x4208 {
        Some(Machine { mmio: MMIORegisters { HTIMEH: v, ..m.mmio }, ..m })
    } else if off == 0x4209 {
        Some(Machine { mmio: MMIORegisters { VTIMEL: v, ..m.mmio }, ..m })
    } else if off == 0x420A {
        Some(Machine { mmio: MMIORegisters { VTIMEH: v, ..m.mmio }, ..m })
    } else if off == 0x420B {
        Some(Machine { dma: DmaState { MDMAEN: v, ..m.dma }, ..m })
    } else if off == 0x420C {
        Some(Machine { dma: DmaState { HDMAEN: v, ..m.dma }, ..m })
    } else if off == 0x420D {
        Some(Machine { mmio: MMIORegisters { MEMSEL: v, ..m.mmio }, ..m })
    } else {
        None
    }
}

/// The register of every channel that `reg` selects; `$B` and `$F` both
/// select the unused byte.
pub open spec fn dma_bank(d: DmaState, reg: u8) -> Option<Seq<u8>> {
    if reg == 0x0 {
        Some(d.DMAPn)
    } else if reg == 0x1 {
        Some(d.BBADn)
    } else if reg == 0x2 {
        Some(d.A1TnL)
    } else if reg == 0x3 {
        Some(d.A1TnH)
    } else if reg == 0x4 {
        Some(d.A1nB)
    } else if reg == 0x5 {
        Some(d.DASnL)
    } else if reg == 0x6 {
        Some(d.DASnH)
    } else if reg == 0x7 {
        Some(d.DASBn)
    } else if reg == 0x8 {
        Some(d.A2TnL)
    } else if reg == 0x9 {
        Some(d.A2TnH)
    } else if reg == 0xA {
        Some(d.NLTRn)
    } else if reg == 0xB || reg == 0xF {
        Some(d.UNUSEDn)
    } else {
        None
    }
}

/// The registers with the one that `reg` selects replaced by `bank`.
pub open spec fn dma_with_bank(d: DmaState, reg: u8, bank: Seq<u8>) -> DmaState {
    if reg == 0x0 {
        DmaState { DMAPn: bank, ..d }
    } else if reg == 0x1 {
        DmaState { BBADn: bank, ..d }
    } else if reg == 0x2 {
        DmaState { A1TnL: bank, ..d }
    } else if reg == 0x3 {
        DmaState { A1TnH: bank, ..d }
    } else if reg == 0x4 {
        DmaState { A1nB: bank, ..d }
    } else if reg == 0x5 {
        DmaState { DASnL: bank, ..d }
    } else if reg == 0x6 {
        DmaState { DASnH: bank, ..d }
    } else if reg == 0x7 {
        DmaState { DASBn: bank, ..d }
    } else if reg == 0x8 {
        DmaState { A2TnL: bank, ..d }
    } else if reg == 0x9 {
        DmaState { A2TnH: bank, ..d }
    } else if reg == 0xA {
        DmaState { NLTRn: bank, ..d }
    } else if reg == 0xB || reg == 0xF {
        DmaState { UNUSEDn: bank, ..d }
    } else {
        d
    }
}

/// What a read of register `reg` of channel `channel` returns.
pub open spec fn dma_load(d: DmaState, channel: u8, reg: u8) -> Option<u8> {
    match dma_bank(d, reg) {
        Some(bank) => if channel < bank.len() {
            Some(bank[channel as int])
        } else {
            None
        },
        None => None,
    }
}

/// The registers after `v` was written to register `reg` of channel
/// `channel`.
pub open spec fn dma_store(d: DmaState, channel: u8, reg: u8, v: u8) -> Option<DmaState> {
    match dma_bank(d, reg) {
        Some(bank) => if channel < bank.len() {
            Some(dma_with_bank(d, reg, bank.update(channel as int, v)))
        } else {
            None
        },
        None => None,
    }
}

/// What a read of the byte at `addr` returns. Reads change nothing, so a
/// peek is the same function.
pub open spec fn load_byte(m: Machine, addr: u32) -> Result<u8, EmuError> {
    match map_address(m.cartridge.map_mode, addr) {
        Target::Invalid => Err(EmuError::BadAddress(addr)),
        Target::Wram(off) => if off < m.ram.len() {
            Ok(m.ram[off as int])
        } else {
            Err(EmuError::BadAddress(addr))
        },
        Target::Mmio(off) => match mmio_load(m, off) {
            Some(v) => Ok(v),
            None => Err(EmuError::UnknownRegister(addr)),
        },
        Target::Dma(channel, reg) => match dma_load(m.dma, channel, reg) {
            Some(v) => Ok(v),
            None => Err(EmuError::UnknownRegister(addr)),
        },
        Target::Ppu(_) => Err(EmuError::UnknownRegister(addr)),
        Target::Rom(off) => if off >= m.cartridge.rom_size {
            Err(EmuError::BadAddress(addr))
        } else if off >= m.cartridge.rom.len() {
            Err(
                EmuError::OutOfRomBounds {
                    offset: off as usize,
                    rom_size: m.cartridge.rom.len() as usize,
                },
            )
        } else {
            Ok(m.cartridge.rom[off as int])
        },
    }
}

/// The word of a low and a high byte.
pub open spec fn word_of(lo: u8, hi: u8) -> u16 {
    (lo + hi * 256) as u16
}

/// The low byte of a word.
pub open spec fn low_byte(w: u16) -> u8 {
    (w % 256) as u8
}

/// The high byte of a word.
pub open spec fn high_byte(w: u16) -> u8 {
    (w / 256) as u8
}

/// What a read of the word at `addr` returns: the byte there, and the byte
/// at the next address of the bus above it.
pub open spec fn load_word(m: Machine, addr: u32) -> Result<u16, EmuError> {
    match load_byte(m, addr) {
        Ok(lo) => match load_byte(m, next_address(addr)) {
            Ok(hi) => Ok(word_of(lo, hi)),
            Err(e) => Err(e),
        },
        Err(e) => Err(e),
    }
}

/// The machine after a write of `v` to `addr`, and whether the write was
/// taken. A write that fails changes nothing; a write into the PPU window is
/// taken and changes nothing.
pub open spec fn store_byte(m: Machine, addr: u32, v: u8) -> (Machine, Result<(), EmuError>) {
    match map_address(m.cartridge.map_mode, addr) {
        Target::Invalid => (m, Err(EmuError::BadAddress(addr))),
        Target::Wram(off) => if off < m.ram.len() {
            (Machine { ram: m.ram.update(off as int, v), ..m }, Ok(()))
        } else {
            (m, Err(EmuError::BadAddress(addr)))
        },
        Target::Mmio(off) => match mmio_store(m, off, v) {
            Some(after) => (after, Ok(())),
            None => (m, Err(EmuError::UnknownRegister(addr))),
        },
        Target::Dma(channel, reg) => match dma_store(m.dma, channel, reg, v) {
            Some(dma) => (Machine { dma: dma, ..m }, Ok(())),
            None => (m, Err(EmuError::UnknownRegister(addr))),
        },
        Target::Ppu(_) => (m, Ok(())),
        Target::Rom(_) => (m, Err(EmuError::WriteToReadOnly(addr))),
    }
}

/// The machine after a write of the word `v` to `addr`: the low byte goes to
/// `addr`, then the high byte to the next address of the bus. Where the
/// second write fails the first one stays.
pub open spec fn store_word(m: Machine, addr: u32, v: u16) -> (Machine, Result<(), EmuError>) {
    let first = store_byte(m, addr, low_byte(v));
    match first.1 {
        Ok(_) => store_byte(first.0, next_address(addr), high_byte(v)),
        Err(e) => first,
    }
}

fn next_addr(addr: u32) -> (r: u32)
    ensures
        r == next_address(addr),
{
    if addr >= 0xFFFFFF {
        0
    } else {
        addr + 1
    }
}

fn read_mmio(snes: &Console, off: u16) -> (r: Option<u8>)
    ensures
        r == mmio_load(snes@, off),
{
    match off {
        0x4200 => Some(snes.mmio.NMITIMEN),
        0x4201 => Some(snes.mmio.WRIO),
        0x4202 => Some(snes.mmio.WRMPYA),
        0x4203 => Some(snes.mmio.WRMPYB),
        0x4204 => Some(snes.mmio.WRDIVL),
        0x4205 => Some(snes.mmio.WRDIVH),
        0x4206 => Some(snes.mmio.WRDIVB),
        0x4207 => Some(snes.mmio.HTIMEL),
        0x4208 => Some(snes.mmio.HTIMEH),
        0x4209 => Some(snes.mmio.VTIMEL),
        0x420A => Some(snes.mmio.VTIMEH),
        0x420B => Some(snes.dma.MDMAEN),
        0x420C => Some(snes.dma.HDMAEN),
        0x420D => Some(snes.mmio.MEMSEL),
        0x4212 => if snes.cpu.P.n {
            Some(0x00)
        } else {
            Some(0xFF)
        },
        _ => if 0x4210 <= off && off < 0x4220 {
            Some(0)
        } else {
            None
        },
    }
}

fn get_channel(bank: &Vec<u8>, channel: u8) -> (r: Option<u8>)
    ensures
        r == if channel < bank@.len() {
            Some(bank@[channel as int])
        } else {
            None
        },
{
    let i: usize = channel as usize;
    if i < bank.len() {
        Some(bank[i])
    } else {
        None
    }
}

fn read_dma(snes: &Console, channel: u8, reg: u8) -> (r: Option<u8>)
    ensures
        r == dma_load(snes@.dma, channel, reg),
{
    match reg {
        0x0 => get_channel(&snes.dma.DMAPn, channel),
        0x1 => get_channel(&snes.dma.BBADn, channel),
        0x2 => get_channel(&snes.dma.A1TnL, channel),
        0x3 => get_channel(&snes.dma.A1TnH, channel),
        0x4 => get_channel(&snes.dma.A1nB, channel),
        0x5 => get_channel(&snes.dma.DASnL, channel),
        0x6 => get_channel(&snes.dma.DASnH, channel),
        0x7 => get_channel(&snes.dma.DASBn, channel),
        0x8 => get_channel(&snes.dma.A2TnL, channel),
        0x9 => get_channel(&snes.dma.A2TnH, channel),
        0xA => get_channel(&snes.dma.NLTRn, channel),
        0xB | 0xF => get_channel(&snes.dma.UNUSEDn, channel),
        _ => None,
    }
}

/// Reads the byte at `addr`.
pub fn read_byte(snes: &Console, addr: u32) -> (r: Result<u8, EmuError>)
    ensures
        r == load_byte(snes@, addr),
{
    match decode_address(snes.cartridge.header.map_mode, addr) {
        Target::Invalid => Err(EmuError::BadAddress(addr)),
        Target::Wram(off) => {
            let i: usize = off as usize;
            if i < snes.ram.len() {
                Ok(snes.ram[i])
            } else {
                Err(EmuError::BadAddress(addr))
            }
        },
        Target::Mmio(off) => match read_mmio(snes, off) {
            Some(v) => Ok(v),
            None => Err(EmuError::UnknownRegister(addr)),
        },
        Target::Dma(channel, reg) => match read_dma(snes, channel, reg) {
            Some(v) => Ok(v),
            None => Err(EmuError::UnknownRegister(addr)),
        },
        Target::Ppu(_) => Err(EmuError::UnknownRegister(addr)),
        Target::Rom(off) => {
            let i: usize = off as usize;
            if i >= snes.cartridge.header.rom_size {
                Err(EmuError::BadAddress(addr))
            } else if i >= snes.cartridge.rom_data.len() {
                Err(EmuError::OutOfRomBounds { offset: i, rom_size: snes.cartridge.rom_data.len() })
            } else {
                Ok(snes.cartridge.rom_data[i])
            }
        },
    }
}

/// Reads the word at `addr`, low byte first.
pub fn read_word(snes: &Console, addr: u32) -> (r: Result<u16, EmuError>)
    ensures
        r == load_word(snes@, addr),
{
    match read_byte(snes, addr) {
        Ok(lo) => match read_byte(snes, next_addr(addr)) {
            Ok(hi) => Ok(lo as u16 + (hi as u16) * 256),
            Err(e) => Err(e),
        },
        Err(e) => Err(e),
    }
}

/// Reads the byte at `addr` without any effect on the machine.
pub fn peek_byte(snes: &Console, addr: u32) -> (r: Result<u8, EmuError>)
    ensures
        r == load_byte(snes@, addr),
{
    read_byte(snes, addr)
}

/// Reads the word at `addr` without any effect on the machine.
pub fn peek_word(snes: &Console, addr: u32) -> (r: Result<u16, EmuError>)
    ensures
        r == load_word(snes@, addr),
{
    read_word(snes, addr)
}

fn write_mmio(snes: &mut Console, off: u16, v: u8) -> (ok: bool)
    ensures
        ok == mmio_store(old(snes)@, off, v) is Some,
        ok ==> final(snes)@ == mmio_store(old(snes)@, off, v).unwrap(),
        !ok ==> final(snes)@ == old(snes)@,
{
    match off {
        0x4200 => {
            snes.mmio.NMITIMEN = v;
        },
        0x4201 => {
            snes.mmio.WRIO = v;
        },
        0x4202 => {
            snes.mmio.WRMPYA = v;
        },
        0x4203 => {
            snes.mmio.WRMPYB = v;
        },
        0x4204 => {
            snes.mmio.WRDIVL = v;
        },
        0x4205 => {
            snes.mmio.WRDIVH = v;
        },
        0x4206 => {
            snes.mmio.WRDIVB = v;
        },
        0x4207 => {
            snes.mmio.HTIMEL = v;
        },
        0x4208 => {
            snes.mmio.HTIMEH = v;
        },
        0x4209 => {
            snes.mmio.VTIMEL = v;
        },
        0x420A => {
            snes.mmio.VTIMEH = v;
        },
        0x420B => {
            snes.dma.MDMAEN = v;
        },
        0x420C => {
            snes.dma.HDMAEN = v;
        },
        0x420D => {
            snes.mmio.MEMSEL = v;
        },
        _ => {
            return false;
        },
    }
    true
}

fn put_channel(bank: &mut Vec<u8>, channel: u8, v: u8) -> (ok: bool)
    ensures
        ok == (channel < old(bank)@.len()),
        ok ==> final(bank)@ == old(bank)@.update(channel as int, v),
        !ok ==> final(bank)@ == old(bank)@,
{
    let i: usize = channel as usize;
    if i < bank.len() {
        bank.set(i, v);
        true
    } else {
        false
    }
}

fn write_dma(snes: &mut Console, channel: u8, reg: u8, v: u8) -> (ok: bool)
    ensures
        ok == dma_store(old(snes)@.dma, channel, reg, v) is Some,
        ok ==> final(snes)@ == (Machine {
            dma: dma_store(old(snes)@.dma, channel, reg, v).unwrap(),
            ..old(snes)@
        }),
        !ok ==> final(snes)@ == old(snes)@,
{
    match reg {
        0x0 => put_channel(&mut snes.dma.DMAPn, channel, v),
        0x1 => put_channel(&mut snes.dma.BBADn, channel, v),
        0x2 => put_channel(&mut snes.dma.A1TnL, channel, v),
        0x3 => put_channel(&mut snes.dma.A1TnH, channel, v),
        0x4 => put_channel(&mut snes.dma.A1nB, channel, v),
        0x5 => put_channel(&mut snes.dma.DASnL, channel, v),
        0x6 => put_channel(&mut snes.dma.DASnH, channel, v),
        0x7 => put_channel(&mut snes.dma.DASBn, channel, v),
        0x8 => put_channel(&mut snes.dma.A2TnL, channel, v),
        0x9 => put_channel(&mut snes.dma.A2TnH, channel, v),
        0xA => put_channel(&mut snes.dma.NLTRn, channel, v),
        0xB | 0xF => put_channel(&mut snes.dma.UNUSEDn, channel, v),
        _ => false,
    }
}

/// Writes `data` to `addr`.
pub fn write_byte(snes: &mut Console, addr: u32, data: u8) -> (r: Result<(), EmuError>)
    ensures
        final(snes)@ == store_byte(old(snes)@, addr, data).0,
        r == store_byte(old(snes)@, addr, data).1,
{
    match decode_address(snes.cartridge.header.map_mode, addr) {
        Target::Invalid => Err(EmuError::BadAddress(addr)),
        Target::Wram(off) => {
            let i: usize = off as usize;
            if i < snes.ram.len() {
                snes.ram.set(i, data);
                Ok(())
            } else {
                Err(EmuError::BadAddress(addr))
            }
        },
        Target::Mmio(off) => if write_mmio(snes, off, data) {
            Ok(())
        } else {
            Err(EmuError::UnknownRegister(addr))
        },
        Target::Dma(channel, reg) => if write_dma(snes, channel, reg, data) {
            Ok(())
        } else {
            Err(EmuError::UnknownRegister(addr))
        },
        Target::Ppu(_) => Ok(()),
        Target::Rom(_) => Err(EmuError::WriteToReadOnly(addr)),
    }
}

/// Writes the word `data` to `addr`, low byte first.
pub fn write_word(snes: &mut Console, addr: u32, data: u16) -> (r: Result<(), EmuError>)
    ensures
        final(snes)@ == store_word(old(snes)@, addr, data).0,
        r == store_word(old(snes)@, addr, data).1,
{
    match write_byte(snes, addr, (data % 256) as u8) {
        Ok(_) => write_byte(snes, next_addr(addr), (data / 256) as u8),
        Err(e) => Err(e),
    }
}

} // verus!
