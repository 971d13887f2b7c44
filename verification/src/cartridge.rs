//! The cartridge: its header and the ROM image behind it.

use vstd::prelude::*;
use vstd::utf8::{decode_utf8, valid_utf8};
use crate::error::{EmuError, HeaderFault};

verus! {

/// How the banks of the bus project onto the ROM image.
#[allow(non_camel_case_types)]
#[derive(Clone, Copy, Debug, PartialEq, Eq, Structural)]
pub enum MapMode {
    LoROM,
    HiROM,
    ExHiROM,
}

#[derive(Clone, Copy, Debug, PartialEq, Eq, Structural)]
pub enum RomSpeed {
    Slow,
    Fast,
}

/// What the cartridge holds besides ROM: the low nibble of the hardware byte.
#[derive(Clone, Copy, Debug, PartialEq, Eq, Structural)]
pub enum ExtraHardware {
    RomOnly,
    RomRam,
    RomRamBattery,
    RomCoprocessor,
    RomCoprocessorRam,
    RomCoprocessorRamBattery,
    RomCoprocessorBattery,
}

/// The coprocessor: the high nibble of the hardware byte.
#[derive(Clone, Copy, Debug, PartialEq, Eq, Structural)]
pub enum Coprocessor {
    DSP,
    /// GSU
    SuperFX,
    OBC1,
    SA1,
    SDD1,
    SRTC,
    Other,
    Custom,
}

#[derive(Clone, Copy, Debug, PartialEq, Eq, Structural)]
pub enum ChipsetSubtype {
    SPC7110,
    ST010,
    ST018,
    CX4,
}

#[derive(Clone, Copy, Debug, PartialEq, Eq, Structural)]
pub struct CartHardware {
    pub extra_hardware: ExtraHardware,
    pub coprocessor: Option<Coprocessor>,
}

impl CartHardware {
    pub fn new(extra_hardware: ExtraHardware, coprocessor: Option<Coprocessor>) -> (r: CartHardware)
        ensures
            r.extra_hardware == extra_hardware,
            r.coprocessor == coprocessor,
    {
        CartHardware { extra_hardware, coprocessor }
    }
}

#[derive(Clone, Copy, Debug, PartialEq, Eq, Structural)]
pub enum Region {
    PAL,
    NTSC,
}

#[derive(Debug, Clone)]
pub struct ExpandedHeader {
    pub maker_code: String,
    pub game_code: String,
    /// In bytes.
    pub expansion_rom_size: usize,
    /// In bytes.
    pub expansion_ram_size: usize,
    pub special_version: u8,
    pub chipset_subtype: ChipsetSubtype,
}

/// The entry points of the interrupts, native and emulation.
#[derive(Clone, Copy, Debug, PartialEq, Eq, Structural)]
pub struct InterruptVectorTable {
    pub cop: u16,
    pub brk: u16,
    pub abort: u16,
    pub nmi: u16,
    pub irq: u16,
    pub cop_emu: u16,
    pub brk_emu: u16,
    pub abort_emu: u16,
    pub nmi_emu: u16,
    pub reset: u16,
    pub irq_emu: u16,
}

#[derive(Debug, Clone)]
pub struct RomHeader {
    pub title: String,
    pub map_mode: MapMode,
    pub rom_speed: RomSpeed,
    pub extra_hardware: CartHardware,
    /// In bytes.
    pub rom_size: usize,
    /// In bytes.
    pub ram_size: usize,
    pub country: Region,
    pub developer_id: u8,
    pub rom_version: u8,
    pub checksum_complement: u16,
    pub checksum: u16,
    pub interrupt_vectors: InterruptVectorTable,
    pub expanded_header: Option<ExpandedHeader>,
}

/// A header and the image it was read from. Nothing writes to it once the
/// loader has made it.
#[derive(Debug, Clone)]
pub struct Cartridge {
    pub header: RomHeader,
    pub rom_data: Vec<u8>,
}

/// What the bus and the processor read of a cartridge.
#[verifier::ext_equal]
pub struct CartridgeView {
    pub map_mode: MapMode,
    pub rom_size: nat,
    pub vectors: InterruptVectorTable,
    pub rom: Seq<u8>,
}

impl View for Cartridge {
    type V = CartridgeView;

    open spec fn view(&self) -> CartridgeView {
        CartridgeView {
            map_mode: self.header.map_mode,
            rom_size: self.header.rom_size as nat,
            vectors: self.header.interrupt_vectors,
            rom: self.rom_data@,
        }
    }
}

/// What an [`ExpandedHeader`] holds.
#[verifier::ext_equal]
pub struct ExpandedHeaderView {
    pub maker_code: Seq<char>,
    pub game_code: Seq<char>,
    pub expansion_rom_size: usize,
    pub expansion_ram_size: usize,
    pub special_version: u8,
    pub chipset_subtype: ChipsetSubtype,
}

impl View for ExpandedHeader {
    type V = ExpandedHeaderView;

    open spec fn view(&self) -> ExpandedHeaderView {
        ExpandedHeaderView {
            maker_code: self.maker_code@,
            game_code: self.game_code@,
            expansion_rom_size: self.expansion_rom_size,
            expansion_ram_size: self.expansion_ram_size,
            special_version: self.special_version,
            chipset_subtype: self.chipset_subtype,
        }
    }
}

/// What a [`RomHeader`] holds.
#[verifier::ext_equal]
pub struct RomHeaderView {
    pub title: Seq<char>,
    pub map_mode: MapMode,
    pub rom_speed: RomSpeed,
    pub extra_hardware: CartHardware,
    pub rom_size: usize,
    pub ram_size: usize,
    pub country: Region,
    pub developer_id: u8,
    pub rom_version: u8,
    pub checksum_complement: u16,
    pub checksum: u16,
    pub interrupt_vectors: InterruptVectorTable,
    pub expanded_header: Option<ExpandedHeaderView>,
}

impl View for RomHeader {
    type V = RomHeaderView;

    open spec fn view(&self) -> RomHeaderView {
        RomHeaderView {
            title: self.title@,
            map_mode: self.map_mode,
            rom_speed: self.rom_speed,
            extra_hardware: self.extra_hardware,
            rom_size: self.rom_size,
            ram_size: self.ram_size,
            country: self.country,
            developer_id: self.developer_id,
            rom_version: self.rom_version,
            checksum_complement: self.checksum_complement,
            checksum: self.checksum,
            interrupt_vectors: self.interrupt_vectors,
            expanded_header: match self.expanded_header {
                Some(expanded) => Some(expanded@),
                None => None,
            },
        }
    }
}

// ---------------------------------------------------------------------
// The checksum of an image
// ---------------------------------------------------------------------
/// The smallest part of an image: 32 KiB.
pub const BANK_SIZE: usize = 0x8000;

/// `size` doubled for as long as twice of it, and `extra`, fit in `limit`.
pub open spec fn doubled(size: nat, extra: nat, limit: nat) -> nat
    decreases limit - size,
{
    if size > 0 && size * 2 + extra <= limit {
        doubled(size * 2, extra, limit)
    } else {
        size
    }
}

/// The size of the head of an image of `len` bytes: 32 KiB doubled for as
/// long as it fits.
pub open spec fn head_size(len: nat) -> nat {
    doubled(BANK_SIZE as nat, 0, len)
}

/// The size that the tail of an image of `len` bytes must have: 32 KiB
/// doubled for as long as it fits behind the head.
pub open spec fn tail_size(len: nat) -> nat {
    doubled(BANK_SIZE as nat, head_size(len), len)
}

/// Whether an image of `len` bytes is a head alone, or a head and a tail.
pub open spec fn is_whole_image(len: nat) -> bool {
    head_size(len) == len || head_size(len) + tail_size(len) == len
}

/// The sum of the bytes from `from` up to `to`.
pub open spec fn byte_sum(bytes: Seq<u8>, from: int, to: int) -> int
    decreases to - from,
{
    if to <= from {
        0
    } else {
        byte_sum(bytes, from, to - 1) + bytes[to - 1]
    }
}

/// The checksum of an image: the sum of its bytes on 16 bits, the bytes of
/// the tail counted twice.
pub open spec fn image_checksum(file: Seq<u8>) -> u16 {
    let head = head_size(file.len()) as int;
    ((byte_sum(file, 0, head) + 2 * byte_sum(file, head, file.len() as int)) % 0x10000) as u16
}

/// The little-endian word at `at`.
pub open spec fn word_at(file: Seq<u8>, at: int) -> u16 {
    (file[at] + file[at + 1] * 256) as u16
}

/// Whether the header at `base` lies within the image and holds the
/// checksum and its complement.
pub open spec fn holds_checksum(file: Seq<u8>, base: int, checksum: u16) -> bool {
    &&& base + 0x40 <= file.len()
    &&& word_at(file, base + 0x1C) == 0xFFFF - checksum
    &&& word_at(file, base + 0x1E) == checksum
}

/// Where the header of a map mode lies in the image.
pub open spec fn header_base(mode: MapMode) -> int {
    match mode {
        MapMode::LoROM => 0x7FC0,
        MapMode::HiROM => 0xFFC0,
        MapMode::ExHiROM => 0x40FFC0,
    }
}

/// The map mode of an image: that of the first of the three candidate
/// headers that holds the checksum. Where none does, a caller that bypasses
/// the checksum gets ExHiROM, if the image is long enough for that header.
pub open spec fn detect_mode(file: Seq<u8>, checksum: u16, bypass: bool) -> Option<MapMode> {
    if holds_checksum(file, header_base(MapMode::LoROM), checksum) {
        Some(MapMode::LoROM)
    } else if holds_checksum(file, header_base(MapMode::HiROM), checksum) {
        Some(MapMode::HiROM)
    } else if holds_checksum(file, header_base(MapMode::ExHiROM), checksum) {
        Some(MapMode::ExHiROM)
    } else if bypass && header_base(MapMode::ExHiROM) + 0x40 <= file.len() {
        Some(MapMode::ExHiROM)
    } else {
        None
    }
}

// ---------------------------------------------------------------------
// The fields of the header
// ---------------------------------------------------------------------
/// The hardware that the low nibble of the hardware byte names.
pub open spec fn hardware_of(nibble: u8) -> Option<ExtraHardware> {
    if nibble == 0 {
        Some(ExtraHardware::RomOnly)
    } else if nibble == 1 {
        Some(ExtraHardware::RomRam)
    } else if nibble == 2 {
        Some(ExtraHardware::RomRamBattery)
    } else if nibble == 3 {
        Some(ExtraHardware::RomCoprocessor)
    } else if nibble == 4 {
        Some(ExtraHardware::RomCoprocessorRam)
    } else if nibble == 5 {
        Some(ExtraHardware::RomCoprocessorRamBattery)
    } else if nibble == 6 {
        Some(ExtraHardware::RomCoprocessorBattery)
    } else {
        None
    }
}

/// The coprocessor that the high nibble of the hardware byte names.
pub open spec fn coprocessor_of(nibble: u8) -> Option<Coprocessor> {
    if nibble == 0 {
        Some(Coprocessor::DSP)
    } else if nibble == 1 {
        Some(Coprocessor::SuperFX)
    } else if nibble == 2 {
        Some(Coprocessor::OBC1)
    } else if nibble == 3 {
        Some(Coprocessor::SA1)
    } else if nibble == 4 {
        Some(Coprocessor::SDD1)
    } else if nibble == 5 {
        Some(Coprocessor::SRTC)
    } else if nibble == 0xE {
        Some(Coprocessor::Other)
    } else if nibble == 0xF {
        Some(Coprocessor::Custom)
    } else {
        None
    }
}

/// The chipset subtype that a nibble names.
pub open spec fn chipset_of(nibble: u8) -> Option<ChipsetSubtype> {
    if nibble == 0 {
        Some(ChipsetSubtype::SPC7110)
    } else if nibble == 1 {
        Some(ChipsetSubtype::ST010)
    } else if nibble == 2 {
        Some(ChipsetSubtype::ST018)
    } else if nibble == 3 {
        Some(ChipsetSubtype::CX4)
    } else {
        None
    }
}

/// What the hardware byte says: the hardware by its low nibble, and with a
/// coprocessor on board the coprocessor by its high nibble.
pub open spec fn parse_hardware(b: u8) -> Result<CartHardware, EmuError> {
    match hardware_of(b % 16) {
        Some(hardware) => if 3 <= b % 16 <= 6 {
            match coprocessor_of(b / 16) {
                Some(c) => Ok(CartHardware { extra_hardware: hardware, coprocessor: Some(c) }),
                None => Err(EmuError::HeaderInvalid(HeaderFault::UnknownCoprocessor(b / 16))),
            }
        } else {
            Ok(CartHardware { extra_hardware: hardware, coprocessor: None })
        },
        None => Err(EmuError::HeaderInvalid(HeaderFault::UnknownHardware(b % 16))),
    }
}

/// 2 to the power `n`.
pub open spec fn two_to(n: nat) -> nat
    decreases n,
{
    if n == 0 {
        1
    } else {
        2 * two_to((n - 1) as nat)
    }
}

/// The largest size exponent that the loader takes: 2 GiB.
pub const MAX_SIZE_EXPONENT: u8 = 21;

/// The size in bytes that a size exponent stands for: 2 to its power, in
/// KiB.
pub open spec fn parse_size(n: u8) -> Result<usize, EmuError> {
    if n <= MAX_SIZE_EXPONENT {
        Ok((1024 * two_to(n as nat)) as usize)
    } else {
        Err(EmuError::HeaderInvalid(HeaderFault::SizeTooLarge(n)))
    }
}

/// The region that the region byte names.
pub open spec fn parse_region(b: u8) -> Result<Region, EmuError> {
    if b == 0 {
        Ok(Region::PAL)
    } else if b == 1 {
        Ok(Region::NTSC)
    } else {
        Err(EmuError::HeaderInvalid(HeaderFault::UnknownRegion(b)))
    }
}

/// The vector table of the header at `base`: the words from `+0x24` on.
pub open spec fn parse_vectors(file: Seq<u8>, base: int) -> InterruptVectorTable {
    InterruptVectorTable {
        cop: word_at(file, base + 0x24),
        brk: word_at(file, base + 0x26),
        abort: word_at(file, base + 0x28),
        nmi: word_at(file, base + 0x2A),
        irq: word_at(file, base + 0x2E),
        cop_emu: word_at(file, base + 0x34),
        brk_emu: word_at(file, base + 0x36),
        abort_emu: word_at(file, base + 0x38),
        nmi_emu: word_at(file, base + 0x3A),
        reset: word_at(file, base + 0x3C),
        irq_emu: word_at(file, base + 0x3E),
    }
}

/// The text of `len` bytes of the image from `at` on, where they are valid
/// UTF-8.
pub open spec fn text_at(file: Seq<u8>, at: int, len: int) -> Option<Seq<char>> {
    if valid_utf8(file.subrange(at, at + len)) {
        Some(decode_utf8(file.subrange(at, at + len)))
    } else {
        None
    }
}

/// The expanded header, which lies in the 16 bytes before the header at
/// `base`.
pub open spec fn parse_expanded(file: Seq<u8>, base: int) -> Result<ExpandedHeaderView, EmuError> {
    let at = base - 0x10;
    match text_at(file, at, 2) {
        Some(maker) => match text_at(file, at + 2, 2) {
            Some(game) => match parse_size(file[at + 0xC]) {
                Ok(rom) => match parse_size(file[at + 0xD]) {
                    Ok(ram) => match chipset_of(file[at + 0xF] / 16) {
                        Some(chipset) => Ok(
                            ExpandedHeaderView {
                                maker_code: maker,
                                game_code: game,
                                expansion_rom_size: rom,
                                expansion_ram_size: ram,
                                special_version: file[at + 0xE],
                                chipset_subtype: chipset,
                            },
                        ),
                        None => Err(
                            EmuError::HeaderInvalid(
                                HeaderFault::UnknownChipset(file[at + 0xF] / 16),
                            ),
                        ),
                    },
                    Err(e) => Err(e),
                },
                Err(e) => Err(e),
            },
            None => Err(EmuError::HeaderInvalid(HeaderFault::BadCode)),
        },
        None => Err(EmuError::HeaderInvalid(HeaderFault::BadCode)),
    }
}

/// Whether the header at `base` comes with an expanded header: the
/// developer id is `$33`, or the title starts with a zero byte.
pub open spec fn has_expanded(file: Seq<u8>, base: int) -> bool {
    file[base + 0x1A] == 0x33 || file[base] == 0
}

/// The header at `base`, for an image of this map mode and checksum.
pub open spec fn parse_header_at(file: Seq<u8>, base: int, mode: MapMode, checksum: u16) -> Result<
    RomHeaderView,
    EmuError,
> {
    match text_at(file, base, 0x15) {
        Some(title) => match parse_hardware(file[base + 0x16]) {
            Ok(hardware) => match parse_size(file[base + 0x17]) {
                Ok(rom) => match parse_size(file[base + 0x18]) {
                    Ok(ram) => match parse_region(file[base + 0x19]) {
                        Ok(country) => match (if has_expanded(file, base) {
                            match parse_expanded(file, base) {
                                Ok(expanded) => Ok(Some(expanded)),
                                Err(e) => Err(e),
                            }
                        } else {
                            Ok(None)
                        }) {
                            Ok(expanded) => Ok(
                                RomHeaderView {
                                    title: title,
                                    map_mode: mode,
                                    rom_speed: if (file[base + 0x15] / 16) % 2 == 1 {
                                        RomSpeed::Fast
                                    } else {
                                        RomSpeed::Slow
                                    },
                                    extra_hardware: hardware,
                                    rom_size: rom,
                                    ram_size: ram,
                                    country: country,
                                    developer_id: file[base + 0x1A],
                                    rom_version: file[base + 0x1B],
                                    checksum_complement: (0xFFFF - checksum) as u16,
                                    checksum: checksum,
                                    interrupt_vectors: parse_vectors(file, base),
                                    expanded_header: expanded,
                                },
                            ),
                            Err(e) => Err(e),
                        },
                        Err(e) => Err(e),
                    },
                    Err(e) => Err(e),
                },
                Err(e) => Err(e),
            },
            Err(e) => Err(e),
        },
        None => Err(EmuError::HeaderInvalid(HeaderFault::BadTitle)),
    }
}

/// The header of an image. The image must be whole; its map mode is found
/// by its checksum; then the header of that mode is read field by field.
pub open spec fn parse_header(file: Seq<u8>, bypass: bool) -> Result<RomHeaderView, EmuError> {
    if !is_whole_image(file.len()) {
        Err(EmuError::HeaderInvalid(HeaderFault::NotPowerOfTwo))
    } else {
        match detect_mode(file, image_checksum(file), bypass) {
            Some(mode) => parse_header_at(file, header_base(mode), mode, image_checksum(file)),
            None => Err(EmuError::HeaderInvalid(HeaderFault::NoChecksum)),
        }
    }
}

// ---------------------------------------------------------------------
// The loader
// ---------------------------------------------------------------------
/// `String::from_utf8`: the text that the bytes encode, where they are
/// valid UTF-8, and nothing where they are not.
#[verifier::external_body]
fn text_of_utf8(bytes: Vec<u8>) -> (r: Option<String>)
    ensures
        r is Some <==> valid_utf8(bytes@),
        r matches Some(text) ==> text@ == decode_utf8(bytes@),
{
    String::from_utf8(bytes).ok()
}

fn double_to(extra: usize, limit: usize) -> (size: usize)
    requires
        extra <= limit,
    ensures
        size == doubled(BANK_SIZE as nat, extra as nat, limit as nat),
        size >= BANK_SIZE,
{
    let mut size: usize = BANK_SIZE;
    while size <= (limit - extra) / 2
        invariant
            extra <= limit,
            size >= BANK_SIZE,
            doubled(BANK_SIZE as nat, extra as nat, limit as nat) == doubled(
                size as nat,
                extra as nat,
                limit as nat,
            ),
        decreases limit - size,
    {
        size = size * 2;
    }
    size
}

fn sum_bytes(file: &Vec<u8>, from: usize, to: usize) -> (sum: u16)
    requires
        from <= to <= file.len(),
    ensures
        sum == byte_sum(file@, from as int, to as int) % 0x10000,
{
    let mut sum: u16 = 0;
    let mut k: usize = from;
    while k < to
        invariant
            from <= k <= to <= file.len(),
            sum == byte_sum(file@, from as int, k as int) % 0x10000,
        decreases to - k,
    {
        sum = ((sum as u32 + file[k] as u32) % 0x10000) as u16;
        k = k + 1;
    }
    sum
}

fn word(file: &Vec<u8>, at: usize) -> (w: u16)
    requires
        at + 1 < file.len(),
    ensures
        w == word_at(file@, at as int),
{
    file[at] as u16 + (file[at + 1] as u16) * 256
}

fn candidate_holds(file: &Vec<u8>, base: usize, checksum: u16) -> (r: bool)
    requires
        base <= 0x40FFC0,
    ensures
        r == holds_checksum(file@, base as int, checksum),
{
    if file.len() < 0x40 || base > file.len() - 0x40 {
        return false;
    }
    word(file, base + 0x1C) == 0xFFFF - checksum && word(file, base + 0x1E) == checksum
}

fn find_mode(file: &Vec<u8>, checksum: u16, bypass: bool) -> (r: Option<MapMode>)
    ensures
        r == detect_mode(file@, checksum, bypass),
{
    if candidate_holds(file, 0x7FC0, checksum) {
        Some(MapMode::LoROM)
    } else if candidate_holds(file, 0xFFC0, checksum) {
        Some(MapMode::HiROM)
    } else if candidate_holds(file, 0x40FFC0, checksum) {
        Some(MapMode::ExHiROM)
    } else if bypass && file.len() >= 0x410000 {
        Some(MapMode::ExHiROM)
    } else {
        None
    }
}

fn read_hardware(b: u8) -> (r: Result<CartHardware, EmuError>)
    ensures
        r == parse_hardware(b),
{
    let low: u8 = b % 16;
    let hardware: ExtraHardware = match low {
        0 => ExtraHardware::RomOnly,
        1 => ExtraHardware::RomRam,
        2 => ExtraHardware::RomRamBattery,
        3 => ExtraHardware::RomCoprocessor,
        4 => ExtraHardware::RomCoprocessorRam,
        5 => ExtraHardware::RomCoprocessorRamBattery,
        6 => ExtraHardware::RomCoprocessorBattery,
        _ => {
            return Err(EmuError::HeaderInvalid(HeaderFault::UnknownHardware(low)));
        },
    };
    if 3 <= low && low <= 6 {
        let high: u8 = b / 16;
        let coprocessor: Coprocessor = match high {
            0 => Coprocessor::DSP,
            1 => Coprocessor::SuperFX,
            2 => Coprocessor::OBC1,
            3 => Coprocessor::SA1,
            4 => Coprocessor::SDD1,
            5 => Coprocessor::SRTC,
            0xE => Coprocessor::Other,
            0xF => Coprocessor::Custom,
            _ => {
                return Err(EmuError::HeaderInvalid(HeaderFault::UnknownCoprocessor(high)));
            },
        };
        Ok(CartHardware { extra_hardware: hardware, coprocessor: Some(coprocessor) })
    } else {
        Ok(CartHardware { extra_hardware: hardware, coprocessor: None })
    }
}

/// Powers of two grow, and 2 to the 21st, in KiB, still fits in 32 bits.
pub proof fn lemma_two_to_bounds(n: nat)
    requires
        n <= 21,
    ensures
        1 <= two_to(n) <= 0x200000,
    decreases n,
{
    reveal_with_fuel(two_to, 22);
}

fn read_size(n: u8) -> (r: Result<usize, EmuError>)
    ensures
        r == parse_size(n),
{
    if n > MAX_SIZE_EXPONENT {
        return Err(EmuError::HeaderInvalid(HeaderFault::SizeTooLarge(n)));
    }
    let mut size: usize = 1024;
    let mut k: u8 = 0;
    while k < n
        invariant
            k <= n <= 21,
            size == 1024 * two_to(k as nat),
        decreases n - k,
    {
        proof {
            lemma_two_to_bounds(k as nat);
            lemma_two_to_bounds((k + 1) as nat);
        }
        size = size * 2;
        k = k + 1;
    }
    Ok(size)
}

fn read_region(b: u8) -> (r: Result<Region, EmuError>)
    ensures
        r == parse_region(b),
{
    match b {
        0 => Ok(Region::PAL),
        1 => Ok(Region::NTSC),
        _ => Err(EmuError::HeaderInvalid(HeaderFault::UnknownRegion(b))),
    }
}

fn read_text(file: &Vec<u8>, at: usize, len: usize) -> (r: Option<String>)
    requires
        at + len <= file.len(),
    ensures
        match text_at(file@, at as int, len as int) {
            Some(text) => r matches Some(s) && s@ == text,
            None => r is None,
        },
{
    let mut bytes: Vec<u8> = Vec::new();
    let mut k: usize = 0;
    while k < len
        invariant
            at + len <= file.len(),
            k <= len,
            bytes@ == file@.subrange(at as int, at + k),
        decreases len - k,
    {
        bytes.push(file[at + k]);
        k = k + 1;
        assert(bytes@ =~= file@.subrange(at as int, at + k));
    }
    text_of_utf8(bytes)
}

fn read_vectors(file: &Vec<u8>, base: usize) -> (r: InterruptVectorTable)
    requires
        base + 0x40 <= file.len(),
    ensures
        r == parse_vectors(file@, base as int),
{
    InterruptVectorTable {
        cop: word(file, base + 0x24),
        brk: word(file, base + 0x26),
        abort: word(file, base + 0x28),
        nmi: word(file, base + 0x2A),
        irq: word(file, base + 0x2E),
        cop_emu: word(file, base + 0x34),
        brk_emu: word(file, base + 0x36),
        abort_emu: word(file, base + 0x38),
        nmi_emu: word(file, base + 0x3A),
        reset: word(file, base + 0x3C),
        irq_emu: word(file, base + 0x3E),
    }
}

fn read_expanded(file: &Vec<u8>, base: usize) -> (r: Result<ExpandedHeader, EmuError>)
    requires
        0x10 <= base,
        base + 0x40 <= file.len(),
    ensures
        match parse_expanded(file@, base as int) {
            Ok(expanded) => r matches Ok(h) && h@ == expanded,
            Err(e) => r matches Err(f) && f == e,
        },
{
    let at: usize = base - 0x10;
    let maker_code: String = match read_text(file, at, 2) {
        Some(text) => text,
        None => {
            return Err(EmuError::HeaderInvalid(HeaderFault::BadCode));
        },
    };
    let game_code: String = match read_text(file, at + 2, 2) {
        Some(text) => text,
        None => {
            return Err(EmuError::HeaderInvalid(HeaderFault::BadCode));
        },
    };
    let expansion_rom_size: usize = match read_size(file[at + 0xC]) {
        Ok(size) => size,
        Err(e) => {
            return Err(e);
        },
    };
    let expansion_ram_size: usize = match read_size(file[at + 0xD]) {
        Ok(size) => size,
        Err(e) => {
            return Err(e);
        },
    };
    let nibble: u8 = file[at + 0xF] / 16;
    let chipset_subtype: ChipsetSubtype = match nibble {
        0 => ChipsetSubtype::SPC7110,
        1 => ChipsetSubtype::ST010,
        2 => ChipsetSubtype::ST018,
        3 => ChipsetSubtype::CX4,
        _ => {
            return Err(EmuError::HeaderInvalid(HeaderFault::UnknownChipset(nibble)));
        },
    };
    Ok(
        ExpandedHeader {
            maker_code,
            game_code,
            expansion_rom_size,
            expansion_ram_size,
            special_version: file[at + 0xE],
            chipset_subtype,
        },
    )
}

fn read_header_at(file: &Vec<u8>, base: usize, mode: MapMode, checksum: u16) -> (r: Result<
    RomHeader,
    EmuError,
>)
    requires
        0x10 <= base,
        base + 0x40 <= file.len(),
    ensures
        match parse_header_at(file@, base as int, mode, checksum) {
            Ok(header) => r matches Ok(h) && h@ == header,
            Err(e) => r matches Err(f) && f == e,
        },
{
    let title: String = match read_text(file, base, 0x15) {
        Some(text) => text,
        None => {
            return Err(EmuError::HeaderInvalid(HeaderFault::BadTitle));
        },
    };
    let extra_hardware: CartHardware = match read_hardware(file[base + 0x16]) {
        Ok(h) => h,
        Err(e) => {
            return Err(e);
        },
    };
    let rom_size: usize = match read_size(file[base + 0x17]) {
        Ok(size) => size,
        Err(e) => {
            return Err(e);
        },
    };
    let ram_size: usize = match read_size(file[base + 0x18]) {
        Ok(size) => size,
        Err(e) => {
            return Err(e);
        },
    };
    let country: Region = match read_region(file[base + 0x19]) {
        Ok(region) => region,
        Err(e) => {
            return Err(e);
        },
    };
    let developer_id: u8 = file[base + 0x1A];
    let expanded_header: Option<ExpandedHeader> = if developer_id == 0x33 || file[base] == 0 {
        match read_expanded(file, base) {
            Ok(expanded) => Some(expanded),
            Err(e) => {
                return Err(e);
            },
        }
    } else {
        None
    };
    let rom_speed: RomSpeed = if (file[base + 0x15] / 16) % 2 == 1 {
        RomSpeed::Fast
    } else {
        RomSpeed::Slow
    };
    Ok(
        RomHeader {
            title,
            map_mode: mode,
            rom_speed,
            extra_hardware,
            rom_size,
            ram_size,
            country,
            developer_id,
            rom_version: file[base + 0x1B],
            checksum_complement: 0xFFFF - checksum,
            checksum,
            interrupt_vectors: read_vectors(file, base),
            expanded_header,
        },
    )
}

/// Reads the header of a cartridge image.
///
/// With `bypass_checksum` an image whose checksum no header holds is taken
/// as ExHiROM instead of being refused.
pub fn load_rom_header(file: &Vec<u8>, bypass_checksum: bool) -> (r: Result<RomHeader, EmuError>)
    ensures
        match parse_header(file@, bypass_checksum) {
            Ok(header) => r matches Ok(h) && h@ == header,
            Err(e) => r matches Err(f) && f == e,
        },
{
    let len: usize = file.len();
    let head: usize = double_to(0, len);
    let checksum: u16 = if head == len {
        proof {
            assert(byte_sum(file@, len as int, len as int) == 0);
        }
        sum_bytes(file, 0, len)
    } else {
        if head > len {
            return Err(EmuError::HeaderInvalid(HeaderFault::NotPowerOfTwo));
        }
        let tail: usize = double_to(head, len);
        if tail != len - head {
            return Err(EmuError::HeaderInvalid(HeaderFault::NotPowerOfTwo));
        }
        let first: u16 = sum_bytes(file, 0, head);
        let second: u16 = sum_bytes(file, head, len);
        ((first as u32 + 2 * (second as u32)) % 0x10000) as u16
    };
    let mode: MapMode = match find_mode(file, checksum, bypass_checksum) {
        Some(mode) => mode,
        None => {
            return Err(EmuError::HeaderInvalid(HeaderFault::NoChecksum));
        },
    };
    let base: usize = match mode {
        MapMode::LoROM => 0x7FC0,
        MapMode::HiROM => 0xFFC0,
        MapMode::ExHiROM => 0x40FFC0,
    };
    read_header_at(file, base, mode, checksum)
}

/// A cartridge of an image: its header, and the image itself.
pub fn cartridge_of(file: Vec<u8>, bypass_checksum: bool) -> (r: Result<Cartridge, EmuError>)
    ensures
        match parse_header(file@, bypass_checksum) {
            Ok(header) => r matches Ok(c) && c.header@ == header && c.rom_data@ == file@,
            Err(e) => r matches Err(f) && f == e,
        },
{
    match load_rom_header(&file, bypass_checksum) {
        Ok(header) => Ok(Cartridge { header: header, rom_data: file }),
        Err(e) => Err(e),
    }
}

} // verus!
