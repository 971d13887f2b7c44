//! The errors that the core reports.

use vstd::prelude::*;

verus! {

/// A part of the processor that the core names but does not emulate.
#[derive(Clone, Copy, Debug, PartialEq, Eq, Structural)]
pub enum Feature {
    /// `ADC` or `SBC` with the decimal flag set.
    Decimal,
    /// The block moves `MVN` and `MVP`.
    BlockMove,
    /// `WAI`: wait for an interrupt.
    Wait,
    /// `STP`: stop the clock.
    Stop,
}

/// Why a cartridge image was not accepted.
#[derive(Clone, Copy, Debug, PartialEq, Eq, Structural)]
pub enum HeaderFault {
    /// The image is neither a power of two in size nor two such parts.
    NotPowerOfTwo,
    /// No candidate header holds the image's checksum and its complement.
    NoChecksum,
    /// The title is not valid UTF-8.
    BadTitle,
    /// The low nibble of the hardware byte names no known configuration.
    UnknownHardware(u8),
    /// The high nibble of the hardware byte names no known coprocessor.
    UnknownCoprocessor(u8),
    /// The region byte is neither PAL nor NTSC.
    UnknownRegion(u8),
    /// A size exponent is too large for the size to be held.
    SizeTooLarge(u8),
    /// The maker or game code of the expanded header is not valid UTF-8.
    BadCode,
    /// The chipset subtype of the expanded header is not known.
    UnknownChipset(u8),
}

/// An error of the core. None of them is retried or swallowed.
#[derive(Clone, Copy, Debug, PartialEq, Eq, Structural)]
pub enum EmuError {
    /// No mapping region owns the address.
    BadAddress(u32),
    /// The computed ROM offset lies outside the loaded image.
    OutOfRomBounds { offset: usize, rom_size: usize },
    /// The write targets ROM.
    WriteToReadOnly(u32),
    /// The register at the address is not modelled.
    UnknownRegister(u32),
    /// The decoder found no entry for the opcode byte.
    UnknownOpcode(u8),
    /// Execution reached a corner that is not emulated.
    Unimplemented(Feature),
    /// The loader could not make out the cartridge header.
    HeaderInvalid(HeaderFault),
}

} // verus!
