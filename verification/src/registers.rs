//! The register banks of the console: plain 8-bit latches.

use vstd::prelude::*;

verus! {

/// The CPU-side registers at `$4200..$4220`, and the shadows of the
/// registers that live in the PPU window.
#[allow(non_snake_case)]
#[derive(Clone, Copy, Debug, PartialEq, Eq, Structural)]
pub struct MMIORegisters {
    pub APUIO0: u8,
    pub APUIO1: u8,
    pub APUIO2: u8,
    pub APUIO3: u8,
    pub WMDATA: u8,
    pub WMADDL: u8,
    pub WMADDM: u8,
    pub WMADDH: u8,
    pub JOYOUT: u8,
    pub JOYSER0: u8,
    pub JOYSER1: u8,
    pub NMITIMEN: u8,
    pub WRIO: u8,
    pub WRMPYA: u8,
    pub WRMPYB: u8,
    pub WRDIVL: u8,
    pub WRDIVH: u8,
    pub WRDIVB: u8,
    pub HTIMEL: u8,
    pub HTIMEH: u8,
    pub VTIMEL: u8,
    pub VTIMEH: u8,
    pub MEMSEL: u8,
    pub RDNMI: u8,
    pub TIMEUP: u8,
    pub HBVJOY: u8,
    pub RDIO: u8,
    pub RDDIVL: u8,
    pub RDDIVH: u8,
    pub RDMPYL: u8,
    pub RDMPYH: u8,
}

impl MMIORegisters {
    /// The bank with every latch at zero.
    pub open spec fn zeroed() -> MMIORegisters {
        MMIORegisters {
            APUIO0: 0,
            APUIO1: 0,
            APUIO2: 0,
            APUIO3: 0,
            WMDATA: 0,
            WMADDL: 0,
            WMADDM: 0,
            WMADDH: 0,
            JOYOUT: 0,
            JOYSER0: 0,
            JOYSER1: 0,
            NMITIMEN: 0,
            WRIO: 0,
            WRMPYA: 0,
            WRMPYB: 0,
            WRDIVL: 0,
            WRDIVH: 0,
            WRDIVB: 0,
            HTIMEL: 0,
            HTIMEH: 0,
            VTIMEL: 0,
            VTIMEH: 0,
            MEMSEL: 0,
            RDNMI: 0,
            TIMEUP: 0,
            HBVJOY: 0,
            RDIO: 0,
            RDDIVL: 0,
            RDDIVH: 0,
            RDMPYL: 0,
            RDMPYH: 0,
        }
    }
}

impl Default for MMIORegisters {
    fn default() -> (r: MMIORegisters)
        ensures
            r == MMIORegisters::zeroed(),
    {
        MMIORegisters {
            APUIO0: 0,
            APUIO1: 0,
            APUIO2: 0,
            APUIO3: 0,
            WMDATA: 0,
            WMADDL: 0,
            WMADDM: 0,
            WMADDH: 0,
            JOYOUT: 0,
            JOYSER0: 0,
            JOYSER1: 0,
            NMITIMEN: 0,
            WRIO: 0,
            WRMPYA: 0,
            WRMPYB: 0,
            WRDIVL: 0,
            WRDIVH: 0,
            WRDIVB: 0,
            HTIMEL: 0,
            HTIMEH: 0,
            VTIMEL: 0,
            VTIMEH: 0,
            MEMSEL: 0,
            RDNMI: 0,
            TIMEUP: 0,
            HBVJOY: 0,
            RDIO: 0,
            RDDIVL: 0,
            RDDIVH: 0,
            RDMPYL: 0,
            RDMPYH: 0,
        }
    }
}

/// The readable registers of the picture processor. The core keeps the
/// record and never runs the device behind it.
#[allow(non_snake_case)]
#[derive(Clone, Copy, Debug, PartialEq, Eq, Structural)]
pub struct PPURegisters {
    pub MPYL: u8,
    pub MPYM: u8,
    pub MPYH: u8,
    pub SLHV: u8,
    pub VMDATALREAD: u8,
    pub VMDATAHREAD: u8,
    pub CGDATAREAD: u16,
    pub OPHCT: u16,
    pub OPVCT: u16,
    pub STAT77: u8,
    pub STAT78: u8,
}

impl Default for PPURegisters {
    fn default() -> (r: PPURegisters)
        ensures
            r == (PPURegisters {
                MPYL: 0,
                MPYM: 0,
                MPYH: 0,
                SLHV: 0,
                VMDATALREAD: 0,
                VMDATAHREAD: 0,
                CGDATAREAD: 0,
                OPHCT: 0,
                OPVCT: 0,
                STAT77: 0,
                STAT78: 0,
            }),
    {
        PPURegisters {
            MPYL: 0,
            MPYM: 0,
            MPYH: 0,
            SLHV: 0,
            VMDATALREAD: 0,
            VMDATAHREAD: 0,
            CGDATAREAD: 0,
            OPHCT: 0,
            OPVCT: 0,
            STAT77: 0,
            STAT78: 0,
        }
    }
}

/// The number of DMA channels.
pub const DMA_CHANNELS: usize = 8;

/// The registers of the eight DMA channels, one vector per register, indexed
/// by channel; and the two enable latches.
#[allow(non_snake_case)]
#[derive(Debug, Clone)]
pub struct DMARegisters {
    pub MDMAEN: u8,
    pub HDMAEN: u8,
    pub DMAPn: Vec<u8>,
    pub BBADn: Vec<u8>,
    pub A1TnL: Vec<u8>,
    pub A1TnH: Vec<u8>,
    pub A1nB: Vec<u8>,
    pub DASnL: Vec<u8>,
    pub DASnH: Vec<u8>,
    pub DASBn: Vec<u8>,
    pub A2TnL: Vec<u8>,
    pub A2TnH: Vec<u8>,
    pub NLTRn: Vec<u8>,
    pub UNUSEDn: Vec<u8>,
}

/// What a [`DMARegisters`] holds: one sequence per register.
#[allow(non_snake_case)]
#[verifier::ext_equal]
pub struct DmaState {
    pub MDMAEN: u8,
    pub HDMAEN: u8,
    pub DMAPn: Seq<u8>,
    pub BBADn: Seq<u8>,
    pub A1TnL: Seq<u8>,
    pub A1TnH: Seq<u8>,
    pub A1nB: Seq<u8>,
    pub DASnL: Seq<u8>,
    pub DASnH: Seq<u8>,
    pub DASBn: Seq<u8>,
    pub A2TnL: Seq<u8>,
    pub A2TnH: Seq<u8>,
    pub NLTRn: Seq<u8>,
    pub UNUSEDn: Seq<u8>,
}

impl View for DMARegisters {
    type V = DmaState;

    open spec fn view(&self) -> DmaState {
        DmaState {
            MDMAEN: self.MDMAEN,
            HDMAEN: self.HDMAEN,
            DMAPn: self.DMAPn@,
            BBADn: self.BBADn@,
            A1TnL: self.A1TnL@,
            A1TnH: self.A1TnH@,
            A1nB: self.A1nB@,
            DASnL: self.DASnL@,
            DASnH: self.DASnH@,
            DASBn: self.DASBn@,
            A2TnL: self.A2TnL@,
            A2TnH: self.A2TnH@,
            NLTRn: self.NLTRn@,
            UNUSEDn: self.UNUSEDn@,
        }
    }
}

/// Eight zero bytes: one register of every channel after reset.
pub open spec fn zero_channels() -> Seq<u8> {
    Seq::new(8, |i: int| 0u8)
}

impl DmaState {
    /// Every register of every channel at zero.
    pub open spec fn zeroed() -> DmaState {
        DmaState {
            MDMAEN: 0,
            HDMAEN: 0,
            DMAPn: zero_channels(),
            BBADn: zero_channels(),
            A1TnL: zero_channels(),
            A1TnH: zero_channels(),
            A1nB: zero_channels(),
            DASnL: zero_channels(),
            DASnH: zero_channels(),
            DASBn: zero_channels(),
            A2TnL: zero_channels(),
            A2TnH: zero_channels(),
            NLTRn: zero_channels(),
            UNUSEDn: zero_channels(),
        }
    }
}

fn eight_zeros() -> (v: Vec<u8>)
    ensures
        v@ == zero_channels(),
{
    let mut v: Vec<u8> = Vec::new();
    let mut i: usize = 0;
    while i < DMA_CHANNELS
        invariant
            i <= 8,
            v@.len() == i,
            forall|k: int| 0 <= k < i ==> v@[k] == 0u8,
        decreases 8 - i,
    {
        v.push(0u8);
        i = i + 1;
    }
    assert(v@ =~= zero_channels());
    v
}

impl Default for DMARegisters {
    fn default() -> (r: DMARegisters)
        ensures
            r@ == DmaState::zeroed(),
    {
        DMARegisters {
            MDMAEN: 0,
            HDMAEN: 0,
            DMAPn: eight_zeros(),
            BBADn: eight_zeros(),
            A1TnL: eight_zeros(),
            A1TnH: eight_zeros(),
            A1nB: eight_zeros(),
            DASnL: eight_zeros(),
            DASnH: eight_zeros(),
            DASBn: eight_zeros(),
            A2TnL: eight_zeros(),
            A2TnH: eight_zeros(),
            NLTRn: eight_zeros(),
            UNUSEDn: eight_zeros(),
        }
    }
}

} // verus!
